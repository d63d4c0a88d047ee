//! JSON values as the client sees them.

use crate::table::distinct_keys;
use vstd::prelude::*;

verus! {

/// A JSON number.
///
/// Integers that fit in 64 bits are held exactly. Any other number is held as
/// its decimal text, as the serializer prints it.
#[derive(Debug, PartialEq)]
pub enum JsonNumber {
    /// A non-negative integer.
    PosInt(u64),
    /// A negative integer. One that is not negative is written as the
    /// `PosInt` of the same number is.
    NegInt(i64),
    /// Any other number, as decimal text. A value that holds text here which
    /// is no number cannot be written.
    Real(String),
}

/// The mathematical value of a [`JsonNumber`].
pub enum NumberView {
    PosInt(u64),
    NegInt(i64),
    Real(Seq<char>),
}

impl View for JsonNumber {
    type V = NumberView;

    open spec fn view(&self) -> NumberView {
        match self {
            JsonNumber::PosInt(n) => NumberView::PosInt(*n),
            JsonNumber::NegInt(n) => NumberView::NegInt(*n),
            JsonNumber::Real(t) => NumberView::Real(t@),
        }
    }
}

/// A JSON value.
///
/// An object is the sequence of its members in order. A value in which an
/// object has two members of one name can be built, but not written: see
/// [`names_distinct`].
#[derive(Debug, PartialEq)]
pub enum Json {
    Null,
    Bool(bool),
    Number(JsonNumber),
    String(String),
    Array(Vec<Json>),
    Object(Vec<(String, Json)>),
}

/// The mathematical value of a [`Json`].
pub enum JsonView {
    Null,
    Bool(bool),
    Number(NumberView),
    String(Seq<char>),
    Array(Seq<JsonView>),
    Object(Seq<(Seq<char>, JsonView)>),
}

/// The views of the items of a vector of values.
pub open spec fn items_view(items: Vec<Json>) -> Seq<JsonView>
    decreases items,
{
    Seq::new(items.len() as nat, |i: int| if 0 <= i < items.len() { items[i].view() } else { JsonView::Null })
}

/// The views of the members of an object.
pub open spec fn members_view(members: Vec<(String, Json)>) -> Seq<(Seq<char>, JsonView)>
    decreases members,
{
    Seq::new(
        members.len() as nat,
        |i: int| if 0 <= i < members.len() {
            (members[i].0@, members[i].1.view())
        } else {
            (Seq::empty(), JsonView::Null)
        },
    )
}

impl View for Json {
    type V = JsonView;

    open spec fn view(&self) -> JsonView
        decreases self,
    {
        match self {
            Json::Null => JsonView::Null,
            Json::Bool(b) => JsonView::Bool(*b),
            Json::Number(n) => JsonView::Number(n@),
            Json::String(s) => JsonView::String(s@),
            Json::Array(items) => JsonView::Array(items_view(*items)),
            Json::Object(members) => JsonView::Object(members_view(*members)),
        }
    }
}

impl Clone for JsonNumber {
    fn clone(&self) -> (r: JsonNumber)
        ensures
            r@ == self@,
    {
        match self {
            JsonNumber::PosInt(n) => JsonNumber::PosInt(*n),
            JsonNumber::NegInt(n) => JsonNumber::NegInt(*n),
            JsonNumber::Real(t) => JsonNumber::Real(t.clone()),
        }
    }
}

/// The value of the member of an object that has the given name: of the last
/// one, where several have it.
pub open spec fn find_member(members: Seq<(Seq<char>, JsonView)>, name: Seq<char>) -> Option<
    JsonView,
>
    decreases members.len(),
{
    if members.len() == 0 {
        None
    } else if members.last().0 == name {
        Some(members.last().1)
    } else {
        find_member(members.drop_last(), name)
    }
}

/// Whether no object in a value has two members of one name. Only such a
/// value can be written as text: a JSON object has one value for each name.
pub open spec fn names_distinct(value: JsonView) -> bool
    decreases value, 1nat,
{
    match value {
        JsonView::Array(items) => items_names_distinct(items),
        JsonView::Object(members) => distinct_keys(members) && members_names_distinct(members),
        _ => true,
    }
}

/// Whether [`names_distinct`] holds of every item.
pub open spec fn items_names_distinct(items: Seq<JsonView>) -> bool
    decreases items, 0nat,
{
    forall|i: int| 0 <= i < items.len() ==> names_distinct(#[trigger] items[i])
}

/// Whether [`names_distinct`] holds of the value of every member.
pub open spec fn members_names_distinct(members: Seq<(Seq<char>, JsonView)>) -> bool
    decreases members, 0nat,
{
    forall|i: int| 0 <= i < members.len() ==> names_distinct((#[trigger] members[i]).1)
}

/// Whether a string holds exactly the given text.
pub fn is_text(s: &String, text: &str) -> (r: bool)
    ensures
        r == (s@ == text@),
{
    let owned = text.to_owned();
    *s == owned
}

impl Json {
    /// The member of an object that has the given name, if there is one.
    pub fn find<'a>(members: &'a Vec<(String, Json)>, name: &str) -> (r: Option<&'a Json>)
        ensures
            match r {
                Some(v) => find_member(members_view(*members), name@) == Some(v@),
                None => find_member(members_view(*members), name@) is None,
            },
    {
        let ghost all = members_view(*members);
        let mut i: usize = members.len();
        assert(all.take(i as int) =~= all);
        while i > 0
            invariant
                i <= members.len(),
                all == members_view(*members),
                find_member(all, name@) == find_member(all.take(i as int), name@),
            decreases i,
        {
            let ghost prefix = all.take(i as int);
            assert(prefix.last() == all[i - 1]);
            assert(prefix.drop_last() =~= all.take(i - 1));
            i -= 1;
            if is_text(&members[i].0, name) {
                return Some(&members[i].1);
            }
        }
        None
    }

    /// Whether the name at place `at` occurs at no earlier place.
    fn name_is_new(members: &Vec<(String, Json)>, at: usize) -> (r: bool)
        requires
            at < members.len(),
        ensures
            r == (forall|k: int| 0 <= k < at ==> members[k].0@ != members[at as int].0@),
    {
        let mut k: usize = 0;
        while k < at
            invariant
                k <= at < members.len(),
                forall|j: int| 0 <= j < k ==> members[j].0@ != members[at as int].0@,
            decreases at - k,
        {
            if members[k].0 == members[at].0 {
                return false;
            }
            k += 1;
        }
        true
    }

    /// Whether no object in the value has two members of one name.
    pub fn has_distinct_names(&self) -> (r: bool)
        ensures
            r == names_distinct(self@),
        decreases self,
    {
        match self {
            Json::Array(items) => {
                let ghost views = items_view(*items);
                let mut i: usize = 0;
                while i < items.len()
                    invariant
                        self is Array,
                        self->Array_0 == *items,
                        views == items_view(*items),
                        i <= items.len(),
                        forall|k: int| 0 <= k < i ==> names_distinct(#[trigger] views[k]),
                    decreases items.len() - i,
                {
                    proof {
                        vstd::std_specs::vec::axiom_vec_index_decreases(*items, i as int);
                    }
                    if !items[i].has_distinct_names() {
                        assert(!names_distinct(views[i as int]));
                        return false;
                    }
                    assert(names_distinct(views[i as int]));
                    i += 1;
                }
                true
            },
            Json::Object(members) => {
                let ghost names = members_view(*members);
                let mut i: usize = 0;
                while i < members.len()
                    invariant
                        self is Object,
                        self->Object_0 == *members,
                        names == members_view(*members),
                        i <= members.len(),
                        forall|k: int| 0 <= k < i ==> names_distinct((#[trigger] names[k]).1),
                        forall|a: int, b: int|
                            0 <= a < b < i ==> (#[trigger] names[a]).0 != (#[trigger] names[b]).0,
                    decreases members.len() - i,
                {
                    proof {
                        vstd::std_specs::vec::axiom_vec_index_decreases(*members, i as int);
                    }
                    if !Json::name_is_new(members, i) {
                        proof {
                            let k = choose|k: int|
                                0 <= k < i && members[k].0@ == members[i as int].0@;
                            assert(names[k].0 == names[i as int].0);
                        }
                        return false;
                    }
                    if !members[i].1.has_distinct_names() {
                        assert(!names_distinct(names[i as int].1));
                        return false;
                    }
                    assert forall|a: int, b: int| 0 <= a < b < i + 1 implies (#[trigger] names[a]).0
                        != (#[trigger] names[b]).0 by {
                        if b == i {
                            assert(members[a].0@ != members[i as int].0@);
                        }
                    }
                    i += 1;
                }
                true
            },
            _ => true,
        }
    }

    /// A copy of a vector of values.
    pub fn clone_items(items: &Vec<Json>) -> (copy: Vec<Json>)
        ensures
            items_view(copy) == items_view(*items),
        decreases items,
    {
        let mut copy: Vec<Json> = Vec::new();
        let mut i: usize = 0;
        while i < items.len()
            invariant
                i <= items.len(),
                copy.len() == i,
                forall|k: int| 0 <= k < i ==> (#[trigger] copy[k])@ == items[k]@,
            decreases items.len() - i,
        {
            proof {
                vstd::std_specs::vec::axiom_vec_index_decreases(*items, i as int);
            }
            copy.push(items[i].clone());
            i += 1;
        }
        assert(items_view(copy) =~= items_view(*items));
        copy
    }

    /// A copy of the members of an object.
    pub fn clone_members(members: &Vec<(String, Json)>) -> (copy: Vec<(String, Json)>)
        ensures
            members_view(copy) == members_view(*members),
        decreases members,
    {
        let mut copy: Vec<(String, Json)> = Vec::new();
        let mut i: usize = 0;
        while i < members.len()
            invariant
                i <= members.len(),
                copy.len() == i,
                forall|k: int|
                    0 <= k < i ==> (#[trigger] copy[k]).0@ == members[k].0@ && copy[k].1@
                        == members[k].1@,
            decreases members.len() - i,
        {
            proof {
                vstd::std_specs::vec::axiom_vec_index_decreases(*members, i as int);
            }
            copy.push((members[i].0.clone(), members[i].1.clone()));
            i += 1;
        }
        assert(members_view(copy) =~= members_view(*members));
        copy
    }
}

impl Clone for Json {
    fn clone(&self) -> (r: Json)
        ensures
            r@ == self@,
        decreases self,
    {
        match self {
            Json::Null => Json::Null,
            Json::Bool(b) => Json::Bool(*b),
            Json::Number(n) => Json::Number(n.clone()),
            Json::String(s) => Json::String(s.clone()),
            Json::Array(items) => Json::Array(Json::clone_items(items)),
            Json::Object(members) => Json::Object(Json::clone_members(members)),
        }
    }
}

} // verus!
