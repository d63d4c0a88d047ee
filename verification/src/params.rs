//! The parameters of a call or a notification.

use crate::json::{items_view, members_view, Json, JsonView};
use vstd::prelude::*;

verus! {

/// Structured parameters: positional or named.
#[derive(Debug, PartialEq)]
pub enum Params {
    /// Positional parameters.
    Array(Vec<Json>),
    /// Named parameters, in order.
    Object(Vec<(String, Json)>),
}

/// The mathematical value of a [`Params`].
pub enum ParamsView {
    Array(Seq<JsonView>),
    Object(Seq<(Seq<char>, JsonView)>),
}

impl View for Params {
    type V = ParamsView;

    open spec fn view(&self) -> ParamsView {
        match self {
            Params::Array(items) => ParamsView::Array(items_view(*items)),
            Params::Object(members) => ParamsView::Object(members_view(*members)),
        }
    }
}

impl Clone for Params {
    fn clone(&self) -> (r: Params)
        ensures
            r@ == self@,
    {
        match self {
            Params::Array(items) => Params::Array(Json::clone_items(items)),
            Params::Object(members) => Params::Object(Json::clone_members(members)),
        }
    }
}

/// The view of parameters that may be absent.
pub open spec fn params_view(params: Option<Params>) -> Option<ParamsView> {
    match params {
        Some(p) => Some(p@),
        None => None,
    }
}

/// The parameters that a value stands for: `null` stands for none, an array
/// for positional parameters, an object for named ones, and any other value
/// for itself as the one positional parameter.
pub open spec fn normalize(value: JsonView) -> Option<ParamsView> {
    match value {
        JsonView::Null => None,
        JsonView::Array(items) => Some(ParamsView::Array(items)),
        JsonView::Object(members) => Some(ParamsView::Object(members)),
        other => Some(ParamsView::Array(seq![other])),
    }
}

/// The value that parameters are written as: absent parameters as `null`,
/// positional ones as an array, named ones as an object.
pub open spec fn params_value(params: Option<ParamsView>) -> JsonView {
    match params {
        None => JsonView::Null,
        Some(ParamsView::Array(items)) => JsonView::Array(items),
        Some(ParamsView::Object(members)) => JsonView::Object(members),
    }
}

/// Turns a value into the parameters of a call or notification.
pub fn serialize_parameters(value: Json) -> (r: Option<Params>)
    ensures
        params_view(r) == normalize(value@),
{
    match value {
        Json::Null => None,
        Json::Array(items) => Some(Params::Array(items)),
        Json::Object(members) => Some(Params::Object(members)),
        other => {
            let ghost v = other@;
            let mut items: Vec<Json> = Vec::new();
            items.push(other);
            assert(items_view(items) =~= seq![v]);
            Some(Params::Array(items))
        },
    }
}

/// Writes parameters as a value: the inverse of [`serialize_parameters`] on
/// what it returns.
pub fn params_to_json(params: Option<Params>) -> (r: Json)
    ensures
        r@ == params_value(params_view(params)),
{
    match params {
        None => Json::Null,
        Some(Params::Array(items)) => Json::Array(items),
        Some(Params::Object(members)) => Json::Object(members),
    }
}

/// Normalizing is idempotent: parameters that come out of [`normalize`],
/// written as a value and normalized again, are the same parameters.
pub proof fn normalize_idempotent(value: JsonView)
    ensures
        normalize(params_value(normalize(value))) == normalize(value),
{
}

/// Parameters written as a value normalize to themselves.
pub proof fn normalize_params_value(params: Option<ParamsView>)
    ensures
        normalize(params_value(params)) == params,
{
}

} // verus!
