//! The value of one attribute of a rendered element, and the mapping from
//! property values to it.

use vstd::prelude::*;
use vstd::string::StringExecFns;
use crate::decimal::{decimal, i64_to_decimal, signed_decimal, u64_to_decimal};

verus! {

/// What an attribute of a rendered element holds.
#[derive(Debug, PartialEq, Eq)]
pub enum AttrValue {
    /// The attribute is not set on the element.
    Absent,
    /// The attribute is set to this text.
    Text(String),
    /// The attribute is set to this boolean.
    Bool(bool),
}

/// The mathematical value of an [`AttrValue`].
pub enum AttrModel {
    Absent,
    Text(Seq<char>),
    Bool(bool),
}

impl View for AttrValue {
    type V = AttrModel;

    open spec fn view(&self) -> AttrModel {
        match self {
            AttrValue::Absent => AttrModel::Absent,
            AttrValue::Text(text) => AttrModel::Text(text@),
            AttrValue::Bool(flag) => AttrModel::Bool(*flag),
        }
    }
}

impl AttrModel {
    /// Whether the attribute appears on the element at all.
    pub open spec fn is_present(self) -> bool {
        !(self is Absent)
    }
}

/// The attribute for a text that is always passed on, empty or not.
pub open spec fn text_attr(value: Seq<char>) -> AttrModel {
    AttrModel::Text(value)
}

/// The attribute for an optional text: a missing text and an empty one both
/// leave the attribute out.
pub open spec fn optional_text_attr(value: Option<Seq<char>>) -> AttrModel {
    match value {
        Some(text) => if text.len() == 0 {
            AttrModel::Absent
        } else {
            AttrModel::Text(text)
        },
        None => AttrModel::Absent,
    }
}

/// The attribute for a flag: set to `true` when the flag is raised, left out
/// otherwise.
pub open spec fn flag_attr(value: bool) -> AttrModel {
    if value {
        AttrModel::Bool(true)
    } else {
        AttrModel::Absent
    }
}

/// The attribute for an optional unsigned number: its decimal numeral, or
/// nothing.
pub open spec fn optional_nat_attr(value: Option<nat>) -> AttrModel {
    match value {
        Some(n) => AttrModel::Text(decimal(n)),
        None => AttrModel::Absent,
    }
}

/// The attribute for an optional signed number: its decimal numeral, or
/// nothing.
pub open spec fn optional_int_attr(value: Option<int>) -> AttrModel {
    match value {
        Some(i) => AttrModel::Text(signed_decimal(i)),
        None => AttrModel::Absent,
    }
}

/// The text of an optional string.
pub open spec fn text_of(value: Option<String>) -> Option<Seq<char>> {
    match value {
        Some(text) => Some(text@),
        None => None,
    }
}

/// The number held by an optional `u64`.
pub open spec fn nat_of(value: Option<u64>) -> Option<nat> {
    match value {
        Some(n) => Some(n as nat),
        None => None,
    }
}

/// The number held by an optional `i64`.
pub open spec fn int_of(value: Option<i64>) -> Option<int> {
    match value {
        Some(i) => Some(i as int),
        None => None,
    }
}

impl AttrValue {
    /// Whether the attribute appears on the element at all.
    pub fn is_present(&self) -> (present: bool)
        ensures
            present == self@.is_present(),
    {
        match self {
            AttrValue::Absent => false,
            _ => true,
        }
    }

}

impl Clone for AttrValue {
    fn clone(&self) -> (copy: AttrValue)
        ensures
            copy@ == self@,
    {
        match self {
            AttrValue::Absent => AttrValue::Absent,
            AttrValue::Text(text) => AttrValue::Text(text.clone()),
            AttrValue::Bool(flag) => AttrValue::Bool(*flag),
        }
    }
}

/// Passes a text on as it is; an empty text still sets the attribute.
pub fn string_attr(value: &str) -> (attr: AttrValue)
    ensures
        attr@ == text_attr(value@),
{
    AttrValue::Text(String::from_str(value))
}

/// Maps an optional text to an attribute. `None` and `""` both leave the
/// attribute out, so an explicitly empty value cannot be expressed here.
pub fn optional_string_attr(value: &Option<String>) -> (attr: AttrValue)
    ensures
        attr@ == optional_text_attr(text_of(*value)),
{
    match value {
        Some(text) => {
            if text.as_str().is_empty() {
                AttrValue::Absent
            } else {
                AttrValue::Text(text.clone())
            }
        },
        None => AttrValue::Absent,
    }
}

/// Maps a flag to an attribute: `true` sets it, `false` leaves it out rather
/// than setting it to `false`.
pub fn bool_attr(value: bool) -> (attr: AttrValue)
    ensures
        attr@ == flag_attr(value),
{
    if value {
        AttrValue::Bool(true)
    } else {
        AttrValue::Absent
    }
}

/// Maps an optional unsigned number to an attribute holding its numeral.
pub fn optional_u64_attr(value: Option<u64>) -> (attr: AttrValue)
    ensures
        attr@ == optional_nat_attr(nat_of(value)),
{
    match value {
        Some(n) => AttrValue::Text(u64_to_decimal(n)),
        None => AttrValue::Absent,
    }
}

/// Maps an optional signed number to an attribute holding its numeral.
pub fn optional_i64_attr(value: Option<i64>) -> (attr: AttrValue)
    ensures
        attr@ == optional_int_attr(int_of(value)),
{
    match value {
        Some(i) => AttrValue::Text(i64_to_decimal(i)),
        None => AttrValue::Absent,
    }
}

/// An optional text sets its attribute exactly when it is there and not
/// empty, and then to that very text.
pub proof fn lemma_optional_text_attr(value: Option<Seq<char>>)
    ensures
        optional_text_attr(value).is_present() <==> (value is Some && value->0.len() > 0),
        optional_text_attr(value).is_present() ==> optional_text_attr(value) == AttrModel::Text(
            value->0,
        ),
{
}

/// A flag sets its attribute exactly when it is raised, and then to `true`:
/// it is never set to `false`.
pub proof fn lemma_flag_attr(value: bool)
    ensures
        flag_attr(value).is_present() <==> value,
        flag_attr(value).is_present() ==> flag_attr(value) == AttrModel::Bool(true),
{
}

} // verus!
