//! The custom element that an adapter emits: a tag, its attributes in
//! order, and the nested content that is passed through untouched.

use vstd::prelude::*;
use vstd::string::StringExecFns;
use crate::attr::{AttrModel, AttrValue};

verus! {

/// One named attribute of an element.
#[derive(Debug, PartialEq, Eq)]
pub struct Attribute {
    pub name: String,
    pub value: AttrValue,
}

/// The mathematical value of an [`Attribute`].
pub struct AttributeModel {
    pub name: Seq<char>,
    pub value: AttrModel,
}

impl View for Attribute {
    type V = AttributeModel;

    open spec fn view(&self) -> AttributeModel {
        AttributeModel { name: self.name@, value: self.value@ }
    }
}

impl Attribute {
    pub fn new(name: &str, value: AttrValue) -> (attribute: Attribute)
        ensures
            attribute@ == (AttributeModel { name: name@, value: value@ }),
    {
        Attribute { name: String::from_str(name), value }
    }
}

/// The attribute models of a list of attributes, in the same order.
pub open spec fn attribute_models(attrs: Seq<Attribute>) -> Seq<AttributeModel> {
    attrs.map_values(|attribute: Attribute| attribute@)
}

/// The value that a list of attributes gives to `name`: that of the first
/// attribute so named, and absent when there is none.
pub open spec fn lookup(attrs: Seq<AttributeModel>, name: Seq<char>) -> AttrModel
    decreases attrs.len(),
{
    if attrs.len() == 0 {
        AttrModel::Absent
    } else if attrs[0].name == name {
        attrs[0].value
    } else {
        lookup(attrs.drop_first(), name)
    }
}

/// A custom element as an adapter renders it. `C` is the nested content,
/// which is handed through and never looked into.
#[derive(Debug)]
pub struct CustomElement<'a, C> {
    pub tag: String,
    pub attrs: Vec<Attribute>,
    pub children: Option<&'a C>,
}

/// The mathematical value of a [`CustomElement`].
pub struct ElementModel<C> {
    pub tag: Seq<char>,
    pub attrs: Seq<AttributeModel>,
    pub children: Option<C>,
}

impl<'a, C> View for CustomElement<'a, C> {
    type V = ElementModel<C>;

    open spec fn view(&self) -> ElementModel<C> {
        ElementModel {
            tag: self.tag@,
            attrs: attribute_models(self.attrs@),
            children: match self.children {
                Some(content) => Some(*content),
                None => None,
            },
        }
    }
}

impl<C> ElementModel<C> {
    /// The value of the attribute `name` on this element.
    pub open spec fn attr(self, name: Seq<char>) -> AttrModel {
        lookup(self.attrs, name)
    }
}

impl<'a, C> CustomElement<'a, C> {
    /// The value of the attribute `name` on this element, absent when the
    /// element carries no attribute of that name.
    pub fn attr(&self, name: &str) -> (value: AttrValue)
        ensures
            value@ == self@.attr(name@),
    {
        let wanted = String::from_str(name);
        let mut i: usize = 0;
        assert(attribute_models(self.attrs@).skip(0) =~= attribute_models(self.attrs@));
        while i < self.attrs.len()
            invariant
                0 <= i <= self.attrs.len(),
                wanted@ == name@,
                lookup(attribute_models(self.attrs@), name@) == lookup(
                    attribute_models(self.attrs@).skip(i as int),
                    name@,
                ),
            decreases self.attrs.len() - i,
        {
            let ghost rest = attribute_models(self.attrs@).skip(i as int);
            assert(rest[0] == self.attrs@[i as int]@);
            assert(rest.drop_first() =~= attribute_models(self.attrs@).skip(i + 1));
            if self.attrs[i].name == wanted {
                return self.attrs[i].value.clone();
            }
            i += 1;
        }
        AttrValue::Absent
    }
}

/// Looking a name up gives the value of the first attribute that carries it.
pub proof fn lemma_lookup_first(attrs: Seq<AttributeModel>, name: Seq<char>, i: int)
    requires
        0 <= i < attrs.len(),
        attrs[i].name == name,
        forall|j: int| 0 <= j < i ==> attrs[j].name != name,
    ensures
        lookup(attrs, name) == attrs[i].value,
    decreases i,
{
    if i > 0 {
        let rest = attrs.drop_first();
        assert(rest[i - 1] == attrs[i]);
        assert forall|j: int| 0 <= j < i - 1 implies rest[j].name != name by {
            assert(rest[j] == attrs[j + 1]);
        }
        lemma_lookup_first(rest, name, i - 1);
    }
}

/// Looking up a name that no attribute carries gives an absent value.
pub proof fn lemma_lookup_missing(attrs: Seq<AttributeModel>, name: Seq<char>)
    requires
        forall|j: int| 0 <= j < attrs.len() ==> attrs[j].name != name,
    ensures
        lookup(attrs, name) == AttrModel::Absent,
    decreases attrs.len(),
{
    if attrs.len() > 0 {
        let rest = attrs.drop_first();
        assert forall|j: int| 0 <= j < rest.len() implies rest[j].name != name by {
            assert(rest[j] == attrs[j + 1]);
        }
        lemma_lookup_missing(rest, name);
    }
}

} // verus!
