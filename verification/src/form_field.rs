//! The form field: a label laid out beside the control nested in it.

use vstd::prelude::*;
use vstd::string::StringExecFns;
use crate::attr::{bool_attr, flag_attr, optional_string_attr, optional_text_attr, text_of};
use crate::element::{attribute_models, Attribute, AttributeModel, CustomElement, ElementModel};
use crate::loader::{Registry, WidgetKind};

verus! {

/// Properties of the form field. `C` is the nested content.
pub struct FormfieldProps<C> {
    pub children: Option<C>,
    pub label: Option<String>,
    pub align_end: bool,
    pub space_between: bool,
    pub nowrap: bool,
}

impl<C> FormfieldProps<C> {
    /// The element that these properties stand for.
    pub open spec fn rendered(&self) -> ElementModel<C> {
        ElementModel {
            tag: "mwc-formfield"@,
            attrs: seq![
                AttributeModel { name: "label"@, value: optional_text_attr(text_of(self.label)) },
                AttributeModel { name: "alignEnd"@, value: flag_attr(self.align_end) },
                AttributeModel { name: "spaceBetween"@, value: flag_attr(self.space_between) },
                AttributeModel { name: "nowrap"@, value: flag_attr(self.nowrap) },
            ],
            children: self.children,
        }
    }

    /// Properties with the given content, no label and every flag lowered.
    pub fn new(children: Option<C>) -> (props: Self)
        ensures
            props.children == children,
            props.label is None,
            !props.align_end,
            !props.space_between,
            !props.nowrap,
    {
        FormfieldProps {
            children,
            label: None,
            align_end: false,
            space_between: false,
            nowrap: false,
        }
    }

    /// Renders the form field around its nested content.
    pub fn render(&self) -> (element: CustomElement<'_, C>)
        ensures
            element@ == self.rendered(),
    {
        let mut attrs: Vec<Attribute> = Vec::new();
        attrs.push(Attribute::new("label", optional_string_attr(&self.label)));
        attrs.push(Attribute::new("alignEnd", bool_attr(self.align_end)));
        attrs.push(Attribute::new("spaceBetween", bool_attr(self.space_between)));
        attrs.push(Attribute::new("nowrap", bool_attr(self.nowrap)));
        assert(attribute_models(attrs@) =~= self.rendered().attrs);
        CustomElement {
            tag: String::from_str("mwc-formfield"),
            attrs,
            children: self.children.as_ref(),
        }
    }

    /// One render of the component: asks for the widget kind to be
    /// registered, which falls to the caller on the first render of any
    /// form field, and renders the element.
    pub fn mount<'a>(&'a self, registry: &mut Registry) -> (mounted: (bool, CustomElement<'a, C>))
        ensures
            mounted.0 == !old(registry)@.contains(WidgetKind::Formfield),
            final(registry)@ == old(registry)@.insert(WidgetKind::Formfield),
            mounted.1@ == self.rendered(),
    {
        let register = registry.ensure_loaded(WidgetKind::Formfield);
        (register, self.render())
    }
}

} // verus!
