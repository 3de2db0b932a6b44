//! The icon button: a button that shows an icon, or the content nested in it.

use vstd::prelude::*;
use vstd::string::StringExecFns;
use crate::attr::{bool_attr, flag_attr, optional_string_attr, optional_text_attr, text_of};
use crate::element::{attribute_models, Attribute, AttributeModel, CustomElement, ElementModel};
use crate::loader::{Registry, WidgetKind};

verus! {

/// Properties of the icon button. `C` is the nested content.
pub struct IconButtonProps<C> {
    pub label: Option<String>,
    pub icon: Option<String>,
    pub disabled: bool,
    pub children: Option<C>,
}

impl<C> IconButtonProps<C> {
    /// The element that these properties stand for.
    pub open spec fn rendered(&self) -> ElementModel<C> {
        ElementModel {
            tag: "mwc-icon-button"@,
            attrs: seq![
                AttributeModel { name: "label"@, value: optional_text_attr(text_of(self.label)) },
                AttributeModel { name: "icon"@, value: optional_text_attr(text_of(self.icon)) },
                AttributeModel { name: "disabled"@, value: flag_attr(self.disabled) },
            ],
            children: self.children,
        }
    }

    /// Properties of an enabled button without label, icon or content.
    pub fn new() -> (props: Self)
        ensures
            props.label is None,
            props.icon is None,
            !props.disabled,
            props.children is None,
    {
        IconButtonProps { label: None, icon: None, disabled: false, children: None }
    }

    /// Renders the icon button, with its nested content where there is any.
    pub fn render(&self) -> (element: CustomElement<'_, C>)
        ensures
            element@ == self.rendered(),
    {
        let mut attrs: Vec<Attribute> = Vec::new();
        attrs.push(Attribute::new("label", optional_string_attr(&self.label)));
        attrs.push(Attribute::new("icon", optional_string_attr(&self.icon)));
        attrs.push(Attribute::new("disabled", bool_attr(self.disabled)));
        assert(attribute_models(attrs@) =~= self.rendered().attrs);
        CustomElement {
            tag: String::from_str("mwc-icon-button"),
            attrs,
            children: self.children.as_ref(),
        }
    }

    /// One render of the component: asks for the widget kind to be
    /// registered, which falls to the caller on the first render of any
    /// icon button, and renders the element.
    pub fn mount<'a>(&'a self, registry: &mut Registry) -> (mounted: (bool, CustomElement<'a, C>))
        ensures
            mounted.0 == !old(registry)@.contains(WidgetKind::IconButton),
            final(registry)@ == old(registry)@.insert(WidgetKind::IconButton),
            mounted.1@ == self.rendered(),
    {
        let register = registry.ensure_loaded(WidgetKind::IconButton);
        (register, self.render())
    }
}

} // verus!
