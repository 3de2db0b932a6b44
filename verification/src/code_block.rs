//! A titled block of the documentation site that shows an example and, on
//! request, the code behind it.

use vstd::prelude::*;
use vstd::string::StringExecFns;

verus! {

/// What the block can be told.
#[derive(Clone, Copy, Debug, PartialEq, Eq)]
pub enum Msg {
    /// Show the code if it is hidden, hide it if it is shown.
    FlipShowCode,
}

/// Properties of the block. `C` is the example nested in it.
pub struct Props<C> {
    pub children: Option<C>,
    pub code: String,
    pub title: String,
}

/// The block: its properties, and whether the code is shown.
pub struct Codeblock<C> {
    props: Props<C>,
    showing_code: bool,
}

/// What the block displays, from top to bottom: the header with the title
/// and the button that flips the code, then the code if it is shown, then
/// the example.
#[derive(Debug)]
pub struct CodeblockView<'a, C> {
    /// The title in the header.
    pub title: &'a str,
    /// The icon of the button in the header.
    pub icon: String,
    /// What a click on the button tells the block.
    pub on_click: Msg,
    /// The code, where it is shown.
    pub code: Option<&'a str>,
    /// The example.
    pub children: Option<&'a C>,
}

impl<C> Codeblock<C> {
    /// The properties that the block was last given.
    pub closed spec fn props(&self) -> Props<C> {
        self.props
    }

    /// Whether the code is shown.
    pub closed spec fn showing_code(&self) -> bool {
        self.showing_code
    }

    /// A new block. Its code is hidden.
    pub fn create(props: Props<C>) -> (block: Self)
        ensures
            block.props() == props,
            !block.showing_code(),
    {
        Codeblock { props, showing_code: false }
    }

    /// Handles a message and says whether the block has to be rendered
    /// again, which it always has.
    pub fn update(&mut self, msg: Msg) -> (should_render: bool)
        ensures
            should_render,
            final(self).showing_code() == !old(self).showing_code(),
            final(self).props() == old(self).props(),
    {
        match msg {
            Msg::FlipShowCode => {
                self.showing_code = !self.showing_code;
                true
            },
        }
    }

    /// Takes new properties and says whether the block has to be rendered
    /// again, which it always has. Whether the code is shown stays as it was.
    pub fn change(&mut self, props: Props<C>) -> (should_render: bool)
        ensures
            should_render,
            final(self).props() == props,
            final(self).showing_code() == old(self).showing_code(),
    {
        self.props = props;
        true
    }

    /// Whether the code is shown.
    pub fn is_showing_code(&self) -> (showing: bool)
        ensures
            showing == self.showing_code(),
    {
        self.showing_code
    }

    /// What the block displays.
    pub fn view(&self) -> (shown: CodeblockView<'_, C>)
        ensures
            shown.title@ == self.props().title@,
            shown.icon@ == "code"@,
            shown.on_click == Msg::FlipShowCode,
            self.showing_code() ==> shown.code is Some && shown.code->0@ == self.props().code@,
            !self.showing_code() ==> shown.code is None,
            match (shown.children, self.props().children) {
                (Some(shown), Some(given)) => *shown == given,
                (None, None) => true,
                _ => false,
            },
    {
        CodeblockView {
            title: self.props.title.as_str(),
            icon: String::from_str("code"),
            on_click: Msg::FlipShowCode,
            code: if self.showing_code {
                Some(self.props.code.as_str())
            } else {
                None
            },
            children: self.props.children.as_ref(),
        }
    }
}

} // verus!
