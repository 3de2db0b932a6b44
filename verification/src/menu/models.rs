use vstd::prelude::*;
use vstd::string::StringExecFns;

verus! {

/// The corner of the anchor element that a menu's surface attaches to.
#[derive(Clone, Copy, Debug, PartialEq, Eq)]
pub enum Corner {
    TopLeft,
    TopRight,
    BottomLeft,
    BottomRight,
    TopStart,
    TopEnd,
    BottomStart,
    BottomEnd,
}

impl Corner {
    /// The text under which the widget knows this corner.
    ///
    /// `TopEnd` carries a trailing space.
    pub open spec fn name(self) -> Seq<char> {
        match self {
            Corner::TopLeft => "TOP_LEFT"@,
            Corner::TopRight => "TOP_RIGHT"@,
            Corner::BottomLeft => "BOTTOM_LEFT"@,
            Corner::BottomRight => "BOTTOM_RIGHT"@,
            Corner::TopStart => "TOP_START"@,
            Corner::TopEnd => "TOP_END "@,
            Corner::BottomStart => "BOTTOM_START"@,
            Corner::BottomEnd => "BOTTOM_END"@,
        }
    }

    pub fn to_string(&self) -> (text: String)
        ensures
            text@ == self.name(),
    {
        let name = match self {
            Corner::TopLeft => "TOP_LEFT",
            Corner::TopRight => "TOP_RIGHT",
            Corner::BottomLeft => "BOTTOM_LEFT",
            Corner::BottomRight => "BOTTOM_RIGHT",
            Corner::TopStart => "TOP_START",
            Corner::TopEnd => "TOP_END ",
            Corner::BottomStart => "BOTTOM_START",
            Corner::BottomEnd => "BOTTOM_END",
        };
        String::from_str(name)
    }
}

/// The corner of the menu surface itself that is placed on the anchor.
#[derive(Clone, Copy, Debug, PartialEq, Eq)]
pub enum MenuCorner {
    Start,
    End,
}

impl MenuCorner {
    /// The text under which the widget knows this corner.
    pub open spec fn name(self) -> Seq<char> {
        match self {
            MenuCorner::Start => "START"@,
            MenuCorner::End => "END"@,
        }
    }

    pub fn to_string(&self) -> (text: String)
        ensures
            text@ == self.name(),
    {
        let name = match self {
            MenuCorner::Start => "START",
            MenuCorner::End => "END",
        };
        String::from_str(name)
    }
}

/// Which item of a menu receives focus when the menu opens.
#[derive(Clone, Copy, Debug, PartialEq, Eq)]
pub enum DefaultFocusState {
    /// No item is focused.
    NoFocus,
    ListRoot,
    FirstItem,
    LastItem,
}

impl DefaultFocusState {
    /// The text under which the widget knows this focus state.
    pub open spec fn name(self) -> Seq<char> {
        match self {
            DefaultFocusState::NoFocus => "NONE"@,
            DefaultFocusState::ListRoot => "LIST_ROOT"@,
            DefaultFocusState::FirstItem => "FIRST_ITEM"@,
            DefaultFocusState::LastItem => "LAST_ITEM"@,
        }
    }

    pub fn to_string(&self) -> (text: String)
        ensures
            text@ == self.name(),
    {
        let name = match self {
            DefaultFocusState::NoFocus => "NONE",
            DefaultFocusState::ListRoot => "LIST_ROOT",
            DefaultFocusState::FirstItem => "FIRST_ITEM",
            DefaultFocusState::LastItem => "LAST_ITEM",
        };
        String::from_str(name)
    }
}

} // verus!
