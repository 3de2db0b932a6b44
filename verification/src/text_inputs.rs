//! Text inputs.

use vstd::prelude::*;

pub mod textfield;

pub use textfield::{TextFieldProps, TextFieldState};

verus! {

/// The kind of input that a text field takes.
#[derive(Clone, Copy, Debug, PartialEq, Eq)]
pub enum TextFieldType {
    Text,
    Search,
    Tel,
    Url,
    Email,
    Password,
    Date,
    Month,
    Week,
    Time,
    DatetimeLocal,
    Number,
    Color,
}

impl TextFieldType {
    /// The text under which the widget knows this input type.
    pub open spec fn name(self) -> Seq<char> {
        match self {
            TextFieldType::Text => "text"@,
            TextFieldType::Search => "search"@,
            TextFieldType::Tel => "tel"@,
            TextFieldType::Url => "url"@,
            TextFieldType::Email => "email"@,
            TextFieldType::Password => "password"@,
            TextFieldType::Date => "date"@,
            TextFieldType::Month => "month"@,
            TextFieldType::Week => "week"@,
            TextFieldType::Time => "time"@,
            TextFieldType::DatetimeLocal => "datetime-local"@,
            TextFieldType::Number => "number"@,
            TextFieldType::Color => "color"@,
        }
    }

    pub fn as_str(&self) -> (text: &'static str)
        ensures
            text@ == self.name(),
    {
        match self {
            TextFieldType::Text => "text",
            TextFieldType::Search => "search",
            TextFieldType::Tel => "tel",
            TextFieldType::Url => "url",
            TextFieldType::Email => "email",
            TextFieldType::Password => "password",
            TextFieldType::Date => "date",
            TextFieldType::Month => "month",
            TextFieldType::Week => "week",
            TextFieldType::Time => "time",
            TextFieldType::DatetimeLocal => "datetime-local",
            TextFieldType::Number => "number",
            TextFieldType::Color => "color",
        }
    }
}

} // verus!
