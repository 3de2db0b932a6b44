use material_dioxus::menu::models::{Corner, DefaultFocusState, MenuCorner};
use material_dioxus::text_inputs::TextFieldType;

#[test]
fn corner_names() {
    assert_eq!(Corner::TopLeft.to_string(), "TOP_LEFT");
    assert_eq!(Corner::TopRight.to_string(), "TOP_RIGHT");
    assert_eq!(Corner::BottomLeft.to_string(), "BOTTOM_LEFT");
    assert_eq!(Corner::BottomRight.to_string(), "BOTTOM_RIGHT");
    assert_eq!(Corner::TopStart.to_string(), "TOP_START");
    assert_eq!(Corner::BottomStart.to_string(), "BOTTOM_START");
    assert_eq!(Corner::BottomEnd.to_string(), "BOTTOM_END");
}

#[test]
fn corner_top_end_ends_in_a_space() {
    assert_eq!(Corner::TopEnd.to_string(), "TOP_END ");
    assert_eq!(Corner::TopEnd.to_string().len(), 8);
}

#[test]
fn menu_corner_names() {
    assert_eq!(MenuCorner::Start.to_string(), "START");
    assert_eq!(MenuCorner::End.to_string(), "END");
}

#[test]
fn default_focus_state_names() {
    assert_eq!(DefaultFocusState::NoFocus.to_string(), "NONE");
    assert_eq!(DefaultFocusState::ListRoot.to_string(), "LIST_ROOT");
    assert_eq!(DefaultFocusState::FirstItem.to_string(), "FIRST_ITEM");
    assert_eq!(DefaultFocusState::LastItem.to_string(), "LAST_ITEM");
}

#[test]
fn models_can_be_copied() {
    let corner = Corner::BottomStart;
    let copy = corner;
    assert_eq!(corner, copy);
    assert_eq!(corner.clone().to_string(), "BOTTOM_START");
    assert_eq!(MenuCorner::End.clone(), MenuCorner::End);
    assert_eq!(DefaultFocusState::LastItem.clone(), DefaultFocusState::LastItem);
}

#[test]
fn text_field_type_names() {
    assert_eq!(TextFieldType::Text.as_str(), "text");
    assert_eq!(TextFieldType::Search.as_str(), "search");
    assert_eq!(TextFieldType::Tel.as_str(), "tel");
    assert_eq!(TextFieldType::Url.as_str(), "url");
    assert_eq!(TextFieldType::Email.as_str(), "email");
    assert_eq!(TextFieldType::Password.as_str(), "password");
    assert_eq!(TextFieldType::Date.as_str(), "date");
    assert_eq!(TextFieldType::Month.as_str(), "month");
    assert_eq!(TextFieldType::Week.as_str(), "week");
    assert_eq!(TextFieldType::Time.as_str(), "time");
    assert_eq!(TextFieldType::DatetimeLocal.as_str(), "datetime-local");
    assert_eq!(TextFieldType::Number.as_str(), "number");
    assert_eq!(TextFieldType::Color.as_str(), "color");
}
