use std::cell::RefCell;

use material_dioxus::attr::AttrValue;
use material_dioxus::event::{forward_details, NativeEvent};
use material_dioxus::loader::{Registry, WidgetKind};
use material_dioxus::text_inputs::textfield::{ListenerKind, SyncAction};
use material_dioxus::text_inputs::{TextFieldProps, TextFieldState, TextFieldType};

type Callback = fn(String);
type Transform = u8;

fn text(value: &str) -> AttrValue {
    AttrValue::Text(value.to_string())
}

fn plain() -> TextFieldProps<Callback, Transform> {
    TextFieldProps::new()
}

fn ignore(_: String) {}

fn describe<F, T>(actions: &[SyncAction<'_, F, T>]) -> Vec<String> {
    actions
        .iter()
        .map(|action| match action {
            SyncAction::SetType(kind) => format!("type={kind}"),
            SyncAction::SetValue(value) => format!("value={value}"),
            SyncAction::ReleaseListener(kind) => format!("release {}", kind.event_name()),
            SyncAction::AttachListener(kind, _) => format!("attach {}", kind.event_name()),
            SyncAction::SetValidityTransform(_) => "transform".to_string(),
        })
        .collect()
}

#[test]
fn listener_event_names() {
    assert_eq!(ListenerKind::Input.event_name(), "input");
    assert_eq!(ListenerKind::Change.event_name(), "change");
}

#[test]
fn defaults_set_nothing() {
    let props = plain();
    assert!(!props.open && !props.disabled && !props.char_counter && !props.outlined);
    assert!(!props.helper_persistent && !props.required && !props.auto_validate);
    assert!(!props.validate_on_initial_render && !props.webkit_date_picker);
    assert!(!props.dialog_initial_focus);
    assert_eq!(props.field_type, TextFieldType::Text);
    assert_eq!(props.value, None);
    assert_eq!(props.max_length, None);
    assert_eq!(props.size, None);
    assert_eq!(props.step, None);
    assert_eq!(props.style, "");
    assert_eq!(props.class, "");
    assert!(props._oninput.is_none() && props._onchange.is_none());
    assert!(props.validity_transform.is_none());
}

#[test]
fn render_lists_every_attribute_in_order() {
    let element = plain().render("textfield-abcdefghijk");
    assert_eq!(element.tag, "mwc-textfield");
    let names: Vec<&str> = element.attrs.iter().map(|a| a.name.as_str()).collect();
    assert_eq!(
        names,
        vec![
            "id",
            "open",
            "label",
            "placeholder",
            "prefix",
            "suffix",
            "icon",
            "iconTrailing",
            "disabled",
            "charCounter",
            "outlined",
            "helper",
            "helperPersistent",
            "required",
            "maxLength",
            "validationMessage",
            "pattern",
            "min",
            "max",
            "size",
            "step",
            "autoValidate",
            "validateOnInitialRender",
            "name",
            "dialogInitialFocus",
            "webkitDatePicker",
            "style",
            "class",
            "slot",
            "dialogInitialFocus",
        ]
    );
    assert_eq!(element.children, None);
}

#[test]
fn render_of_defaults_sets_only_id_style_and_class() {
    let element = plain().render("textfield-abcdefghijk");
    for attribute in &element.attrs {
        let expected = match attribute.name.as_str() {
            "id" => text("textfield-abcdefghijk"),
            "style" | "class" => text(""),
            _ => AttrValue::Absent,
        };
        assert_eq!(attribute.value, expected, "{}", attribute.name);
    }
}

#[test]
fn render_with_everything_set() {
    let props: TextFieldProps<Callback, Transform> = TextFieldProps {
        open: true,
        value: Some("abc".to_string()),
        field_type: TextFieldType::Number,
        label: Some("Amount".to_string()),
        placeholder: Some("0".to_string()),
        prefix: Some("$".to_string()),
        suffix: Some(".00".to_string()),
        icon: Some("event".to_string()),
        icon_trailing: Some("delete".to_string()),
        disabled: true,
        char_counter: true,
        outlined: true,
        helper: Some("Whole dollars".to_string()),
        helper_persistent: true,
        required: true,
        max_length: Some(18),
        validation_message: Some("Not a number".to_string()),
        pattern: Some("[0-9]+".to_string()),
        min: Some("1".to_string()),
        max: Some("100".to_string()),
        size: Some(-3),
        step: Some(5),
        auto_validate: true,
        validity_transform: Some(1),
        validate_on_initial_render: true,
        _oninput: Some(ignore),
        name: Some("amount".to_string()),
        webkit_date_picker: true,
        _onchange: Some(ignore),
        style: "width: 100%".to_string(),
        class: "wide".to_string(),
        slot: Some("primaryAction".to_string()),
        dialog_initial_focus: true,
    };
    let element = props.render("textfield-0123456789A");
    let expected = [
        ("id", text("textfield-0123456789A")),
        ("open", AttrValue::Bool(true)),
        ("label", text("Amount")),
        ("placeholder", text("0")),
        ("prefix", text("$")),
        ("suffix", text(".00")),
        ("icon", text("event")),
        ("iconTrailing", text("delete")),
        ("disabled", AttrValue::Bool(true)),
        ("charCounter", AttrValue::Bool(true)),
        ("outlined", AttrValue::Bool(true)),
        ("helper", text("Whole dollars")),
        ("helperPersistent", AttrValue::Bool(true)),
        ("required", AttrValue::Bool(true)),
        ("maxLength", text("18")),
        ("validationMessage", text("Not a number")),
        ("pattern", text("[0-9]+")),
        ("min", text("1")),
        ("max", text("100")),
        ("size", text("-3")),
        ("step", text("5")),
        ("autoValidate", AttrValue::Bool(true)),
        ("validateOnInitialRender", AttrValue::Bool(true)),
        ("name", text("amount")),
        ("dialogInitialFocus", AttrValue::Bool(true)),
        ("webkitDatePicker", AttrValue::Bool(true)),
        ("style", text("width: 100%")),
        ("class", text("wide")),
        ("slot", text("primaryAction")),
        ("dialogInitialFocus", AttrValue::Bool(true)),
    ];
    assert_eq!(element.attrs.len(), expected.len());
    for (attribute, (name, value)) in element.attrs.iter().zip(expected.iter()) {
        assert_eq!(attribute.name, *name);
        assert_eq!(attribute.value, *value, "{name}");
    }
}

#[test]
fn value_and_type_are_no_attributes() {
    let mut props = plain();
    props.value = Some("abc".to_string());
    props.field_type = TextFieldType::Password;
    let element = props.render("textfield-abcdefghijk");
    assert_eq!(element.attr("value"), AttrValue::Absent);
    assert_eq!(element.attr("type"), AttrValue::Absent);
}

#[test]
fn disabled_changes_while_the_id_stays() {
    let mut state = TextFieldState::new();
    let mut props = plain();
    let first_id = state.use_id().id;
    let first = props.render(&first_id);
    assert_eq!(first.attr("disabled"), AttrValue::Absent);
    props.disabled = true;
    let second_use = state.use_id();
    assert!(!second_use.needs_update);
    let second = props.render(&second_use.id);
    assert_eq!(second.attr("disabled"), AttrValue::Bool(true));
    assert_eq!(second_use.id, first_id);
    assert_eq!(first.attr("id"), second.attr("id"));
}

#[test]
fn new_state_holds_nothing() {
    let state = TextFieldState::new();
    assert!(!state.listens(ListenerKind::Input));
    assert!(!state.listens(ListenerKind::Change));
    assert!(!state.has_validity_transform());
}

#[test]
fn state_id_has_the_text_field_prefix() {
    let mut state = TextFieldState::new();
    let used = state.use_id();
    assert!(used.needs_update);
    assert!(used.id.starts_with("textfield-"));
    assert_eq!(used.id.len(), "textfield-".len() + 11);
    assert!(used.id["textfield-".len()..].chars().all(|c| c.is_ascii_alphanumeric()));
    let again = state.use_id();
    assert_eq!(again.id, used.id);
    assert!(!again.needs_update);
}

#[test]
fn two_text_fields_get_distinct_ids() {
    let mut first = TextFieldState::new();
    let mut second = TextFieldState::new();
    assert_ne!(first.use_id().id, second.use_id().id);
}

#[test]
fn nothing_is_done_while_the_node_is_missing() {
    let mut props = plain();
    props.value = Some("abc".to_string());
    props._oninput = Some(ignore);
    props._onchange = Some(ignore);
    props.validity_transform = Some(1);
    let mut state = TextFieldState::new();
    assert!(props.sync(&mut state, false).is_empty());
    assert!(!state.listens(ListenerKind::Input));
    assert!(!state.listens(ListenerKind::Change));
    assert!(!state.has_validity_transform());
}

#[test]
fn missing_node_is_made_up_for_on_the_next_render() {
    let mut props = plain();
    props._oninput = Some(ignore);
    let mut state = TextFieldState::new();
    assert!(props.sync(&mut state, false).is_empty());
    assert_eq!(describe(&props.sync(&mut state, true)), vec!["type=text", "value=", "attach input"]);
}

#[test]
fn type_and_value_are_set_on_every_render() {
    let mut props = plain();
    props.field_type = TextFieldType::Email;
    props.value = Some("abc".to_string());
    let mut state = TextFieldState::new();
    assert_eq!(describe(&props.sync(&mut state, true)), vec!["type=email", "value=abc"]);
    assert_eq!(describe(&props.sync(&mut state, true)), vec!["type=email", "value=abc"]);
    props.value = None;
    props.field_type = TextFieldType::DatetimeLocal;
    assert_eq!(describe(&props.sync(&mut state, true)), vec!["type=datetime-local", "value="]);
}

#[test]
fn first_listener_is_attached_without_a_release() {
    let mut props = plain();
    props._onchange = Some(ignore);
    let mut state = TextFieldState::new();
    assert_eq!(
        describe(&props.sync(&mut state, true)),
        vec!["type=text", "value=", "attach change"]
    );
    assert!(state.listens(ListenerKind::Change));
    assert!(!state.listens(ListenerKind::Input));
}

#[test]
fn replaced_listener_is_released_before_the_new_one_is_attached() {
    let mut props = plain();
    props._onchange = Some(ignore);
    let mut state = TextFieldState::new();
    props.sync(&mut state, true);
    let second = props.sync(&mut state, true);
    assert_eq!(
        describe(&second),
        vec!["type=text", "value=", "release change", "attach change"]
    );
    let mut attached = 1;
    for action in &second {
        match action {
            SyncAction::ReleaseListener(ListenerKind::Change) => attached -= 1,
            SyncAction::AttachListener(ListenerKind::Change, _) => attached += 1,
            _ => {}
        }
        assert!(attached == 0 || attached == 1);
    }
    assert_eq!(attached, 1);
}

#[test]
fn both_listeners_input_first() {
    let mut props = plain();
    props._oninput = Some(ignore);
    props._onchange = Some(ignore);
    let mut state = TextFieldState::new();
    assert_eq!(
        describe(&props.sync(&mut state, true)),
        vec!["type=text", "value=", "attach input", "attach change"]
    );
    assert_eq!(
        describe(&props.sync(&mut state, true)),
        vec![
            "type=text",
            "value=",
            "release input",
            "attach input",
            "release change",
            "attach change"
        ]
    );
}

#[test]
fn listener_stays_when_no_callback_is_given_any_more() {
    let mut props = plain();
    props._oninput = Some(ignore);
    let mut state = TextFieldState::new();
    props.sync(&mut state, true);
    props._oninput = None;
    assert_eq!(describe(&props.sync(&mut state, true)), vec!["type=text", "value="]);
    assert!(state.listens(ListenerKind::Input));
}

#[test]
fn attached_callback_is_the_one_given() {
    fn first(_: String) {}
    fn second(_: String) {}
    let mut props = plain();
    props._oninput = Some(first);
    props._onchange = Some(second);
    let mut state = TextFieldState::new();
    let actions = props.sync(&mut state, true);
    let mut seen = 0;
    for action in &actions {
        if let SyncAction::AttachListener(kind, callback) = action {
            let expected: Callback = match kind {
                ListenerKind::Input => first,
                ListenerKind::Change => second,
            };
            assert!(**callback as usize == expected as usize);
            seen += 1;
        }
    }
    assert_eq!(seen, 2);
}

#[test]
fn validity_transform_is_installed_once() {
    let mut props = plain();
    props.validity_transform = Some(9);
    let mut state = TextFieldState::new();
    let first = props.sync(&mut state, true);
    assert_eq!(describe(&first), vec!["type=text", "value=", "transform"]);
    assert!(matches!(first[2], SyncAction::SetValidityTransform(&9)));
    assert!(state.has_validity_transform());
    props.validity_transform = Some(10);
    assert_eq!(describe(&props.sync(&mut state, true)), vec!["type=text", "value="]);
    assert!(state.has_validity_transform());
}

#[test]
fn everything_at_once() {
    let mut props = plain();
    props.value = Some("abc".to_string());
    props._oninput = Some(ignore);
    props._onchange = Some(ignore);
    props.validity_transform = Some(1);
    let mut state = TextFieldState::new();
    assert_eq!(
        describe(&props.sync(&mut state, true)),
        vec!["type=text", "value=abc", "attach input", "attach change", "transform"]
    );
}

#[test]
fn unmount_releases_what_is_held() {
    let mut props = plain();
    let mut state = TextFieldState::new();
    assert_eq!(state.unmount(), Vec::<ListenerKind>::new());
    props._onchange = Some(ignore);
    props.sync(&mut state, true);
    assert_eq!(state.unmount(), vec![ListenerKind::Change]);
    assert!(!state.listens(ListenerKind::Change));
    assert_eq!(state.unmount(), Vec::<ListenerKind>::new());
    props._oninput = Some(ignore);
    props.sync(&mut state, true);
    assert_eq!(state.unmount(), vec![ListenerKind::Input, ListenerKind::Change]);
    assert!(!state.listens(ListenerKind::Input));
    assert!(!state.listens(ListenerKind::Change));
}

#[test]
fn unmount_keeps_the_id() {
    let mut state = TextFieldState::new();
    let id = state.use_id().id;
    state.unmount();
    let again = state.use_id();
    assert_eq!(again.id, id);
    assert!(!again.needs_update);
}

#[test]
fn input_event_reaches_the_callback_once() {
    let calls: RefCell<Vec<String>> = RefCell::new(Vec::new());
    let callback = |value: String| calls.borrow_mut().push(value);
    let mut props: TextFieldProps<_, Transform> = TextFieldProps::new();
    props.value = Some("abc".to_string());
    props._oninput = Some(callback);
    let mut state = TextFieldState::new();
    let id = state.use_id().id;
    let element = props.render(&id);
    assert_eq!(element.attr("id"), text(&id));
    let actions = props.sync(&mut state, true);
    assert_eq!(describe(&actions), vec!["type=text", "value=abc", "attach input"]);
    let mut listeners = Vec::new();
    for action in &actions {
        if let SyncAction::AttachListener(ListenerKind::Input, callback) = action {
            listeners.push(*callback);
        }
    }
    assert_eq!(listeners.len(), 1);
    for listener in &listeners {
        forward_details(NativeEvent::Custom("abcd".to_string()), |detail: String| detail, *listener);
    }
    assert_eq!(*calls.borrow(), vec!["abcd".to_string()]);
}

#[test]
fn replaced_callback_is_called_once_per_event() {
    let calls: RefCell<Vec<String>> = RefCell::new(Vec::new());
    let callback = |value: String| calls.borrow_mut().push(value);
    let mut props: TextFieldProps<_, Transform> = TextFieldProps::new();
    props._onchange = Some(callback);
    let mut state = TextFieldState::new();
    let mut on_node = Vec::new();
    for _ in 0..3 {
        for action in props.sync(&mut state, true) {
            match action {
                SyncAction::ReleaseListener(ListenerKind::Change) => {
                    on_node.pop();
                }
                SyncAction::AttachListener(ListenerKind::Change, callback) => on_node.push(callback),
                _ => {}
            }
        }
        assert_eq!(on_node.len(), 1);
    }
    for listener in &on_node {
        forward_details(NativeEvent::Custom("abcd".to_string()), |detail: String| detail, *listener);
    }
    assert_eq!(*calls.borrow(), vec!["abcd".to_string()]);
}

#[test]
fn two_text_fields_in_one_pass_register_once_and_differ() {
    let mut registry = Registry::new();
    let mut first = TextFieldState::new();
    let mut second = TextFieldState::new();
    let register_first = registry.ensure_loaded(WidgetKind::TextField);
    let first_id = first.use_id();
    let register_second = registry.ensure_loaded(WidgetKind::TextField);
    let second_id = second.use_id();
    assert!(register_first);
    assert!(!register_second);
    assert!(first_id.needs_update && second_id.needs_update);
    assert_ne!(first_id.id, second_id.id);
    let props = plain();
    assert_eq!(props.render(&first_id.id).attr("id"), text(&first_id.id));
    assert_eq!(props.render(&second_id.id).attr("id"), text(&second_id.id));
}
