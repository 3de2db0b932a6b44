//! The text field.
//!
//! A render of a text field has two parts. The element with its attributes is
//! computed from the properties alone. The input type, the value, the event
//! listeners and the validity transform cannot be given as attributes: they
//! are set on the node itself, which is found by the instance's identifier.
//! On a render during which the node cannot be found yet, that second part is
//! left out and comes with the next render.

use vstd::prelude::*;
use vstd::string::StringExecFns;
use crate::attr::{
    bool_attr, flag_attr, int_of, nat_of, optional_i64_attr, optional_int_attr, optional_nat_attr,
    optional_string_attr, optional_text_attr, optional_u64_attr, string_attr, text_attr, text_of,
};
use crate::attr::AttrModel;
use crate::element::{
    attribute_models, lemma_lookup_first, Attribute, AttributeModel, CustomElement, ElementModel,
};
use crate::ident::{is_instance_id, use_id, IdSlot, IdUse};
use crate::text_inputs::TextFieldType;

verus! {

/// The native events that a text field listens to.
#[derive(Clone, Copy, Debug, PartialEq, Eq, Structural)]
pub enum ListenerKind {
    Input,
    Change,
}

impl ListenerKind {
    /// The name of the native event.
    pub open spec fn name(self) -> Seq<char> {
        match self {
            ListenerKind::Input => "input"@,
            ListenerKind::Change => "change"@,
        }
    }

    pub fn event_name(&self) -> (text: &'static str)
        ensures
            text@ == self.name(),
    {
        match self {
            ListenerKind::Input => "input",
            ListenerKind::Change => "change",
        }
    }
}

/// One step of bringing the node in line with the properties. The steps of a
/// render are to be performed in the order in which they are given.
#[derive(Debug)]
pub enum SyncAction<'a, F, T> {
    /// Set the node's input type.
    SetType(String),
    /// Set the node's value.
    SetValue(String),
    /// Remove the listener that the instance holds for this event.
    ReleaseListener(ListenerKind),
    /// Add a listener for this event that calls this callback.
    AttachListener(ListenerKind, &'a F),
    /// Give the node this validity transform.
    SetValidityTransform(&'a T),
}

/// The mathematical value of a [`SyncAction`].
pub enum ActionModel<F, T> {
    SetType(Seq<char>),
    SetValue(Seq<char>),
    ReleaseListener(ListenerKind),
    AttachListener(ListenerKind, F),
    SetValidityTransform(T),
}

impl<'a, F, T> View for SyncAction<'a, F, T> {
    type V = ActionModel<F, T>;

    open spec fn view(&self) -> ActionModel<F, T> {
        match self {
            SyncAction::SetType(text) => ActionModel::SetType(text@),
            SyncAction::SetValue(text) => ActionModel::SetValue(text@),
            SyncAction::ReleaseListener(kind) => ActionModel::ReleaseListener(*kind),
            SyncAction::AttachListener(kind, callback) => ActionModel::AttachListener(
                *kind,
                **callback,
            ),
            SyncAction::SetValidityTransform(transform) => ActionModel::SetValidityTransform(
                **transform,
            ),
        }
    }
}

/// The models of a list of steps, in the same order.
pub open spec fn action_models<'a, F, T>(actions: Seq<SyncAction<'a, F, T>>) -> Seq<
    ActionModel<F, T>,
> {
    actions.map_values(|action: SyncAction<'a, F, T>| action@)
}

/// What an instance of the text field keeps from one render to the next.
#[derive(Debug)]
pub struct TextFieldState {
    id: IdSlot,
    input_listener: bool,
    change_listener: bool,
    validity_transform: bool,
}

/// The mathematical value of a [`TextFieldState`].
pub struct StateModel {
    /// The instance's identifier, once it has one.
    pub id: Option<Seq<char>>,
    /// Whether the instance holds a listener for the input event.
    pub input_listener: bool,
    /// Whether the instance holds a listener for the change event.
    pub change_listener: bool,
    /// Whether the node has been given a validity transform.
    pub validity_transform: bool,
}

impl StateModel {
    /// Whether the instance holds a listener for the event `kind`.
    pub open spec fn listens(self, kind: ListenerKind) -> bool {
        match kind {
            ListenerKind::Input => self.input_listener,
            ListenerKind::Change => self.change_listener,
        }
    }
}

impl View for TextFieldState {
    type V = StateModel;

    closed spec fn view(&self) -> StateModel {
        StateModel {
            id: self.id@,
            input_listener: self.input_listener,
            change_listener: self.change_listener,
            validity_transform: self.validity_transform,
        }
    }
}

/// The steps that replace the listener for one event: none where no callback
/// is given; else the release of the listener held so far, if any, and then
/// the new listener.
pub open spec fn listener_steps<F, T>(
    kind: ListenerKind,
    callback: Option<F>,
    held: bool,
) -> Seq<ActionModel<F, T>> {
    match callback {
        None => Seq::empty(),
        Some(callback) => if held {
            seq![ActionModel::ReleaseListener(kind), ActionModel::AttachListener(kind, callback)]
        } else {
            seq![ActionModel::AttachListener(kind, callback)]
        },
    }
}

/// The steps that install the validity transform: one, the first time that a
/// transform is given, and none after that.
pub open spec fn transform_steps<F, T>(transform: Option<T>, installed: bool) -> Seq<
    ActionModel<F, T>,
> {
    match transform {
        Some(transform) => if installed {
            Seq::empty()
        } else {
            seq![ActionModel::SetValidityTransform(transform)]
        },
        None => Seq::empty(),
    }
}

/// How one step changes the number of listeners for `kind` on the node.
pub open spec fn listeners_after_step<F, T>(
    count: int,
    action: ActionModel<F, T>,
    kind: ListenerKind,
) -> int {
    match action {
        ActionModel::ReleaseListener(released) => if released == kind {
            count - 1
        } else {
            count
        },
        ActionModel::AttachListener(attached, _) => if attached == kind {
            count + 1
        } else {
            count
        },
        _ => count,
    }
}

/// How many listeners for `kind` are on the node after `actions` have been
/// performed in order, when there were `before` of them.
pub open spec fn listeners_after<F, T>(
    actions: Seq<ActionModel<F, T>>,
    kind: ListenerKind,
    before: int,
) -> int
    decreases actions.len(),
{
    if actions.len() == 0 {
        before
    } else {
        listeners_after_step(
            listeners_after(actions.drop_last(), kind, before),
            actions.last(),
            kind,
        )
    }
}

/// Whether `action` adds a listener for `kind`.
pub open spec fn attaches<F, T>(action: ActionModel<F, T>, kind: ListenerKind) -> bool {
    action is AttachListener && action->AttachListener_0 == kind
}

/// Whether `actions`, performed in order on a node with `before` listeners
/// for `kind`, never leave the node with more than one such listener, or
/// with fewer than none, and add one only when there is none.
pub open spec fn replaces_in_order<F, T>(
    actions: Seq<ActionModel<F, T>>,
    kind: ListenerKind,
    before: int,
) -> bool {
    forall|done: int|
        0 <= done <= actions.len() ==> {
            let count = #[trigger] listeners_after(actions.take(done), kind, before);
            &&& 0 <= count <= 1
            &&& done < actions.len() && attaches(actions[done], kind) ==> count == 0
        }
}

/// Properties of the text field. `F` is the type of the callbacks that take
/// the field's text, `T` that of the validity transform.
pub struct TextFieldProps<F, T> {
    pub open: bool,
    pub value: Option<String>,
    pub field_type: TextFieldType,
    pub label: Option<String>,
    pub placeholder: Option<String>,
    pub prefix: Option<String>,
    pub suffix: Option<String>,
    pub icon: Option<String>,
    pub icon_trailing: Option<String>,
    pub disabled: bool,
    pub char_counter: bool,
    pub outlined: bool,
    pub helper: Option<String>,
    pub helper_persistent: bool,
    pub required: bool,
    pub max_length: Option<u64>,
    pub validation_message: Option<String>,
    pub pattern: Option<String>,
    /// A number or a text, so it is held as text.
    pub min: Option<String>,
    /// A number or a text, so it is held as text.
    pub max: Option<String>,
    pub size: Option<i64>,
    pub step: Option<i64>,
    pub auto_validate: bool,
    pub validity_transform: Option<T>,
    pub validate_on_initial_render: bool,
    /// Called with the field's text on every input event.
    pub _oninput: Option<F>,
    pub name: Option<String>,
    pub webkit_date_picker: bool,
    /// Called with the field's text on every change event.
    pub _onchange: Option<F>,
    pub style: String,
    pub class: String,
    pub slot: Option<String>,
    pub dialog_initial_focus: bool,
}

impl TextFieldState {
    /// The state of a newly mounted instance: no identifier, no listener, no
    /// validity transform.
    pub fn new() -> (state: TextFieldState)
        ensures
            state@ == (StateModel {
                id: None,
                input_listener: false,
                change_listener: false,
                validity_transform: false,
            }),
    {
        TextFieldState {
            id: IdSlot::new(),
            input_listener: false,
            change_listener: false,
            validity_transform: false,
        }
    }

    /// Gives the identifier of the instance, making one on the first call,
    /// and says whether the instance has to be rendered again because of it.
    pub fn use_id(&mut self) -> (used: IdUse)
        ensures
            final(self)@.id == Some(used.id@),
            old(self)@.id is Some ==> final(self)@ == old(self)@,
            old(self)@.id is None ==> is_instance_id(used.id@, "textfield"@),
            used.needs_update == (old(self)@.id is None),
            final(self)@.input_listener == old(self)@.input_listener,
            final(self)@.change_listener == old(self)@.change_listener,
            final(self)@.validity_transform == old(self)@.validity_transform,
    {
        use_id(&mut self.id, "textfield")
    }

    /// Whether the instance holds a listener for the event `kind`.
    pub fn listens(&self, kind: ListenerKind) -> (held: bool)
        ensures
            held == self@.listens(kind),
    {
        match kind {
            ListenerKind::Input => self.input_listener,
            ListenerKind::Change => self.change_listener,
        }
    }

    /// Whether the node has been given a validity transform.
    pub fn has_validity_transform(&self) -> (installed: bool)
        ensures
            installed == self@.validity_transform,
    {
        self.validity_transform
    }

    /// Ends the instance: says which listeners have to be removed, and holds
    /// none afterwards.
    pub fn unmount(&mut self) -> (released: Vec<ListenerKind>)
        ensures
            released@ == (if old(self)@.input_listener {
                seq![ListenerKind::Input]
            } else {
                Seq::empty()
            }) + (if old(self)@.change_listener {
                seq![ListenerKind::Change]
            } else {
                Seq::empty()
            }),
            final(self)@ == (StateModel {
                input_listener: false,
                change_listener: false,
                ..old(self)@
            }),
    {
        let mut released: Vec<ListenerKind> = Vec::new();
        if self.input_listener {
            released.push(ListenerKind::Input);
            self.input_listener = false;
        }
        if self.change_listener {
            released.push(ListenerKind::Change);
            self.change_listener = false;
        }
        assert(released@ =~= (if old(self)@.input_listener {
            seq![ListenerKind::Input]
        } else {
            Seq::empty()
        }) + (if old(self)@.change_listener {
            seq![ListenerKind::Change]
        } else {
            Seq::empty()
        }));
        released
    }
}

impl<F, T> TextFieldProps<F, T> {
    /// Properties with nothing set: every flag lowered, every optional value
    /// missing, no callback, an empty style and class, and the input type
    /// `Text`.
    pub fn new() -> (props: Self)
        ensures
            !props.open,
            props.value is None,
            props.field_type == TextFieldType::Text,
            props.label is None,
            props.placeholder is None,
            props.prefix is None,
            props.suffix is None,
            props.icon is None,
            props.icon_trailing is None,
            !props.disabled,
            !props.char_counter,
            !props.outlined,
            props.helper is None,
            !props.helper_persistent,
            !props.required,
            props.max_length is None,
            props.validation_message is None,
            props.pattern is None,
            props.min is None,
            props.max is None,
            props.size is None,
            props.step is None,
            !props.auto_validate,
            props.validity_transform is None,
            !props.validate_on_initial_render,
            props._oninput is None,
            props.name is None,
            !props.webkit_date_picker,
            props._onchange is None,
            props.style@ == Seq::<char>::empty(),
            props.class@ == Seq::<char>::empty(),
            props.slot is None,
            !props.dialog_initial_focus,
    {
        TextFieldProps {
            open: false,
            value: None,
            field_type: TextFieldType::Text,
            label: None,
            placeholder: None,
            prefix: None,
            suffix: None,
            icon: None,
            icon_trailing: None,
            disabled: false,
            char_counter: false,
            outlined: false,
            helper: None,
            helper_persistent: false,
            required: false,
            max_length: None,
            validation_message: None,
            pattern: None,
            min: None,
            max: None,
            size: None,
            step: None,
            auto_validate: false,
            validity_transform: None,
            validate_on_initial_render: false,
            _oninput: None,
            name: None,
            webkit_date_picker: false,
            _onchange: None,
            style: String::new(),
            class: String::new(),
            slot: None,
            dialog_initial_focus: false,
        }
    }

    /// The element that these properties stand for on an instance with the
    /// identifier `id`. The input type and the value are no attributes: they
    /// are set on the node.
    pub open spec fn rendered(&self, id: Seq<char>) -> ElementModel<()> {
        ElementModel {
            tag: "mwc-textfield"@,
            attrs: seq![
                AttributeModel { name: "id"@, value: text_attr(id) },
                AttributeModel { name: "open"@, value: flag_attr(self.open) },
                AttributeModel { name: "label"@, value: optional_text_attr(text_of(self.label)) },
                AttributeModel {
                    name: "placeholder"@,
                    value: optional_text_attr(text_of(self.placeholder)),
                },
                AttributeModel { name: "prefix"@, value: optional_text_attr(text_of(self.prefix)) },
                AttributeModel { name: "suffix"@, value: optional_text_attr(text_of(self.suffix)) },
                AttributeModel { name: "icon"@, value: optional_text_attr(text_of(self.icon)) },
                AttributeModel {
                    name: "iconTrailing"@,
                    value: optional_text_attr(text_of(self.icon_trailing)),
                },
                AttributeModel { name: "disabled"@, value: flag_attr(self.disabled) },
                AttributeModel { name: "charCounter"@, value: flag_attr(self.char_counter) },
                AttributeModel { name: "outlined"@, value: flag_attr(self.outlined) },
                AttributeModel { name: "helper"@, value: optional_text_attr(text_of(self.helper)) },
                AttributeModel {
                    name: "helperPersistent"@,
                    value: flag_attr(self.helper_persistent),
                },
                AttributeModel { name: "required"@, value: flag_attr(self.required) },
                AttributeModel {
                    name: "maxLength"@,
                    value: optional_nat_attr(nat_of(self.max_length)),
                },
                AttributeModel {
                    name: "validationMessage"@,
                    value: optional_text_attr(text_of(self.validation_message)),
                },
                AttributeModel {
                    name: "pattern"@,
                    value: optional_text_attr(text_of(self.pattern)),
                },
                AttributeModel { name: "min"@, value: optional_text_attr(text_of(self.min)) },
                AttributeModel { name: "max"@, value: optional_text_attr(text_of(self.max)) },
                AttributeModel { name: "size"@, value: optional_int_attr(int_of(self.size)) },
                AttributeModel { name: "step"@, value: optional_int_attr(int_of(self.step)) },
                AttributeModel { name: "autoValidate"@, value: flag_attr(self.auto_validate) },
                AttributeModel {
                    name: "validateOnInitialRender"@,
                    value: flag_attr(self.validate_on_initial_render),
                },
                AttributeModel { name: "name"@, value: optional_text_attr(text_of(self.name)) },
                AttributeModel {
                    name: "dialogInitialFocus"@,
                    value: flag_attr(self.dialog_initial_focus),
                },
                AttributeModel {
                    name: "webkitDatePicker"@,
                    value: flag_attr(self.webkit_date_picker),
                },
                AttributeModel { name: "style"@, value: text_attr(self.style@) },
                AttributeModel { name: "class"@, value: text_attr(self.class@) },
                AttributeModel { name: "slot"@, value: optional_text_attr(text_of(self.slot)) },
                AttributeModel {
                    name: "dialogInitialFocus"@,
                    value: flag_attr(self.dialog_initial_focus),
                },
            ],
            children: None,
        }
    }

    /// Renders the text field of the instance with the identifier `id`.
    pub fn render(&self, id: &str) -> (element: CustomElement<'static, ()>)
        ensures
            element@ == self.rendered(id@),
    {
        let mut attrs: Vec<Attribute> = Vec::new();
        attrs.push(Attribute::new("id", string_attr(id)));
        attrs.push(Attribute::new("open", bool_attr(self.open)));
        attrs.push(Attribute::new("label", optional_string_attr(&self.label)));
        attrs.push(Attribute::new("placeholder", optional_string_attr(&self.placeholder)));
        attrs.push(Attribute::new("prefix", optional_string_attr(&self.prefix)));
        attrs.push(Attribute::new("suffix", optional_string_attr(&self.suffix)));
        attrs.push(Attribute::new("icon", optional_string_attr(&self.icon)));
        attrs.push(Attribute::new("iconTrailing", optional_string_attr(&self.icon_trailing)));
        attrs.push(Attribute::new("disabled", bool_attr(self.disabled)));
        attrs.push(Attribute::new("charCounter", bool_attr(self.char_counter)));
        attrs.push(Attribute::new("outlined", bool_attr(self.outlined)));
        attrs.push(Attribute::new("helper", optional_string_attr(&self.helper)));
        attrs.push(Attribute::new("helperPersistent", bool_attr(self.helper_persistent)));
        attrs.push(Attribute::new("required", bool_attr(self.required)));
        attrs.push(Attribute::new("maxLength", optional_u64_attr(self.max_length)));
        attrs.push(
            Attribute::new("validationMessage", optional_string_attr(&self.validation_message)),
        );
        attrs.push(Attribute::new("pattern", optional_string_attr(&self.pattern)));
        attrs.push(Attribute::new("min", optional_string_attr(&self.min)));
        attrs.push(Attribute::new("max", optional_string_attr(&self.max)));
        attrs.push(Attribute::new("size", optional_i64_attr(self.size)));
        attrs.push(Attribute::new("step", optional_i64_attr(self.step)));
        attrs.push(Attribute::new("autoValidate", bool_attr(self.auto_validate)));
        attrs.push(
            Attribute::new("validateOnInitialRender", bool_attr(self.validate_on_initial_render)),
        );
        attrs.push(Attribute::new("name", optional_string_attr(&self.name)));
        attrs.push(Attribute::new("dialogInitialFocus", bool_attr(self.dialog_initial_focus)));
        attrs.push(Attribute::new("webkitDatePicker", bool_attr(self.webkit_date_picker)));
        attrs.push(Attribute::new("style", string_attr(self.style.as_str())));
        attrs.push(Attribute::new("class", string_attr(self.class.as_str())));
        attrs.push(Attribute::new("slot", optional_string_attr(&self.slot)));
        attrs.push(Attribute::new("dialogInitialFocus", bool_attr(self.dialog_initial_focus)));
        assert(attribute_models(attrs@) =~= self.rendered(id@).attrs);
        CustomElement { tag: String::from_str("mwc-textfield"), attrs, children: None }
    }

    /// The text that the node's value is set to: the value given, or the
    /// empty text.
    pub open spec fn value_text(&self) -> Seq<char> {
        match self.value {
            Some(text) => text@,
            None => Seq::empty(),
        }
    }

    /// The steps of one render on an instance in `state`. Without a node
    /// there are none. With one, the input type and the value are set, each
    /// callback given replaces the listener for its event, and a validity
    /// transform given is installed unless one was installed before.
    pub open spec fn planned(&self, state: StateModel, resolved: bool) -> Seq<ActionModel<F, T>> {
        if resolved {
            seq![
                ActionModel::SetType(self.field_type.name()),
                ActionModel::SetValue(self.value_text()),
            ] + listener_steps(ListenerKind::Input, self._oninput, state.input_listener)
                + listener_steps(ListenerKind::Change, self._onchange, state.change_listener)
                + transform_steps(self.validity_transform, state.validity_transform)
        } else {
            Seq::empty()
        }
    }

    /// The state of an instance after one render that started in `state`.
    pub open spec fn synced(&self, state: StateModel, resolved: bool) -> StateModel {
        if resolved {
            StateModel {
                id: state.id,
                input_listener: state.input_listener || self._oninput is Some,
                change_listener: state.change_listener || self._onchange is Some,
                validity_transform: state.validity_transform || self.validity_transform is Some,
            }
        } else {
            state
        }
    }

    /// Plans what has to be done to the node on this render. `resolved` says
    /// whether the node was found by the instance's identifier. The steps
    /// are for the caller to perform, in order; the state is brought forward
    /// as if they had been.
    pub fn sync<'a>(&'a self, state: &mut TextFieldState, resolved: bool) -> (actions: Vec<
        SyncAction<'a, F, T>,
    >)
        ensures
            action_models(actions@) == self.planned(old(state)@, resolved),
            final(state)@ == self.synced(old(state)@, resolved),
    {
        let mut actions: Vec<SyncAction<'a, F, T>> = Vec::new();
        if !resolved {
            assert(action_models(actions@) =~= self.planned(old(state)@, resolved));
            return actions;
        }
        actions.push(SyncAction::SetType(String::from_str(self.field_type.as_str())));
        let value = match &self.value {
            Some(text) => text.clone(),
            None => String::new(),
        };
        actions.push(SyncAction::SetValue(value));
        if let Some(callback) = &self._oninput {
            if state.input_listener {
                actions.push(SyncAction::ReleaseListener(ListenerKind::Input));
            }
            actions.push(SyncAction::AttachListener(ListenerKind::Input, callback));
            state.input_listener = true;
        }
        if let Some(callback) = &self._onchange {
            if state.change_listener {
                actions.push(SyncAction::ReleaseListener(ListenerKind::Change));
            }
            actions.push(SyncAction::AttachListener(ListenerKind::Change, callback));
            state.change_listener = true;
        }
        if let Some(transform) = &self.validity_transform {
            if !state.validity_transform {
                actions.push(SyncAction::SetValidityTransform(transform));
                state.validity_transform = true;
            }
        }
        assert(action_models(actions@) =~= self.planned(old(state)@, resolved));
        actions
    }
}

/// The number of listeners that an instance holding one, or none, accounts
/// for.
pub open spec fn held_count(held: bool) -> int {
    if held {
        1
    } else {
        0
    }
}

proof fn lemma_listeners_concat<F, T>(
    first: Seq<ActionModel<F, T>>,
    second: Seq<ActionModel<F, T>>,
    kind: ListenerKind,
    before: int,
)
    ensures
        listeners_after(first + second, kind, before) == listeners_after(
            second,
            kind,
            listeners_after(first, kind, before),
        ),
    decreases second.len(),
{
    if second.len() == 0 {
        assert(first + second =~= first);
    } else {
        assert((first + second).drop_last() =~= first + second.drop_last());
        lemma_listeners_concat(first, second.drop_last(), kind, before);
    }
}

proof fn lemma_in_order_concat<F, T>(
    first: Seq<ActionModel<F, T>>,
    second: Seq<ActionModel<F, T>>,
    kind: ListenerKind,
    before: int,
)
    requires
        replaces_in_order(first, kind, before),
        replaces_in_order(second, kind, listeners_after(first, kind, before)),
    ensures
        replaces_in_order(first + second, kind, before),
{
    let whole = first + second;
    assert forall|done: int| 0 <= done <= whole.len() implies ({
        let count = #[trigger] listeners_after(whole.take(done), kind, before);
        &&& 0 <= count <= 1
        &&& done < whole.len() && attaches(whole[done], kind) ==> count == 0
    }) by {
        if done < first.len() {
            assert(whole.take(done) =~= first.take(done));
            assert(whole[done] == first[done]);
        } else {
            let rest = done - first.len();
            assert(whole.take(done) =~= first + second.take(rest));
            lemma_listeners_concat(first, second.take(rest), kind, before);
            if done < whole.len() {
                assert(whole[done] == second[rest]);
            }
        }
    }
}

proof fn lemma_listener_steps_in_order<F, T>(
    replaced: ListenerKind,
    callback: Option<F>,
    held: bool,
    kind: ListenerKind,
    before: int,
)
    requires
        0 <= before <= 1,
        replaced == kind ==> before == held_count(held),
    ensures
        replaces_in_order(listener_steps::<F, T>(replaced, callback, held), kind, before),
        listeners_after(listener_steps::<F, T>(replaced, callback, held), kind, before) == (if callback
            is Some && replaced == kind {
            1
        } else {
            before
        }),
{
    let steps = listener_steps::<F, T>(replaced, callback, held);
    reveal_with_fuel(listeners_after, 3);
    assert(steps.take(0) =~= Seq::empty());
    assert(steps.take(steps.len() as int) =~= steps);
    if steps.len() == 2 {
        assert(steps.take(1) =~= seq![steps[0]]);
        assert(steps.take(1).drop_last() =~= Seq::empty());
        assert(steps.drop_last() =~= steps.take(1));
    } else if steps.len() == 1 {
        assert(steps.drop_last() =~= Seq::empty());
    }
}

proof fn lemma_other_steps_in_order<F, T>(
    steps: Seq<ActionModel<F, T>>,
    kind: ListenerKind,
    before: int,
)
    requires
        0 <= before <= 1,
        forall|k: int|
            0 <= k < steps.len() ==> !(#[trigger] steps[k] is AttachListener) && !(steps[k]
                is ReleaseListener),
    ensures
        replaces_in_order(steps, kind, before),
        listeners_after(steps, kind, before) == before,
    decreases steps.len(),
{
    if steps.len() > 0 {
        lemma_other_steps_in_order(steps.drop_last(), kind, before);
    }
    assert forall|done: int| 0 <= done <= steps.len() implies ({
        let count = #[trigger] listeners_after(steps.take(done), kind, before);
        &&& 0 <= count <= 1
        &&& done < steps.len() && attaches(steps[done], kind) ==> count == 0
    }) by {
        if done == steps.len() {
            assert(steps.take(done) =~= steps);
        } else {
            assert(steps.take(done) =~= steps.drop_last().take(done));
        }
    }
}

/// While the steps of a render are performed, the node never carries two
/// listeners of the instance for one event: a listener held from an earlier
/// render is gone before its replacement is added. When the steps are done,
/// the node carries exactly the listeners that the new state records.
pub proof fn lemma_sync_replaces_listeners<F, T>(
    props: TextFieldProps<F, T>,
    state: StateModel,
    resolved: bool,
    kind: ListenerKind,
)
    ensures
        replaces_in_order(
            props.planned(state, resolved),
            kind,
            held_count(state.listens(kind)),
        ),
        listeners_after(props.planned(state, resolved), kind, held_count(state.listens(kind)))
            == held_count(props.synced(state, resolved).listens(kind)),
{
    let before = held_count(state.listens(kind));
    if resolved {
        let set: Seq<ActionModel<F, T>> = seq![
            ActionModel::SetType(props.field_type.name()),
            ActionModel::SetValue(props.value_text()),
        ];
        let input = listener_steps::<F, T>(
            ListenerKind::Input,
            props._oninput,
            state.input_listener,
        );
        let change = listener_steps::<F, T>(
            ListenerKind::Change,
            props._onchange,
            state.change_listener,
        );
        let transform = transform_steps::<F, T>(props.validity_transform, state.validity_transform);
        lemma_other_steps_in_order(set, kind, before);
        lemma_listener_steps_in_order::<F, T>(
            ListenerKind::Input,
            props._oninput,
            state.input_listener,
            kind,
            before,
        );
        lemma_in_order_concat(set, input, kind, before);
        lemma_listeners_concat(set, input, kind, before);
        let after_input = listeners_after(set + input, kind, before);
        lemma_listener_steps_in_order::<F, T>(
            ListenerKind::Change,
            props._onchange,
            state.change_listener,
            kind,
            after_input,
        );
        lemma_in_order_concat(set + input, change, kind, before);
        lemma_listeners_concat(set + input, change, kind, before);
        let after_change = listeners_after(set + input + change, kind, before);
        lemma_other_steps_in_order(transform, kind, after_change);
        lemma_in_order_concat(set + input + change, transform, kind, before);
        lemma_listeners_concat(set + input + change, transform, kind, before);
    } else {
        lemma_other_steps_in_order(props.planned(state, resolved), kind, before);
    }
}

/// The rendered element carries the instance's identifier as its `id`, and
/// its `disabled` attribute is there exactly while the field is disabled: a
/// render with other properties changes the attributes and never the
/// identifier.
pub proof fn lemma_rendered_id_and_disabled<F, T>(props: TextFieldProps<F, T>, id: Seq<char>)
    ensures
        props.rendered(id).attr("id"@) == AttrModel::Text(id),
        props.rendered(id).attr("disabled"@) == flag_attr(props.disabled),
{
    let attrs = props.rendered(id).attrs;
    reveal_strlit("id");
    reveal_strlit("open");
    reveal_strlit("label");
    reveal_strlit("placeholder");
    reveal_strlit("prefix");
    reveal_strlit("suffix");
    reveal_strlit("icon");
    reveal_strlit("iconTrailing");
    reveal_strlit("disabled");
    lemma_lookup_first(attrs, "id"@, 0);
    assert forall|j: int| 0 <= j < 8 implies attrs[j].name != "disabled"@ by {
        assert(attrs[j].name.len() != "disabled"@.len());
    }
    lemma_lookup_first(attrs, "disabled"@, 8);
}

} // verus!
