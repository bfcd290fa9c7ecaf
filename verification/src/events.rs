//! What each UI event does to the form state: text inputs, dropdowns, mouse
//! hover, button clicks, and the event list that the band sends back.

use vstd::prelude::*;
use vstd::utf8::encode_utf8;
use crate::date::{date_verdict, error_text, validate_date_format};
use crate::json::{json_bool, json_get, json_str, JsonValue};
use crate::names::{
    ADD_EVENT_BUTTON_EVENT, CHANGE_EVENT_BUTTON_EVENT, DELETE_EVENT_BUTTON_EVENT, EMPTY_NAME_MESSAGE, EVENT_NAME_INPUT_EVENT, EVENT_TIME_INPUT_EVENT, FETCHED_MESSAGE, GET_EVENTS_BUTTON_EVENT, HIDE_ERROR_EVENT, IF_STARING_DAY_CHANGE_EVENT, IF_STARING_DAY_NO_EVENT, IF_STARING_DAY_YES_EVENT, MODIFY_EVENT_NAME_INPUT_EVENT, MODIFY_EVENT_TIME_INPUT_EVENT, MODIFY_IF_STARING_DAY_CHANGE_EVENT, MODIFY_IF_STARING_DAY_NO_EVENT, MODIFY_IF_STARING_DAY_YES_EVENT, MODIFY_ON_INDEX_CHANGE_EVENT, MODIFY_ON_INDEX_NO_EVENT, MODIFY_ON_INDEX_YES_EVENT, ON_INDEX_CHANGE_EVENT, ON_INDEX_NO_EVENT, ON_INDEX_YES_EVENT, OPTION_SEPARATOR, SELECT_EVENT_DROPDOWN_EVENT, SELECT_TO_DELETE_MESSAGE, SELECT_TO_MODIFY_MESSAGE, SENDING_MESSAGE, TAB_ADD_EVENT, TAB_DELETE_EVENT, TAB_MODIFY_EVENT, YES_TEXT,
};
use crate::state::{
    mounted, show_error_message, show_message, with_message, EventData, EventDataView,
    EventType, UiState, UiStateView,
};
use crate::text::{
    chars_of, parse_unsigned, parse_unsigned_range, str_equal, str_starts_with, string_of,
};

verus! {

/// The kinds of UI event that the host reports.
#[derive(Clone, Copy, PartialEq, Eq, Structural, Debug)]
pub enum UiEvent {
    Click,
    Change,
    MouseEnter,
    MouseLeave,
    /// Any other kind, which the UI ignores.
    Other,
}

/// A request to the band app that a click starts.
#[derive(Debug)]
pub enum Outgoing {
    AddEvent(EventData),
    GetAllEvents,
    ChangeEvent(EventData, usize),
    DeleteEvent(usize),
}

pub enum OutgoingView {
    AddEvent(EventDataView),
    GetAllEvents,
    ChangeEvent(EventDataView, usize),
    DeleteEvent(usize),
}

impl View for Outgoing {
    type V = OutgoingView;

    open spec fn view(&self) -> OutgoingView {
        match self {
            Outgoing::AddEvent(d) => OutgoingView::AddEvent(d@),
            Outgoing::GetAllEvents => OutgoingView::GetAllEvents,
            Outgoing::ChangeEvent(d, i) => OutgoingView::ChangeEvent(d@, *i),
            Outgoing::DeleteEvent(i) => OutgoingView::DeleteEvent(*i),
        }
    }
}

pub open spec fn outgoing_opt(o: Option<Outgoing>) -> Option<OutgoingView> {
    match o {
        Some(x) => Some(x@),
        None => None,
    }
}

/// What an event asks of the host besides the state change: a redraw, and
/// perhaps a request to send to the band.
#[derive(Debug)]
pub struct Reaction {
    pub render: bool,
    pub send: Option<Outgoing>,
}

impl EventData {
    pub fn copy(&self) -> (r: EventData)
        ensures
            r@ == self@,
    {
        EventData {
            name: self.name.clone(),
            time: self.time.clone(),
            on_index: self.on_index,
            if_staring_day: self.if_staring_day,
        }
    }
}

// ---------------------------------------------------------------------------
// Text inputs
/// The value a change event carries: the `value` string of its JSON payload
/// (empty if there is none), or the raw payload when it is not JSON.
/// `parsed` is the payload as parsed by serde_json, `None` if it failed.
pub open spec fn change_value_spec(payload: Seq<char>, parsed: Option<JsonValue>) -> Seq<char> {
    match parsed {
        Some(v) => match json_str(json_get(v, "value"@)) {
            Some(s) => s,
            None => Seq::empty(),
        },
        None => payload,
    }
}

/// The value a change event carries (see `change_value_spec`).
pub fn change_value(payload: &str, parsed: Option<&JsonValue>) -> (r: String)
    ensures
        r@ == change_value_spec(
            payload@,
            match parsed {
                Some(v) => Some(*v),
                None => None,
            },
        ),
{
    match parsed {
        Some(json) => match json.get("value") {
            Some(v) => match v.as_str() {
                Some(s) => string_of(s),
                None => String::new(),
            },
            None => String::new(),
        },
        None => string_of(payload),
    }
}

/// A text input edit: the add form's fields also clear the banner.
pub open spec fn input_step(s: UiStateView, event: Seq<char>, value: Seq<char>) -> UiStateView {
    if event == EVENT_NAME_INPUT_EVENT@ {
        UiStateView {
            event_data: EventDataView { name: value, ..s.event_data },
            error_message: None,
            ..s
        }
    } else if event == EVENT_TIME_INPUT_EVENT@ {
        UiStateView {
            event_data: EventDataView { time: value, ..s.event_data },
            error_message: None,
            ..s
        }
    } else if event == MODIFY_EVENT_NAME_INPUT_EVENT@ {
        UiStateView { modify_event_data: EventDataView { name: value, ..s.modify_event_data }, ..s }
    } else if event == MODIFY_EVENT_TIME_INPUT_EVENT@ {
        UiStateView { modify_event_data: EventDataView { time: value, ..s.modify_event_data }, ..s }
    } else {
        s
    }
}

/// Applies a text input edit; the UI is not redrawn for it.
pub fn handle_input_event(state: &mut UiState, event: &str, value: String)
    ensures
        final(state)@ == input_step(old(state)@, event@, value@),
{
    if str_equal(event, EVENT_NAME_INPUT_EVENT) {
        state.event_data.name = value;
        state.error_message = None;
    } else if str_equal(event, EVENT_TIME_INPUT_EVENT) {
        state.event_data.time = value;
        state.error_message = None;
    } else if str_equal(event, MODIFY_EVENT_NAME_INPUT_EVENT) {
        state.modify_event_data.name = value;
    } else if str_equal(event, MODIFY_EVENT_TIME_INPUT_EVENT) {
        state.modify_event_data.time = value;
    }
}

// ---------------------------------------------------------------------------
// Dropdowns
/// The position of the first `c` in `s`.
pub open spec fn first_index_of(s: Seq<char>, c: char) -> Option<int> {
    if exists|k: int| 0 <= k < s.len() && s[k] == c && forall|j: int| 0 <= j < k ==> s[j] != c {
        Some(
            choose|k: int| 0 <= k < s.len() && s[k] == c && forall|j: int| 0 <= j < k ==> s[j] != c,
        )
    } else {
        None
    }
}

/// The event number that a dropdown option text starts with: the text up to
/// its first full-width space, read as a `usize`.
pub open spec fn option_number(value: Seq<char>) -> Option<nat> {
    match first_index_of(value, OPTION_SEPARATOR) {
        Some(k) => parse_unsigned(value.subrange(0, k), usize::MAX as nat),
        None => None,
    }
}

/// The list position for the event number `n` (numbers start at 1).
pub open spec fn position_of_number(n: nat) -> usize {
    (n - 1) as usize
}

/// The option texts numbered 0, for which the position would underflow.
pub open spec fn select_crashes(value: Seq<char>) -> bool {
    option_number(value) == Some(0nat)
}

/// Choosing an event in the dropdown selects it and, if it exists, loads it
/// into the modify form.
pub open spec fn select_step(s: UiStateView, value: Seq<char>) -> UiStateView {
    match option_number(value) {
        Some(n) => {
            let idx = position_of_number(n);
            if idx < s.all_events.len() {
                UiStateView {
                    selected_event_index: Some(idx),
                    modify_event_data: s.all_events[idx as int],
                    selected_event_name: Some(value),
                    ..s
                }
            } else {
                UiStateView { selected_event_index: Some(idx), ..s }
            }
        },
        None => s,
    }
}

/// A dropdown change.
pub open spec fn dropdown_step(s: UiStateView, event: Seq<char>, value: Seq<char>) -> UiStateView {
    let yes = value == YES_TEXT@;
    if event == ON_INDEX_CHANGE_EVENT@ {
        UiStateView { event_data: EventDataView { on_index: yes, ..s.event_data }, ..s }
    } else if event == IF_STARING_DAY_CHANGE_EVENT@ {
        UiStateView { event_data: EventDataView { if_staring_day: yes, ..s.event_data }, ..s }
    } else if event == MODIFY_ON_INDEX_CHANGE_EVENT@ {
        UiStateView { modify_event_data: EventDataView { on_index: yes, ..s.modify_event_data }, ..s }
    } else if event == MODIFY_IF_STARING_DAY_CHANGE_EVENT@ {
        UiStateView {
            modify_event_data: EventDataView { if_staring_day: yes, ..s.modify_event_data },
            ..s
        }
    } else if event == SELECT_EVENT_DROPDOWN_EVENT@ {
        select_step(s, value)
    } else {
        s
    }
}

/// Finds the first `c` in `chars`.
fn find_char(chars: &Vec<char>, c: char) -> (r: Option<usize>)
    ensures
        match r {
            Some(k) => first_index_of(chars@, c) == Some(k as int),
            None => first_index_of(chars@, c) is None,
        },
{
    let mut i: usize = 0;
    while i < chars.len()
        invariant
            i <= chars@.len(),
            forall|j: int| 0 <= j < i ==> chars@[j] != c,
        decreases chars.len() - i,
    {
        if chars[i] == c {
            let ghost s = chars@;
            assert(0 <= i < s.len() && s[i as int] == c && forall|j: int|
                0 <= j < i ==> s[j] != c);
            let ghost k = choose|k: int|
                0 <= k < s.len() && s[k] == c && forall|j: int| 0 <= j < k ==> s[j] != c;
            assert(k == i) by {
                if k < i {
                    assert(s[k] != c);
                } else if k > i {
                    assert(s[i as int] != c);
                }
            }
            return Some(i);
        }
        i = i + 1;
    }
    None
}

/// The dropdown option's event number (see `option_number`).
fn read_option_number(value: &str) -> (r: Option<usize>)
    ensures
        match r {
            Some(n) => option_number(value@) == Some(n as nat),
            None => option_number(value@) is None,
        },
{
    let chars = chars_of(value);
    match find_char(&chars, OPTION_SEPARATOR) {
        Some(k) => match parse_unsigned_range(&chars, 0, k, usize::MAX as u64) {
            Some(n) => Some(n as usize),
            None => None,
        },
        None => None,
    }
}

/// Applies a dropdown change; returns whether the UI is to be redrawn.
pub fn handle_dropdown_event(state: &mut UiState, event: &str, value: String) -> (render: bool)
    requires
        !(event@ == SELECT_EVENT_DROPDOWN_EVENT@ && select_crashes(value@)),
    ensures
        final(state)@ == dropdown_step(old(state)@, event@, value@),
        render == mounted(old(state)@),
{
    let render = state.root_element_id.is_some();
    let yes = str_equal(value.as_str(), YES_TEXT);
    if str_equal(event, ON_INDEX_CHANGE_EVENT) {
        state.event_data.on_index = yes;
    } else if str_equal(event, IF_STARING_DAY_CHANGE_EVENT) {
        state.event_data.if_staring_day = yes;
    } else if str_equal(event, MODIFY_ON_INDEX_CHANGE_EVENT) {
        state.modify_event_data.on_index = yes;
    } else if str_equal(event, MODIFY_IF_STARING_DAY_CHANGE_EVENT) {
        state.modify_event_data.if_staring_day = yes;
    } else if str_equal(event, SELECT_EVENT_DROPDOWN_EVENT) {
        match read_option_number(value.as_str()) {
            Some(n) => {
                let idx: usize = n - 1;
                state.selected_event_index = Some(idx);
                if idx < state.all_events.len() {
                    let loaded = state.all_events[idx].copy();
                    state.modify_event_data = loaded;
                    state.selected_event_name = Some(value);
                }
            },
            None => {},
        }
    }
    render
}

// ---------------------------------------------------------------------------
// Mouse hover
pub open spec fn mouse_enter_step(s: UiStateView, event: Seq<char>) -> UiStateView {
    UiStateView { hovered_button: Some(event), ..s }
}

pub open spec fn mouse_leave_step(s: UiStateView) -> UiStateView {
    UiStateView { hovered_button: None, ..s }
}

/// The pointer entered the element that reports `event`.
pub fn handle_mouse_enter(state: &mut UiState, event: &str) -> (render: bool)
    ensures
        final(state)@ == mouse_enter_step(old(state)@, event@),
        render == mounted(old(state)@),
{
    state.hovered_button = Some(string_of(event));
    state.root_element_id.is_some()
}

/// The pointer left a button.
pub fn handle_mouse_leave(state: &mut UiState, _event: &str) -> (render: bool)
    ensures
        final(state)@ == mouse_leave_step(old(state)@),
        render == mounted(old(state)@),
{
    state.hovered_button = None;
    state.root_element_id.is_some()
}

/// Law: hovering changes nothing but the hover mark, and leaving clears it
/// whatever was entered before.
pub proof fn lemma_leave_undoes_enter(s: UiStateView, event: Seq<char>)
    ensures
        mouse_leave_step(mouse_enter_step(s, event)) == mouse_leave_step(s),
        s.hovered_button is None ==> mouse_leave_step(mouse_enter_step(s, event)) == s,
{
}

// ---------------------------------------------------------------------------
// Buttons
/// What is wrong with a form, if anything: an empty name, then the date check.
pub open spec fn form_problem(d: EventDataView) -> Option<Seq<char>> {
    if d.name.len() == 0 {
        Some(EMPTY_NAME_MESSAGE@)
    } else {
        match date_verdict(d.time, encode_utf8(d.time).len() as int) {
            Err(e) => Some(error_text(e)),
            Ok(_) => None,
        }
    }
}

/// The names that some button or tab reports on a click.
pub open spec fn is_click_event(event: Seq<char>) -> bool {
    ||| event == ADD_EVENT_BUTTON_EVENT@
    ||| event == GET_EVENTS_BUTTON_EVENT@
    ||| event == CHANGE_EVENT_BUTTON_EVENT@
    ||| event == DELETE_EVENT_BUTTON_EVENT@
    ||| event == HIDE_ERROR_EVENT@
    ||| event == TAB_ADD_EVENT@
    ||| event == TAB_MODIFY_EVENT@
    ||| event == TAB_DELETE_EVENT@
    ||| event == ON_INDEX_YES_EVENT@
    ||| event == ON_INDEX_NO_EVENT@
    ||| event == IF_STARING_DAY_YES_EVENT@
    ||| event == IF_STARING_DAY_NO_EVENT@
    ||| event == MODIFY_ON_INDEX_YES_EVENT@
    ||| event == MODIFY_ON_INDEX_NO_EVENT@
    ||| event == MODIFY_IF_STARING_DAY_YES_EVENT@
    ||| event == MODIFY_IF_STARING_DAY_NO_EVENT@
}

/// A click: the new state, and the request to the band it starts, if any.
pub open spec fn click_step(s: UiStateView, event: Seq<char>) -> (UiStateView, Option<OutgoingView>) {
    if event == ADD_EVENT_BUTTON_EVENT@ {
        match form_problem(s.event_data) {
            Some(msg) => (with_message(s, msg, false), None),
            None => (
                with_message(s, SENDING_MESSAGE@, false),
                Some(OutgoingView::AddEvent(s.event_data)),
            ),
        }
    } else if event == GET_EVENTS_BUTTON_EVENT@ {
        (with_message(s, SENDING_MESSAGE@, false), Some(OutgoingView::GetAllEvents))
    } else if event == CHANGE_EVENT_BUTTON_EVENT@ {
        match s.selected_event_index {
            None => (with_message(s, SELECT_TO_MODIFY_MESSAGE@, false), None),
            Some(idx) => match form_problem(s.modify_event_data) {
                Some(msg) => (with_message(s, msg, false), None),
                None => (
                    with_message(s, SENDING_MESSAGE@, false),
                    Some(OutgoingView::ChangeEvent(s.modify_event_data, idx)),
                ),
            },
        }
    } else if event == DELETE_EVENT_BUTTON_EVENT@ {
        match s.selected_event_index {
            None => (with_message(s, SELECT_TO_DELETE_MESSAGE@, false), None),
            Some(idx) => (
                with_message(s, SENDING_MESSAGE@, false),
                Some(OutgoingView::DeleteEvent(idx)),
            ),
        }
    } else if event == HIDE_ERROR_EVENT@ {
        (UiStateView { error_message: None, ..s }, None)
    } else if event == TAB_ADD_EVENT@ {
        (UiStateView { current_tab: EventType::AddEvent, ..s }, None)
    } else if event == TAB_MODIFY_EVENT@ {
        (UiStateView { current_tab: EventType::ModifyEvent, ..s }, None)
    } else if event == TAB_DELETE_EVENT@ {
        (UiStateView { current_tab: EventType::DeleteEvent, ..s }, None)
    } else if event == ON_INDEX_YES_EVENT@ {
        (UiStateView { event_data: EventDataView { on_index: true, ..s.event_data }, ..s }, None)
    } else if event == ON_INDEX_NO_EVENT@ {
        (UiStateView { event_data: EventDataView { on_index: false, ..s.event_data }, ..s }, None)
    } else if event == IF_STARING_DAY_YES_EVENT@ {
        (
            UiStateView { event_data: EventDataView { if_staring_day: true, ..s.event_data }, ..s },
            None,
        )
    } else if event == IF_STARING_DAY_NO_EVENT@ {
        (
            UiStateView { event_data: EventDataView { if_staring_day: false, ..s.event_data }, ..s },
            None,
        )
    } else if event == MODIFY_ON_INDEX_YES_EVENT@ {
        (
            UiStateView {
                modify_event_data: EventDataView { on_index: true, ..s.modify_event_data },
                ..s
            },
            None,
        )
    } else if event == MODIFY_ON_INDEX_NO_EVENT@ {
        (
            UiStateView {
                modify_event_data: EventDataView { on_index: false, ..s.modify_event_data },
                ..s
            },
            None,
        )
    } else if event == MODIFY_IF_STARING_DAY_YES_EVENT@ {
        (
            UiStateView {
                modify_event_data: EventDataView { if_staring_day: true, ..s.modify_event_data },
                ..s
            },
            None,
        )
    } else if event == MODIFY_IF_STARING_DAY_NO_EVENT@ {
        (
            UiStateView {
                modify_event_data: EventDataView { if_staring_day: false, ..s.modify_event_data },
                ..s
            },
            None,
        )
    } else {
        (s, None)
    }
}

/// Checks a form as the add and change buttons do.
fn check_form(d: &EventData) -> (r: Option<String>)
    ensures
        text_opt_of(r) == form_problem(d@),
{
    if d.name.as_str().is_empty() {
        return Some(string_of(EMPTY_NAME_MESSAGE));
    }
    match validate_date_format(d.time.as_str()) {
        Err(e) => Some(e.message()),
        Ok(()) => None,
    }
}

pub open spec fn text_opt_of(o: Option<String>) -> Option<Seq<char>> {
    match o {
        Some(s) => Some(s@),
        None => None,
    }
}

/// Handles a click on a button or tab.
pub fn handle_button_click(state: &mut UiState, event: &str) -> (r: Reaction)
    ensures
        final(state)@ == click_step(old(state)@, event@).0,
        outgoing_opt(r.send) == click_step(old(state)@, event@).1,
        r.render == (mounted(old(state)@) && is_click_event(event@)),
{
    let mounted = state.root_element_id.is_some();
    if str_equal(event, ADD_EVENT_BUTTON_EVENT) {
        match check_form(&state.event_data) {
            Some(msg) => {
                show_error_message(state, msg.as_str());
                Reaction { render: mounted, send: None }
            },
            None => {
                state.error_message = None;
                show_message(state, SENDING_MESSAGE, false);
                let data = state.event_data.copy();
                Reaction { render: mounted, send: Some(Outgoing::AddEvent(data)) }
            },
        }
    } else if str_equal(event, GET_EVENTS_BUTTON_EVENT) {
        show_message(state, SENDING_MESSAGE, false);
        Reaction { render: mounted, send: Some(Outgoing::GetAllEvents) }
    } else if str_equal(event, CHANGE_EVENT_BUTTON_EVENT) {
        match state.selected_event_index {
            None => {
                show_error_message(state, SELECT_TO_MODIFY_MESSAGE);
                Reaction { render: mounted, send: None }
            },
            Some(idx) => match check_form(&state.modify_event_data) {
                Some(msg) => {
                    show_error_message(state, msg.as_str());
                    Reaction { render: mounted, send: None }
                },
                None => {
                    state.error_message = None;
                    show_message(state, SENDING_MESSAGE, false);
                    let data = state.modify_event_data.copy();
                    Reaction { render: mounted, send: Some(Outgoing::ChangeEvent(data, idx)) }
                },
            },
        }
    } else if str_equal(event, DELETE_EVENT_BUTTON_EVENT) {
        match state.selected_event_index {
            None => {
                show_error_message(state, SELECT_TO_DELETE_MESSAGE);
                Reaction { render: mounted, send: None }
            },
            Some(idx) => {
                show_message(state, SENDING_MESSAGE, false);
                Reaction { render: mounted, send: Some(Outgoing::DeleteEvent(idx)) }
            },
        }
    } else if str_equal(event, HIDE_ERROR_EVENT) {
        state.error_message = None;
        Reaction { render: mounted, send: None }
    } else if str_equal(event, TAB_ADD_EVENT) {
        state.current_tab = EventType::AddEvent;
        Reaction { render: mounted, send: None }
    } else if str_equal(event, TAB_MODIFY_EVENT) {
        state.current_tab = EventType::ModifyEvent;
        Reaction { render: mounted, send: None }
    } else if str_equal(event, TAB_DELETE_EVENT) {
        state.current_tab = EventType::DeleteEvent;
        Reaction { render: mounted, send: None }
    } else if str_equal(event, ON_INDEX_YES_EVENT) {
        state.event_data.on_index = true;
        Reaction { render: mounted, send: None }
    } else if str_equal(event, ON_INDEX_NO_EVENT) {
        state.event_data.on_index = false;
        Reaction { render: mounted, send: None }
    } else if str_equal(event, IF_STARING_DAY_YES_EVENT) {
        state.event_data.if_staring_day = true;
        Reaction { render: mounted, send: None }
    } else if str_equal(event, IF_STARING_DAY_NO_EVENT) {
        state.event_data.if_staring_day = false;
        Reaction { render: mounted, send: None }
    } else if str_equal(event, MODIFY_ON_INDEX_YES_EVENT) {
        state.modify_event_data.on_index = true;
        Reaction { render: mounted, send: None }
    } else if str_equal(event, MODIFY_ON_INDEX_NO_EVENT) {
        state.modify_event_data.on_index = false;
        Reaction { render: mounted, send: None }
    } else if str_equal(event, MODIFY_IF_STARING_DAY_YES_EVENT) {
        state.modify_event_data.if_staring_day = true;
        Reaction { render: mounted, send: None }
    } else if str_equal(event, MODIFY_IF_STARING_DAY_NO_EVENT) {
        state.modify_event_data.if_staring_day = false;
        Reaction { render: mounted, send: None }
    } else {
        Reaction { render: false, send: None }
    }
}

// ---------------------------------------------------------------------------
// The event list the band sends back
pub open spec fn str_or_empty(o: Option<Seq<char>>) -> Seq<char> {
    match o {
        Some(t) => t,
        None => Seq::empty(),
    }
}

pub open spec fn bool_or_false(o: Option<bool>) -> bool {
    match o {
        Some(b) => b,
        None => false,
    }
}

/// The text that holds the event list: the `payloadText` string of the
/// message, or the message itself.
pub open spec fn message_data_text(payload: Seq<char>, outer: JsonValue) -> Seq<char> {
    match json_str(json_get(outer, "payloadText"@)) {
        Some(t) => t,
        None => payload,
    }
}

/// One event of the list; a missing or mistyped field reads as empty or false.
pub open spec fn event_of_json(v: JsonValue) -> EventDataView {
    EventDataView {
        name: str_or_empty(json_str(json_get(v, "name"@))),
        time: str_or_empty(json_str(json_get(v, "date"@))),
        on_index: bool_or_false(json_bool(json_get(v, "on_index"@))),
        if_staring_day: bool_or_false(json_bool(json_get(v, "IFStaringDay"@))),
    }
}

/// The events among `items`, in order; items that are not objects are skipped.
pub open spec fn events_from_items(items: Seq<JsonValue>) -> Seq<EventDataView>
    decreases items.len(),
{
    if items.len() == 0 {
        Seq::empty()
    } else {
        let rest = events_from_items(items.drop_last());
        if items.last() is Object {
            rest.push(event_of_json(items.last()))
        } else {
            rest
        }
    }
}

/// The event list of a message body: its `data` array, if it has one.
pub open spec fn fetched_events(data: JsonValue) -> Option<Seq<EventDataView>> {
    match json_get(data, "data"@) {
        Some(JsonValue::Array(items)) => Some(events_from_items(items@)),
        _ => None,
    }
}

/// A message from the band: a body with an event list replaces the list,
/// marks it fetched and reports success; anything else changes nothing.
pub open spec fn interconnect_step(s: UiStateView, data: Option<JsonValue>) -> UiStateView {
    match data {
        Some(d) => match fetched_events(d) {
            Some(events) => UiStateView {
                all_events: events,
                has_fetched_events: true,
                ..with_message(s, FETCHED_MESSAGE@, true)
            },
            None => s,
        },
        None => s,
    }
}

/// The text that holds the event list (see `message_data_text`); `outer`
/// is the message as parsed by serde_json.
pub fn interconnect_data_text(payload: &str, outer: &JsonValue) -> (r: String)
    ensures
        r@ == message_data_text(payload@, *outer),
{
    match outer.get("payloadText") {
        Some(v) => match v.as_str() {
            Some(t) => string_of(t),
            None => string_of(payload),
        },
        None => string_of(payload),
    }
}

fn text_field(v: &JsonValue, key: &str) -> (r: String)
    ensures
        r@ == str_or_empty(json_str(json_get(*v, key@))),
{
    match v.get(key) {
        Some(f) => match f.as_str() {
            Some(t) => string_of(t),
            None => String::new(),
        },
        None => String::new(),
    }
}

fn flag_field(v: &JsonValue, key: &str) -> (r: bool)
    ensures
        r == bool_or_false(json_bool(json_get(*v, key@))),
{
    match v.get(key) {
        Some(f) => match f.as_bool() {
            Some(b) => b,
            None => false,
        },
        None => false,
    }
}

/// One event of the list (see `event_of_json`).
pub fn event_from_json(v: &JsonValue) -> (r: EventData)
    ensures
        r@ == event_of_json(*v),
{
    EventData {
        name: text_field(v, "name"),
        time: text_field(v, "date"),
        on_index: flag_field(v, "on_index"),
        if_staring_day: flag_field(v, "IFStaringDay"),
    }
}

/// The event list of a message body (see `fetched_events`).
pub fn events_from_json(data: &JsonValue) -> (r: Option<Vec<EventData>>)
    ensures
        match r {
            Some(v) => fetched_events(*data) == Some(crate::state::events_view(v@)),
            None => fetched_events(*data) is None,
        },
{
    let items = match data.get("data") {
        Some(d) => match d.as_array() {
            Some(items) => items,
            None => return None,
        },
        None => return None,
    };
    let mut events: Vec<EventData> = Vec::new();
    let mut i: usize = 0;
    while i < items.len()
        invariant
            i <= items@.len(),
            crate::state::events_view(events@) == events_from_items(items@.subrange(0, i as int)),
        decreases items.len() - i,
    {
        let ghost before = events@;
        let ghost prefix = items@.subrange(0, i + 1);
        assert(prefix.drop_last() =~= items@.subrange(0, i as int));
        assert(prefix.last() == items@[i as int]);
        if items[i].is_object() {
            events.push(event_from_json(&items[i]));
            assert(crate::state::events_view(events@) =~= crate::state::events_view(before).push(
                event_of_json(items@[i as int]),
            ));
        }
        i = i + 1;
    }
    assert(items@.subrange(0, items@.len() as int) =~= items@);
    Some(events)
}

/// Takes in a message body from the band (`None` if it was not JSON);
/// returns whether the UI is to be redrawn.
pub fn handle_interconnect_message(state: &mut UiState, data: Option<&JsonValue>) -> (render: bool)
    ensures
        final(state)@ == interconnect_step(
            old(state)@,
            match data {
                Some(d) => Some(*d),
                None => None,
            },
        ),
        render == (mounted(old(state)@) && match data {
            Some(d) => fetched_events(*d) is Some,
            None => false,
        }),
{
    match data {
        Some(d) => match events_from_json(d) {
            Some(events) => {
                state.all_events = events;
                state.has_fetched_events = true;
                crate::state::show_success_message(state, FETCHED_MESSAGE)
            },
            None => false,
        },
        None => false,
    }
}

// ---------------------------------------------------------------------------
// Dispatch
pub open spec fn starts_with(s: Seq<char>, prefix: Seq<char>) -> bool {
    prefix.len() <= s.len() && s.subrange(0, prefix.len() as int) == prefix
}

/// Change events from the text inputs, as told apart by their names.
pub open spec fn is_text_input(event: Seq<char>) -> bool {
    starts_with(event, "event_"@) || starts_with(event, "modify_"@)
}

/// The state after any UI event; `value` is what a change event carries.
pub open spec fn processor_state(
    s: UiStateView,
    kind: UiEvent,
    event: Seq<char>,
    value: Seq<char>,
) -> UiStateView {
    match kind {
        UiEvent::Click => click_step(s, event).0,
        UiEvent::Change => if is_text_input(event) {
            input_step(s, event, value)
        } else {
            dropdown_step(s, event, value)
        },
        UiEvent::MouseEnter => mouse_enter_step(s, event),
        UiEvent::MouseLeave => mouse_leave_step(s),
        UiEvent::Other => s,
    }
}

/// Whether a UI event redraws the UI.
pub open spec fn processor_renders(s: UiStateView, kind: UiEvent, event: Seq<char>) -> bool {
    mounted(s) && match kind {
        UiEvent::Click => is_click_event(event),
        UiEvent::Change => !is_text_input(event),
        UiEvent::MouseEnter => true,
        UiEvent::MouseLeave => true,
        UiEvent::Other => false,
    }
}

/// Law: each kind of UI event acts as its own handler: clicks as the button
/// handler, text-input changes as the input handler, other changes as the
/// dropdown handler, pointer moves as the hover handlers, and any other kind
/// leaves the state as it is, draws nothing and sends nothing.
pub proof fn lemma_dispatch(s: UiStateView, event: Seq<char>, value: Seq<char>)
    ensures
        processor_state(s, UiEvent::Click, event, value) == click_step(s, event).0,
        processor_send(s, UiEvent::Click, event) == click_step(s, event).1,
        is_text_input(event) ==> processor_state(s, UiEvent::Change, event, value) == input_step(
            s,
            event,
            value,
        ) && !processor_renders(s, UiEvent::Change, event),
        !is_text_input(event) ==> processor_state(s, UiEvent::Change, event, value)
            == dropdown_step(s, event, value),
        processor_state(s, UiEvent::MouseEnter, event, value) == mouse_enter_step(s, event),
        processor_state(s, UiEvent::MouseLeave, event, value) == mouse_leave_step(s),
        processor_state(s, UiEvent::Other, event, value) == s,
        !processor_renders(s, UiEvent::Other, event),
        processor_send(s, UiEvent::Other, event) is None,
        processor_send(s, UiEvent::Change, event) is None,
{
}

/// The request to the band that a UI event starts.
pub open spec fn processor_send(s: UiStateView, kind: UiEvent, event: Seq<char>) -> Option<
    OutgoingView,
> {
    match kind {
        UiEvent::Click => click_step(s, event).1,
        _ => None,
    }
}

/// The events on which handling would crash: choosing an option numbered 0,
/// whose list position would underflow.
pub open spec fn event_crashes(s: UiStateView, kind: UiEvent, event: Seq<char>, value: Seq<char>) -> bool {
    kind == UiEvent::Change && !is_text_input(event) && event == SELECT_EVENT_DROPDOWN_EVENT@
        && select_crashes(value)
}

/// Handles one UI event named `event`. `event_payload` is the event's data,
/// `parsed_payload` that data as parsed by serde_json (`None` if it is not
/// JSON); only change events read them.
pub fn ui_event_processor(
    state: &mut UiState,
    evtype: UiEvent,
    event: &str,
    event_payload: &str,
    parsed_payload: Option<&JsonValue>,
) -> (r: Reaction)
    requires
        !event_crashes(
            old(state)@,
            evtype,
            event@,
            change_value_spec(
                event_payload@,
                match parsed_payload {
                    Some(v) => Some(*v),
                    None => None,
                },
            ),
        ),
    ensures
        final(state)@ == processor_state(
            old(state)@,
            evtype,
            event@,
            change_value_spec(
                event_payload@,
                match parsed_payload {
                    Some(v) => Some(*v),
                    None => None,
                },
            ),
        ),
        r.render == processor_renders(old(state)@, evtype, event@),
        outgoing_opt(r.send) == processor_send(old(state)@, evtype, event@),
{
    match evtype {
        UiEvent::Click => handle_button_click(state, event),
        UiEvent::Change => {
            let value = change_value(event_payload, parsed_payload);
            if str_starts_with(event, "event_") || str_starts_with(event, "modify_") {
                handle_input_event(state, event, value);
                Reaction { render: false, send: None }
            } else {
                let render = handle_dropdown_event(state, event, value);
                Reaction { render, send: None }
            }
        },
        UiEvent::MouseEnter => {
            let render = handle_mouse_enter(state, event);
            Reaction { render, send: None }
        },
        UiEvent::MouseLeave => {
            let render = handle_mouse_leave(state, event);
            Reaction { render, send: None }
        },
        UiEvent::Other => Reaction { render: false, send: None },
    }
}

/// Whether handling the event would crash (see `event_crashes`);
/// `ui_event_processor` is not to be called then.
pub fn event_would_crash(
    state: &UiState,
    evtype: UiEvent,
    event: &str,
    event_payload: &str,
    parsed_payload: Option<&JsonValue>,
) -> (r: bool)
    ensures
        r == event_crashes(
            state@,
            evtype,
            event@,
            change_value_spec(
                event_payload@,
                match parsed_payload {
                    Some(v) => Some(*v),
                    None => None,
                },
            ),
        ),
{
    match evtype {
        UiEvent::Change => {
            if str_starts_with(event, "event_") || str_starts_with(event, "modify_") {
                false
            } else if str_equal(event, SELECT_EVENT_DROPDOWN_EVENT) {
                let value = change_value(event_payload, parsed_payload);
                match read_option_number(value.as_str()) {
                    Some(n) => n == 0,
                    None => false,
                }
            } else {
                false
            }
        },
        _ => false,
    }
}

} // verus!
