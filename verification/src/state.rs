//! The form state behind the UI, its abstract view, and the message banner.

use vstd::prelude::*;
use crate::date::{civil_of, date_text, days_before_year, get_current_date, year_limit};
use crate::names::{HIDE_MESSAGE_TIMER, MESSAGE_HIDE_DELAY_MS};
use crate::text::{str_equal, string_of};

verus! {

/// The three tabs of the UI.
#[derive(Clone, Copy, PartialEq, Eq, Structural, Debug)]
pub enum EventType {
    AddEvent,
    ModifyEvent,
    DeleteEvent,
}

/// One countdown event as the band app stores it.
#[derive(Debug)]
pub struct EventData {
    pub name: String,
    pub time: String,
    pub on_index: bool,
    pub if_staring_day: bool,
}

pub struct EventDataView {
    pub name: Seq<char>,
    pub time: Seq<char>,
    pub on_index: bool,
    pub if_staring_day: bool,
}

impl View for EventData {
    type V = EventDataView;

    open spec fn view(&self) -> EventDataView {
        EventDataView {
            name: self.name@,
            time: self.time@,
            on_index: self.on_index,
            if_staring_day: self.if_staring_day,
        }
    }
}

pub open spec fn text_opt(o: Option<String>) -> Option<Seq<char>> {
    match o {
        Some(s) => Some(s@),
        None => None,
    }
}

pub open spec fn events_view(v: Seq<EventData>) -> Seq<EventDataView> {
    v.map_values(|e: EventData| e@)
}

/// Everything the UI shows and edits.
#[derive(Debug)]
pub struct UiState {
    pub root_element_id: Option<String>,
    pub current_tab: EventType,
    /// The add form.
    pub event_data: EventData,
    /// The modify form.
    pub modify_event_data: EventData,
    /// The events last fetched from the band.
    pub all_events: Vec<EventData>,
    pub selected_event_index: Option<usize>,
    /// The dropdown text of the selected event.
    pub selected_event_name: Option<String>,
    pub has_fetched_events: bool,
    pub hovered_button: Option<String>,
    /// The banner text, if a banner is shown.
    pub error_message: Option<String>,
    /// Whether the banner reports a success (green) rather than an error (red).
    pub is_success_message: bool,
    /// Counts the banners put up, so that each one gets its own hide timer.
    pub banner_generation: u64,
}

pub struct UiStateView {
    pub root_element_id: Option<Seq<char>>,
    pub current_tab: EventType,
    pub event_data: EventDataView,
    pub modify_event_data: EventDataView,
    pub all_events: Seq<EventDataView>,
    pub selected_event_index: Option<usize>,
    pub selected_event_name: Option<Seq<char>>,
    pub has_fetched_events: bool,
    pub hovered_button: Option<Seq<char>>,
    pub error_message: Option<Seq<char>>,
    pub is_success_message: bool,
    pub banner_generation: u64,
}

impl View for UiState {
    type V = UiStateView;

    open spec fn view(&self) -> UiStateView {
        UiStateView {
            root_element_id: text_opt(self.root_element_id),
            current_tab: self.current_tab,
            event_data: self.event_data@,
            modify_event_data: self.modify_event_data@,
            all_events: events_view(self.all_events@),
            selected_event_index: self.selected_event_index,
            selected_event_name: text_opt(self.selected_event_name),
            has_fetched_events: self.has_fetched_events,
            hovered_button: text_opt(self.hovered_button),
            error_message: text_opt(self.error_message),
            is_success_message: self.is_success_message,
            banner_generation: self.banner_generation,
        }
    }
}

/// The state the UI starts in when today's date is `today`.
pub open spec fn initial_state(today: Seq<char>) -> UiStateView {
    UiStateView {
        root_element_id: None,
        current_tab: EventType::AddEvent,
        event_data: EventDataView {
            name: Seq::empty(),
            time: today,
            on_index: false,
            if_staring_day: false,
        },
        modify_event_data: EventDataView {
            name: Seq::empty(),
            time: Seq::empty(),
            on_index: false,
            if_staring_day: false,
        },
        all_events: Seq::empty(),
        selected_event_index: None,
        selected_event_name: None,
        has_fetched_events: false,
        hovered_button: None,
        error_message: None,
        is_success_message: false,
        banner_generation: 0,
    }
}

/// Today's date text for the clock reading `unix_seconds`.
pub open spec fn today_text(unix_seconds: u64) -> Seq<char> {
    let t = civil_of((unix_seconds / 86400) as int);
    date_text(t.0, t.1, t.2)
}

impl EventData {
    /// An empty event dated today, for the clock reading `unix_seconds`.
    pub fn default_at(unix_seconds: u64) -> (r: EventData)
        requires
            unix_seconds / 86400 < days_before_year(year_limit()),
        ensures
            r@ == (EventDataView {
                name: Seq::empty(),
                time: today_text(unix_seconds),
                on_index: false,
                if_staring_day: false,
            }),
    {
        EventData {
            name: String::new(),
            time: get_current_date(unix_seconds),
            on_index: false,
            if_staring_day: false,
        }
    }
}

/// The state the UI starts in, for the clock reading `unix_seconds`.
pub fn ui_state(unix_seconds: u64) -> (r: UiState)
    requires
        unix_seconds / 86400 < days_before_year(year_limit()),
    ensures
        r@ == initial_state(today_text(unix_seconds)),
{
    let r = UiState {
        root_element_id: None,
        current_tab: EventType::AddEvent,
        event_data: EventData::default_at(unix_seconds),
        modify_event_data: EventData {
            name: String::new(),
            time: String::new(),
            on_index: false,
            if_staring_day: false,
        },
        all_events: Vec::new(),
        selected_event_index: None,
        selected_event_name: None,
        has_fetched_events: false,
        hovered_button: None,
        error_message: None,
        is_success_message: false,
        banner_generation: 0,
    };
    assert(r@.all_events =~= Seq::<EventDataView>::empty());
    r
}

/// The count after `g` (wrapping to 0 after the largest `u64`).
pub open spec fn next_generation(g: u64) -> u64 {
    if g == u64::MAX {
        0
    } else {
        (g + 1) as u64
    }
}

/// `s` with a new banner showing `msg`, green when `is_success`.
pub open spec fn with_message(s: UiStateView, msg: Seq<char>, is_success: bool) -> UiStateView {
    UiStateView {
        error_message: Some(msg),
        is_success_message: is_success,
        banner_generation: next_generation(s.banner_generation),
        ..s
    }
}

/// Whether the UI is mounted, so that a change is drawn.
pub open spec fn mounted(s: UiStateView) -> bool {
    s.root_element_id is Some
}

/// Shows `msg` in the banner; returns whether the UI is to be redrawn.
pub fn show_message(state: &mut UiState, msg: &str, is_success: bool) -> (render: bool)
    ensures
        final(state)@ == with_message(old(state)@, msg@, is_success),
        render == mounted(old(state)@),
{
    state.error_message = Some(string_of(msg));
    state.is_success_message = is_success;
    state.banner_generation = if state.banner_generation == u64::MAX {
        0
    } else {
        state.banner_generation + 1
    };
    state.root_element_id.is_some()
}

/// Shows `msg` as an error.
pub fn show_error_message(state: &mut UiState, msg: &str) -> (render: bool)
    ensures
        final(state)@ == with_message(old(state)@, msg@, false),
        render == mounted(old(state)@),
{
    show_message(state, msg, false)
}

/// Shows `msg` as a success.
pub fn show_success_message(state: &mut UiState, msg: &str) -> (render: bool)
    ensures
        final(state)@ == with_message(old(state)@, msg@, true),
        render == mounted(old(state)@),
{
    show_message(state, msg, true)
}

/// A request to the host: fire the timer `name` after `delay_ms`
/// milliseconds, in place of any timer requested before.
#[derive(Clone, Copy, Debug)]
pub struct TimerRequest {
    pub delay_ms: u32,
    pub name: &'static str,
}

/// Whether a step that started at banner count `before_generation` and
/// ended in `after` put up a banner that is still shown; each such banner
/// hides itself after a while.
pub open spec fn banner_timer_due(before_generation: u64, after: UiStateView) -> bool {
    after.error_message is Some && after.banner_generation != before_generation
}

/// The hide timer owed by a step that started at banner count
/// `before_generation` and left `state`: one for each banner put up.
pub fn banner_timer(before_generation: u64, state: &UiState) -> (r: Option<TimerRequest>)
    ensures
        r is Some <==> banner_timer_due(before_generation, state@),
        r matches Some(t) ==> t.delay_ms == MESSAGE_HIDE_DELAY_MS && t.name == HIDE_MESSAGE_TIMER,
{
    if state.error_message.is_some() && state.banner_generation != before_generation {
        Some(TimerRequest { delay_ms: MESSAGE_HIDE_DELAY_MS, name: HIDE_MESSAGE_TIMER })
    } else {
        None
    }
}

/// A timer firing: the hide timer takes the banner down; others do nothing.
pub open spec fn timer_step(s: UiStateView, name: Seq<char>) -> UiStateView {
    if name == HIDE_MESSAGE_TIMER@ {
        UiStateView { error_message: None, ..s }
    } else {
        s
    }
}

/// Handles the timer `name` firing; returns whether the UI is to be redrawn.
pub fn handle_timer_event(state: &mut UiState, name: &str) -> (render: bool)
    ensures
        final(state)@ == timer_step(old(state)@, name@),
        render == (name@ == HIDE_MESSAGE_TIMER@ && mounted(old(state)@)),
{
    if str_equal(name, HIDE_MESSAGE_TIMER) {
        state.error_message = None;
        state.root_element_id.is_some()
    } else {
        false
    }
}

/// Law: every message shown, even one already on screen, owes its own hide
/// timer, and when that timer fires the banner is gone and nothing else has
/// changed.
pub proof fn lemma_shown_message_hides(s: UiStateView, msg: Seq<char>, is_success: bool)
    ensures
        banner_timer_due(s.banner_generation, with_message(s, msg, is_success)),
        timer_step(with_message(s, msg, is_success), HIDE_MESSAGE_TIMER@) == (UiStateView {
            error_message: None,
            is_success_message: is_success,
            banner_generation: next_generation(s.banner_generation),
            ..s
        }),
{
}

} // verus!
