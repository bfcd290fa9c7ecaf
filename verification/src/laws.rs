//! Laws that tie the pieces together: what the dropdown shows and what
//! choosing it does, what a send leaves behind, and what a click refuses.

use vstd::prelude::*;
use crate::date::{
    civil_of, date_text, date_verdict, days_before_year, lemma_civil_of_days,
    lemma_date_order, lemma_date_text_passes_check, lemma_days_before_year_closed,
    lemma_days_before_year_grows, valid_civil, year_limit, DateValidationError,
};
use crate::text::{
    lemma_digits_order, lemma_pow10_20, lemma_text_le_extend, lemma_text_le_prefix,
    lemma_zero_padded, text_le, zero_padded,
};
use crate::events::{
    click_step, first_index_of, form_problem, is_text_input, option_number, position_of_number,
    processor_state, select_step, OutgoingView, UiEvent,
};
use crate::flow::{
    completion_state, first_daymatter, flow_next, option_text, payload_text, FlowStage, HostCallView,
    HostReply, InstalledApp, SendFlowView,
};
use crate::names::{
    ADD_EVENT_BUTTON_EVENT, CHANGE_EVENT_BUTTON_EVENT, OPTION_SEPARATOR, SELECT_EVENT_DROPDOWN_EVENT,
};
use crate::state::{initial_state, today_text, EventDataView, UiStateView};
use crate::text::{decimal, is_digit, lemma_decimal, parse_unsigned, unsigned_text_value};
use crate::ui::{
    add_event_ui, delete_event_ui, main_ui, modify_event_ui, option_views, select_caption,
};
use crate::json::{json_get, JsonValue};
use crate::events::{event_of_json, events_from_items, fetched_events, interconnect_step};
use crate::element::{Attr, ElementType};
use crate::state::{with_message, EventType};
use crate::events::{dropdown_step, processor_send};
use vstd::utf8::encode_utf8;

verus! {

/// The number in front of an option text reads back.
proof fn lemma_option_number(n: nat, name: Seq<char>)
    requires
        n <= usize::MAX,
    ensures
        option_number(option_text(n, name)) == Some(n),
{
    let d = decimal(n);
    lemma_decimal(n);
    let t = option_text(n, name);
    let k = d.len() as int;
    assert(t[k] == OPTION_SEPARATOR);
    assert forall|j: int| 0 <= j < k implies t[j] != OPTION_SEPARATOR by {
        assert(t[j] == d[j]);
        assert(is_digit(d[j]));
    }
    let c = choose|c: int|
        0 <= c < t.len() && t[c] == OPTION_SEPARATOR && forall|j: int| 0 <= j < c ==> t[j] != OPTION_SEPARATOR;
    assert(c == k) by {
        if c < k {
            assert(t[c] != OPTION_SEPARATOR);
        } else if c > k {
            assert(t[k] != OPTION_SEPARATOR);
        }
    }
    assert(first_index_of(t, OPTION_SEPARATOR) == Some(k));
    assert(t.subrange(0, k) =~= d);
    assert(is_digit(d[0]));
    assert(unsigned_text_value(d) == Some(n));
    assert(parse_unsigned(d, usize::MAX as nat) == Some(n));
}

/// Law: choosing the dropdown option shown for the `i`-th fetched event
/// selects that event and loads it into the modify form.
pub proof fn lemma_choosing_option_loads_event(s: UiStateView, i: int)
    requires
        0 <= i < s.all_events.len(),
        i < usize::MAX,
    ensures
        ({
            let text = option_text((i + 1) as nat, s.all_events[i].name);
            &&& option_views(s.all_events)[i].text == Some(text)
            &&& processor_state(s, UiEvent::Change, SELECT_EVENT_DROPDOWN_EVENT@, text) == (
            UiStateView {
                selected_event_index: Some(i as usize),
                modify_event_data: s.all_events[i],
                selected_event_name: Some(text),
                ..s
            })
        }),
{
    let text = option_text((i + 1) as nat, s.all_events[i].name);
    lemma_option_number((i + 1) as nat, s.all_events[i].name);
    assert(position_of_number((i + 1) as nat) == i as usize);
    reveal_strlit("select_event_dropdown");
    reveal_strlit("event_");
    reveal_strlit("modify_");
    assert(SELECT_EVENT_DROPDOWN_EVENT@.subrange(0, 6) != "event_"@) by {
        assert(SELECT_EVENT_DROPDOWN_EVENT@.subrange(0, 6)[0] != "event_"@[0]);
    }
    assert(SELECT_EVENT_DROPDOWN_EVENT@.subrange(0, 7) != "modify_"@) by {
        assert(SELECT_EVENT_DROPDOWN_EVENT@.subrange(0, 7)[0] != "modify_"@[0]);
    }
    assert(!is_text_input(SELECT_EVENT_DROPDOWN_EVENT@));
    reveal_strlit("on_index_change");
    reveal_strlit("if_staring_day_change");
    reveal_strlit("modify_on_index_change");
    reveal_strlit("modify_if_staring_day_change");
    assert(SELECT_EVENT_DROPDOWN_EVENT@[0] != crate::names::ON_INDEX_CHANGE_EVENT@[0]);
    assert(SELECT_EVENT_DROPDOWN_EVENT@[0] != crate::names::IF_STARING_DAY_CHANGE_EVENT@[0]);
    assert(SELECT_EVENT_DROPDOWN_EVENT@[0] != crate::names::MODIFY_ON_INDEX_CHANGE_EVENT@[0]);
    assert(SELECT_EVENT_DROPDOWN_EVENT@[0] != crate::names::MODIFY_IF_STARING_DAY_CHANGE_EVENT@[0]);
    assert(processor_state(s, UiEvent::Change, SELECT_EVENT_DROPDOWN_EVENT@, text) == select_step(
        s,
        text,
    ));
}

/// Law: after the band took a change, the changed event in the list holds
/// the form's data and the dropdown caption is that event's option text.
pub proof fn lemma_change_is_reflected(s: UiStateView, d: EventDataView, index: usize)
    requires
        s.selected_event_index matches Some(i) && i < s.all_events.len(),
        s.all_events.len() <= usize::MAX,
    ensures
        ({
            let i = s.selected_event_index->0;
            let t = completion_state(s, OutgoingView::ChangeEvent(d, index));
            &&& t.all_events.len() == s.all_events.len()
            &&& t.all_events[i as int] == d
            &&& forall|j: int| 0 <= j < s.all_events.len() && j != i ==> t.all_events[j] == s.all_events[j]
            &&& select_caption(t) == option_views(t.all_events)[i as int].text->0
            &&& t.error_message == Some(crate::names::SENT_MESSAGE@)
            &&& t.is_success_message
        }),
{
    let i = s.selected_event_index->0;
    assert(i < usize::MAX);
}

/// Law: after the band took a delete, the selected event is gone from the
/// list, the others keep their order, and nothing is selected.
pub proof fn lemma_delete_is_reflected(s: UiStateView, index: usize)
    requires
        s.selected_event_index matches Some(i) && i < s.all_events.len(),
    ensures
        ({
            let i = s.selected_event_index->0 as int;
            let t = completion_state(s, OutgoingView::DeleteEvent(index));
            &&& t.all_events.len() == s.all_events.len() - 1
            &&& forall|j: int| 0 <= j < i ==> t.all_events[j] == s.all_events[j]
            &&& forall|j: int| i <= j < t.all_events.len() ==> t.all_events[j] == s.all_events[j + 1]
            &&& t.selected_event_index is None
            &&& t.selected_event_name is None
        }),
{
}

/// Law: an add or change request leaves only with a named event whose date
/// passes the `YYYY-MM-DD` check; otherwise the click shows why, as an error.
pub proof fn lemma_only_valid_forms_are_sent(s: UiStateView)
    ensures
        ({
            let (t, sent) = click_step(s, ADD_EVENT_BUTTON_EVENT@);
            &&& sent is Some <==> (s.event_data.name.len() > 0 && date_verdict(
                s.event_data.time,
                encode_utf8(s.event_data.time).len() as int,
            ) == Ok::<(), DateValidationError>(()))
            &&& sent is None ==> t.error_message == form_problem(s.event_data) && !t.is_success_message
        }),
        ({
            let (t, sent) = click_step(s, CHANGE_EVENT_BUTTON_EVENT@);
            &&& sent is Some <==> (s.selected_event_index is Some && s.modify_event_data.name.len() > 0
                && date_verdict(
                s.modify_event_data.time,
                encode_utf8(s.modify_event_data.time).len() as int,
            ) == Ok::<(), DateValidationError>(()))
            &&& sent is None ==> t.error_message is Some && !t.is_success_message
        }),
{
    reveal_strlit("add_event_button");
    reveal_strlit("change_event_button");
    assert(ADD_EVENT_BUTTON_EVENT@.len() == 16);
    assert(CHANGE_EVENT_BUTTON_EVENT@.len() == 19);
    reveal_strlit("get_events_button");
    assert(crate::names::GET_EVENTS_BUTTON_EVENT@.len() == 17);
}

/// Law: the add form starts with today's date, which passes the
/// `YYYY-MM-DD` check for any clock reading up to the end of year 9999; a
/// click on "send" with a name then starts the send.
pub proof fn lemma_initial_date_is_accepted(unix_seconds: u64, name: Seq<char>)
    requires
        unix_seconds / 86400 < days_before_year(year_limit()),
        civil_of((unix_seconds / 86400) as int).0 <= 9999,
        name.len() > 0,
    ensures
        ({
            let s = initial_state(today_text(unix_seconds));
            let s1 = UiStateView { event_data: EventDataView { name, ..s.event_data }, ..s };
            &&& form_problem(s1.event_data) is None
            &&& click_step(s1, ADD_EVENT_BUTTON_EVENT@).1 == Some(OutgoingView::AddEvent(s1.event_data))
        }),
{
    lemma_civil_of_days((unix_seconds / 86400) as nat);
    let t = civil_of((unix_seconds / 86400) as int);
    lemma_date_text_passes_check(t.0, t.1, t.2);
    reveal_strlit("add_event_button");
}

/// The text of one date never comes after that of a later date, for dates
/// from 1970 through 9999.
proof fn lemma_date_text_order(y1: int, m1: int, d1: int, y2: int, m2: int, d2: int)
    requires
        valid_civil(y1, m1, d1),
        valid_civil(y2, m2, d2),
        y2 <= 9999,
        y1 < y2 || (y1 == y2 && (m1 < m2 || (m1 == m2 && d1 <= d2))),
    ensures
        text_le(date_text(y1, m1, d1), date_text(y2, m2, d2)),
{
    lemma_pow10_20();
    lemma_zero_padded(y1 as nat, 4);
    lemma_zero_padded(y2 as nat, 4);
    lemma_zero_padded(m1 as nat, 2);
    lemma_zero_padded(m2 as nat, 2);
    lemma_zero_padded(d1 as nat, 2);
    lemma_zero_padded(d2 as nat, 2);
    let (ya, yb) = (zero_padded(y1 as nat, 4), zero_padded(y2 as nat, 4));
    let (ma, mb) = (zero_padded(m1 as nat, 2), zero_padded(m2 as nat, 2));
    let (da, db) = (zero_padded(d1 as nat, 2), zero_padded(d2 as nat, 2));
    let dash = seq!['-'];
    let a = date_text(y1, m1, d1);
    let b = date_text(y2, m2, d2);
    if y1 < y2 {
        lemma_digits_order(ya, yb);
        assert(a =~= ya + (dash + ma + dash + da));
        assert(b =~= yb + (dash + mb + dash + db));
        lemma_text_le_extend(ya, yb, dash + ma + dash + da, dash + mb + dash + db);
    } else if m1 < m2 {
        let p = ya + dash;
        assert(a =~= p + (ma + (dash + da)));
        assert(b =~= p + (mb + (dash + db)));
        lemma_digits_order(ma, mb);
        lemma_text_le_extend(ma, mb, dash + da, dash + db);
        lemma_text_le_prefix(p, ma + (dash + da), mb + (dash + db));
    } else {
        let p = ya + dash + ma + dash;
        assert(a =~= p + da);
        assert(b =~= p + db);
        lemma_digits_order(da, db);
        lemma_text_le_prefix(p, da, db);
    }
}

/// Law: a later clock reading never gives an earlier date text, and two
/// readings on the same day give the same text (for readings before the
/// year 10000, i.e. below 253402300800 seconds).
pub proof fn lemma_date_text_never_goes_back(secs1: u64, secs2: u64)
    requires
        secs1 <= secs2,
        secs2 < 253402300800,
    ensures
        text_le(today_text(secs1), today_text(secs2)),
        secs1 / 86400 == secs2 / 86400 ==> today_text(secs1) == today_text(secs2),
{
    let n1 = (secs1 / 86400) as nat;
    let n2 = (secs2 / 86400) as nat;
    assert(n1 <= n2);
    lemma_days_before_year_closed(10000);
    assert(n2 < days_before_year(10000));
    lemma_civil_of_days(n1);
    lemma_civil_of_days(n2);
    let t1 = civil_of(n1 as int);
    let t2 = civil_of(n2 as int);
    lemma_date_order(t1.0, t1.1, t1.2, t2.0, t2.1, t2.2);
    if t2.0 > 9999 {
        crate::date::lemma_date_bounds(t2.0, t2.1, t2.2);
        if t2.0 > 10000 {
            lemma_days_before_year_grows(10000, t2.0);
        }
        assert(false);
    }
    lemma_date_text_order(t1.0, t1.1, t1.2, t2.0, t2.1, t2.2);
}

/// Law: each event read from the band's list takes its fields from the
/// item's own members: the name from the string under "name", the date from
/// the string under "date", and the two flags from the booleans under
/// "on_index" and "IFStaringDay" (the keys that a request to the band
/// writes). A member that is missing or of another kind reads as empty text
/// or as false.
pub proof fn lemma_event_fields_come_from_keys(v: JsonValue)
    ensures
        json_get(v, "name"@) matches Some(JsonValue::Str(t)) ==> event_of_json(v).name == t@,
        json_get(v, "date"@) matches Some(JsonValue::Str(t)) ==> event_of_json(v).time == t@,
        json_get(v, "on_index"@) matches Some(JsonValue::Bool(b)) ==> event_of_json(v).on_index == b,
        json_get(v, "IFStaringDay"@) matches Some(JsonValue::Bool(b)) ==> event_of_json(v).if_staring_day
            == b,
        !(json_get(v, "name"@) matches Some(JsonValue::Str(_))) ==> event_of_json(v).name.len() == 0,
        !(json_get(v, "date"@) matches Some(JsonValue::Str(_))) ==> event_of_json(v).time.len() == 0,
        !(json_get(v, "on_index"@) matches Some(JsonValue::Bool(_))) ==> !event_of_json(v).on_index,
        !(json_get(v, "IFStaringDay"@) matches Some(JsonValue::Bool(_)))
            ==> !event_of_json(v).if_staring_day,
{
}

/// Law: a body whose "data" member is an array of objects gives one event
/// per item, in the items' order, each read from its item.
pub proof fn lemma_fetched_list_follows_items(body: JsonValue, items: Seq<JsonValue>)
    requires
        json_get(body, "data"@) matches Some(JsonValue::Array(a)) && a@ == items,
        forall|i: int| 0 <= i < items.len() ==> #[trigger] items[i] is Object,
    ensures
        fetched_events(body) matches Some(evs) && evs.len() == items.len() && forall|i: int|
            0 <= i < items.len() ==> #[trigger] evs[i] == event_of_json(items[i]),
    decreases items.len(),
{
    lemma_events_from_object_items(items);
}

proof fn lemma_events_from_object_items(items: Seq<JsonValue>)
    requires
        forall|i: int| 0 <= i < items.len() ==> #[trigger] items[i] is Object,
    ensures
        events_from_items(items).len() == items.len(),
        forall|i: int| 0 <= i < items.len() ==> #[trigger] events_from_items(items)[i] == event_of_json(items[i]),
    decreases items.len(),
{
    if items.len() > 0 {
        let rest = items.drop_last();
        assert forall|i: int| 0 <= i < rest.len() implies #[trigger] rest[i] is Object by {
            assert(rest[i] == items[i]);
        }
        lemma_events_from_object_items(rest);
        assert(items[items.len() - 1] is Object);
    }
}

/// Law: typing into a text input stores what was typed in that input's
/// field and nothing else: the add form's name and date inputs fill the
/// add form and clear the banner, the modify form's fill the modify form.
/// The add form then shows the typed text in that input.
pub proof fn lemma_typed_text_is_stored(s: UiStateView, v: Seq<char>)
    ensures
        processor_state(s, UiEvent::Change, "event_name_input"@, v) == (UiStateView {
            event_data: EventDataView { name: v, ..s.event_data },
            error_message: None,
            ..s
        }),
        processor_state(s, UiEvent::Change, "event_time_input"@, v) == (UiStateView {
            event_data: EventDataView { time: v, ..s.event_data },
            error_message: None,
            ..s
        }),
        processor_state(s, UiEvent::Change, "modify_event_name_input"@, v) == (UiStateView {
            modify_event_data: EventDataView { name: v, ..s.modify_event_data },
            ..s
        }),
        processor_state(s, UiEvent::Change, "modify_event_time_input"@, v) == (UiStateView {
            modify_event_data: EventDataView { time: v, ..s.modify_event_data },
            ..s
        }),
        add_event_ui(processor_state(s, UiEvent::Change, "event_name_input"@, v)).children[0].children[1].text
            == Some(v),
        add_event_ui(processor_state(s, UiEvent::Change, "event_time_input"@, v)).children[1].children[1].text
            == Some(v),
{
    reveal_strlit("event_name_input");
    reveal_strlit("event_time_input");
    reveal_strlit("modify_event_name_input");
    reveal_strlit("modify_event_time_input");
    reveal_strlit("event_");
    reveal_strlit("modify_");
    assert("event_name_input"@.subrange(0, 6) =~= "event_"@);
    assert("event_time_input"@.subrange(0, 6) =~= "event_"@);
    assert("modify_event_name_input"@.subrange(0, 7) =~= "modify_"@);
    assert("modify_event_time_input"@.subrange(0, 7) =~= "modify_"@);
    assert("event_name_input"@[6] != "event_time_input"@[6]);
    assert("modify_event_name_input"@[13] != "modify_event_time_input"@[13]);
    assert("modify_event_name_input"@[0] != "event_name_input"@[0]);
    assert("modify_event_name_input"@[0] != "event_time_input"@[0]);
    assert("modify_event_time_input"@[0] != "event_name_input"@[0]);
    assert("modify_event_time_input"@[0] != "event_time_input"@[0]);
}

/// Law: the UI's content is the current tab's own form. On the add tab it
/// holds the add form (name and date inputs showing the add form's data,
/// the two flags, and the "send" button); on the modify tab the event
/// dropdown, inputs showing the modify form's data, the two flags and the
/// fetch or sync button; on the delete tab the event dropdown and the
/// fetch or delete button.
pub proof fn lemma_content_is_current_tab(s: UiStateView)
    ensures
        ({
            let main = main_ui(s);
            let c = main.children[main.children.len() - 1].children[0];
            &&& s.current_tab == EventType::AddEvent ==> {
                &&& c == add_event_ui(s)
                &&& c.children.len() == 5
                &&& c.children[0].children[1].text == Some(s.event_data.name)
                &&& c.children[1].children[1].text == Some(s.event_data.time)
                &&& c.children[1].children[1].attrs[0] == Attr::On(
                    UiEvent::Change,
                    crate::names::EVENT_TIME_INPUT_EVENT,
                )
                &&& c.children[4].text == Some("发送"@)
            }
            &&& s.current_tab == EventType::ModifyEvent ==> {
                &&& c == modify_event_ui(s)
                &&& c.children.len() == 6
                &&& c.children[0].children[0].text == Some("在这里选择你要修改的事件"@)
                &&& c.children[0].children[1].kind == ElementType::Select
                &&& c.children[1].children[1].text == Some(s.modify_event_data.name)
                &&& c.children[2].children[1].text == Some(s.modify_event_data.time)
                &&& c.children[2].children[1].attrs[0] == Attr::On(
                    UiEvent::Change,
                    crate::names::MODIFY_EVENT_TIME_INPUT_EVENT,
                )
            }
            &&& s.current_tab == EventType::DeleteEvent ==> {
                &&& c == delete_event_ui(s)
                &&& c.children.len() == 2
                &&& c.children[0].children[0].text == Some("在这里选择你要删除的事件"@)
                &&& c.children[0].children[1].kind == ElementType::Select
            }
        }),
{
    let main = main_ui(s);
    match s.error_message {
        Some(msg) => {
            assert(main.children.len() == 3);
        },
        None => {
            assert(main.children.len() == 2);
        },
    }
}

/// Law: the add form's default date is the Gregorian date of the clock
/// reading. A reading whose day count (seconds since the epoch over 86400)
/// is that of a Gregorian date from 1970 on (see
/// `lemma_day_count_is_gregorian`) gives that date's `YYYY-MM-DD` text.
pub proof fn lemma_today_is_gregorian(unix_seconds: u64, year: int, month: int, day: int)
    requires
        year >= 1970,
        1 <= month <= 12,
        1 <= day,
        day <= if month == 2 {
            if (year % 4 == 0 && year % 100 != 0) || year % 400 == 0 {
                29int
            } else {
                28int
            }
        } else if month == 4 || month == 6 || month == 9 || month == 11 {
            30int
        } else {
            31int
        },
        unix_seconds / 86400 == 365 * (year - 1970) + (year - 1) / 4 - (year - 1) / 100 + (year - 1)
            / 400 - 477 + (if month == 1 {
            0int
        } else if month == 2 {
            31int
        } else if month == 3 {
            59int
        } else if month == 4 {
            90int
        } else if month == 5 {
            120int
        } else if month == 6 {
            151int
        } else if month == 7 {
            181int
        } else if month == 8 {
            212int
        } else if month == 9 {
            243int
        } else if month == 10 {
            273int
        } else if month == 11 {
            304int
        } else {
            334int
        }) + (if month > 2 && ((year % 4 == 0 && year % 100 != 0) || year % 400 == 0) {
            1int
        } else {
            0int
        }) + day - 1,
    ensures
        today_text(unix_seconds) == date_text(year, month, day),
{
    crate::date::lemma_day_count_is_gregorian(year, month, day);
}

/// The click names that the buttons and tabs report differ from each other.
proof fn lemma_click_names_differ()
    ensures
        "add_event_button"@.len() == 16,
        "get_events_button"@.len() == 17,
        "change_event_button"@.len() == 19,
        "delete_event_button"@.len() == 19,
        "hide_error"@.len() == 10,
        "tab_add_event"@.len() == 13,
        "tab_modify_event"@.len() == 16,
        "tab_delete_event"@.len() == 16,
        "on_index_yes"@.len() == 12,
        "on_index_no"@.len() == 11,
        "if_staring_day_yes"@.len() == 18,
        "if_staring_day_no"@.len() == 17,
        "modify_on_index_yes"@.len() == 19,
        "modify_on_index_no"@.len() == 18,
        "modify_if_staring_day_yes"@.len() == 25,
        "modify_if_staring_day_no"@.len() == 24,
        "add_event_button"@ != "tab_modify_event"@,
        "add_event_button"@ != "tab_delete_event"@,
        "tab_modify_event"@ != "tab_delete_event"@,
        "get_events_button"@ != "if_staring_day_no"@,
        "change_event_button"@ != "delete_event_button"@,
        "change_event_button"@ != "modify_on_index_yes"@,
        "delete_event_button"@ != "modify_on_index_yes"@,
        "if_staring_day_yes"@ != "modify_on_index_no"@,
{
    reveal_strlit("add_event_button");
    reveal_strlit("get_events_button");
    reveal_strlit("change_event_button");
    reveal_strlit("delete_event_button");
    reveal_strlit("hide_error");
    reveal_strlit("tab_add_event");
    reveal_strlit("tab_modify_event");
    reveal_strlit("tab_delete_event");
    reveal_strlit("on_index_yes");
    reveal_strlit("on_index_no");
    reveal_strlit("if_staring_day_yes");
    reveal_strlit("if_staring_day_no");
    reveal_strlit("modify_on_index_yes");
    reveal_strlit("modify_on_index_no");
    reveal_strlit("modify_if_staring_day_yes");
    reveal_strlit("modify_if_staring_day_no");
    assert("add_event_button"@[0] != "tab_modify_event"@[0]);
    assert("add_event_button"@[0] != "tab_delete_event"@[0]);
    assert("tab_modify_event"@[4] != "tab_delete_event"@[4]);
    assert("get_events_button"@[0] != "if_staring_day_no"@[0]);
    assert("change_event_button"@[0] != "delete_event_button"@[0]);
    assert("change_event_button"@[0] != "modify_on_index_yes"@[0]);
    assert("delete_event_button"@[0] != "modify_on_index_yes"@[0]);
    assert("if_staring_day_yes"@[0] != "modify_on_index_no"@[0]);
}

/// Law: what a click on each tab and button does. A tab click shows that
/// tab; a click on the banner hides it; each yes/no button sets its flag
/// in its own form; "fetch" asks the band for the event list; "delete"
/// asks it to delete the selected event, or asks the user to select one;
/// "sync" sends the modify form for the selected event and "send" the add
/// form, when the form is valid. None of them changes anything else.
pub proof fn lemma_click_effects(s: UiStateView)
    ensures
        processor_state(s, UiEvent::Click, "tab_add_event"@, seq![]) == (UiStateView {
            current_tab: EventType::AddEvent,
            ..s
        }),
        processor_state(s, UiEvent::Click, "tab_modify_event"@, seq![]) == (UiStateView {
            current_tab: EventType::ModifyEvent,
            ..s
        }),
        processor_state(s, UiEvent::Click, "tab_delete_event"@, seq![]) == (UiStateView {
            current_tab: EventType::DeleteEvent,
            ..s
        }),
        processor_state(s, UiEvent::Click, "hide_error"@, seq![]) == (UiStateView {
            error_message: None,
            ..s
        }),
        processor_state(s, UiEvent::Click, "on_index_yes"@, seq![]) == (UiStateView {
            event_data: EventDataView { on_index: true, ..s.event_data },
            ..s
        }),
        processor_state(s, UiEvent::Click, "on_index_no"@, seq![]) == (UiStateView {
            event_data: EventDataView { on_index: false, ..s.event_data },
            ..s
        }),
        processor_state(s, UiEvent::Click, "if_staring_day_yes"@, seq![]) == (UiStateView {
            event_data: EventDataView { if_staring_day: true, ..s.event_data },
            ..s
        }),
        processor_state(s, UiEvent::Click, "if_staring_day_no"@, seq![]) == (UiStateView {
            event_data: EventDataView { if_staring_day: false, ..s.event_data },
            ..s
        }),
        processor_state(s, UiEvent::Click, "modify_on_index_yes"@, seq![]) == (UiStateView {
            modify_event_data: EventDataView { on_index: true, ..s.modify_event_data },
            ..s
        }),
        processor_state(s, UiEvent::Click, "modify_on_index_no"@, seq![]) == (UiStateView {
            modify_event_data: EventDataView { on_index: false, ..s.modify_event_data },
            ..s
        }),
        processor_state(s, UiEvent::Click, "modify_if_staring_day_yes"@, seq![]) == (UiStateView {
            modify_event_data: EventDataView { if_staring_day: true, ..s.modify_event_data },
            ..s
        }),
        processor_state(s, UiEvent::Click, "modify_if_staring_day_no"@, seq![]) == (UiStateView {
            modify_event_data: EventDataView { if_staring_day: false, ..s.modify_event_data },
            ..s
        }),
        processor_send(s, UiEvent::Click, "get_events_button"@) == Some(OutgoingView::GetAllEvents),
        processor_state(s, UiEvent::Click, "get_events_button"@, seq![]) == with_message(
            s,
            "正在发送，请稍等···"@,
            false,
        ),
        s.selected_event_index matches Some(i) ==> processor_send(
            s,
            UiEvent::Click,
            "delete_event_button"@,
        ) == Some(OutgoingView::DeleteEvent(i)),
        s.selected_event_index is None ==> processor_send(s, UiEvent::Click, "delete_event_button"@)
            is None && processor_state(s, UiEvent::Click, "delete_event_button"@, seq![])
            == with_message(s, "请选择你要删除的事件！"@, false),
        s.selected_event_index is None ==> processor_send(s, UiEvent::Click, "change_event_button"@)
            is None && processor_state(s, UiEvent::Click, "change_event_button"@, seq![])
            == with_message(s, "请选择你要修改的事件！"@, false),
        s.selected_event_index matches Some(i) ==> (form_problem(s.modify_event_data) is None
            ==> processor_send(s, UiEvent::Click, "change_event_button"@) == Some(
            OutgoingView::ChangeEvent(s.modify_event_data, i),
        )),
        form_problem(s.event_data) is None ==> processor_send(s, UiEvent::Click, "add_event_button"@)
            == Some(OutgoingView::AddEvent(s.event_data)),
{
    lemma_click_names_differ();
}

/// Law: after a click on a tab, the UI's content is that tab's form.
pub proof fn lemma_tab_click_shows_tab(s: UiStateView)
    ensures
        ({
            let t = processor_state(s, UiEvent::Click, "tab_add_event"@, seq![]);
            let main = main_ui(t);
            main.children[main.children.len() - 1].children[0] == add_event_ui(t)
        }),
        ({
            let t = processor_state(s, UiEvent::Click, "tab_modify_event"@, seq![]);
            let main = main_ui(t);
            main.children[main.children.len() - 1].children[0] == modify_event_ui(t)
        }),
        ({
            let t = processor_state(s, UiEvent::Click, "tab_delete_event"@, seq![]);
            let main = main_ui(t);
            main.children[main.children.len() - 1].children[0] == delete_event_ui(t)
        }),
{
    lemma_click_effects(s);
    lemma_content_is_current_tab(processor_state(s, UiEvent::Click, "tab_add_event"@, seq![]));
    lemma_content_is_current_tab(processor_state(s, UiEvent::Click, "tab_modify_event"@, seq![]));
    lemma_content_is_current_tab(processor_state(s, UiEvent::Click, "tab_delete_event"@, seq![]));
}

/// Law: a yes/no dropdown sets its flag in its own form: to true when the
/// answer is "是", to false for any other answer. The modify form's
/// dropdowns report names that start with "modify_", which the event
/// processor hands to the text-input handler, so through it they change
/// nothing; their own handler sets the flag.
pub proof fn lemma_flag_dropdowns(s: UiStateView, v: Seq<char>)
    ensures
        processor_state(s, UiEvent::Change, "on_index_change"@, v) == (UiStateView {
            event_data: EventDataView { on_index: v == "是"@, ..s.event_data },
            ..s
        }),
        processor_state(s, UiEvent::Change, "if_staring_day_change"@, v) == (UiStateView {
            event_data: EventDataView { if_staring_day: v == "是"@, ..s.event_data },
            ..s
        }),
        dropdown_step(s, "modify_on_index_change"@, v) == (UiStateView {
            modify_event_data: EventDataView { on_index: v == "是"@, ..s.modify_event_data },
            ..s
        }),
        processor_state(s, UiEvent::Change, "modify_on_index_change"@, v) == s,
        processor_state(s, UiEvent::Change, "modify_if_staring_day_change"@, v) == s,
        dropdown_step(s, "modify_if_staring_day_change"@, v) == (UiStateView {
            modify_event_data: EventDataView { if_staring_day: v == "是"@, ..s.modify_event_data },
            ..s
        }),
{
    reveal_strlit("on_index_change");
    reveal_strlit("if_staring_day_change");
    reveal_strlit("modify_on_index_change");
    reveal_strlit("modify_if_staring_day_change");
    reveal_strlit("event_");
    reveal_strlit("modify_");
    assert("on_index_change"@.subrange(0, 6) != "event_"@) by {
        assert("on_index_change"@.subrange(0, 6)[0] != "event_"@[0]);
    }
    assert("on_index_change"@.subrange(0, 7) != "modify_"@) by {
        assert("on_index_change"@.subrange(0, 7)[0] != "modify_"@[0]);
    }
    assert("if_staring_day_change"@.subrange(0, 6) != "event_"@) by {
        assert("if_staring_day_change"@.subrange(0, 6)[0] != "event_"@[0]);
    }
    assert("if_staring_day_change"@.subrange(0, 7) != "modify_"@) by {
        assert("if_staring_day_change"@.subrange(0, 7)[0] != "modify_"@[0]);
    }
    assert("on_index_change"@.len() == 15);
    assert("if_staring_day_change"@.len() == 21);
    assert("modify_on_index_change"@.len() == 22);
    assert("modify_if_staring_day_change"@.len() == 28);
    assert("modify_on_index_change"@.subrange(0, 7) =~= "modify_"@);
    assert("modify_if_staring_day_change"@.subrange(0, 7) =~= "modify_"@);
    reveal_strlit("event_name_input");
    reveal_strlit("event_time_input");
    reveal_strlit("modify_event_name_input");
    reveal_strlit("modify_event_time_input");
    assert("event_name_input"@.len() == 16);
    assert("event_time_input"@.len() == 16);
    assert("modify_event_name_input"@.len() == 23);
    assert("modify_event_time_input"@.len() == 23);
}

/// Law: a send goes on to start the band app only when the band has the
/// countdown-day app ("com.yzf.daymatter") with a version code of 21000 or
/// more; the first such entry of the app list is the one started. Without
/// it the user is asked to install it, and with an older version to
/// install the new one; the send then ends.
pub proof fn lemma_app_check(s: UiStateView, f: SendFlowView, apps: Vec<InstalledApp>)
    requires
        f.stage == FlowStage::CheckingApp,
    ensures
        ({
            let r = flow_next(s, f, HostReply::Apps(Some(apps)));
            (forall|j: int| 0 <= j < apps@.len() ==> (#[trigger] apps@[j]).package_name@ != "com.yzf.daymatter"@)
                ==> r.2 is None && r.0.error_message == Some("请先安装倒数日快应用"@)
        }),
        forall|k: int|
            #![trigger apps@[k]]
            0 <= k < apps@.len() && apps@[k].package_name@ == "com.yzf.daymatter"@ && (forall|j: int|
                0 <= j < k ==> apps@[j].package_name@ != "com.yzf.daymatter"@) ==> {
                let r = flow_next(s, f, HostReply::Apps(Some(apps)));
                &&& apps@[k].version_code >= 21000 ==> r.2 == Some(
                    (
                        SendFlowView { stage: FlowStage::LaunchingApp, ..f },
                        HostCallView::LaunchApp(f.device_addr, k as usize),
                    ),
                )
                &&& apps@[k].version_code < 21000 ==> r.2 is None && r.0.error_message == Some(
                    "请先安装倒数日快应用的新版本！"@,
                )
            },
{
    let a = apps@;
    assert forall|k: int|
        #![trigger apps@[k]]
        0 <= k < apps@.len() && apps@[k].package_name@ == "com.yzf.daymatter"@ && (forall|j: int|
            0 <= j < k ==> apps@[j].package_name@ != "com.yzf.daymatter"@) implies first_daymatter(a)
        == Some(k) by {
        let c = choose|c: int|
            0 <= c < a.len() && a[c].package_name@ == crate::names::DAYMATTER_PACKAGE@ && forall|j: int|
                0 <= j < c ==> a[j].package_name@ != crate::names::DAYMATTER_PACKAGE@;
        assert(c == k) by {
            if c < k {
                assert(a[c].package_name@ != "com.yzf.daymatter"@);
            } else if c > k {
                assert(a[k].package_name@ != crate::names::DAYMATTER_PACKAGE@);
            }
        }
    }
}

/// Law: the first and last steps of a send. The send goes to the first
/// connected band, or ends telling the user that no band was found. Once
/// the band app listens, the request's JSON text is sent to the band; when
/// the band confirms it, the state is the one after the request took
/// effect, and when it does not, the user is told that the send failed.
pub proof fn lemma_send_outcome(s: UiStateView, f: SendFlowView, devices: Vec<String>)
    ensures
        f.stage == FlowStage::FindingDevice && devices@.len() == 0 ==> flow_next(
            s,
            f,
            HostReply::Devices(devices),
        ).2 is None && flow_next(s, f, HostReply::Devices(devices)).0 == with_message(
            s,
            "未找到设备"@,
            false,
        ),
        f.stage == FlowStage::FindingDevice && devices@.len() > 0 ==> flow_next(
            s,
            f,
            HostReply::Devices(devices),
        ).2 == Some(
            (
                SendFlowView { stage: FlowStage::CheckingApp, device_addr: devices@[0]@, ..f },
                HostCallView::ListApps(devices@[0]@),
            ),
        ),
        f.stage == FlowStage::Registering ==> flow_next(s, f, HostReply::Registered).2 == Some(
            (
                SendFlowView { stage: FlowStage::Sending, ..f },
                HostCallView::SendMessage(f.device_addr, payload_text(f.request)),
            ),
        ),
        f.stage == FlowStage::Sending ==> flow_next(s, f, HostReply::Sent(true)).0 == completion_state(
            s,
            f.request,
        ) && flow_next(s, f, HostReply::Sent(true)).2 is None,
        f.stage == FlowStage::Sending ==> flow_next(s, f, HostReply::Sent(false)).0 == with_message(
            s,
            "发送失败，请重试"@,
            false,
        ) && flow_next(s, f, HostReply::Sent(false)).2 is None,
{
}

/// Law: a message from the band whose body has a "data" array of objects
/// replaces the event list with one event per item, in order, each read
/// from its item, marks the list as fetched and reports success. A message
/// without such a list changes nothing.
pub proof fn lemma_band_list_replaces_events(s: UiStateView, body: JsonValue, items: Seq<JsonValue>)
    ensures
        (json_get(body, "data"@) matches Some(JsonValue::Array(a)) && a@ == items && forall|i: int|
            0 <= i < items.len() ==> #[trigger] items[i] is Object) ==> {
            let t = interconnect_step(s, Some(body));
            &&& t.all_events.len() == items.len()
            &&& forall|i: int| 0 <= i < items.len() ==> #[trigger] t.all_events[i] == event_of_json(items[i])
            &&& t.has_fetched_events
            &&& t.error_message == Some("获取手环端数据成功！"@)
            &&& t.is_success_message
            &&& t.event_data == s.event_data
            &&& t.modify_event_data == s.modify_event_data
            &&& t.current_tab == s.current_tab
        },
        !(json_get(body, "data"@) matches Some(JsonValue::Array(_))) ==> interconnect_step(
            s,
            Some(body),
        ) == s,
        interconnect_step(s, None) == s,
{
    if json_get(body, "data"@) matches Some(JsonValue::Array(a)) && a@ == items && forall|i: int|
        0 <= i < items.len() ==> #[trigger] items[i] is Object {
        lemma_fetched_list_follows_items(body, items);
    }
}

/// Law: the JSON text of each request to the band: its "type", then for an
/// add or a change the event's name and date as strings and its two flags
/// as `true` or `false` under "on_index" and "IFStaringDay" (the keys that
/// the band's event list is read by), and for a change or a delete the
/// event's position in decimal under "index".
pub proof fn lemma_request_text(d: EventDataView, index: usize)
    ensures
        payload_text(OutgoingView::AddEvent(d)) =~= "{\"type\":\"addEvent\",\"name\":\""@ + d.name
            + "\",\"date\":\""@ + d.time + "\",\"on_index\":"@ + (if d.on_index {
            "true"@
        } else {
            "false"@
        }) + ",\"IFStaringDay\":"@ + (if d.if_staring_day {
            "true"@
        } else {
            "false"@
        }) + "}"@,
        payload_text(OutgoingView::ChangeEvent(d, index)) =~= "{\"type\":\"changeEvent\",\"name\":\""@
            + d.name + "\",\"date\":\""@ + d.time + "\",\"on_index\":"@ + (if d.on_index {
            "true"@
        } else {
            "false"@
        }) + ",\"IFStaringDay\":"@ + (if d.if_staring_day {
            "true"@
        } else {
            "false"@
        }) + ",\"index\":"@ + decimal(index as nat) + "}"@,
        payload_text(OutgoingView::DeleteEvent(index)) =~= "{\"type\":\"deleteEvent\",\"index\":"@
            + decimal(index as nat) + "}"@,
        payload_text(OutgoingView::GetAllEvents) =~= "{\"type\":\"getAllEvent\"}"@,
{
}

} // verus!
