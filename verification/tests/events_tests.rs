use daymatter_astrobox_v2_plugin::events::{
    change_value, event_would_crash, events_from_json, handle_interconnect_message,
    interconnect_data_text, ui_event_processor, Outgoing, UiEvent,
};
use daymatter_astrobox_v2_plugin::json::JsonValue;
use daymatter_astrobox_v2_plugin::state::{
    banner_timer, handle_timer_event, ui_state, EventData, EventType, UiState,
};

fn s(t: &str) -> String {
    t.to_string()
}

fn obj(members: Vec<(&str, JsonValue)>) -> JsonValue {
    JsonValue::Object(members.into_iter().map(|(k, v)| (k.to_string(), v)).collect())
}

fn event(name: &str, time: &str) -> EventData {
    EventData { name: s(name), time: s(time), on_index: false, if_staring_day: true }
}

fn fetched_state() -> UiState {
    let mut st = ui_state(0);
    st.root_element_id = Some(s("root"));
    st.all_events = vec![event("生日", "2024-05-01"), event("考试", "2024-06-07")];
    st.has_fetched_events = true;
    st
}

#[test]
fn initial_state_starts_on_the_add_tab_dated_today() {
    let st = ui_state(1_709_164_800);
    assert_eq!(st.current_tab, EventType::AddEvent);
    assert_eq!(st.event_data.time, "2024-02-29");
    assert_eq!(st.event_data.name, "");
    assert_eq!(st.modify_event_data.time, "");
    assert!(st.all_events.is_empty());
    assert!(st.root_element_id.is_none());
    assert!(st.error_message.is_none());
    assert!(!st.has_fetched_events);
}

#[test]
fn change_value_reads_the_value_field_or_the_raw_payload() {
    let parsed = obj(vec![("value", JsonValue::Str(s("abc")))]);
    assert_eq!(change_value("{\"value\":\"abc\"}", Some(&parsed)), "abc");
    let no_value = obj(vec![("other", JsonValue::Str(s("x")))]);
    assert_eq!(change_value("{\"other\":\"x\"}", Some(&no_value)), "");
    let number = obj(vec![("value", JsonValue::Number)]);
    assert_eq!(change_value("{\"value\":1}", Some(&number)), "");
    assert_eq!(change_value("plain", None), "plain");
}

#[test]
fn name_input_sets_the_name_and_clears_the_banner_without_redraw() {
    let mut st = ui_state(0);
    st.error_message = Some(s("old"));
    let r = ui_event_processor(&mut st, UiEvent::Change, "event_name_input", "纪念日", None);
    assert!(!r.render);
    assert!(r.send.is_none());
    assert_eq!(st.event_data.name, "纪念日");
    assert!(st.error_message.is_none());
}

#[test]
fn modify_inputs_keep_the_banner() {
    let mut st = ui_state(0);
    st.error_message = Some(s("old"));
    ui_event_processor(&mut st, UiEvent::Change, "modify_event_time_input", "2025-01-01", None);
    assert_eq!(st.modify_event_data.time, "2025-01-01");
    assert_eq!(st.error_message, Some(s("old")));
}

#[test]
fn modify_flag_dropdowns_are_taken_as_text_inputs_and_ignored() {
    let mut st = ui_state(0);
    st.root_element_id = Some(s("root"));
    let r = ui_event_processor(&mut st, UiEvent::Change, "modify_on_index_change", "是", None);
    assert!(!r.render);
    assert!(!st.modify_event_data.on_index);
}

#[test]
fn flag_dropdown_reads_yes() {
    let mut st = ui_state(0);
    st.root_element_id = Some(s("root"));
    let r = ui_event_processor(&mut st, UiEvent::Change, "on_index_change", "是", None);
    assert!(r.render);
    assert!(st.event_data.on_index);
    ui_event_processor(&mut st, UiEvent::Change, "on_index_change", "否", None);
    assert!(!st.event_data.on_index);
}

#[test]
fn choosing_a_dropdown_option_loads_the_event() {
    let mut st = fetched_state();
    let r = ui_event_processor(&mut st, UiEvent::Change, "select_event_dropdown", "2　考试", None);
    assert!(r.render);
    assert_eq!(st.selected_event_index, Some(1));
    assert_eq!(st.modify_event_data.name, "考试");
    assert_eq!(st.modify_event_data.time, "2024-06-07");
    assert!(st.modify_event_data.if_staring_day);
    assert_eq!(st.selected_event_name, Some(s("2　考试")));
}

#[test]
fn choosing_a_number_past_the_list_selects_without_loading() {
    let mut st = fetched_state();
    ui_event_processor(&mut st, UiEvent::Change, "select_event_dropdown", "5　x", None);
    assert_eq!(st.selected_event_index, Some(4));
    assert_eq!(st.modify_event_data.name, "");
    assert!(st.selected_event_name.is_none());
}

#[test]
fn option_text_without_a_number_changes_nothing() {
    let mut st = fetched_state();
    ui_event_processor(&mut st, UiEvent::Change, "select_event_dropdown", "选择事件", None);
    assert!(st.selected_event_index.is_none());
    ui_event_processor(&mut st, UiEvent::Change, "select_event_dropdown", "x　考试", None);
    assert!(st.selected_event_index.is_none());
}

#[test]
fn an_option_numbered_zero_is_flagged_before_handling() {
    let st = fetched_state();
    assert!(event_would_crash(&st, UiEvent::Change, "select_event_dropdown", "0　x", None));
    assert!(!event_would_crash(&st, UiEvent::Change, "select_event_dropdown", "1　x", None));
    let parsed = obj(vec![("value", JsonValue::Str(s("0　生日")))]);
    assert!(event_would_crash(&st, UiEvent::Change, "select_event_dropdown", "{}", Some(&parsed)));
    assert!(!event_would_crash(&st, UiEvent::Change, "on_index_change", "0　x", None));
}

#[test]
fn hover_marks_and_leave_clears() {
    let mut st = ui_state(0);
    st.root_element_id = Some(s("root"));
    let r = ui_event_processor(&mut st, UiEvent::MouseEnter, "tab_modify_event", "", None);
    assert!(r.render);
    assert_eq!(st.hovered_button, Some(s("tab_modify_event")));
    let r = ui_event_processor(&mut st, UiEvent::MouseLeave, "button_mouse_leave", "", None);
    assert!(r.render);
    assert!(st.hovered_button.is_none());
}

#[test]
fn unmounted_ui_is_not_redrawn() {
    let mut st = ui_state(0);
    let r = ui_event_processor(&mut st, UiEvent::MouseEnter, "x", "", None);
    assert!(!r.render);
    let r = ui_event_processor(&mut st, UiEvent::Other, "x", "", None);
    assert!(!r.render);
}

#[test]
fn tab_clicks_switch_the_tab() {
    let mut st = ui_state(0);
    st.root_element_id = Some(s("root"));
    let r = ui_event_processor(&mut st, UiEvent::Click, "tab_delete_event", "", None);
    assert!(r.render);
    assert_eq!(st.current_tab, EventType::DeleteEvent);
    ui_event_processor(&mut st, UiEvent::Click, "tab_modify_event", "", None);
    assert_eq!(st.current_tab, EventType::ModifyEvent);
    ui_event_processor(&mut st, UiEvent::Click, "tab_add_event", "", None);
    assert_eq!(st.current_tab, EventType::AddEvent);
}

#[test]
fn yes_no_buttons_set_the_flags() {
    let mut st = ui_state(0);
    ui_event_processor(&mut st, UiEvent::Click, "on_index_yes", "", None);
    ui_event_processor(&mut st, UiEvent::Click, "if_staring_day_yes", "", None);
    ui_event_processor(&mut st, UiEvent::Click, "modify_on_index_yes", "", None);
    ui_event_processor(&mut st, UiEvent::Click, "modify_if_staring_day_yes", "", None);
    assert!(st.event_data.on_index && st.event_data.if_staring_day);
    assert!(st.modify_event_data.on_index && st.modify_event_data.if_staring_day);
    ui_event_processor(&mut st, UiEvent::Click, "on_index_no", "", None);
    ui_event_processor(&mut st, UiEvent::Click, "modify_if_staring_day_no", "", None);
    assert!(!st.event_data.on_index && !st.modify_event_data.if_staring_day);
}

#[test]
fn unknown_clicks_do_nothing() {
    let mut st = ui_state(0);
    st.root_element_id = Some(s("root"));
    let r = ui_event_processor(&mut st, UiEvent::Click, "tab_change", "", None);
    assert!(!r.render);
    assert!(r.send.is_none());
}

#[test]
fn hide_error_clears_the_banner() {
    let mut st = ui_state(0);
    st.error_message = Some(s("x"));
    ui_event_processor(&mut st, UiEvent::Click, "hide_error", "", None);
    assert!(st.error_message.is_none());
}

#[test]
fn add_with_empty_name_is_refused() {
    let mut st = ui_state(0);
    let r = ui_event_processor(&mut st, UiEvent::Click, "add_event_button", "", None);
    assert!(r.send.is_none());
    assert_eq!(st.error_message, Some(s("事件名称不能为空")));
    assert!(!st.is_success_message);
}

#[test]
fn add_with_bad_date_shows_the_date_error() {
    let mut st = ui_state(0);
    st.event_data.name = s("x");
    st.event_data.time = s("2024-02-30");
    let r = ui_event_processor(&mut st, UiEvent::Click, "add_event_button", "", None);
    assert!(r.send.is_none());
    assert_eq!(st.error_message, Some(s("日期无效")));
}

#[test]
fn valid_add_starts_a_send() {
    let mut st = ui_state(0);
    st.root_element_id = Some(s("root"));
    st.event_data.name = s("生日");
    st.event_data.on_index = true;
    let r = ui_event_processor(&mut st, UiEvent::Click, "add_event_button", "", None);
    assert!(r.render);
    assert_eq!(st.error_message, Some(s("正在发送，请稍等···")));
    assert!(!st.is_success_message);
    match r.send {
        Some(Outgoing::AddEvent(d)) => {
            assert_eq!(d.name, "生日");
            assert_eq!(d.time, "1970-01-01");
            assert!(d.on_index);
        }
        _ => panic!("expected an add request"),
    }
}

#[test]
fn change_needs_a_selection_then_a_valid_form() {
    let mut st = fetched_state();
    let r = ui_event_processor(&mut st, UiEvent::Click, "change_event_button", "", None);
    assert!(r.send.is_none());
    assert_eq!(st.error_message, Some(s("请选择你要修改的事件！")));
    ui_event_processor(&mut st, UiEvent::Change, "select_event_dropdown", "1　生日", None);
    st.modify_event_data.time = s("2024-13-01");
    let r = ui_event_processor(&mut st, UiEvent::Click, "change_event_button", "", None);
    assert!(r.send.is_none());
    assert_eq!(st.error_message, Some(s("月份必须在 1-12 之间")));
    st.modify_event_data.time = s("2024-12-01");
    let r = ui_event_processor(&mut st, UiEvent::Click, "change_event_button", "", None);
    match r.send {
        Some(Outgoing::ChangeEvent(d, 0)) => assert_eq!(d.time, "2024-12-01"),
        _ => panic!("expected a change request"),
    }
}

#[test]
fn delete_needs_a_selection() {
    let mut st = fetched_state();
    let r = ui_event_processor(&mut st, UiEvent::Click, "delete_event_button", "", None);
    assert!(r.send.is_none());
    assert_eq!(st.error_message, Some(s("请选择你要删除的事件！")));
    st.selected_event_index = Some(1);
    let r = ui_event_processor(&mut st, UiEvent::Click, "delete_event_button", "", None);
    assert!(matches!(r.send, Some(Outgoing::DeleteEvent(1))));
}

#[test]
fn get_events_always_starts_a_send() {
    let mut st = ui_state(0);
    let r = ui_event_processor(&mut st, UiEvent::Click, "get_events_button", "", None);
    assert!(matches!(r.send, Some(Outgoing::GetAllEvents)));
    assert_eq!(st.error_message, Some(s("正在发送，请稍等···")));
}

#[test]
fn a_ten_byte_date_outside_ascii_is_refused_as_a_format_error() {
    let mut st = ui_state(0);
    st.event_data.name = s("x");
    st.event_data.time = s("日日日x");
    assert!(!event_would_crash(&st, UiEvent::Click, "add_event_button", "", None));
    let r = ui_event_processor(&mut st, UiEvent::Click, "add_event_button", "", None);
    assert!(r.send.is_none());
    assert_eq!(st.error_message, Some(s("时间格式必须为 YYYY-MM-DD")));
    assert!(!st.is_success_message);
}

#[test]
fn band_message_with_payload_text_replaces_the_list() {
    let outer = obj(vec![("payloadText", JsonValue::Str(s("{\"data\":[]}")))]);
    assert_eq!(interconnect_data_text("{\"payloadText\":\"...\"}", &outer), "{\"data\":[]}");
    let plain = obj(vec![("data", JsonValue::Array(vec![]))]);
    assert_eq!(interconnect_data_text("{\"data\":[]}", &plain), "{\"data\":[]}");

    let body = obj(vec![(
        "data",
        JsonValue::Array(vec![
            obj(vec![
                ("name", JsonValue::Str(s("生日"))),
                ("date", JsonValue::Str(s("2024-05-01"))),
                ("on_index", JsonValue::Bool(true)),
                ("IFStaringDay", JsonValue::Bool(false)),
            ]),
            JsonValue::Number,
            obj(vec![("name", JsonValue::Number), ("on_index", JsonValue::Str(s("yes")))]),
        ]),
    )]);
    let events = events_from_json(&body).unwrap();
    assert_eq!(events.len(), 2);
    assert_eq!(events[0].name, "生日");
    assert_eq!(events[0].time, "2024-05-01");
    assert!(events[0].on_index && !events[0].if_staring_day);
    assert_eq!(events[1].name, "");
    assert_eq!(events[1].time, "");
    assert!(!events[1].on_index);

    let mut st = ui_state(0);
    st.root_element_id = Some(s("root"));
    assert!(handle_interconnect_message(&mut st, Some(&body)));
    assert_eq!(st.all_events.len(), 2);
    assert!(st.has_fetched_events);
    assert_eq!(st.error_message, Some(s("获取手环端数据成功！")));
    assert!(st.is_success_message);
}

#[test]
fn band_message_without_a_list_changes_nothing() {
    let mut st = ui_state(0);
    st.root_element_id = Some(s("root"));
    let no_data = obj(vec![("type", JsonValue::Str(s("x")))]);
    assert!(!handle_interconnect_message(&mut st, Some(&no_data)));
    let not_array = obj(vec![("data", JsonValue::Str(s("x")))]);
    assert!(!handle_interconnect_message(&mut st, Some(&not_array)));
    assert!(!handle_interconnect_message(&mut st, None));
    assert!(!st.has_fetched_events);
    assert!(st.error_message.is_none());
    assert!(events_from_json(&JsonValue::Array(vec![])).is_none());
}

#[test]
fn every_banner_shown_asks_for_the_three_second_hide_timer() {
    let mut st = ui_state(0);
    st.root_element_id = Some(s("root"));
    let before = st.banner_generation;
    ui_event_processor(&mut st, UiEvent::Click, "add_event_button", "", None);
    let timer = banner_timer(before, &st).unwrap();
    assert_eq!(timer.delay_ms, 3000);
    assert_eq!(timer.name, "hide_message");
    // The same banner shown again asks for a timer of its own.
    let before = st.banner_generation;
    ui_event_processor(&mut st, UiEvent::Click, "add_event_button", "", None);
    assert_eq!(st.error_message, Some(s("事件名称不能为空")));
    assert!(banner_timer(before, &st).is_some());
    // A step that puts up no banner asks for none.
    let before = st.banner_generation;
    ui_event_processor(&mut st, UiEvent::MouseEnter, "tab_add_event", "", None);
    assert!(banner_timer(before, &st).is_none());
    // Hiding the banner asks for none either.
    let before = st.banner_generation;
    ui_event_processor(&mut st, UiEvent::Click, "hide_error", "", None);
    assert!(banner_timer(before, &st).is_none());
}

#[test]
fn the_hide_timer_takes_the_banner_down() {
    let mut st = ui_state(0);
    st.root_element_id = Some(s("root"));
    st.error_message = Some(s("发送成功！"));
    st.is_success_message = true;
    assert!(!handle_timer_event(&mut st, "other_timer"));
    assert_eq!(st.error_message, Some(s("发送成功！")));
    assert!(handle_timer_event(&mut st, "hide_message"));
    assert!(st.error_message.is_none());
}
