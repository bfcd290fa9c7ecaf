use daymatter_astrobox_v2_plugin::element::{Attr, Element, ElementType};
use daymatter_astrobox_v2_plugin::events::UiEvent;
use daymatter_astrobox_v2_plugin::state::{ui_state, EventData, EventType, UiState};
use daymatter_astrobox_v2_plugin::ui::{
    build_add_event_ui, build_delete_event_ui, build_main_ui, build_modify_event_ui,
    render_main_ui,
};

fn s(t: &str) -> String {
    t.to_string()
}

fn bg(e: &Element) -> &'static str {
    for a in &e.attrs {
        if let Attr::Bg(c) = a {
            return c;
        }
    }
    ""
}

fn fetched() -> UiState {
    let mut st = ui_state(0);
    st.all_events = vec![
        EventData { name: s("生日"), time: s("2024-05-01"), on_index: false, if_staring_day: false },
        EventData { name: s("考试"), time: s("2024-06-07"), on_index: true, if_staring_day: true },
    ];
    st.has_fetched_events = true;
    st
}

#[test]
fn main_ui_has_tabs_and_content_without_a_banner() {
    let st = ui_state(0);
    let ui = build_main_ui(&st);
    assert_eq!(ui.kind, ElementType::Div);
    assert_eq!(ui.children.len(), 2);
    let bar = &ui.children[0].children[0];
    assert_eq!(bar.children.len(), 3);
    assert_eq!(bar.children[0].text, Some(s("添加事件")));
    assert_eq!(bg(&bar.children[0]), "#424242");
    assert_eq!(bg(&bar.children[1]), "#2A2A2A");
    assert_eq!(bg(&bar.children[2]), "#2A2A2A");
}

#[test]
fn banner_is_green_for_success_and_red_for_errors() {
    let mut st = ui_state(0);
    st.error_message = Some(s("发送成功！"));
    st.is_success_message = true;
    let ui = build_main_ui(&st);
    assert_eq!(ui.children.len(), 3);
    assert_eq!(bg(&ui.children[0]), "#4CAF50");
    assert_eq!(ui.children[0].children[0].text, Some(s("发送成功！")));
    assert!(ui.children[0]
        .attrs
        .iter()
        .any(|a| matches!(a, Attr::On(UiEvent::Click, "hide_error"))));
    st.is_success_message = false;
    let ui = build_main_ui(&st);
    assert_eq!(bg(&ui.children[0]), "#FF4444");
}

#[test]
fn hovered_tab_is_lighter_but_the_current_tab_wins() {
    let mut st = ui_state(0);
    st.hovered_button = Some(s("tab_delete_event"));
    let ui = build_main_ui(&st);
    let bar = &ui.children[0].children[0];
    assert_eq!(bg(&bar.children[2]), "#4b4b4b");
    st.hovered_button = Some(s("tab_add_event"));
    let ui = build_main_ui(&st);
    assert_eq!(bg(&ui.children[0].children[0].children[0]), "#424242");
}

#[test]
fn add_tab_shows_the_form() {
    let mut st = ui_state(0);
    st.event_data.name = s("生日");
    st.event_data.on_index = true;
    let ui = build_add_event_ui(&st);
    assert_eq!(ui.children.len(), 5);
    assert_eq!(ui.children[0].children[1].text, Some(s("生日")));
    assert_eq!(ui.children[1].children[1].text, Some(s("1970-01-01")));
    let on_index_buttons = &ui.children[2].children[1];
    assert_eq!(bg(&on_index_buttons.children[0]), "#424242");
    assert_eq!(bg(&on_index_buttons.children[1]), "#2A2A2A");
    assert_eq!(ui.children[4].text, Some(s("发送")));
}

#[test]
fn modify_tab_lists_the_events_and_offers_sync_once_fetched() {
    let st = fetched();
    let ui = build_modify_event_ui(&st);
    assert_eq!(ui.children.len(), 6);
    let dropdown = &ui.children[0].children[1];
    assert_eq!(dropdown.kind, ElementType::Select);
    assert_eq!(dropdown.text, Some(s("选择事件")));
    assert_eq!(dropdown.children.len(), 2);
    assert_eq!(dropdown.children[0].text, Some(s("1　生日")));
    assert_eq!(dropdown.children[1].text, Some(s("2　考试")));
    assert_eq!(ui.children[5].children[0].text, Some(s("同步")));
}

#[test]
fn modify_tab_offers_fetching_first() {
    let st = ui_state(0);
    let ui = build_modify_event_ui(&st);
    let dropdown = &ui.children[0].children[1];
    assert_eq!(dropdown.children.len(), 1);
    assert_eq!(dropdown.children[0].text, Some(s("选择事件")));
    assert_eq!(ui.children[5].children[0].text, Some(s("获取手环端数据")));
}

#[test]
fn delete_tab_shows_the_selection_and_the_delete_button() {
    let mut st = fetched();
    st.selected_event_name = Some(s("2　考试"));
    st.current_tab = EventType::DeleteEvent;
    let ui = build_delete_event_ui(&st);
    assert_eq!(ui.children.len(), 2);
    assert_eq!(ui.children[0].children[1].text, Some(s("2　考试")));
    assert_eq!(ui.children[1].children[0].text, Some(s("删除")));
    let main = build_main_ui(&st);
    assert_eq!(main.children[1].children[0].children.len(), 2);
}

#[test]
fn rendering_mounts_the_ui() {
    let mut st = ui_state(0);
    let ui = render_main_ui(&mut st, "root-1");
    assert_eq!(st.root_element_id, Some(s("root-1")));
    assert_eq!(ui.children.len(), 2);
}
