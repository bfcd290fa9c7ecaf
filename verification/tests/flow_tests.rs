use daymatter_astrobox_v2_plugin::events::Outgoing;
use daymatter_astrobox_v2_plugin::flow::{
    begin_send, completion_would_crash, flow_step, payload, FlowStage, HostCall, HostReply, InstalledApp, SendFlow,
};
use daymatter_astrobox_v2_plugin::state::{ui_state, EventData, UiState};

fn s(t: &str) -> String {
    t.to_string()
}

fn event(name: &str, time: &str) -> EventData {
    EventData { name: s(name), time: s(time), on_index: true, if_staring_day: false }
}

fn mounted_state() -> UiState {
    let mut st = ui_state(0);
    st.root_element_id = Some(s("root"));
    st.all_events = vec![event("a", "2024-01-01"), event("b", "2024-02-02"), event("c", "2024-03-03")];
    st.has_fetched_events = true;
    st
}

fn app(name: &str, version: u64) -> InstalledApp {
    InstalledApp { package_name: s(name), version_code: version }
}

/// Runs a send to completion with a band that has the app and takes the message.
fn run_to_sending(st: &mut UiState, request: Outgoing) -> (SendFlow, String) {
    let (flow, call) = begin_send(request);
    assert!(matches!(call, HostCall::ListDevices));
    let step = flow_step(st, flow, HostReply::Devices(vec![s("AA:BB"), s("CC:DD")]));
    assert!(!step.render);
    let (flow, call) = step.next.unwrap();
    assert!(matches!(&call, HostCall::ListApps(a) if a == "AA:BB"));
    let apps = vec![app("other", 1), app("com.yzf.daymatter", 21000)];
    let step = flow_step(st, flow, HostReply::Apps(Some(apps)));
    let (flow, call) = step.next.unwrap();
    assert!(matches!(&call, HostCall::LaunchApp(a, 1) if a == "AA:BB"));
    let step = flow_step(st, flow, HostReply::Launched);
    let (flow, call) = step.next.unwrap();
    assert!(matches!(&call, HostCall::RegisterReceiver(a) if a == "AA:BB"));
    let step = flow_step(st, flow, HostReply::Registered);
    let (flow, call) = step.next.unwrap();
    assert_eq!(flow.stage, FlowStage::Sending);
    match call {
        HostCall::SendMessage(addr, text) => {
            assert_eq!(addr, "AA:BB");
            (flow, text)
        }
        _ => panic!("expected a send"),
    }
}

#[test]
fn payloads_are_the_band_apps_json() {
    assert_eq!(
        payload(&Outgoing::AddEvent(event("生日", "2024-05-01"))),
        "{\"type\":\"addEvent\",\"name\":\"生日\",\"date\":\"2024-05-01\",\"on_index\":true,\"IFStaringDay\":false}"
    );
    assert_eq!(payload(&Outgoing::GetAllEvents), "{\"type\":\"getAllEvent\"}");
    assert_eq!(
        payload(&Outgoing::ChangeEvent(event("x", "2024-01-02"), 12)),
        "{\"type\":\"changeEvent\",\"name\":\"x\",\"date\":\"2024-01-02\",\"on_index\":true,\"IFStaringDay\":false,\"index\":12}"
    );
    assert_eq!(payload(&Outgoing::DeleteEvent(0)), "{\"type\":\"deleteEvent\",\"index\":0}");
}

#[test]
fn no_device_ends_the_send_with_an_error() {
    let mut st = mounted_state();
    let (flow, _) = begin_send(Outgoing::GetAllEvents);
    let step = flow_step(&mut st, flow, HostReply::Devices(vec![]));
    assert!(step.render);
    assert!(step.next.is_none());
    assert_eq!(st.error_message, Some(s("未找到设备")));
    assert!(!st.is_success_message);
}

fn at_app_check(st: &mut UiState) -> SendFlow {
    let (flow, _) = begin_send(Outgoing::GetAllEvents);
    flow_step(st, flow, HostReply::Devices(vec![s("AA")])).next.unwrap().0
}

#[test]
fn app_list_failure_missing_app_and_old_app_are_reported() {
    let mut st = mounted_state();
    let flow = at_app_check(&mut st);
    assert!(flow_step(&mut st, flow, HostReply::Apps(None)).next.is_none());
    assert_eq!(st.error_message, Some(s("获取应用列表失败")));

    let flow = at_app_check(&mut st);
    assert!(flow_step(&mut st, flow, HostReply::Apps(Some(vec![app("x", 99999)]))).next.is_none());
    assert_eq!(st.error_message, Some(s("请先安装倒数日快应用")));

    let flow = at_app_check(&mut st);
    let step = flow_step(&mut st, flow, HostReply::Apps(Some(vec![app("com.yzf.daymatter", 20999)])));
    assert!(step.next.is_none());
    assert!(step.render);
    assert_eq!(st.error_message, Some(s("请先安装倒数日快应用的新版本！")));
}

#[test]
fn the_first_matching_app_decides() {
    let mut st = mounted_state();
    let flow = at_app_check(&mut st);
    let apps = vec![app("com.yzf.daymatter", 100), app("com.yzf.daymatter", 30000)];
    assert!(flow_step(&mut st, flow, HostReply::Apps(Some(apps))).next.is_none());
    assert_eq!(st.error_message, Some(s("请先安装倒数日快应用的新版本！")));
}

#[test]
fn failed_send_is_reported() {
    let mut st = mounted_state();
    let (flow, _) = run_to_sending(&mut st, Outgoing::GetAllEvents);
    let step = flow_step(&mut st, flow, HostReply::Sent(false));
    assert!(step.render && step.next.is_none());
    assert_eq!(st.error_message, Some(s("发送失败，请重试")));
}

#[test]
fn add_and_get_report_success() {
    let mut st = mounted_state();
    let (flow, text) = run_to_sending(&mut st, Outgoing::AddEvent(event("n", "2024-01-01")));
    assert!(text.starts_with("{\"type\":\"addEvent\""));
    flow_step(&mut st, flow, HostReply::Sent(true));
    assert_eq!(st.error_message, Some(s("发送成功！")));
    assert!(st.is_success_message);

    let (flow, _) = run_to_sending(&mut st, Outgoing::GetAllEvents);
    flow_step(&mut st, flow, HostReply::Sent(true));
    assert_eq!(st.error_message, Some(s("获取手环端数据成功！")));
    assert_eq!(st.all_events.len(), 3);
}

#[test]
fn a_taken_change_updates_the_list_and_the_caption() {
    let mut st = mounted_state();
    st.selected_event_index = Some(1);
    let (flow, text) = run_to_sending(&mut st, Outgoing::ChangeEvent(event("新名字", "2025-01-01"), 1));
    assert!(text.ends_with(",\"index\":1}"));
    let step = flow_step(&mut st, flow, HostReply::Sent(true));
    assert!(step.render);
    assert_eq!(st.all_events[1].name, "新名字");
    assert_eq!(st.all_events[1].time, "2025-01-01");
    assert_eq!(st.all_events[0].name, "a");
    assert_eq!(st.selected_event_name, Some(s("2　新名字")));
    assert_eq!(st.error_message, Some(s("发送成功！")));
    assert!(st.is_success_message);
}

#[test]
fn a_taken_delete_removes_the_selected_event() {
    let mut st = mounted_state();
    st.selected_event_index = Some(0);
    st.selected_event_name = Some(s("1　a"));
    let (flow, text) = run_to_sending(&mut st, Outgoing::DeleteEvent(0));
    assert_eq!(text, "{\"type\":\"deleteEvent\",\"index\":0}");
    flow_step(&mut st, flow, HostReply::Sent(true));
    assert_eq!(st.all_events.len(), 2);
    assert_eq!(st.all_events[0].name, "b");
    assert_eq!(st.all_events[1].name, "c");
    assert!(st.selected_event_index.is_none());
    assert!(st.selected_event_name.is_none());
}

#[test]
fn a_reply_that_does_not_fit_the_stage_ends_the_send_quietly() {
    let mut st = mounted_state();
    let (flow, _) = begin_send(Outgoing::GetAllEvents);
    let step = flow_step(&mut st, flow, HostReply::Sent(true));
    assert!(!step.render && step.next.is_none());
    assert!(st.error_message.is_none());
}

#[test]
fn every_send_ends_within_five_replies() {
    let mut st = mounted_state();
    let (mut flow, _) = begin_send(Outgoing::GetAllEvents);
    let replies = vec![
        HostReply::Devices(vec![s("A")]),
        HostReply::Apps(Some(vec![app("com.yzf.daymatter", 21000)])),
        HostReply::Launched,
        HostReply::Registered,
        HostReply::Sent(true),
    ];
    let mut count = 0;
    for reply in replies {
        count += 1;
        match flow_step(&mut st, flow, reply).next {
            Some((next, _)) => flow = next,
            None => break,
        }
    }
    assert_eq!(count, 5);
}

#[test]
fn completions_that_would_crash_are_flagged() {
    let mut st = mounted_state();
    st.selected_event_index = Some(7);
    let (flow, _) = run_to_sending(&mut st, Outgoing::DeleteEvent(7));
    assert!(completion_would_crash(&st, &flow, &HostReply::Sent(true)));
    assert!(!completion_would_crash(&st, &flow, &HostReply::Sent(false)));
    st.selected_event_index = Some(usize::MAX);
    let (flow, _) = run_to_sending(&mut st, Outgoing::ChangeEvent(event("x", "2024-01-01"), 0));
    assert!(completion_would_crash(&st, &flow, &HostReply::Sent(true)));
    st.selected_event_index = Some(2);
    assert!(!completion_would_crash(&st, &flow, &HostReply::Sent(true)));
}

#[test]
fn apps_below_version_21000_are_outdated() {
    let mut st = mounted_state();
    let flow = at_app_check(&mut st);
    let step = flow_step(&mut st, flow, HostReply::Apps(Some(vec![app("com.yzf.daymatter", 15000)])));
    assert!(step.next.is_none());
    assert_eq!(st.error_message, Some(s("请先安装倒数日快应用的新版本！")));
    assert!(!st.is_success_message);
}
