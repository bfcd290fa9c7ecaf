//! Sending a request to the band app: find the band, check that the
//! countdown-day app is installed and recent enough, start it, register for
//! its replies, send, and record the outcome. The host performs each call;
//! this module decides, from each reply, the next call and what the UI shows.

use vstd::prelude::*;
use crate::events::{Outgoing, OutgoingView};
use crate::names::{
    APP_LIST_FAILED_MESSAGE, APP_MISSING_MESSAGE, APP_OUTDATED_MESSAGE, DAYMATTER_PACKAGE,
    FETCHED_MESSAGE, NO_DEVICE_MESSAGE, OPTION_SEPARATOR, SEND_FAILED_MESSAGE, SENT_MESSAGE,
};
use crate::state::{mounted, with_message, UiState, UiStateView};
use crate::text::{decimal, push_char, push_decimal, push_str, str_equal};

verus! {

/// The lowest app version that understands these requests.
pub const MIN_APP_VERSION: u64 = 21000;

/// Where a send stands: which host reply it waits for.
#[derive(Clone, Copy, PartialEq, Eq, Structural, Debug)]
pub enum FlowStage {
    FindingDevice,
    CheckingApp,
    LaunchingApp,
    Registering,
    Sending,
}

/// How far along the send each stage is.
pub open spec fn stage_rank(stage: FlowStage) -> int {
    match stage {
        FlowStage::FindingDevice => 0,
        FlowStage::CheckingApp => 1,
        FlowStage::LaunchingApp => 2,
        FlowStage::Registering => 3,
        FlowStage::Sending => 4,
    }
}

/// A send in progress.
#[derive(Debug)]
pub struct SendFlow {
    pub request: Outgoing,
    pub stage: FlowStage,
    /// The band's address, once known.
    pub device_addr: String,
}

pub struct SendFlowView {
    pub request: OutgoingView,
    pub stage: FlowStage,
    pub device_addr: Seq<char>,
}

impl View for SendFlow {
    type V = SendFlowView;

    open spec fn view(&self) -> SendFlowView {
        SendFlowView { request: self.request@, stage: self.stage, device_addr: self.device_addr@ }
    }
}

/// An app installed on the band, as the host lists it.
#[derive(Debug)]
pub struct InstalledApp {
    pub package_name: String,
    pub version_code: u64,
}

/// What the host is asked to do next.
#[derive(Debug)]
pub enum HostCall {
    /// List the connected devices.
    ListDevices,
    /// List the third-party apps on the device.
    ListApps(String),
    /// Start the app at this position of the listed apps, then wait two seconds.
    LaunchApp(String, usize),
    /// Register to receive the app's messages.
    RegisterReceiver(String),
    /// Send this payload to the app.
    SendMessage(String, String),
}

pub enum HostCallView {
    ListDevices,
    ListApps(Seq<char>),
    LaunchApp(Seq<char>, usize),
    RegisterReceiver(Seq<char>),
    SendMessage(Seq<char>, Seq<char>),
}

impl View for HostCall {
    type V = HostCallView;

    open spec fn view(&self) -> HostCallView {
        match self {
            HostCall::ListDevices => HostCallView::ListDevices,
            HostCall::ListApps(a) => HostCallView::ListApps(a@),
            HostCall::LaunchApp(a, i) => HostCallView::LaunchApp(a@, *i),
            HostCall::RegisterReceiver(a) => HostCallView::RegisterReceiver(a@),
            HostCall::SendMessage(a, p) => HostCallView::SendMessage(a@, p@),
        }
    }
}

/// The host's answer to a call.
#[derive(Debug)]
pub enum HostReply {
    /// Addresses of the connected devices, in the host's order.
    Devices(Vec<String>),
    /// The installed apps, or `None` if the list could not be had.
    Apps(Option<Vec<InstalledApp>>),
    /// The app was started (whatever the outcome) and the wait is over.
    Launched,
    /// The registration was attempted (whatever the outcome).
    Registered,
    /// Whether the message was sent.
    Sent(bool),
}

/// The next step of a send.
#[derive(Debug)]
pub struct FlowStep {
    pub render: bool,
    pub next: Option<(SendFlow, HostCall)>,
}

pub open spec fn next_view(n: Option<(SendFlow, HostCall)>) -> Option<(SendFlowView, HostCallView)> {
    match n {
        Some((f, c)) => Some((f@, c@)),
        None => None,
    }
}

pub open spec fn bool_text(b: bool) -> Seq<char> {
    if b {
        "true"@
    } else {
        "false"@
    }
}

/// The JSON message that carries a request to the band app. Names and dates
/// go in as they are, without escaping.
pub open spec fn payload_text(r: OutgoingView) -> Seq<char> {
    match r {
        OutgoingView::AddEvent(d) => "{\"type\":\"addEvent\",\"name\":\""@ + d.name
            + "\",\"date\":\""@ + d.time + "\",\"on_index\":"@ + bool_text(d.on_index)
            + ",\"IFStaringDay\":"@ + bool_text(d.if_staring_day) + "}"@,
        OutgoingView::GetAllEvents => "{\"type\":\"getAllEvent\"}"@,
        OutgoingView::ChangeEvent(d, i) => "{\"type\":\"changeEvent\",\"name\":\""@ + d.name
            + "\",\"date\":\""@ + d.time + "\",\"on_index\":"@ + bool_text(d.on_index)
            + ",\"IFStaringDay\":"@ + bool_text(d.if_staring_day) + ",\"index\":"@ + decimal(
            i as nat,
        ) + "}"@,
        OutgoingView::DeleteEvent(i) => "{\"type\":\"deleteEvent\",\"index\":"@ + decimal(
            i as nat,
        ) + "}"@,
    }
}

/// The dropdown text for the event numbered `number` named `name`.
pub open spec fn option_text(number: nat, name: Seq<char>) -> Seq<char> {
    decimal(number) + seq![OPTION_SEPARATOR] + name
}

/// The state after the band app took the request.
pub open spec fn completion_state(s: UiStateView, r: OutgoingView) -> UiStateView {
    let done = with_message(s, SENT_MESSAGE@, true);
    match r {
        OutgoingView::AddEvent(_) => done,
        OutgoingView::GetAllEvents => with_message(s, FETCHED_MESSAGE@, true),
        OutgoingView::ChangeEvent(d, _) => match s.selected_event_index {
            Some(idx) => UiStateView {
                all_events: if idx < s.all_events.len() {
                    s.all_events.update(idx as int, d)
                } else {
                    s.all_events
                },
                selected_event_name: Some(option_text((idx + 1) as nat, d.name)),
                ..done
            },
            None => done,
        },
        OutgoingView::DeleteEvent(_) => match s.selected_event_index {
            Some(idx) => UiStateView {
                all_events: s.all_events.remove(idx as int),
                selected_event_index: None,
                selected_event_name: None,
                ..done
            },
            None => done,
        },
    }
}

/// The position of the first countdown-day app among `apps`.
pub open spec fn first_daymatter(apps: Seq<InstalledApp>) -> Option<int> {
    if exists|k: int|
        0 <= k < apps.len() && apps[k].package_name@ == DAYMATTER_PACKAGE@ && forall|j: int|
            0 <= j < k ==> apps[j].package_name@ != DAYMATTER_PACKAGE@ {
        Some(
            choose|k: int|
                0 <= k < apps.len() && apps[k].package_name@ == DAYMATTER_PACKAGE@ && forall|j: int|
                    0 <= j < k ==> apps[j].package_name@ != DAYMATTER_PACKAGE@,
        )
    } else {
        None
    }
}

pub open spec fn at_stage(f: SendFlowView, stage: FlowStage, addr: Seq<char>) -> SendFlowView {
    SendFlowView { stage, device_addr: addr, ..f }
}

/// One step of a send: the new UI state, whether to redraw, and the next
/// call (with the send as it then stands), or `None` when the send is over.
pub open spec fn flow_next(s: UiStateView, f: SendFlowView, reply: HostReply) -> (
    UiStateView,
    bool,
    Option<(SendFlowView, HostCallView)>,
) {
    match (f.stage, reply) {
        (FlowStage::FindingDevice, HostReply::Devices(list)) => if list@.len() == 0 {
            (with_message(s, NO_DEVICE_MESSAGE@, false), mounted(s), None)
        } else {
            let addr = list@[0]@;
            (
                s,
                false,
                Some((at_stage(f, FlowStage::CheckingApp, addr), HostCallView::ListApps(addr))),
            )
        },
        (FlowStage::CheckingApp, HostReply::Apps(None)) => (
            with_message(s, APP_LIST_FAILED_MESSAGE@, false),
            mounted(s),
            None,
        ),
        (FlowStage::CheckingApp, HostReply::Apps(Some(apps))) => match first_daymatter(apps@) {
            None => (with_message(s, APP_MISSING_MESSAGE@, false), mounted(s), None),
            Some(k) => if apps@[k].version_code >= MIN_APP_VERSION {
                (
                    s,
                    false,
                    Some(
                        (
                            at_stage(f, FlowStage::LaunchingApp, f.device_addr),
                            HostCallView::LaunchApp(f.device_addr, k as usize),
                        ),
                    ),
                )
            } else {
                (with_message(s, APP_OUTDATED_MESSAGE@, false), mounted(s), None)
            },
        },
        (FlowStage::LaunchingApp, HostReply::Launched) => (
            s,
            false,
            Some(
                (
                    at_stage(f, FlowStage::Registering, f.device_addr),
                    HostCallView::RegisterReceiver(f.device_addr),
                ),
            ),
        ),
        (FlowStage::Registering, HostReply::Registered) => (
            s,
            false,
            Some(
                (
                    at_stage(f, FlowStage::Sending, f.device_addr),
                    HostCallView::SendMessage(f.device_addr, payload_text(f.request)),
                ),
            ),
        ),
        (FlowStage::Sending, HostReply::Sent(ok)) => if ok {
            (completion_state(s, f.request), mounted(s), None)
        } else {
            (with_message(s, SEND_FAILED_MESSAGE@, false), mounted(s), None)
        },
        _ => (s, false, None),
    }
}

/// The replies on which finishing the send would crash: a delete whose
/// selected position is not in the list, or a change whose selected
/// position has no successor number.
pub open spec fn completion_unsafe(s: UiStateView, f: SendFlowView, reply: HostReply) -> bool {
    &&& f.stage == FlowStage::Sending
    &&& reply == HostReply::Sent(true)
    &&& s.selected_event_index matches Some(idx) && {
        ||| f.request is DeleteEvent && idx >= s.all_events.len()
        ||| f.request is ChangeEvent && idx == usize::MAX
    }
}

/// Whether finishing the send on `reply` would crash (see
/// `completion_unsafe`); `flow_step` is not to be called then.
pub fn completion_would_crash(state: &UiState, flow: &SendFlow, reply: &HostReply) -> (r: bool)
    ensures
        r == completion_unsafe(state@, flow@, *reply),
{
    let sent = match reply {
        HostReply::Sent(ok) => *ok,
        _ => false,
    };
    if flow.stage != FlowStage::Sending || !sent {
        return false;
    }
    match state.selected_event_index {
        Some(idx) => match &flow.request {
            Outgoing::DeleteEvent(_) => idx >= state.all_events.len(),
            Outgoing::ChangeEvent(_, _) => idx == usize::MAX,
            _ => false,
        },
        None => false,
    }
}

/// Starts sending `request`: the host first lists the connected devices.
pub fn begin_send(request: Outgoing) -> (r: (SendFlow, HostCall))
    ensures
        r.0@ == (SendFlowView { request: request@, stage: FlowStage::FindingDevice, device_addr: Seq::empty() }),
        r.1@ == HostCallView::ListDevices,
{
    (SendFlow { request, stage: FlowStage::FindingDevice, device_addr: String::new() }, HostCall::ListDevices)
}

fn push_bool(out: &mut String, b: bool)
    ensures
        final(out)@ == old(out)@ + bool_text(b),
{
    if b {
        push_str(out, "true");
    } else {
        push_str(out, "false");
    }
}

/// The JSON message for `request` (see `payload_text`).
pub fn payload(request: &Outgoing) -> (r: String)
    ensures
        r@ == payload_text(request@),
{
    let mut out = String::new();
    match request {
        Outgoing::AddEvent(d) => {
            push_str(&mut out, "{\"type\":\"addEvent\",\"name\":\"");
            push_str(&mut out, d.name.as_str());
            push_str(&mut out, "\",\"date\":\"");
            push_str(&mut out, d.time.as_str());
            push_str(&mut out, "\",\"on_index\":");
            push_bool(&mut out, d.on_index);
            push_str(&mut out, ",\"IFStaringDay\":");
            push_bool(&mut out, d.if_staring_day);
            push_str(&mut out, "}");
        },
        Outgoing::GetAllEvents => {
            push_str(&mut out, "{\"type\":\"getAllEvent\"}");
        },
        Outgoing::ChangeEvent(d, i) => {
            push_str(&mut out, "{\"type\":\"changeEvent\",\"name\":\"");
            push_str(&mut out, d.name.as_str());
            push_str(&mut out, "\",\"date\":\"");
            push_str(&mut out, d.time.as_str());
            push_str(&mut out, "\",\"on_index\":");
            push_bool(&mut out, d.on_index);
            push_str(&mut out, ",\"IFStaringDay\":");
            push_bool(&mut out, d.if_staring_day);
            push_str(&mut out, ",\"index\":");
            push_decimal(&mut out, *i as u64);
            push_str(&mut out, "}");
        },
        Outgoing::DeleteEvent(i) => {
            push_str(&mut out, "{\"type\":\"deleteEvent\",\"index\":");
            push_decimal(&mut out, *i as u64);
            push_str(&mut out, "}");
        },
    }
    assert(out@ =~= payload_text(request@));
    out
}

fn find_daymatter(apps: &Vec<InstalledApp>) -> (r: Option<usize>)
    ensures
        match r {
            Some(k) => first_daymatter(apps@) == Some(k as int),
            None => first_daymatter(apps@) is None,
        },
{
    let mut i: usize = 0;
    while i < apps.len()
        invariant
            i <= apps@.len(),
            forall|j: int| 0 <= j < i ==> (#[trigger] apps@[j]).package_name@ != DAYMATTER_PACKAGE@,
        decreases apps.len() - i,
    {
        if str_equal(apps[i].package_name.as_str(), DAYMATTER_PACKAGE) {
            let ghost s = apps@;
            assert(0 <= i < s.len() && s[i as int].package_name@ == DAYMATTER_PACKAGE@ && forall|
                j: int,
            | 0 <= j < i ==> s[j].package_name@ != DAYMATTER_PACKAGE@);
            let ghost k = choose|k: int|
                0 <= k < s.len() && s[k].package_name@ == DAYMATTER_PACKAGE@ && forall|j: int|
                    0 <= j < k ==> s[j].package_name@ != DAYMATTER_PACKAGE@;
            assert(k == i) by {
                if k < i {
                    assert(s[k].package_name@ != DAYMATTER_PACKAGE@);
                } else if k > i {
                    assert(s[i as int].package_name@ != DAYMATTER_PACKAGE@);
                }
            }
            return Some(i);
        }
        i = i + 1;
    }
    None
}

/// Records that the band app took the request.
fn complete(state: &mut UiState, request: &Outgoing)
    requires
        request is DeleteEvent ==> (old(state).selected_event_index matches Some(idx) ==> idx
            < old(state).all_events.len()),
        request is ChangeEvent ==> old(state).selected_event_index != Some(usize::MAX),
    ensures
        final(state)@ == completion_state(old(state)@, request@),
{
    match request {
        Outgoing::AddEvent(_) => {
            crate::state::show_success_message(state, SENT_MESSAGE);
        },
        Outgoing::GetAllEvents => {
            crate::state::show_success_message(state, FETCHED_MESSAGE);
        },
        Outgoing::ChangeEvent(d, _) => {
            crate::state::show_success_message(state, SENT_MESSAGE);
            match state.selected_event_index {
                Some(idx) => {
                    if idx < state.all_events.len() {
                        let ghost before = state.all_events@;
                        state.all_events.set(idx, d.copy());
                        assert(crate::state::events_view(state.all_events@) =~= crate::state::events_view(before).update(idx as int, d@));
                    }
                    let number: u64 = (idx + 1) as u64;
                    let mut text = String::new();
                    push_decimal(&mut text, number);
                    push_char(&mut text, OPTION_SEPARATOR);
                    push_str(&mut text, d.name.as_str());
                    assert(text@ =~= option_text((idx + 1) as nat, d.name@));
                    state.selected_event_name = Some(text);
                },
                None => {},
            }
        },
        Outgoing::DeleteEvent(_) => {
            crate::state::show_success_message(state, SENT_MESSAGE);
            match state.selected_event_index {
                Some(idx) => {
                    let ghost before = state.all_events@;
                    state.all_events.remove(idx);
                    assert(crate::state::events_view(state.all_events@) =~= crate::state::events_view(before).remove(idx as int));
                    state.selected_event_index = None;
                    state.selected_event_name = None;
                },
                None => {},
            }
        },
    }
}

/// Takes the host's reply to the current call of `flow` and decides what
/// follows (see `flow_next`).
pub fn flow_step(state: &mut UiState, flow: SendFlow, reply: HostReply) -> (r: FlowStep)
    requires
        !completion_unsafe(old(state)@, flow@, reply),
    ensures
        ({
            let (s2, render, next) = flow_next(old(state)@, flow@, reply);
            &&& final(state)@ == s2
            &&& r.render == render
            &&& next_view(r.next) == next
        }),
{
    let mounted = state.root_element_id.is_some();
    let SendFlow { request, stage, device_addr } = flow;
    match stage {
        FlowStage::FindingDevice => match reply {
            HostReply::Devices(list) => {
                if list.len() == 0 {
                    crate::state::show_error_message(state, NO_DEVICE_MESSAGE);
                    FlowStep { render: mounted, next: None }
                } else {
                    let addr = list[0].clone();
                    let call = HostCall::ListApps(addr.clone());
                    FlowStep {
                        render: false,
                        next: Some(
                            (SendFlow { request, stage: FlowStage::CheckingApp, device_addr: addr }, call),
                        ),
                    }
                }
            },
            _ => FlowStep { render: false, next: None },
        },
        FlowStage::CheckingApp => match reply {
            HostReply::Apps(None) => {
                crate::state::show_error_message(state, APP_LIST_FAILED_MESSAGE);
                FlowStep { render: mounted, next: None }
            },
            HostReply::Apps(Some(apps)) => match find_daymatter(&apps) {
                None => {
                    crate::state::show_error_message(state, APP_MISSING_MESSAGE);
                    FlowStep { render: mounted, next: None }
                },
                Some(k) => {
                    if apps[k].version_code >= MIN_APP_VERSION {
                        let call = HostCall::LaunchApp(device_addr.clone(), k);
                        FlowStep {
                            render: false,
                            next: Some(
                                (
                                    SendFlow { request, stage: FlowStage::LaunchingApp, device_addr },
                                    call,
                                ),
                            ),
                        }
                    } else {
                        crate::state::show_error_message(state, APP_OUTDATED_MESSAGE);
                        FlowStep { render: mounted, next: None }
                    }
                },
            },
            _ => FlowStep { render: false, next: None },
        },
        FlowStage::LaunchingApp => match reply {
            HostReply::Launched => {
                let call = HostCall::RegisterReceiver(device_addr.clone());
                FlowStep {
                    render: false,
                    next: Some(
                        (SendFlow { request, stage: FlowStage::Registering, device_addr }, call),
                    ),
                }
            },
            _ => FlowStep { render: false, next: None },
        },
        FlowStage::Registering => match reply {
            HostReply::Registered => {
                let call = HostCall::SendMessage(device_addr.clone(), payload(&request));
                FlowStep {
                    render: false,
                    next: Some((SendFlow { request, stage: FlowStage::Sending, device_addr }, call)),
                }
            },
            _ => FlowStep { render: false, next: None },
        },
        FlowStage::Sending => match reply {
            HostReply::Sent(ok) => {
                if ok {
                    complete(state, &request);
                } else {
                    crate::state::show_error_message(state, SEND_FAILED_MESSAGE);
                }
                FlowStep { render: mounted, next: None }
            },
            _ => FlowStep { render: false, next: None },
        },
    }
}

/// Law: every step of a send moves it to a later stage, so a send ends
/// after at most five host replies.
pub proof fn lemma_send_advances(s: UiStateView, f: SendFlowView, reply: HostReply)
    ensures
        flow_next(s, f, reply).2 matches Some((g, _)) ==> stage_rank(g.stage) == stage_rank(f.stage) + 1
            && stage_rank(g.stage) <= 4,
{
}

} // verus!
