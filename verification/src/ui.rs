//! The UI tree for each tab, built from the form state.

use vstd::prelude::*;
use crate::element::{leaf, node, Attr, Element, ElementType, ElementView, FlexDirection};
use crate::events::UiEvent;
use crate::flow::option_text;
use crate::names::{
    ADD_EVENT_BUTTON_EVENT, BUTTON_MOUSE_LEAVE, CHANGE_EVENT_BUTTON_EVENT,
    DELETE_EVENT_BUTTON_EVENT, EVENT_NAME_INPUT_EVENT, EVENT_TIME_INPUT_EVENT,
    GET_EVENTS_BUTTON_EVENT, HIDE_ERROR_EVENT, IF_STARING_DAY_NO_EVENT, IF_STARING_DAY_YES_EVENT,
    MODIFY_EVENT_NAME_INPUT_EVENT, MODIFY_EVENT_TIME_INPUT_EVENT, MODIFY_IF_STARING_DAY_NO_EVENT,
    MODIFY_IF_STARING_DAY_YES_EVENT, MODIFY_ON_INDEX_NO_EVENT, MODIFY_ON_INDEX_YES_EVENT,
    ON_INDEX_NO_EVENT, ON_INDEX_YES_EVENT, OPTION_SEPARATOR, SELECT_EVENT_DROPDOWN_EVENT,
    TAB_ADD_EVENT, TAB_DELETE_EVENT, TAB_MODIFY_EVENT,
};
use crate::state::{EventDataView, EventType, UiState, UiStateView};
use crate::text::{push_char, push_decimal, push_str, str_equal, string_of};

verus! {

/// Background of a chosen button or the current tab.
pub const SELECTED_BG: &'static str = "#424242";
/// Background of a hovered button.
pub const HOVER_BG: &'static str = "#4b4b4b";
/// Background of an idle button or field.
pub const IDLE_BG: &'static str = "#2A2A2A";
pub const TAB_BAR_BG: &'static str = "#1E1E1F";
pub const SUCCESS_BG: &'static str = "#4CAF50";
pub const ERROR_BG: &'static str = "#FF4444";
pub const BANNER_TEXT_COLOR: &'static str = "#FFFFFF";

/// Whether the pointer is over the element that reports `event`.
pub open spec fn is_hovered(s: UiStateView, event: &'static str) -> bool {
    s.hovered_button == Some(event@)
}

/// Background of a yes/no button or a tab.
pub open spec fn choice_bg(chosen: bool, hovered: bool) -> &'static str {
    if chosen {
        SELECTED_BG
    } else if hovered {
        HOVER_BG
    } else {
        IDLE_BG
    }
}

/// Background of a plain button.
pub open spec fn hover_bg(hovered: bool) -> &'static str {
    if hovered {
        HOVER_BG
    } else {
        IDLE_BG
    }
}

fn hovered(state: &UiState, event: &'static str) -> (r: bool)
    ensures
        r == is_hovered(state@, event),
{
    match &state.hovered_button {
        Some(h) => str_equal(h.as_str(), event),
        None => false,
    }
}

fn pick_choice_bg(chosen: bool, hovered: bool) -> (r: &'static str)
    ensures
        r == choice_bg(chosen, hovered),
{
    if chosen {
        SELECTED_BG
    } else if hovered {
        HOVER_BG
    } else {
        IDLE_BG
    }
}

fn pick_hover_bg(hovered: bool) -> (r: &'static str)
    ensures
        r == hover_bg(hovered),
{
    if hovered {
        HOVER_BG
    } else {
        IDLE_BG
    }
}

// ---------------------------------------------------------------------------
// Widgets
/// A labelled text input.
pub open spec fn field_view(label: Seq<char>, value: Seq<char>, event: &'static str) -> ElementView {
    node(
        ElementType::Div,
        None,
        seq![],
        seq![
            leaf(ElementType::P, Some(label), seq![Attr::Size(16), Attr::MarginBottom(8)]),
            leaf(
                ElementType::Input,
                Some(value),
                seq![
                    Attr::On(UiEvent::Change, event),
                    Attr::Radius(8),
                    Attr::Bg(IDLE_BG),
                    Attr::WidthFull,
                    Attr::MarginBottom(8),
                ],
            ),
        ],
    )
}

fn field(label: &str, value: &String, event: &'static str) -> (r: Element)
    ensures
        r@ == field_view(label@, value@, event),
{
    let title = Element::leaf(
        ElementType::P,
        Some(string_of(label)),
        vec![Attr::Size(16), Attr::MarginBottom(8)],
    );
    let input = Element::leaf(
        ElementType::Input,
        Some(value.clone()),
        vec![
            Attr::On(UiEvent::Change, event),
            Attr::Radius(8),
            Attr::Bg(IDLE_BG),
            Attr::WidthFull,
            Attr::MarginBottom(8),
        ],
    );
    let ghost t = title@;
    let ghost i = input@;
    assert(t.attrs =~= seq![Attr::Size(16), Attr::MarginBottom(8)]);
    assert(t == leaf(ElementType::P, Some(label@), seq![Attr::Size(16), Attr::MarginBottom(8)]));
    let kids = vec![title, input];
    assert(kids@.map_values(|c: Element| c@) =~= seq![t, i]);
    let r = Element::new(ElementType::Div, None, vec![], kids);
    assert(r@.attrs =~= Seq::<Attr>::empty());
    assert(r@ =~= field_view(label@, value@, event));
    r
}

/// A yes/no button; the "yes" button keeps a gap to its right.
pub open spec fn choice_button_view(
    label: Seq<char>,
    event: &'static str,
    bg: &'static str,
    spaced: bool,
) -> ElementView {
    let attrs = seq![
        Attr::WithoutDefaultStyles,
        Attr::On(UiEvent::Click, event),
        Attr::On(UiEvent::MouseEnter, event),
        Attr::On(UiEvent::MouseLeave, BUTTON_MOUSE_LEAVE),
        Attr::Radius(8),
        Attr::PaddingTop(8),
        Attr::PaddingRight(25),
        Attr::PaddingBottom(8),
        Attr::PaddingLeft(25),
        Attr::Bg(bg),
    ];
    leaf(
        ElementType::Button,
        Some(label),
        if spaced {
            attrs.push(Attr::MarginRight(5))
        } else {
            attrs
        },
    )
}

fn choice_button(label: &str, event: &'static str, bg: &'static str, spaced: bool) -> (r: Element)
    ensures
        r@ == choice_button_view(label@, event, bg, spaced),
{
    let mut attrs = vec![
        Attr::WithoutDefaultStyles,
        Attr::On(UiEvent::Click, event),
        Attr::On(UiEvent::MouseEnter, event),
        Attr::On(UiEvent::MouseLeave, BUTTON_MOUSE_LEAVE),
        Attr::Radius(8),
        Attr::PaddingTop(8),
        Attr::PaddingRight(25),
        Attr::PaddingBottom(8),
        Attr::PaddingLeft(25),
        Attr::Bg(bg),
    ];
    if spaced {
        attrs.push(Attr::MarginRight(5));
    }
    let r = Element::leaf(ElementType::Button, Some(string_of(label)), attrs);
    assert(r@ =~= choice_button_view(label@, event, bg, spaced));
    r
}

/// A labelled pair of yes/no buttons for a flag that is now `value`.
pub open spec fn choice_row_view(
    s: UiStateView,
    label: Seq<char>,
    value: bool,
    yes_event: &'static str,
    no_event: &'static str,
) -> ElementView {
    node(
        ElementType::Div,
        None,
        seq![Attr::Relative, Attr::MarginBottom(8), Attr::Height(40), Attr::WidthFull],
        seq![
            leaf(
                ElementType::P,
                Some(label),
                seq![Attr::Absolute, Attr::Size(16), Attr::Left(0), Attr::Top(10)],
            ),
            node(
                ElementType::Div,
                None,
                seq![
                    Attr::Absolute,
                    Attr::Flex,
                    Attr::FlexDirection(FlexDirection::Row),
                    Attr::Right(0),
                    Attr::Top(5),
                ],
                seq![
                    choice_button_view(
                        "是"@,
                        yes_event,
                        choice_bg(value, is_hovered(s, yes_event)),
                        true,
                    ),
                    choice_button_view(
                        "否"@,
                        no_event,
                        choice_bg(!value, is_hovered(s, no_event)),
                        false,
                    ),
                ],
            ),
        ],
    )
}

fn choice_row(
    state: &UiState,
    label: &str,
    value: bool,
    yes_event: &'static str,
    no_event: &'static str,
) -> (r: Element)
    ensures
        r@ == choice_row_view(state@, label@, value, yes_event, no_event),
{
    let title = Element::leaf(
        ElementType::P,
        Some(string_of(label)),
        vec![Attr::Absolute, Attr::Size(16), Attr::Left(0), Attr::Top(10)],
    );
    let yes = choice_button("是", yes_event, pick_choice_bg(value, hovered(state, yes_event)), true);
    let no = choice_button("否", no_event, pick_choice_bg(!value, hovered(state, no_event)), false);
    let buttons_kids = vec![yes, no];
    assert(buttons_kids@.map_values(|c: Element| c@) =~= seq![buttons_kids@[0]@, buttons_kids@[1]@]);
    let buttons = Element::new(
        ElementType::Div,
        None,
        vec![
            Attr::Absolute,
            Attr::Flex,
            Attr::FlexDirection(FlexDirection::Row),
            Attr::Right(0),
            Attr::Top(5),
        ],
        buttons_kids,
    );
    let ghost t = title@;
    let ghost b = buttons@;
    assert(t =~= leaf(
        ElementType::P,
        Some(label@),
        seq![Attr::Absolute, Attr::Size(16), Attr::Left(0), Attr::Top(10)],
    ));
    let kids = vec![title, buttons];
    assert(kids@.map_values(|c: Element| c@) =~= seq![t, b]);
    let r = Element::new(
        ElementType::Div,
        None,
        vec![Attr::Relative, Attr::MarginBottom(8), Attr::Height(40), Attr::WidthFull],
        kids,
    );
    assert(r@ =~~= choice_row_view(state@, label@, value, yes_event, no_event));
    r
}

/// A full-width button; `before_bg` and `after` are its layout extras
/// around the background and the width.
pub open spec fn wide_button_view(
    label: Seq<char>,
    event: &'static str,
    hovered: bool,
    before_bg: Seq<Attr>,
    after: Seq<Attr>,
) -> ElementView {
    leaf(
        ElementType::Button,
        Some(label),
        seq![
            Attr::WithoutDefaultStyles,
            Attr::On(UiEvent::Click, event),
            Attr::On(UiEvent::MouseEnter, event),
            Attr::On(UiEvent::MouseLeave, BUTTON_MOUSE_LEAVE),
            Attr::Radius(8),
            Attr::Padding(14),
        ] + before_bg + seq![Attr::Bg(hover_bg(hovered)), Attr::WidthFull] + after,
    )
}

fn wide_button(
    state: &UiState,
    label: &str,
    event: &'static str,
    before_bg: Vec<Attr>,
    after: Vec<Attr>,
) -> (r: Element)
    ensures
        r@ == wide_button_view(label@, event, is_hovered(state@, event), before_bg@, after@),
{
    let bg = pick_hover_bg(hovered(state, event));
    let mut attrs = vec![
        Attr::WithoutDefaultStyles,
        Attr::On(UiEvent::Click, event),
        Attr::On(UiEvent::MouseEnter, event),
        Attr::On(UiEvent::MouseLeave, BUTTON_MOUSE_LEAVE),
        Attr::Radius(8),
        Attr::Padding(14),
    ];
    let ghost head = attrs@;
    let mut before_bg = before_bg;
    let mut after = after;
    let ghost b = before_bg@;
    let ghost a = after@;
    attrs.append(&mut before_bg);
    attrs.push(Attr::Bg(bg));
    attrs.push(Attr::WidthFull);
    attrs.append(&mut after);
    let r = Element::leaf(ElementType::Button, Some(string_of(label)), attrs);
    assert(r@.attrs =~= seq![
        Attr::WithoutDefaultStyles,
        Attr::On(UiEvent::Click, event),
        Attr::On(UiEvent::MouseEnter, event),
        Attr::On(UiEvent::MouseLeave, BUTTON_MOUSE_LEAVE),
        Attr::Radius(8),
        Attr::Padding(14),
    ] + b + seq![Attr::Bg(hover_bg(is_hovered(state@, event))), Attr::WidthFull] + a);
    assert(r@ =~= wide_button_view(label@, event, is_hovered(state@, event), b, a));
    r
}

/// The "fetch from the band" button.
pub open spec fn get_events_button_view(s: UiStateView) -> ElementView {
    wide_button_view(
        "获取手环端数据"@,
        GET_EVENTS_BUTTON_EVENT,
        is_hovered(s, GET_EVENTS_BUTTON_EVENT),
        seq![],
        seq![Attr::MarginBottom(8)],
    )
}

fn get_events_button(state: &UiState) -> (r: Element)
    ensures
        r@ == get_events_button_view(state@),
{
    let r = wide_button(state, "获取手环端数据", GET_EVENTS_BUTTON_EVENT, vec![], vec![Attr::MarginBottom(8)]);
    assert(r@ =~= get_events_button_view(state@));
    r
}

/// A column holding one button.
pub open spec fn button_group_view(button: ElementView) -> ElementView {
    node(
        ElementType::Div,
        None,
        seq![Attr::Flex, Attr::FlexDirection(FlexDirection::Column)],
        seq![button],
    )
}

fn button_group(button: Element) -> (r: Element)
    ensures
        r@ == button_group_view(button@),
{
    let ghost b = button@;
    let kids = vec![button];
    assert(kids@.map_values(|c: Element| c@) =~= seq![b]);
    let r = Element::new(
        ElementType::Div,
        None,
        vec![Attr::Flex, Attr::FlexDirection(FlexDirection::Column)],
        kids,
    );
    assert(r@ =~= button_group_view(b));
    r
}

/// The dropdown's options: one per fetched event, numbered from 1, or a
/// single placeholder when there are none.
pub open spec fn option_views(events: Seq<EventDataView>) -> Seq<ElementView> {
    if events.len() == 0 {
        seq![leaf(ElementType::SelectOption, Some("选择事件"@), seq![])]
    } else {
        Seq::new(
            events.len(),
            |i: int| leaf(ElementType::SelectOption, Some(option_text((i + 1) as nat, events[i].name)), seq![]),
        )
    }
}

/// The dropdown's caption: the selected event's text, or a prompt.
pub open spec fn select_caption(s: UiStateView) -> Seq<char> {
    match s.selected_event_name {
        Some(t) => t,
        None => "选择事件"@,
    }
}

/// The labelled event dropdown.
pub open spec fn select_group_view(s: UiStateView, label: Seq<char>) -> ElementView {
    node(
        ElementType::Div,
        None,
        seq![],
        seq![
            leaf(ElementType::P, Some(label), seq![Attr::Size(16), Attr::MarginBottom(8)]),
            node(
                ElementType::Select,
                Some(select_caption(s)),
                seq![
                    Attr::On(UiEvent::Change, SELECT_EVENT_DROPDOWN_EVENT),
                    Attr::Radius(8),
                    Attr::Padding(12),
                    Attr::Bg(IDLE_BG),
                    Attr::WidthFull,
                    Attr::MarginBottom(8),
                ],
                option_views(s.all_events),
            ),
        ],
    )
}

fn options(state: &UiState) -> (r: Vec<Element>)
    ensures
        r@.map_values(|c: Element| c@) == option_views(state@.all_events),
{
    let mut r: Vec<Element> = Vec::new();
    if state.all_events.len() == 0 {
        r.push(Element::leaf(ElementType::SelectOption, Some(string_of("选择事件")), vec![]));
        assert(r@.map_values(|c: Element| c@) =~= option_views(state@.all_events));
        return r;
    }
    let n = state.all_events.len();
    let ghost events = state@.all_events;
    let mut i: usize = 0;
    while i < n
        invariant
            n == state.all_events@.len(),
            events == state@.all_events,
            events.len() == n,
            i <= n,
            r@.len() == i,
            forall|j: int|
                0 <= j < i ==> (#[trigger] r@[j])@ == leaf(
                    ElementType::SelectOption,
                    Some(option_text((j + 1) as nat, events[j].name)),
                    seq![],
                ),
        decreases n - i,
    {
        let mut text = String::new();
        push_decimal(&mut text, (i + 1) as u64);
        push_char(&mut text, OPTION_SEPARATOR);
        push_str(&mut text, state.all_events[i].name.as_str());
        assert(text@ =~= option_text((i + 1) as nat, events[i as int].name));
        let opt = Element::leaf(ElementType::SelectOption, Some(text), vec![]);
        assert(opt@ =~= leaf(
            ElementType::SelectOption,
            Some(option_text((i + 1) as nat, events[i as int].name)),
            seq![],
        ));
        r.push(opt);
        i = i + 1;
    }
    assert(r@.map_values(|c: Element| c@) =~= option_views(state@.all_events));
    r
}

fn select_group(state: &UiState, label: &str) -> (r: Element)
    ensures
        r@ == select_group_view(state@, label@),
{
    let caption = match &state.selected_event_name {
        Some(t) => t.clone(),
        None => string_of("选择事件"),
    };
    let kids = options(state);
    let dropdown = Element::new(
        ElementType::Select,
        Some(caption),
        vec![
            Attr::On(UiEvent::Change, SELECT_EVENT_DROPDOWN_EVENT),
            Attr::Radius(8),
            Attr::Padding(12),
            Attr::Bg(IDLE_BG),
            Attr::WidthFull,
            Attr::MarginBottom(8),
        ],
        kids,
    );
    let title = Element::leaf(
        ElementType::P,
        Some(string_of(label)),
        vec![Attr::Size(16), Attr::MarginBottom(8)],
    );
    let ghost t = title@;
    let ghost d = dropdown@;
    assert(t =~= leaf(ElementType::P, Some(label@), seq![Attr::Size(16), Attr::MarginBottom(8)]));
    assert(d =~= node(
        ElementType::Select,
        Some(select_caption(state@)),
        seq![
            Attr::On(UiEvent::Change, SELECT_EVENT_DROPDOWN_EVENT),
            Attr::Radius(8),
            Attr::Padding(12),
            Attr::Bg(IDLE_BG),
            Attr::WidthFull,
            Attr::MarginBottom(8),
        ],
        option_views(state@.all_events),
    ));
    let group = vec![title, dropdown];
    assert(group@.map_values(|c: Element| c@) =~= seq![t, d]);
    let r = Element::new(ElementType::Div, None, vec![], group);
    assert(r@ =~= select_group_view(state@, label@));
    r
}

// ---------------------------------------------------------------------------
// Tabs
/// The add tab: name and date fields, the two flags, and the send button.
pub open spec fn add_event_ui(s: UiStateView) -> ElementView {
    node(
        ElementType::Div,
        None,
        seq![Attr::Flex, Attr::FlexDirection(FlexDirection::Column)],
        seq![
            field_view("输入事件名称"@, s.event_data.name, EVENT_NAME_INPUT_EVENT),
            field_view("输入事件目标日（格式必须为YYYY-MM-DD）"@, s.event_data.time, EVENT_TIME_INPUT_EVENT),
            choice_row_view(s, "是否显示在主页"@, s.event_data.on_index, ON_INDEX_YES_EVENT, ON_INDEX_NO_EVENT),
            choice_row_view(
                s,
                "是否计入起始日"@,
                s.event_data.if_staring_day,
                IF_STARING_DAY_YES_EVENT,
                IF_STARING_DAY_NO_EVENT,
            ),
            wide_button_view(
                "发送"@,
                ADD_EVENT_BUTTON_EVENT,
                is_hovered(s, ADD_EVENT_BUTTON_EVENT),
                seq![Attr::MarginTop(10)],
                seq![],
            ),
        ],
    )
}

/// Builds the add tab.
pub fn build_add_event_ui(state: &UiState) -> (r: Element)
    ensures
        r@ == add_event_ui(state@),
{
    let name = field("输入事件名称", &state.event_data.name, EVENT_NAME_INPUT_EVENT);
    let time = field("输入事件目标日（格式必须为YYYY-MM-DD）", &state.event_data.time, EVENT_TIME_INPUT_EVENT);
    let on_index = choice_row(state, "是否显示在主页", state.event_data.on_index, ON_INDEX_YES_EVENT, ON_INDEX_NO_EVENT);
    let staring = choice_row(
        state,
        "是否计入起始日",
        state.event_data.if_staring_day,
        IF_STARING_DAY_YES_EVENT,
        IF_STARING_DAY_NO_EVENT,
    );
    let send = wide_button(state, "发送", ADD_EVENT_BUTTON_EVENT, vec![Attr::MarginTop(10)], vec![]);
    let ghost views = seq![name@, time@, on_index@, staring@, send@];
    let kids = vec![name, time, on_index, staring, send];
    assert(kids@.map_values(|c: Element| c@) =~= views);
    let r = Element::new(
        ElementType::Div,
        None,
        vec![Attr::Flex, Attr::FlexDirection(FlexDirection::Column)],
        kids,
    );
    assert(views[4] =~~= wide_button_view(
        "发送"@,
        ADD_EVENT_BUTTON_EVENT,
        is_hovered(state@, ADD_EVENT_BUTTON_EVENT),
        seq![Attr::MarginTop(10)],
        seq![],
    ));
    assert(r@ =~= add_event_ui(state@));
    r
}

/// The modify tab: the event dropdown, the form, and "fetch" until the
/// events have been fetched, then "sync".
pub open spec fn modify_event_ui(s: UiStateView) -> ElementView {
    node(
        ElementType::Div,
        None,
        seq![Attr::Flex, Attr::FlexDirection(FlexDirection::Column)],
        seq![
            select_group_view(s, "在这里选择你要修改的事件"@),
            field_view("输入事件名称"@, s.modify_event_data.name, MODIFY_EVENT_NAME_INPUT_EVENT),
            field_view(
                "输入事件目标日（格式必须为YYYY-MM-DD）"@,
                s.modify_event_data.time,
                MODIFY_EVENT_TIME_INPUT_EVENT,
            ),
            choice_row_view(
                s,
                "是否显示在主页"@,
                s.modify_event_data.on_index,
                MODIFY_ON_INDEX_YES_EVENT,
                MODIFY_ON_INDEX_NO_EVENT,
            ),
            choice_row_view(
                s,
                "是否计入起始日"@,
                s.modify_event_data.if_staring_day,
                MODIFY_IF_STARING_DAY_YES_EVENT,
                MODIFY_IF_STARING_DAY_NO_EVENT,
            ),
            button_group_view(
                if s.has_fetched_events {
                    wide_button_view(
                        "同步"@,
                        CHANGE_EVENT_BUTTON_EVENT,
                        is_hovered(s, CHANGE_EVENT_BUTTON_EVENT),
                        seq![],
                        seq![],
                    )
                } else {
                    get_events_button_view(s)
                },
            ),
        ],
    )
}

/// Builds the modify tab.
pub fn build_modify_event_ui(state: &UiState) -> (r: Element)
    ensures
        r@ == modify_event_ui(state@),
{
    let select = select_group(state, "在这里选择你要修改的事件");
    let name = field("输入事件名称", &state.modify_event_data.name, MODIFY_EVENT_NAME_INPUT_EVENT);
    let time = field(
        "输入事件目标日（格式必须为YYYY-MM-DD）",
        &state.modify_event_data.time,
        MODIFY_EVENT_TIME_INPUT_EVENT,
    );
    let on_index = choice_row(
        state,
        "是否显示在主页",
        state.modify_event_data.on_index,
        MODIFY_ON_INDEX_YES_EVENT,
        MODIFY_ON_INDEX_NO_EVENT,
    );
    let staring = choice_row(
        state,
        "是否计入起始日",
        state.modify_event_data.if_staring_day,
        MODIFY_IF_STARING_DAY_YES_EVENT,
        MODIFY_IF_STARING_DAY_NO_EVENT,
    );
    let button = if state.has_fetched_events {
        let b = wide_button(state, "同步", CHANGE_EVENT_BUTTON_EVENT, vec![], vec![]);
        assert(b@ =~~= wide_button_view(
            "同步"@,
            CHANGE_EVENT_BUTTON_EVENT,
            is_hovered(state@, CHANGE_EVENT_BUTTON_EVENT),
            seq![],
            seq![],
        ));
        b
    } else {
        get_events_button(state)
    };
    let group = button_group(button);
    let ghost views = seq![select@, name@, time@, on_index@, staring@, group@];
    let kids = vec![select, name, time, on_index, staring, group];
    assert(kids@.map_values(|c: Element| c@) =~= views);
    let r = Element::new(
        ElementType::Div,
        None,
        vec![Attr::Flex, Attr::FlexDirection(FlexDirection::Column)],
        kids,
    );
    assert(r@ =~= modify_event_ui(state@));
    r
}

/// The delete tab: the event dropdown, and "fetch" until the events have
/// been fetched, then "delete".
pub open spec fn delete_event_ui(s: UiStateView) -> ElementView {
    node(
        ElementType::Div,
        None,
        seq![Attr::Flex, Attr::FlexDirection(FlexDirection::Column)],
        seq![
            select_group_view(s, "在这里选择你要删除的事件"@),
            button_group_view(
                if s.has_fetched_events {
                    wide_button_view(
                        "删除"@,
                        DELETE_EVENT_BUTTON_EVENT,
                        is_hovered(s, DELETE_EVENT_BUTTON_EVENT),
                        seq![],
                        seq![],
                    )
                } else {
                    get_events_button_view(s)
                },
            ),
        ],
    )
}

/// Builds the delete tab.
pub fn build_delete_event_ui(state: &UiState) -> (r: Element)
    ensures
        r@ == delete_event_ui(state@),
{
    let select = select_group(state, "在这里选择你要删除的事件");
    let button = if state.has_fetched_events {
        let b = wide_button(state, "删除", DELETE_EVENT_BUTTON_EVENT, vec![], vec![]);
        assert(b@ =~~= wide_button_view(
            "删除"@,
            DELETE_EVENT_BUTTON_EVENT,
            is_hovered(state@, DELETE_EVENT_BUTTON_EVENT),
            seq![],
            seq![],
        ));
        b
    } else {
        get_events_button(state)
    };
    let group = button_group(button);
    let ghost views = seq![select@, group@];
    let kids = vec![select, group];
    assert(kids@.map_values(|c: Element| c@) =~= views);
    let r = Element::new(
        ElementType::Div,
        None,
        vec![Attr::Flex, Attr::FlexDirection(FlexDirection::Column)],
        kids,
    );
    assert(r@ =~= delete_event_ui(state@));
    r
}

// ---------------------------------------------------------------------------
// The whole UI
/// A tab button.
pub open spec fn tab_button_view(label: Seq<char>, event: &'static str, bg: &'static str) -> ElementView {
    leaf(
        ElementType::Button,
        Some(label),
        seq![
            Attr::WithoutDefaultStyles,
            Attr::PaddingLeft(20),
            Attr::PaddingRight(20),
            Attr::PaddingTop(12),
            Attr::PaddingBottom(12),
            Attr::Margin(5),
            Attr::Bg(bg),
            Attr::On(UiEvent::Click, event),
            Attr::On(UiEvent::MouseEnter, event),
            Attr::On(UiEvent::MouseLeave, BUTTON_MOUSE_LEAVE),
            Attr::Radius(8),
        ],
    )
}

fn tab_button(label: &str, event: &'static str, bg: &'static str) -> (r: Element)
    ensures
        r@ == tab_button_view(label@, event, bg),
{
    let r = Element::leaf(
        ElementType::Button,
        Some(string_of(label)),
        vec![
            Attr::WithoutDefaultStyles,
            Attr::PaddingLeft(20),
            Attr::PaddingRight(20),
            Attr::PaddingTop(12),
            Attr::PaddingBottom(12),
            Attr::Margin(5),
            Attr::Bg(bg),
            Attr::On(UiEvent::Click, event),
            Attr::On(UiEvent::MouseEnter, event),
            Attr::On(UiEvent::MouseLeave, BUTTON_MOUSE_LEAVE),
            Attr::Radius(8),
        ],
    );
    assert(r@ =~= tab_button_view(label@, event, bg));
    r
}

/// The centred bar of the three tabs; the current one stands out.
pub open spec fn tabs_view(s: UiStateView) -> ElementView {
    node(
        ElementType::Div,
        None,
        seq![Attr::Flex, Attr::JustifyCenter],
        seq![
            node(
                ElementType::Div,
                None,
                seq![
                    Attr::Flex,
                    Attr::FlexDirection(FlexDirection::Row),
                    Attr::MarginBottom(20),
                    Attr::Bg(TAB_BAR_BG),
                    Attr::Radius(8),
                ],
                seq![
                    tab_button_view(
                        "添加事件"@,
                        TAB_ADD_EVENT,
                        choice_bg(s.current_tab == EventType::AddEvent, is_hovered(s, TAB_ADD_EVENT)),
                    ),
                    tab_button_view(
                        "修改事件"@,
                        TAB_MODIFY_EVENT,
                        choice_bg(
                            s.current_tab == EventType::ModifyEvent,
                            is_hovered(s, TAB_MODIFY_EVENT),
                        ),
                    ),
                    tab_button_view(
                        "删除事件"@,
                        TAB_DELETE_EVENT,
                        choice_bg(
                            s.current_tab == EventType::DeleteEvent,
                            is_hovered(s, TAB_DELETE_EVENT),
                        ),
                    ),
                ],
            ),
        ],
    )
}

fn tabs(state: &UiState) -> (r: Element)
    ensures
        r@ == tabs_view(state@),
{
    let add = tab_button(
        "添加事件",
        TAB_ADD_EVENT,
        pick_choice_bg(state.current_tab == EventType::AddEvent, hovered(state, TAB_ADD_EVENT)),
    );
    let modify = tab_button(
        "修改事件",
        TAB_MODIFY_EVENT,
        pick_choice_bg(state.current_tab == EventType::ModifyEvent, hovered(state, TAB_MODIFY_EVENT)),
    );
    let delete = tab_button(
        "删除事件",
        TAB_DELETE_EVENT,
        pick_choice_bg(state.current_tab == EventType::DeleteEvent, hovered(state, TAB_DELETE_EVENT)),
    );
    let ghost bar_views = seq![add@, modify@, delete@];
    let bar_kids = vec![add, modify, delete];
    assert(bar_kids@.map_values(|c: Element| c@) =~= bar_views);
    let bar = Element::new(
        ElementType::Div,
        None,
        vec![
            Attr::Flex,
            Attr::FlexDirection(FlexDirection::Row),
            Attr::MarginBottom(20),
            Attr::Bg(TAB_BAR_BG),
            Attr::Radius(8),
        ],
        bar_kids,
    );
    let ghost b = bar@;
    let kids = vec![bar];
    assert(kids@.map_values(|c: Element| c@) =~= seq![b]);
    let r = Element::new(ElementType::Div, None, vec![Attr::Flex, Attr::JustifyCenter], kids);
    assert(b =~= tabs_view(state@).children[0]);
    assert(r@ =~= tabs_view(state@));
    r
}

/// The tab shown at position `k` of the tab bar.
pub open spec fn tab_at(k: int) -> EventType {
    if k == 0 {
        EventType::AddEvent
    } else if k == 1 {
        EventType::ModifyEvent
    } else {
        EventType::DeleteEvent
    }
}

/// Law: in the tab bar exactly the current tab has the "selected"
/// background; any other tab is lighter when hovered and idle otherwise.
pub proof fn lemma_current_tab_stands_out(s: UiStateView)
    ensures
        tabs_view(s).children[0].children.len() == 3,
        forall|k: int|
            #![trigger tabs_view(s).children[0].children[k]]
            0 <= k < 3 ==> {
                let bg = tabs_view(s).children[0].children[k].attrs[6];
                &&& (bg == Attr::Bg(SELECTED_BG) <==> s.current_tab == tab_at(k))
                &&& s.current_tab != tab_at(k) ==> (bg == Attr::Bg(HOVER_BG) || bg == Attr::Bg(IDLE_BG))
            },
{
    reveal_strlit("#424242");
    reveal_strlit("#4b4b4b");
    reveal_strlit("#2A2A2A");
    assert(SELECTED_BG@[2] != HOVER_BG@[2]);
    assert(SELECTED_BG@[2] != IDLE_BG@[2]);
    assert(SELECTED_BG != HOVER_BG);
    assert(SELECTED_BG != IDLE_BG);
}

/// The banner for `msg`: green for a success, red for an error; a click
/// hides it.
pub open spec fn banner_view(msg: Seq<char>, is_success: bool) -> ElementView {
    node(
        ElementType::Div,
        None,
        seq![
            Attr::Bg(if is_success { SUCCESS_BG } else { ERROR_BG }),
            Attr::Radius(8),
            Attr::Padding(12),
            Attr::MarginBottom(20),
            Attr::On(UiEvent::Click, HIDE_ERROR_EVENT),
        ],
        seq![leaf(ElementType::P, Some(msg), seq![Attr::Size(14), Attr::TextColor(BANNER_TEXT_COLOR)])],
    )
}

fn banner(msg: &String, is_success: bool) -> (r: Element)
    ensures
        r@ == banner_view(msg@, is_success),
{
    let text = Element::leaf(
        ElementType::P,
        Some(msg.clone()),
        vec![Attr::Size(14), Attr::TextColor(BANNER_TEXT_COLOR)],
    );
    let ghost t = text@;
    assert(t =~= leaf(ElementType::P, Some(msg@), seq![Attr::Size(14), Attr::TextColor(BANNER_TEXT_COLOR)]));
    let kids = vec![text];
    assert(kids@.map_values(|c: Element| c@) =~= seq![t]);
    let bg = if is_success {
        SUCCESS_BG
    } else {
        ERROR_BG
    };
    let r = Element::new(
        ElementType::Div,
        None,
        vec![
            Attr::Bg(bg),
            Attr::Radius(8),
            Attr::Padding(12),
            Attr::MarginBottom(20),
            Attr::On(UiEvent::Click, HIDE_ERROR_EVENT),
        ],
        kids,
    );
    assert(r@ =~= banner_view(msg@, is_success));
    r
}

/// The current tab's content.
pub open spec fn tab_content(s: UiStateView) -> ElementView {
    match s.current_tab {
        EventType::AddEvent => add_event_ui(s),
        EventType::ModifyEvent => modify_event_ui(s),
        EventType::DeleteEvent => delete_event_ui(s),
    }
}

/// The whole UI: the banner if a message is shown, the tabs, and the
/// current tab's content.
pub open spec fn main_ui(s: UiStateView) -> ElementView {
    let banner = match s.error_message {
        Some(msg) => seq![banner_view(msg, s.is_success_message)],
        None => seq![],
    };
    node(
        ElementType::Div,
        None,
        seq![
            Attr::Flex,
            Attr::FlexDirection(FlexDirection::Column),
            Attr::WidthFull,
            Attr::Padding(20),
        ],
        banner + seq![
            tabs_view(s),
            node(
                ElementType::Div,
                None,
                seq![
                    Attr::Flex,
                    Attr::FlexDirection(FlexDirection::Column),
                    Attr::PaddingTop(20),
                    Attr::PaddingBottom(20),
                ],
                seq![tab_content(s)],
            ),
        ],
    )
}

/// Builds the whole UI from the state.
pub fn build_main_ui(state: &UiState) -> (r: Element)
    ensures
        r@ == main_ui(state@),
{
    let content = match state.current_tab {
        EventType::AddEvent => build_add_event_ui(state),
        EventType::ModifyEvent => build_modify_event_ui(state),
        EventType::DeleteEvent => build_delete_event_ui(state),
    };
    let ghost c = content@;
    let content_kids = vec![content];
    assert(content_kids@.map_values(|e: Element| e@) =~= seq![c]);
    let content_container = Element::new(
        ElementType::Div,
        None,
        vec![
            Attr::Flex,
            Attr::FlexDirection(FlexDirection::Column),
            Attr::PaddingTop(20),
            Attr::PaddingBottom(20),
        ],
        content_kids,
    );
    let tab_bar = tabs(state);
    let ghost cc = content_container@;
    let ghost tb = tab_bar@;
    let mut kids: Vec<Element> = Vec::new();
    match &state.error_message {
        Some(msg) => {
            kids.push(banner(msg, state.is_success_message));
        },
        None => {},
    }
    let ghost banner_views = kids@.map_values(|e: Element| e@);
    kids.push(tab_bar);
    kids.push(content_container);
    assert(kids@.map_values(|e: Element| e@) =~= banner_views + seq![tb, cc]);
    let r = Element::new(
        ElementType::Div,
        None,
        vec![
            Attr::Flex,
            Attr::FlexDirection(FlexDirection::Column),
            Attr::WidthFull,
            Attr::Padding(20),
        ],
        kids,
    );
    assert(banner_views =~= match state@.error_message {
        Some(msg) => seq![banner_view(msg, state@.is_success_message)],
        None => Seq::<ElementView>::empty(),
    });
    assert(cc =~= main_ui(state@).children[main_ui(state@).children.len() - 1]);
    assert(r@ =~= main_ui(state@));
    r
}

/// Mounts the UI at `element_id` and builds it.
pub fn render_main_ui(state: &mut UiState, element_id: &str) -> (r: Element)
    ensures
        final(state)@ == (UiStateView { root_element_id: Some(element_id@), ..old(state)@ }),
        r@ == main_ui(final(state)@),
{
    state.root_element_id = Some(string_of(element_id));
    build_main_ui(state)
}

} // verus!
