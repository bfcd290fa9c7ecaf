//! Event names that the UI elements report, and the texts the banner shows.

use vstd::prelude::*;

verus! {

pub const TAB_CHANGE_EVENT: &'static str = "tab_change";
pub const EVENT_NAME_INPUT_EVENT: &'static str = "event_name_input";
pub const EVENT_TIME_INPUT_EVENT: &'static str = "event_time_input";
pub const ON_INDEX_CHANGE_EVENT: &'static str = "on_index_change";
pub const ON_INDEX_YES_EVENT: &'static str = "on_index_yes";
pub const ON_INDEX_NO_EVENT: &'static str = "on_index_no";
pub const IF_STARING_DAY_CHANGE_EVENT: &'static str = "if_staring_day_change";
pub const IF_STARING_DAY_YES_EVENT: &'static str = "if_staring_day_yes";
pub const IF_STARING_DAY_NO_EVENT: &'static str = "if_staring_day_no";
pub const MODIFY_EVENT_NAME_INPUT_EVENT: &'static str = "modify_event_name_input";
pub const MODIFY_EVENT_TIME_INPUT_EVENT: &'static str = "modify_event_time_input";
pub const MODIFY_ON_INDEX_CHANGE_EVENT: &'static str = "modify_on_index_change";
pub const MODIFY_ON_INDEX_YES_EVENT: &'static str = "modify_on_index_yes";
pub const MODIFY_ON_INDEX_NO_EVENT: &'static str = "modify_on_index_no";
pub const MODIFY_IF_STARING_DAY_CHANGE_EVENT: &'static str = "modify_if_staring_day_change";
pub const MODIFY_IF_STARING_DAY_YES_EVENT: &'static str = "modify_if_staring_day_yes";
pub const MODIFY_IF_STARING_DAY_NO_EVENT: &'static str = "modify_if_staring_day_no";
pub const ADD_EVENT_BUTTON_EVENT: &'static str = "add_event_button";
pub const GET_EVENTS_BUTTON_EVENT: &'static str = "get_events_button";
pub const CHANGE_EVENT_BUTTON_EVENT: &'static str = "change_event_button";
pub const DELETE_EVENT_BUTTON_EVENT: &'static str = "delete_event_button";
pub const SELECT_EVENT_DROPDOWN_EVENT: &'static str = "select_event_dropdown";
pub const TAB_ADD_EVENT: &'static str = "tab_add_event";
pub const TAB_MODIFY_EVENT: &'static str = "tab_modify_event";
pub const TAB_DELETE_EVENT: &'static str = "tab_delete_event";
pub const HIDE_ERROR_EVENT: &'static str = "hide_error";
pub const BUTTON_MOUSE_LEAVE: &'static str = "button_mouse_leave";

/// Package name of the countdown-day quick app on the band.
pub const DAYMATTER_PACKAGE: &'static str = "com.yzf.daymatter";

pub const SENDING_MESSAGE: &'static str = "正在发送，请稍等···";
pub const SENT_MESSAGE: &'static str = "发送成功！";
pub const FETCHED_MESSAGE: &'static str = "获取手环端数据成功！";
pub const EMPTY_NAME_MESSAGE: &'static str = "事件名称不能为空";
pub const SELECT_TO_MODIFY_MESSAGE: &'static str = "请选择你要修改的事件！";
pub const SELECT_TO_DELETE_MESSAGE: &'static str = "请选择你要删除的事件！";
pub const NO_DEVICE_MESSAGE: &'static str = "未找到设备";
pub const APP_LIST_FAILED_MESSAGE: &'static str = "获取应用列表失败";
pub const APP_MISSING_MESSAGE: &'static str = "请先安装倒数日快应用";
pub const APP_OUTDATED_MESSAGE: &'static str = "请先安装倒数日快应用的新版本！";
pub const SEND_FAILED_MESSAGE: &'static str = "发送失败，请重试";

/// The timer that hides the banner.
pub const HIDE_MESSAGE_TIMER: &'static str = "hide_message";
/// How long the banner stays before it hides itself, in milliseconds.
pub const MESSAGE_HIDE_DELAY_MS: u32 = 3000;

/// The dropdown answer that means "yes".
pub const YES_TEXT: &'static str = "是";
/// The full-width space between an event's number and its name in the dropdown.
pub const OPTION_SEPARATOR: char = '　';

} // verus!
