//! The errors that DisplayMux reports.

use crate::text::{decimal, decimal_string, hexadecimal, hexadecimal_string, join2, join3};
use vstd::prelude::*;

verus! {

#[derive(Debug, PartialEq, Eq)]
pub enum DisplayMuxError {
    /// No connected display has the fingerprint of the shared display.
    TargetNotFound,
    /// Several connected displays have the fingerprint of the shared display.
    AmbiguousTarget { count: usize },
    /// A display that was listed before is gone.
    MonitorNoLongerAvailable(String),
    /// A number that is no display input.
    InvalidInput(u32),
    /// A text that names no display input.
    InvalidInputCode(String),
    UnsupportedPlatform,
    InvalidMacAddress(String),
    WakeFailed(String),
    PeerUnavailable(String),
    AuthenticationFailed,
    StaleRequest,
    /// A failure of the operating system or of the display.
    Backend(String),
}

/// What an error says: its kind, and the characters of the text that it carries.
pub enum ErrorView {
    TargetNotFound,
    AmbiguousTarget { count: nat },
    MonitorNoLongerAvailable(Seq<char>),
    InvalidInput(u32),
    InvalidInputCode(Seq<char>),
    UnsupportedPlatform,
    InvalidMacAddress(Seq<char>),
    WakeFailed(Seq<char>),
    PeerUnavailable(Seq<char>),
    AuthenticationFailed,
    StaleRequest,
    Backend(Seq<char>),
}

impl View for DisplayMuxError {
    type V = ErrorView;

    open spec fn view(&self) -> ErrorView {
        match *self {
            DisplayMuxError::TargetNotFound => ErrorView::TargetNotFound,
            DisplayMuxError::AmbiguousTarget { count } => ErrorView::AmbiguousTarget {
                count: count as nat,
            },
            DisplayMuxError::MonitorNoLongerAvailable(id) => ErrorView::MonitorNoLongerAvailable(
                id@,
            ),
            DisplayMuxError::InvalidInput(value) => ErrorView::InvalidInput(value),
            DisplayMuxError::InvalidInputCode(code) => ErrorView::InvalidInputCode(code@),
            DisplayMuxError::UnsupportedPlatform => ErrorView::UnsupportedPlatform,
            DisplayMuxError::InvalidMacAddress(address) => ErrorView::InvalidMacAddress(address@),
            DisplayMuxError::WakeFailed(reason) => ErrorView::WakeFailed(reason@),
            DisplayMuxError::PeerUnavailable(reason) => ErrorView::PeerUnavailable(reason@),
            DisplayMuxError::AuthenticationFailed => ErrorView::AuthenticationFailed,
            DisplayMuxError::StaleRequest => ErrorView::StaleRequest,
            DisplayMuxError::Backend(reason) => ErrorView::Backend(reason@),
        }
    }
}

impl Clone for DisplayMuxError {
    fn clone(&self) -> (copy: Self)
        ensures
            copy == *self,
    {
        match self {
            DisplayMuxError::TargetNotFound => DisplayMuxError::TargetNotFound,
            DisplayMuxError::AmbiguousTarget { count } => DisplayMuxError::AmbiguousTarget {
                count: *count,
            },
            DisplayMuxError::MonitorNoLongerAvailable(id) => DisplayMuxError::MonitorNoLongerAvailable(
                id.clone(),
            ),
            DisplayMuxError::InvalidInput(value) => DisplayMuxError::InvalidInput(*value),
            DisplayMuxError::InvalidInputCode(code) => DisplayMuxError::InvalidInputCode(code.clone()),
            DisplayMuxError::UnsupportedPlatform => DisplayMuxError::UnsupportedPlatform,
            DisplayMuxError::InvalidMacAddress(address) => DisplayMuxError::InvalidMacAddress(
                address.clone(),
            ),
            DisplayMuxError::WakeFailed(reason) => DisplayMuxError::WakeFailed(reason.clone()),
            DisplayMuxError::PeerUnavailable(reason) => DisplayMuxError::PeerUnavailable(
                reason.clone(),
            ),
            DisplayMuxError::AuthenticationFailed => DisplayMuxError::AuthenticationFailed,
            DisplayMuxError::StaleRequest => DisplayMuxError::StaleRequest,
            DisplayMuxError::Backend(reason) => DisplayMuxError::Backend(reason.clone()),
        }
    }
}

/// The text of an error in Traditional Chinese.
pub open spec fn chinese_message(error: ErrorView) -> Seq<char> {
    match error {
        ErrorView::TargetNotFound => "找不到設定的共用螢幕；未變更任何螢幕"@,
        ErrorView::AmbiguousTarget { count } => "找到 "@ + decimal(count)
            + " 台符合共用螢幕指紋的裝置；為避免誤控，已停止操作"@,
        ErrorView::MonitorNoLongerAvailable(id) => "找不到先前列舉的螢幕裝置："@ + id,
        ErrorView::InvalidInput(value) => "無效的螢幕輸入值：0x"@ + hexadecimal(value as nat, 2),
        ErrorView::InvalidInputCode(code) => "無法辨識螢幕輸入值："@ + code
            + "；請輸入 0x01 至 0xFF，或使用十進位 1 至 255"@,
        ErrorView::UnsupportedPlatform => "此平台尚未提供螢幕控制功能"@,
        ErrorView::InvalidMacAddress(address) => "MAC 位址格式無效："@ + address,
        ErrorView::WakeFailed(reason) => "無法送出網路喚醒封包："@ + reason,
        ErrorView::PeerUnavailable(reason) => "無法連線至另一台主機："@ + reason,
        ErrorView::AuthenticationFailed => "另一台主機拒絕了未通過驗證的要求"@,
        ErrorView::StaleRequest => "要求已過期或可能被重播"@,
        ErrorView::Backend(reason) => "無法完成螢幕操作："@ + reason,
    }
}

/// The text of an error in English.
pub open spec fn english_message(error: ErrorView) -> Seq<char> {
    match error {
        ErrorView::TargetNotFound =>
            "The configured shared display was not found; no display was changed"@,
        ErrorView::AmbiguousTarget { count } => "Found "@ + decimal(count)
            + " displays with the shared display fingerprint; stopped to avoid controlling the wrong one"@,
        ErrorView::MonitorNoLongerAvailable(id) =>
            "The previously listed display is no longer available: "@ + id,
        ErrorView::InvalidInput(value) => "Invalid display input value: 0x"@ + hexadecimal(
            value as nat,
            2,
        ),
        ErrorView::InvalidInputCode(code) => "Unrecognized display input value: "@ + code
            + "; enter 0x01 to 0xFF, or decimal 1 to 255"@,
        ErrorView::UnsupportedPlatform => "Display control is not available on this platform"@,
        ErrorView::InvalidMacAddress(address) => "Invalid MAC address: "@ + address,
        ErrorView::WakeFailed(reason) => "Unable to send the wake packet: "@ + reason,
        ErrorView::PeerUnavailable(reason) => "Unable to connect to the other host: "@ + reason,
        ErrorView::AuthenticationFailed =>
            "The other host rejected a request that failed authentication"@,
        ErrorView::StaleRequest => "The request expired or may have been replayed"@,
        ErrorView::Backend(reason) => "The display operation could not be completed: "@ + reason,
    }
}

/// The text of an error in the language of the user.
pub open spec fn error_message(error: ErrorView, traditional_chinese: bool) -> Seq<char> {
    if traditional_chinese {
        chinese_message(error)
    } else {
        english_message(error)
    }
}

impl DisplayMuxError {
    /// The error in Traditional Chinese.
    pub fn message(&self) -> (text: String)
        ensures
            text@ == chinese_message(self@),
    {
        match self {
            DisplayMuxError::TargetNotFound => "找不到設定的共用螢幕；未變更任何螢幕".to_owned(),
            DisplayMuxError::AmbiguousTarget { count } => join3(
                "找到 ",
                decimal_string(*count as u128).as_str(),
                " 台符合共用螢幕指紋的裝置；為避免誤控，已停止操作",
            ),
            DisplayMuxError::MonitorNoLongerAvailable(id) => join2(
                "找不到先前列舉的螢幕裝置：",
                id.as_str()),
            DisplayMuxError::InvalidInput(value) => join2(
                "無效的螢幕輸入值：0x",
                hexadecimal_string(*value, 2).as_str()),
            DisplayMuxError::InvalidInputCode(code) => join3(
                "無法辨識螢幕輸入值：",
                code.as_str(),
                "；請輸入 0x01 至 0xFF，或使用十進位 1 至 255",
            ),
            DisplayMuxError::UnsupportedPlatform => "此平台尚未提供螢幕控制功能".to_owned(),
            DisplayMuxError::InvalidMacAddress(address) => join2(
                "MAC 位址格式無效：",
                address.as_str()),
            DisplayMuxError::WakeFailed(reason) => join2(
                "無法送出網路喚醒封包：",
                reason.as_str()),
            DisplayMuxError::PeerUnavailable(reason) => join2(
                "無法連線至另一台主機：",
                reason.as_str()),
            DisplayMuxError::AuthenticationFailed => "另一台主機拒絕了未通過驗證的要求".to_owned(),
            DisplayMuxError::StaleRequest => "要求已過期或可能被重播".to_owned(),
            DisplayMuxError::Backend(reason) => join2("無法完成螢幕操作：", reason.as_str()),
        }
    }

    /// The error in the language of the user.
    pub fn localized_message(&self, traditional_chinese: bool) -> (text: String)
        ensures
            text@ == error_message(self@, traditional_chinese),
    {
        if traditional_chinese {
            return self.message();
        }
        match self {
            DisplayMuxError::TargetNotFound =>
                "The configured shared display was not found; no display was changed".to_owned(),
            DisplayMuxError::AmbiguousTarget { count } => join3(
                "Found ",
                decimal_string(*count as u128).as_str(),
                " displays with the shared display fingerprint; stopped to avoid controlling the wrong one",
            ),
            DisplayMuxError::MonitorNoLongerAvailable(id) => join2(
                "The previously listed display is no longer available: ",
                id.as_str()),
            DisplayMuxError::InvalidInput(value) => join2(
                "Invalid display input value: 0x",
                hexadecimal_string(*value, 2).as_str()),
            DisplayMuxError::InvalidInputCode(code) => join3(
                "Unrecognized display input value: ",
                code.as_str(),
                "; enter 0x01 to 0xFF, or decimal 1 to 255",
            ),
            DisplayMuxError::UnsupportedPlatform =>
                "Display control is not available on this platform".to_owned(),
            DisplayMuxError::InvalidMacAddress(address) => join2(
                "Invalid MAC address: ",
                address.as_str()),
            DisplayMuxError::WakeFailed(reason) => join2(
                "Unable to send the wake packet: ",
                reason.as_str()),
            DisplayMuxError::PeerUnavailable(reason) => join2(
                "Unable to connect to the other host: ",
                reason.as_str()),
            DisplayMuxError::AuthenticationFailed =>
                "The other host rejected a request that failed authentication".to_owned(),
            DisplayMuxError::StaleRequest =>
                "The request expired or may have been replayed".to_owned(),
            DisplayMuxError::Backend(reason) => join2(
                "The display operation could not be completed: ",
                reason.as_str()),
        }
    }
}

} // verus!
