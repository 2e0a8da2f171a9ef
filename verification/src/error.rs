use vstd::prelude::*;

use crate::text::concat2;

verus! {

/// Errors the library's logic reports. Failures of file and JSON I/O are
/// added around these by the application shell.
#[derive(Debug, Clone, PartialEq, Eq)]
pub enum AppError {
    InvalidSettings { message: String },
    Audio { message: String },
    RealtimeSession { message: String },
    OfflineJob { message: String },
    Unsupported { message: String },
}

/// The machine-readable code of each error kind.
pub open spec fn error_code(e: AppError) -> Seq<char> {
    match e {
        AppError::InvalidSettings { .. } => "invalid_settings"@,
        AppError::Audio { .. } => "audio_error"@,
        AppError::RealtimeSession { .. } => "realtime_session_error"@,
        AppError::OfflineJob { .. } => "offline_job_error"@,
        AppError::Unsupported { .. } => "unsupported_feature"@,
    }
}

/// The human-readable text of an error: a prefix naming its kind, then its message.
pub open spec fn error_text(e: AppError) -> Seq<char> {
    match e {
        AppError::InvalidSettings { message } => "invalid settings: "@ + message@,
        AppError::Audio { message } => "audio backend error: "@ + message@,
        AppError::RealtimeSession { message } => "realtime session error: "@ + message@,
        AppError::OfflineJob { message } => "offline job error: "@ + message@,
        AppError::Unsupported { message } => "unsupported feature: "@ + message@,
    }
}

/// The message an error carries.
pub open spec fn error_message(e: AppError) -> Seq<char> {
    match e {
        AppError::InvalidSettings { message } => message@,
        AppError::Audio { message } => message@,
        AppError::RealtimeSession { message } => message@,
        AppError::OfflineJob { message } => message@,
        AppError::Unsupported { message } => message@,
    }
}

impl AppError {
    pub fn invalid_settings(message: String) -> (e: AppError)
        ensures
            e == (AppError::InvalidSettings { message }),
    {
        AppError::InvalidSettings { message }
    }

    pub fn audio(message: String) -> (e: AppError)
        ensures
            e == (AppError::Audio { message }),
    {
        AppError::Audio { message }
    }

    pub fn realtime_session(message: String) -> (e: AppError)
        ensures
            e == (AppError::RealtimeSession { message }),
    {
        AppError::RealtimeSession { message }
    }

    pub fn offline_job(message: String) -> (e: AppError)
        ensures
            e == (AppError::OfflineJob { message }),
    {
        AppError::OfflineJob { message }
    }

    pub fn unsupported(message: String) -> (e: AppError)
        ensures
            e == (AppError::Unsupported { message }),
    {
        AppError::Unsupported { message }
    }

    /// See `error_code`.
    pub fn code(&self) -> (c: &'static str)
        ensures
            c@ == error_code(*self),
    {
        match self {
            AppError::InvalidSettings { .. } => "invalid_settings",
            AppError::Audio { .. } => "audio_error",
            AppError::RealtimeSession { .. } => "realtime_session_error",
            AppError::OfflineJob { .. } => "offline_job_error",
            AppError::Unsupported { .. } => "unsupported_feature",
        }
    }

    /// See `error_text`.
    pub fn to_text(&self) -> (t: String)
        ensures
            t@ == error_text(*self),
    {
        match self {
            AppError::InvalidSettings { message } => concat2("invalid settings: ", message.as_str()),
            AppError::Audio { message } => concat2("audio backend error: ", message.as_str()),
            AppError::RealtimeSession { message } => concat2("realtime session error: ", message.as_str()),
            AppError::OfflineJob { message } => concat2("offline job error: ", message.as_str()),
            AppError::Unsupported { message } => concat2("unsupported feature: ", message.as_str()),
        }
    }

    /// The message this error carries.
    pub fn message(&self) -> (m: &String)
        ensures
            m@ == error_message(*self),
    {
        match self {
            AppError::InvalidSettings { message } => message,
            AppError::Audio { message } => message,
            AppError::RealtimeSession { message } => message,
            AppError::OfflineJob { message } => message,
            AppError::Unsupported { message } => message,
        }
    }
}

/// An error as reported across the command interface: its code and text.
#[derive(Debug, Clone, PartialEq, Eq)]
pub struct ApiError {
    pub code: &'static str,
    pub message: String,
}

impl ApiError {
    /// The code and text of `error`.
    pub fn from_app_error(error: AppError) -> (e: ApiError)
        ensures
            e.code@ == error_code(error),
            e.message@ == error_text(error),
    {
        ApiError { code: error.code(), message: error.to_text() }
    }
}

pub type AppResult<T> = Result<T, AppError>;

pub type ApiResult<T> = Result<T, ApiError>;

} // verus!
