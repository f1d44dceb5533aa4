//! Error codes of the C interface, the library's error type and command results.
use vstd::prelude::*;
use vstd::string::*;

use crate::event::{AudioInfo, VideoInfo};

verus! {

/// Error code returned over the C interface (negative means failure).
#[derive(Clone, Copy, Debug, PartialEq, Eq, Structural)]
pub enum ErrorCode {
    Success,
    InvalidArgument,
    InvalidState,
    FileNotFound,
    DemuxError,
    DecodeError,
    RenderError,
    AudioError,
    PipelineError,
    Internal,
}

/// The integer that stands for each error code on the C side.
pub open spec fn spec_code_value(c: ErrorCode) -> int {
    match c {
        ErrorCode::Success => 0,
        ErrorCode::InvalidArgument => -1,
        ErrorCode::InvalidState => -2,
        ErrorCode::FileNotFound => -3,
        ErrorCode::DemuxError => -4,
        ErrorCode::DecodeError => -5,
        ErrorCode::RenderError => -6,
        ErrorCode::AudioError => -7,
        ErrorCode::PipelineError => -8,
        ErrorCode::Internal => -99,
    }
}

impl ErrorCode {
    /// The integer that stands for this code on the C side.
    pub fn code(&self) -> (r: i32)
        ensures
            r == spec_code_value(*self),
    {
        match self {
            ErrorCode::Success => 0,
            ErrorCode::InvalidArgument => -1,
            ErrorCode::InvalidState => -2,
            ErrorCode::FileNotFound => -3,
            ErrorCode::DemuxError => -4,
            ErrorCode::DecodeError => -5,
            ErrorCode::RenderError => -6,
            ErrorCode::AudioError => -7,
            ErrorCode::PipelineError => -8,
            ErrorCode::Internal => -99,
        }
    }
}

/// Media information returned by a successful load.
#[derive(Clone, Debug)]
pub struct MediaInfo {
    /// Duration in microseconds.
    pub duration_us: i64,
    pub video: Option<VideoInfo>,
    pub audio: Option<AudioInfo>,
}

/// Result of a command.
#[derive(Debug)]
pub enum CommandResult {
    /// Nothing to return.
    Empty,
    /// Media information.
    MediaInfo(MediaInfo),
}

/// The library's error type.
#[derive(Clone, Debug)]
pub enum RaptorError {
    InvalidArgument(String),
    InvalidState(String),
    FileNotFound(String),
    Demux(String),
    Decode(String),
    Render(String),
    Audio(String),
    Pipeline(String),
    Internal(String),
}

/// Result with the library's error type.
pub type Result<T> = core::result::Result<T, RaptorError>;

/// The error code of each error kind.
pub open spec fn spec_error_code(e: RaptorError) -> ErrorCode {
    match e {
        RaptorError::InvalidArgument(_) => ErrorCode::InvalidArgument,
        RaptorError::InvalidState(_) => ErrorCode::InvalidState,
        RaptorError::FileNotFound(_) => ErrorCode::FileNotFound,
        RaptorError::Demux(_) => ErrorCode::DemuxError,
        RaptorError::Decode(_) => ErrorCode::DecodeError,
        RaptorError::Render(_) => ErrorCode::RenderError,
        RaptorError::Audio(_) => ErrorCode::AudioError,
        RaptorError::Pipeline(_) => ErrorCode::PipelineError,
        RaptorError::Internal(_) => ErrorCode::Internal,
    }
}

/// The prefix with which each error kind is displayed.
pub open spec fn spec_error_prefix(e: RaptorError) -> Seq<char> {
    match e {
        RaptorError::InvalidArgument(_) => "invalid argument: "@,
        RaptorError::InvalidState(_) => "invalid state: "@,
        RaptorError::FileNotFound(_) => "file not found: "@,
        RaptorError::Demux(_) => "demux error: "@,
        RaptorError::Decode(_) => "decode error: "@,
        RaptorError::Render(_) => "render error: "@,
        RaptorError::Audio(_) => "audio error: "@,
        RaptorError::Pipeline(_) => "pipeline error: "@,
        RaptorError::Internal(_) => "internal error: "@,
    }
}

/// The detail text that an error carries.
pub open spec fn spec_error_detail(e: RaptorError) -> Seq<char> {
    match e {
        RaptorError::InvalidArgument(s) => s@,
        RaptorError::InvalidState(s) => s@,
        RaptorError::FileNotFound(s) => s@,
        RaptorError::Demux(s) => s@,
        RaptorError::Decode(s) => s@,
        RaptorError::Render(s) => s@,
        RaptorError::Audio(s) => s@,
        RaptorError::Pipeline(s) => s@,
        RaptorError::Internal(s) => s@,
    }
}

impl RaptorError {
    /// The C error code of this error.
    pub fn error_code(&self) -> (r: ErrorCode)
        ensures
            r == spec_error_code(*self),
    {
        match self {
            RaptorError::InvalidArgument(_) => ErrorCode::InvalidArgument,
            RaptorError::InvalidState(_) => ErrorCode::InvalidState,
            RaptorError::FileNotFound(_) => ErrorCode::FileNotFound,
            RaptorError::Demux(_) => ErrorCode::DemuxError,
            RaptorError::Decode(_) => ErrorCode::DecodeError,
            RaptorError::Render(_) => ErrorCode::RenderError,
            RaptorError::Audio(_) => ErrorCode::AudioError,
            RaptorError::Pipeline(_) => ErrorCode::PipelineError,
            RaptorError::Internal(_) => ErrorCode::Internal,
        }
    }

    /// The error as it is displayed: its kind's prefix, then its detail.
    pub fn message(&self) -> (r: String)
        ensures
            r@ == spec_error_prefix(*self) + spec_error_detail(*self),
    {
        let (prefix, detail): (&str, &String) = match self {
            RaptorError::InvalidArgument(s) => ("invalid argument: ", s),
            RaptorError::InvalidState(s) => ("invalid state: ", s),
            RaptorError::FileNotFound(s) => ("file not found: ", s),
            RaptorError::Demux(s) => ("demux error: ", s),
            RaptorError::Decode(s) => ("decode error: ", s),
            RaptorError::Render(s) => ("render error: ", s),
            RaptorError::Audio(s) => ("audio error: ", s),
            RaptorError::Pipeline(s) => ("pipeline error: ", s),
            RaptorError::Internal(s) => ("internal error: ", s),
        };
        let mut msg = String::from_str(prefix);
        msg.append(detail.as_str());
        msg
    }
}

/// The status that the C interface returns for the outcome of a command:
/// `Ok` for success, else the error's code.
pub open spec fn spec_command_status(r: Result<CommandResult>) -> int {
    match r {
        Ok(_) => spec_code_value(ErrorCode::Success),
        Err(e) => spec_code_value(spec_error_code(e)),
    }
}

/// The status that the C interface returns for the outcome of a command.
pub fn command_status(r: &Result<CommandResult>) -> (s: i32)
    ensures
        s == spec_command_status(*r),
{
    match r {
        Ok(_) => ErrorCode::Success.code(),
        Err(e) => e.error_code().code(),
    }
}

/// Every error has a negative code over the C interface, and only success has
/// code 0.
pub proof fn lemma_error_codes_negative(e: RaptorError)
    ensures
        spec_code_value(spec_error_code(e)) < 0,
        spec_code_value(ErrorCode::Success) == 0,
{
}

/// The status of a command is 0 exactly when the command succeeded.
pub proof fn lemma_status_zero_iff_success(r: Result<CommandResult>)
    ensures
        (spec_command_status(r) == 0) <==> r is Ok,
        r is Err ==> spec_command_status(r) < 0,
{
}

} // verus!
