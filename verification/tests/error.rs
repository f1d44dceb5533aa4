use raptor::error::{command_status, CommandResult, ErrorCode, RaptorError};

#[test]
fn error_codes_match_c_values() {
    assert_eq!(ErrorCode::Success.code(), 0);
    assert_eq!(ErrorCode::InvalidArgument.code(), -1);
    assert_eq!(ErrorCode::InvalidState.code(), -2);
    assert_eq!(ErrorCode::FileNotFound.code(), -3);
    assert_eq!(ErrorCode::DemuxError.code(), -4);
    assert_eq!(ErrorCode::DecodeError.code(), -5);
    assert_eq!(ErrorCode::RenderError.code(), -6);
    assert_eq!(ErrorCode::AudioError.code(), -7);
    assert_eq!(ErrorCode::PipelineError.code(), -8);
    assert_eq!(ErrorCode::Internal.code(), -99);
}

#[test]
fn each_error_has_its_code_and_message() {
    let cases = vec![
        (RaptorError::InvalidArgument("x".into()), ErrorCode::InvalidArgument, "invalid argument: x"),
        (RaptorError::InvalidState("x".into()), ErrorCode::InvalidState, "invalid state: x"),
        (RaptorError::FileNotFound("x".into()), ErrorCode::FileNotFound, "file not found: x"),
        (RaptorError::Demux("x".into()), ErrorCode::DemuxError, "demux error: x"),
        (RaptorError::Decode("x".into()), ErrorCode::DecodeError, "decode error: x"),
        (RaptorError::Render("x".into()), ErrorCode::RenderError, "render error: x"),
        (RaptorError::Audio("x".into()), ErrorCode::AudioError, "audio error: x"),
        (RaptorError::Pipeline("x".into()), ErrorCode::PipelineError, "pipeline error: x"),
        (RaptorError::Internal("x".into()), ErrorCode::Internal, "internal error: x"),
    ];
    for (e, code, msg) in cases {
        assert_eq!(e.error_code(), code);
        assert!(e.error_code().code() < 0);
        assert_eq!(e.message(), msg);
    }
}

#[test]
fn command_status_codes() {
    assert_eq!(command_status(&Ok(CommandResult::Empty)), 0);
    assert_eq!(command_status(&Err(RaptorError::InvalidState("s".into()))), -2);
    assert_eq!(command_status(&Err(RaptorError::Internal("s".into()))), -99);
}
