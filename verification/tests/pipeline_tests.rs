use xkcd_cli::error::{PipelineError, TransportFailure};
use xkcd_cli::pipeline::{advance, Stage};
use xkcd_cli::resolve::{resolve_url, RequestTarget};

#[test]
fn success_path_without_persistence() {
    let mut stage = Stage::Start;
    for expected in [
        Stage::Resolving,
        Stage::Requesting,
        Stage::Decoding,
        Stage::Mapping,
        Stage::Rendering,
        Stage::Done,
    ] {
        stage = advance(stage, false, true);
        assert_eq!(stage, expected);
    }
    assert_eq!(advance(stage, false, true), Stage::Done);
}

#[test]
fn success_path_with_persistence() {
    let mut stage = Stage::Start;
    for expected in [
        Stage::Resolving,
        Stage::Requesting,
        Stage::Decoding,
        Stage::Mapping,
        Stage::Persisting,
        Stage::Rendering,
        Stage::Done,
    ] {
        stage = advance(stage, true, true);
        assert_eq!(stage, expected);
    }
}

#[test]
fn persistence_failure_aborts_before_rendering() {
    // Scenario: save requested, persistence target unwritable.
    let mut stage = Stage::Start;
    for _ in 0..5 {
        stage = advance(stage, true, true);
    }
    assert_eq!(stage, Stage::Persisting);
    stage = advance(stage, true, false);
    assert_eq!(stage, Stage::Failed);
    // The failed stage is terminal: rendering is never reached.
    assert_eq!(advance(stage, true, true), Stage::Failed);
    assert_eq!(advance(stage, false, true), Stage::Failed);
}

#[test]
fn any_stage_failure_is_terminal() {
    for stage in [
        Stage::Start,
        Stage::Resolving,
        Stage::Requesting,
        Stage::Decoding,
        Stage::Mapping,
        Stage::Persisting,
        Stage::Rendering,
    ] {
        assert_eq!(advance(stage, false, false), Stage::Failed);
        assert_eq!(advance(stage, true, false), Stage::Failed);
    }
}

#[test]
fn target_forms_are_exclusive() {
    assert_eq!(RequestTarget::from_num(0), RequestTarget::Latest);
    assert_eq!(RequestTarget::from_num(614), RequestTarget::Specific(614));
    assert_eq!(resolve_url(&RequestTarget::Latest), "https://xkcd.com/info.0.json");
    assert_eq!(
        resolve_url(&RequestTarget::Specific(614)),
        "https://xkcd.com/614/info.0.json"
    );
}

#[test]
fn error_reports_name_the_failing_stage() {
    assert_eq!(PipelineError::InvalidTarget.describe(), "invalid request target");
    assert_eq!(
        PipelineError::Transport(TransportFailure::Connect).describe(),
        "could not reach the service"
    );
    assert_eq!(
        PipelineError::Transport(TransportFailure::Timeout).describe(),
        "the request timed out"
    );
    assert_eq!(
        PipelineError::Transport(TransportFailure::HttpStatus).describe(),
        "the service answered with an error status"
    );
    assert_eq!(PipelineError::Decode.describe(), "unexpected response shape");
    assert_eq!(PipelineError::Persistence.describe(), "could not save the entry");
    assert_eq!(PipelineError::Render.describe(), "could not write the rendering");
}
