use freta::monitor::{JobMonitor, MonitorOutcome};
use freta::{Error, Image, ImageFormat, ImageId, ImageState, OwnerId};

fn snapshot(state: ImageState, error: Option<&str>) -> Image {
    let mut image = Image::new(OwnerId::samples(), ImageId(5), ImageFormat::Lime, vec![]);
    image.state = state;
    image.error = error.map(|e| e.to_string());
    image
}

/// Run the monitor over scripted states: polls made, states announced, and
/// the outcome.
fn run(script: &[(ImageState, Option<&str>)]) -> (usize, Vec<ImageState>, MonitorOutcome) {
    let mut monitor = JobMonitor::new();
    let mut notices = vec![];
    for (polls, (state, error)) in script.iter().enumerate() {
        let observation = monitor.observe(snapshot(*state, *error));
        if let Some(s) = observation.notice {
            notices.push(s);
        }
        match observation.outcome {
            MonitorOutcome::Poll => continue,
            done => return (polls + 1, notices, done),
        }
    }
    panic!("the script ended before a terminal state")
}

#[test]
fn completed_after_four_polls() {
    let (polls, notices, outcome) = run(&[
        (ImageState::Queued, None),
        (ImageState::Running, None),
        (ImageState::Running, None),
        (ImageState::Completed, None),
    ]);
    assert_eq!(polls, 4);
    assert_eq!(
        notices,
        vec![ImageState::Queued, ImageState::Running, ImageState::Completed]
    );
    match outcome {
        MonitorOutcome::Completed(image) => {
            assert_eq!(image.state, ImageState::Completed);
            assert_eq!(image.image_id, ImageId(5));
        }
        _ => panic!("expected the completed snapshot"),
    }
}

#[test]
fn failure_carries_the_job_error() {
    let (polls, _, outcome) = run(&[(ImageState::Queued, None), (ImageState::Failed, Some("boom"))]);
    assert_eq!(polls, 2);
    match outcome {
        MonitorOutcome::Failed(Error::AnalysisFailed(m)) => assert_eq!(m, "boom"),
        _ => panic!("expected the analysis failure"),
    }
}

#[test]
fn failure_without_error_text() {
    let (_, _, outcome) = run(&[(ImageState::Failed, None)]);
    match outcome {
        MonitorOutcome::Failed(Error::AnalysisFailed(m)) => assert_eq!(m, "unknown error"),
        _ => panic!("expected the analysis failure"),
    }
}

#[test]
fn re_entrant_states_are_announced_again() {
    let (polls, notices, _) = run(&[
        (ImageState::Finalizing, None),
        (ImageState::Queued, None),
        (ImageState::Finalizing, None),
        (ImageState::Completed, None),
    ]);
    assert_eq!(polls, 4);
    assert_eq!(notices.len(), 4);
}
