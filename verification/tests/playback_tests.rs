use ascii_video::error::FFMPegError;
use ascii_video::playback::{
    session_dimensions, step, PlaybackAction, PlaybackEvent, PlaybackState,
};

#[test]
fn session_runs_start_to_stop() {
    let (state, action) = step(PlaybackState::Starting, PlaybackEvent::SessionReady);
    assert_eq!(state, PlaybackState::Playing);
    assert_eq!(action, PlaybackAction::ReadFrame);

    let (state, action) = step(state, PlaybackEvent::FrameReady);
    assert_eq!(state, PlaybackState::Playing);
    assert_eq!(action, PlaybackAction::RenderSleepAndRead);

    let (state, action) = step(state, PlaybackEvent::EndOfStream);
    assert_eq!(state, PlaybackState::Draining);
    assert_eq!(action, PlaybackAction::WaitForChild);

    let (state, action) = step(state, PlaybackEvent::ChildExited(true));
    assert_eq!(state, PlaybackState::Stopped);
    assert_eq!(action, PlaybackAction::Finish(true));
}

#[test]
fn abnormal_child_exit_finishes_with_failure() {
    let (state, action) = step(PlaybackState::Draining, PlaybackEvent::ChildExited(false));
    assert_eq!(state, PlaybackState::Stopped);
    assert_eq!(action, PlaybackAction::Finish(false));
}

#[test]
fn queried_terminal_size_reserves_one_row() {
    assert_eq!(session_dimensions(Some((100, 40))), (100, 39));
    assert_eq!(session_dimensions(Some((5, 1))), (5, 0));
    assert_eq!(session_dimensions(Some((5, 0))), (5, 0));
}

#[test]
fn missing_terminal_size_falls_back_to_the_default_pair() {
    assert_eq!(session_dimensions(None), (209, 51));
}

#[test]
fn each_error_variant_carries_its_message() {
    let spawn = FFMPegError::SpawnError(String::from("no decoder binary"));
    assert_eq!(spawn.message(), "no decoder binary");
    let write = FFMPegError::WriteToStdError(String::from("pipe closed"));
    assert_eq!(write.message(), "pipe closed");
    let read = FFMPegError::ReadFromStdError(String::from("decoder exited with 1"));
    assert_eq!(read.message(), "decoder exited with 1");
}
