use rmgba::emulation::{audio_buffer_capacity, frame_pause, EmulationLoop, EmuEvent, Outcome, Stage, MUTED_SAMPLE_RATE};

const FRAME: u64 = 16_666_667;

fn started() -> EmulationLoop {
    let mut l = EmulationLoop::new(FRAME);
    assert_eq!(l.stage(), Stage::CreateCore);
    assert!(l.step(Outcome::Succeeded).is_none());
    assert_eq!(l.stage(), Stage::LoadRom);
    assert!(l.step(Outcome::Succeeded).is_none());
    assert_eq!(l.stage(), Stage::ResetCore);
    assert!(l.step(Outcome::Succeeded).is_none());
    assert_eq!(l.stage(), Stage::OpenAudio);
    assert!(l.step(Outcome::Succeeded).is_none());
    assert_eq!(l.stage(), Stage::CheckRunning);
    l
}

#[test]
fn one_frame_then_stop() {
    let mut l = started();
    assert!(l.step(Outcome::Running(true)).is_none());
    assert_eq!(l.stage(), Stage::SetKeys);
    assert!(l.step(Outcome::Succeeded).is_none());
    assert_eq!(l.stage(), Stage::RunFrame);
    assert!(l.step(Outcome::Succeeded).is_none());
    assert_eq!(l.stage(), Stage::DrainAudio);
    assert!(l.step(Outcome::AudioRead(1024)).is_none());
    assert_eq!(l.stage(), Stage::DrainAudio);
    assert!(l.step(Outcome::AudioRead(0)).is_none());
    assert_eq!(l.stage(), Stage::SendFrame);
    assert!(l.step(Outcome::FrameShown { spent_nanos: 6_666_667 }).is_none());
    assert_eq!(l.stage(), Stage::Pause { nanos: 10_000_000 });
    assert!(l.step(Outcome::Succeeded).is_none());
    assert_eq!(l.stage(), Stage::CheckRunning);
    assert!(l.step(Outcome::Running(false)).is_none());
    assert!(l.is_finished());
}

#[test]
fn slow_frame_is_not_followed_by_a_pause() {
    let mut l = started();
    l.step(Outcome::Running(true));
    l.step(Outcome::Succeeded);
    l.step(Outcome::Succeeded);
    l.step(Outcome::AudioRead(0));
    assert!(l.step(Outcome::FrameShown { spent_nanos: 20_000_000 }).is_none());
    assert_eq!(l.stage(), Stage::CheckRunning);
}

#[test]
fn core_failures_end_emulation() {
    let mut l = EmulationLoop::new(FRAME);
    assert_eq!(l.step(Outcome::Failed("CreateFailed".to_string())), Some("failed to create core: CreateFailed".to_string()));
    assert!(l.is_finished());

    let mut l = EmulationLoop::new(FRAME);
    l.step(Outcome::Succeeded);
    assert_eq!(l.step(Outcome::Failed("RomLoadFailed".to_string())), Some("failed to load ROM: RomLoadFailed".to_string()));
    assert!(l.is_finished());

    let mut l = EmulationLoop::new(FRAME);
    l.step(Outcome::Succeeded);
    l.step(Outcome::Succeeded);
    assert_eq!(l.step(Outcome::Failed("MissingFunction".to_string())), Some("failed to reset core: MissingFunction".to_string()));
    assert!(l.is_finished());

    let mut l = started();
    l.step(Outcome::Running(true));
    assert_eq!(l.step(Outcome::Failed("E".to_string())), Some("set_keys failed: E".to_string()));
    assert!(l.is_finished());

    let mut l = started();
    l.step(Outcome::Running(true));
    l.step(Outcome::Succeeded);
    assert_eq!(l.step(Outcome::Failed("E".to_string())), Some("run_frame failed: E".to_string()));
    assert!(l.is_finished());
}

#[test]
fn audio_failure_goes_on_muted() {
    let mut l = EmulationLoop::new(FRAME);
    l.step(Outcome::Succeeded);
    l.step(Outcome::Succeeded);
    l.step(Outcome::Succeeded);
    assert_eq!(
        l.step(Outcome::Failed("no audio output device found".to_string())),
        Some("no audio output device found; continuing without sound".to_string())
    );
    assert_eq!(l.stage(), Stage::CheckRunning);
}

#[test]
fn finished_stays_finished() {
    let mut l = started();
    l.step(Outcome::Running(false));
    assert!(l.is_finished());
    assert!(l.step(Outcome::Succeeded).is_none());
    assert!(l.step(Outcome::Failed("x".to_string())).is_none());
    assert!(l.step(Outcome::Running(true)).is_none());
    assert!(l.is_finished());
}

#[test]
fn outcome_of_another_stage_changes_nothing() {
    let mut l = EmulationLoop::new(FRAME);
    assert!(l.step(Outcome::AudioRead(0)).is_none());
    assert_eq!(l.stage(), Stage::CreateCore);
    assert!(l.step(Outcome::Running(false)).is_none());
    assert_eq!(l.stage(), Stage::CreateCore);
}

#[test]
fn pause_fills_the_frame() {
    assert_eq!(frame_pause(0, FRAME), FRAME);
    assert_eq!(frame_pause(16_000_000, FRAME), 666_667);
    assert_eq!(frame_pause(FRAME, FRAME), 0);
    assert_eq!(frame_pause(FRAME + 1, FRAME), 0);
}

#[test]
fn audio_buffer_is_a_tenth_of_a_second_of_stereo() {
    assert_eq!(audio_buffer_capacity(48_000), 9_600);
    assert_eq!(audio_buffer_capacity(44_100), 8_820);
    assert_eq!(audio_buffer_capacity(MUTED_SAMPLE_RATE), 9_600);
    assert_eq!(audio_buffer_capacity(5), 0);
}

#[test]
fn events_carry_frames_and_errors() {
    let e = EmuEvent::Frame(vec![0x00ff0000; 4]);
    assert!(matches!(e, EmuEvent::Frame(ref p) if p.len() == 4));
    let e = EmuEvent::Error("boom".to_string());
    assert!(matches!(e, EmuEvent::Error(ref m) if m == "boom"));
}
