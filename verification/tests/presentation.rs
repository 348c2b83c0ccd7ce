use vvdoom::error::ErrorKind;
use vvdoom::geometry::{DescriptorValue, GeometryError, TerminalGeometry};
use vvdoom::media::MediaError;
use vvdoom::presentation::{
    next_setup_step, output_ready, output_wait, surface_definition, track_diagnostic, Answer, AudioReadiness,
    AudioShutdown, CoordinateModel, EventAction, LayoutUpdate, NodeCreation, PollStep, Presentation,
    PresentationError, RetryStep, SessionEvent, SetupStep, ShutdownStep, SlotBinding, SubmitError,
    SurfaceRole, Worker,
};
use vvdoom::queue::{BoundedQueue, LatestQueue};
use vvdoom::workers::{AudioBlock, WorkerStatus};

fn geometry() -> TerminalGeometry {
    TerminalGeometry {
        viewport_width_px: 1000,
        viewport_height_px: 800,
        cols: 100,
        rows: 40,
        cell_width_px: 10,
        cell_height_px: 20,
    }
}

fn sounding() -> Presentation {
    Presentation::new(geometry(), 10, Some(20))
}

fn silent() -> Presentation {
    Presentation::new(geometry(), 10, None)
}

fn sound() -> BoundedQueue<AudioBlock> {
    BoundedQueue::new(8)
}

/// Whether the queue takes nothing more.
fn is_closed(queue: &mut BoundedQueue<AudioBlock>) -> bool {
    queue.push(AudioBlock { pts_us: 0, data: Vec::new() }).is_err()
}

fn lost(object_id: u64) -> SessionEvent {
    SessionEvent::TrackLost { object_id, payload: vec![(6, Some("decoder died".to_owned()))] }
}

fn closed() -> SessionEvent {
    SessionEvent::ConnectionClosed { diagnostic: "gone".to_owned() }
}

fn video_binding(generation: u64) -> SlotBinding {
    SlotBinding {
        slot: 3,
        track_id: 10,
        expected_channel_generation: generation,
        required_milestone: vivid_sdk::MILESTONE_OUTPUT_READY,
    }
}

fn stale() -> Answer {
    Answer::Refused(Some(vivid_protocol::registry::error::STALE_TARGET_GENERATION))
}

#[test]
fn presentation_starts_fitted_and_inactive() {
    let state = sounding();
    assert!(state.scale && !state.activated && state.audio_channel);
    assert_eq!(state.layout(), geometry().layout(true));
    assert!(!silent().audio_channel);
}

#[test]
fn workers_start_once() {
    let mut state = sounding();
    assert_eq!(
        state.start_workers().unwrap(),
        [Worker::Video, Worker::AudioMixer, Worker::AudioSender]
    );
    assert_eq!(silent().start_workers().unwrap(), [Worker::Video]);
    state.worker_started();
    let error = state.start_workers().unwrap_err();
    assert_eq!(error.message(), "media workers already started");
    assert_eq!(error.kind(), ErrorKind::AlreadyExists);
}

#[test]
fn activation_binds_both_tracks() {
    let mut queue = sound();
    let mut state = sounding();
    let plan = state.activate(&mut queue, 5, AudioReadiness::Ready(Some(6))).unwrap();
    assert_eq!(plan.disable_audio, None);
    assert_eq!(
        plan.bindings,
        [
            video_binding(5),
            SlotBinding {
                slot: 2,
                track_id: 20,
                expected_channel_generation: 6,
                required_milestone: 16,
            },
        ]
    );
    assert!(!state.activated);
    state.mark_activated();
    assert!(state.activated);
}

#[test]
fn activation_goes_on_without_sound() {
    let mut queue = sound();
    let mut state = sounding();
    let plan = state.activate(&mut queue, 5, AudioReadiness::Failed).unwrap();
    assert_eq!(
        plan.disable_audio,
        Some(AudioShutdown { track: 20, close_channel: true, rebind_video: false })
    );
    assert_eq!(plan.bindings, [video_binding(5)]);
    assert_eq!(state.audio_track, None);
    assert!(is_closed(&mut queue));
    let mut queue = sound();
    let mut state = silent();
    let plan = state.activate(&mut queue, 5, AudioReadiness::Failed).unwrap();
    assert_eq!(plan.disable_audio, None);
    assert_eq!(plan.bindings, [video_binding(5)]);
}

#[test]
fn activation_needs_the_channel_of_ready_sound() {
    let mut queue = sound();
    let mut state = sounding();
    let error = state.activate(&mut queue, 5, AudioReadiness::Ready(None)).unwrap_err();
    assert_eq!(error.message(), "Vivid audio channel disappeared before activation");
    assert_eq!(error.kind(), ErrorKind::BrokenPipe);
    assert_eq!(state, sounding());
}

#[test]
fn frames_of_the_right_size_are_queued() {
    let mut queue = LatestQueue::new();
    let frame = vec![7; 1_024_000];
    assert_eq!(Presentation::submit_frame(&mut queue, &frame), Ok(()));
    assert_eq!(queue.item.as_ref(), Some(&frame));
    assert_eq!(
        Presentation::submit_frame(&mut queue, &frame[1..]),
        Err(SubmitError::Frame(MediaError::FrameLength))
    );
    assert_eq!(queue.item.as_ref(), Some(&frame));
    queue.close();
    assert_eq!(Presentation::submit_frame(&mut queue, &frame), Err(SubmitError::Closed));
    assert_eq!(SubmitError::Closed.kind(), ErrorKind::BrokenPipe);
    assert_eq!(SubmitError::Closed.message(), "latest-frame queue is closed");
    assert_eq!(SubmitError::Frame(MediaError::FrameLength).kind(), ErrorKind::InvalidInput);
}

#[test]
fn scale_toggles_back() {
    let mut state = silent();
    assert_eq!(state.toggle_scale(), geometry().layout(false));
    assert_eq!(state.toggle_scale(), geometry().layout(true));
    assert_eq!(state, silent());
}

#[test]
fn changed_target_moves_the_image() {
    let mut state = silent();
    let mut descriptor = vec![
        (0, DescriptorValue::Unsigned(400)),
        (1, DescriptorValue::Unsigned(800)),
        (2, DescriptorValue::Unsigned(40)),
        (3, DescriptorValue::Unsigned(40)),
        (4, DescriptorValue::Unsigned(10)),
        (5, DescriptorValue::Unsigned(20)),
        (6, DescriptorValue::Bool(false)),
        (7, DescriptorValue::Unsigned(3)),
        (8, DescriptorValue::Unsigned(2)),
    ];
    let layout = state.target_changed(&descriptor).unwrap();
    assert_eq!((layout.columns, layout.rows), (40, 12));
    assert_eq!(state.geometry.cols, 40);
    descriptor[7].1 = DescriptorValue::Unsigned(0);
    descriptor[2].1 = DescriptorValue::Unsigned(50);
    assert_eq!(state.target_changed(&descriptor), Err(GeometryError::Invalid));
    assert_eq!(state.geometry.cols, 40);
}

#[test]
fn audio_loss_keeps_the_game_running() {
    let mut queue = sound();
    let mut state = sounding();
    state.mark_activated();
    assert_eq!(
        state.handle_event(&lost(20), &mut queue).unwrap(),
        EventAction::DisableAudio(Some(AudioShutdown {
            track: 20,
            close_channel: true,
            rebind_video: true,
        }))
    );
    let mut expected = Presentation { ended_track: Some(20), ..silent() };
    expected.mark_activated();
    assert_eq!(state, expected);
    assert!(is_closed(&mut queue));
    let mut queue = sound();
    // The sound ends once, a second report means nothing.
    assert_eq!(state.handle_event(&lost(20), &mut queue).unwrap(), EventAction::Nothing);
    assert_eq!(state.disable_audio_track(&mut queue, true), None);
    assert!(!is_closed(&mut queue));
    // Before activation there is nothing to bind anew.
    assert_eq!(
        sounding().handle_event(&lost(20), &mut queue).unwrap(),
        EventAction::DisableAudio(Some(AudioShutdown {
            track: 20,
            close_channel: true,
            rebind_video: false,
        }))
    );
}

#[test]
fn other_losses_end_the_game() {
    let mut queue = sound();
    let mut state = sounding();
    let error = state.handle_event(&lost(10), &mut queue).unwrap_err();
    assert_eq!(error.message(), "presenter lost Vivid raster track: decoder died");
    assert_eq!(error.kind(), ErrorKind::BrokenPipe);
    let error = state.handle_event(&closed(), &mut queue).unwrap_err();
    assert_eq!(error.message(), "gone");
    assert_eq!(error.kind(), ErrorKind::BrokenPipe);
    assert_eq!(state.handle_event(&lost(30), &mut queue).unwrap(), EventAction::Nothing);
    assert_eq!(state.handle_event(&SessionEvent::Other, &mut queue).unwrap(), EventAction::Nothing);
    assert_eq!(
        state.handle_event(&SessionEvent::TargetChanged, &mut queue).unwrap(),
        EventAction::ApplyTarget
    );
    assert_eq!(state, sounding());
}

#[test]
fn reports_during_a_refused_layout_are_stricter() {
    let mut queue = sound();
    let mut state = sounding();
    assert_eq!(
        state.handle_stale_event(&SessionEvent::TargetChanged, &mut queue).unwrap(),
        EventAction::ApplyTarget
    );
    assert_eq!(state.handle_stale_event(&SessionEvent::Other, &mut queue).unwrap(), EventAction::Nothing);
    for track in [10, 30] {
        let error = state.handle_stale_event(&lost(track), &mut queue).unwrap_err();
        assert_eq!(error.message(), format!("presenter lost Vivid track {track}"));
        assert_eq!(error.kind(), ErrorKind::BrokenPipe);
    }
    assert_eq!(state.handle_stale_event(&closed(), &mut queue).unwrap_err().message(), "gone");
    assert_eq!(state, sounding());
    assert_eq!(
        state.handle_stale_event(&lost(20), &mut queue).unwrap(),
        EventAction::DisableAudio(Some(AudioShutdown {
            track: 20,
            close_channel: true,
            rebind_video: false,
        }))
    );
    assert_eq!(state, Presentation { ended_track: Some(20), ..silent() });
    // A late report of the same loss means nothing, that of another track still does.
    assert_eq!(
        state.handle_stale_event(&lost(20), &mut queue).unwrap(),
        EventAction::Nothing
    );
    assert!(state.handle_stale_event(&lost(10), &mut queue).is_err());
    assert!(silent().handle_stale_event(&lost(20), &mut queue).is_err());
}

#[test]
fn diagnostics_come_from_the_first_entry_with_their_key() {
    let text = |text: &str| Some(text.to_owned());
    assert_eq!(track_diagnostic(&[]), "presenter supplied no diagnostic");
    assert_eq!(track_diagnostic(&[(5, text("no")), (6, text("yes")), (6, text("late"))]), "yes");
    assert_eq!(
        track_diagnostic(&[(6, None), (6, text("late"))]),
        "presenter supplied no diagnostic"
    );
}

#[test]
fn worker_errors_wait_for_an_explanation() {
    let mut queue = sound();
    let error = Some("broken".to_owned());
    let mut state = sounding();
    assert!(matches!(state.poll(&mut queue, &None, &None, 100_000_000), PollStep::Done));
    assert!(matches!(state.poll(&mut queue, &error, &None, 99_999_999), PollStep::Wait(2_000_000)));
    assert!(matches!(state.poll(&mut queue, &None, &error, 99_999_999), PollStep::Wait(2_000_000)));
    let PollStep::Fail(failure) = state.poll(&mut queue, &error, &error, 100_000_000) else {
        panic!("a fatal error is not fatal");
    };
    assert_eq!(failure.message(), "broken");
    assert_eq!(failure.kind(), ErrorKind::BrokenPipe);
    assert_eq!(state, sounding());
    let PollStep::DisableAudio(plan) = state.poll(&mut queue, &None, &error, 100_000_000) else {
        panic!("an audio error does not end the sound");
    };
    assert_eq!(
        plan,
        Some(AudioShutdown { track: 20, close_channel: true, rebind_video: false })
    );
    assert_eq!(state, Presentation { ended_track: Some(20), ..silent() });
    assert!(is_closed(&mut queue));
    // Without sound an audio error is settled.
    assert!(matches!(state.poll(&mut queue, &None, &error, 99_999_999), PollStep::Done));
    assert!(matches!(state.poll(&mut queue, &error, &error, 99_999_999), PollStep::Wait(2_000_000)));
}

#[test]
fn shutdown_waits_for_the_workers() {
    let mut state = sounding();
    assert_eq!(state.shutdown(0, 0, false), ShutdownStep::Join);
    state.worker_started();
    state.worker_started();
    assert_eq!(state.shutdown(0, 0, false), ShutdownStep::Wait(250_000_000));
    assert_eq!(state.shutdown(1, 249_999_999, false), ShutdownStep::Wait(1));
    assert_eq!(state.shutdown(1, 250_000_000, false), ShutdownStep::Abort);
    assert_eq!(state.shutdown(1, 0, true), ShutdownStep::Abort);
    assert_eq!(state.shutdown(2, 250_000_000, true), ShutdownStep::Join);
}

#[test]
fn readiness_can_time_out() {
    assert_eq!(output_wait().milestone, vivid_sdk::MILESTONE_OUTPUT_READY);
    assert_eq!(output_wait().timeout_us, 30_000_000);
    assert!(output_ready(Some(16)).is_ok());
    let error = output_ready(None).unwrap_err();
    assert_eq!(error.message(), "timed out waiting for Vivid output readiness");
    assert_eq!(error.kind(), ErrorKind::TimedOut);
}

#[test]
fn layout_is_sent_at_most_twice() {
    let mut update = LayoutUpdate::new();
    assert_eq!(update.answered(Answer::Accepted), RetryStep::Done);
    assert_eq!(update.answered(Answer::Refused(None)), RetryStep::Refuse);
    assert_eq!(update.answered(Answer::Refused(Some(14))), RetryStep::Refuse);
    assert_eq!(update.answered(stale()), RetryStep::Drain);
    update.handled(&EventAction::Nothing);
    update.handled(&EventAction::ApplyTarget);
    update.handled(&EventAction::DisableAudio(None));
    assert_eq!(update.drained(), RetryStep::Retry);
    assert_eq!(update.answered(stale()), RetryStep::Refuse);
    assert_eq!(update.answered(Answer::Accepted), RetryStep::Done);
    let mut update = LayoutUpdate::new();
    update.handled(&EventAction::Nothing);
    assert_eq!(update.drained(), RetryStep::Refuse);
}

#[test]
fn node_is_requested_at_most_twice() {
    let mut creation = NodeCreation::new();
    assert_eq!(creation.answered(Answer::Accepted), RetryStep::Done);
    assert_eq!(creation.answered(Answer::Refused(Some(1))), RetryStep::Refuse);
    assert_eq!(creation.answered(stale()), RetryStep::Drain);
    assert_eq!(creation.handle_event(&lost(10)).unwrap(), EventAction::Nothing);
    assert_eq!(creation.handle_event(&SessionEvent::Other).unwrap(), EventAction::Nothing);
    assert_eq!(creation.drained().unwrap(), RetryStep::Refuse);
    assert_eq!(
        creation.handle_event(&SessionEvent::TargetChanged).unwrap(),
        EventAction::ApplyTarget
    );
    assert_eq!(creation.drained().unwrap(), RetryStep::Retry);
    assert_eq!(creation.answered(stale()), RetryStep::Drain);
    creation.handle_event(&SessionEvent::TargetChanged).unwrap();
    let error = creation.drained().unwrap_err();
    assert_eq!(
        error.message(),
        "terminal target kept changing while vvdoom created its scene node"
    );
    assert_eq!(error.kind(), ErrorKind::WouldBlock);
    assert_eq!(creation.drained().unwrap(), RetryStep::Refuse);
    assert_eq!(creation.handle_event(&closed()).unwrap_err().message(), "gone");
}

#[test]
fn setup_goes_through_its_steps() {
    for (sound, steps) in [
        (
            true,
            vec![
                SetupStep::CreateSurface,
                SetupStep::CreateNode,
                SetupStep::ProbeVideo,
                SetupStep::CreateVideo,
                SetupStep::OpenVideo,
                SetupStep::ProbeAudio,
                SetupStep::CreateAudio,
                SetupStep::OpenAudio,
                SetupStep::Ready,
            ],
        ),
        (
            false,
            vec![
                SetupStep::CreateSurface,
                SetupStep::CreateNode,
                SetupStep::ProbeVideo,
                SetupStep::CreateVideo,
                SetupStep::OpenVideo,
                SetupStep::Ready,
            ],
        ),
    ] {
        for pair in steps.windows(2) {
            assert_eq!(next_setup_step(pair[0], sound, true).unwrap(), pair[1]);
        }
    }
    let error = next_setup_step(SetupStep::ProbeVideo, true, false).unwrap_err();
    assert_eq!(
        error.message(),
        "presenter does not support the required live RGBA raster track"
    );
    assert_eq!(error.kind(), ErrorKind::Unsupported);
    let error = next_setup_step(SetupStep::ProbeAudio, true, false).unwrap_err();
    assert_eq!(
        error.message(),
        "presenter does not support live pcm_f32le audio; rerun vvdoom with -nosound"
    );
    assert_eq!(error.kind(), ErrorKind::Unsupported);
}

#[test]
fn surface_is_a_canvas_of_the_screen() {
    let surface = surface_definition(1, 2);
    assert_eq!((surface.context_id, surface.surface_id), (1, 2));
    assert_eq!(surface.semantic_profile, vivid_sdk::GENERIC_CONTENT);
    assert_eq!(surface.coordinate_model, CoordinateModel::DesktopLogicalPixels);
    assert_eq!(surface.role, SurfaceRole::ApplicationCanvas);
    assert!(surface.profile_parameters.is_empty());
    assert_eq!((surface.logical_width, surface.logical_height), (640, 400));
    assert_eq!((surface.scale_numerator, surface.scale_denominator), (1, 1));
    assert_eq!((surface.rotation, surface.policy), (0, 0));
    assert_eq!(surface.title, "Doom");
    assert_eq!((surface.semantic_content_revision, surface.semantic_availability), (1, 0));
    assert_eq!(surface.locator_hint, "");
}

#[test]
fn worker_error_text_is_kept() {
    let error = PresentationError::Worker("raster sender failed: gone".to_owned());
    assert_eq!(error.message(), "raster sender failed: gone");
}

#[test]
fn stopped_workers_find_their_queues_closed() {
    let mut status = WorkerStatus::default();
    let mut frames = LatestQueue::new();
    let mut queue = sound();
    frames.push(vec![1]).unwrap();
    Presentation::stop_workers(&mut status, &mut frames, &mut queue);
    assert!(status.stop && frames.closed && is_closed(&mut queue));
    assert_eq!(frames.pop(), Some(vec![1]));
}
