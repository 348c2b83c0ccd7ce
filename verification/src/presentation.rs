//! The presentation of a running game: its tracks, its place on the screen, and what is done when
//! the presenter takes one of them away.
use vstd::prelude::*;

use crate::error::ErrorKind;
use crate::geometry::{
    DescriptorValue, FrameLayout, GeometryError, TerminalGeometry, DOOM_HEIGHT, DOOM_WIDTH,
};
use crate::media::{frame_pixel_bytes, MediaError, AUDIO_SLOT, VIDEO_SLOT};
use crate::queue::{closed_if, BoundedQueue, LatestQueue, QueueClosed, QueueKind};
use crate::text::{decimal, join};
use crate::workers::{AudioBlock, WorkerStatus};

verus! {

/// Why the presentation fails.
#[derive(Debug)]
pub enum PresentationError {
    AlreadyStarted,
    RasterUnsupported,
    AudioUnsupported,
    AudioChannelMissing,
    OutputTimeout,
    RasterLost(String),
    TrackLost(u64),
    ConnectionClosed(String),
    Worker(String),
    TargetUnstable,
}

impl PresentationError {
    /// The kind of the error.
    pub fn kind(&self) -> (kind: ErrorKind)
        ensures
            kind == match *self {
                PresentationError::AlreadyStarted => ErrorKind::AlreadyExists,
                PresentationError::RasterUnsupported => ErrorKind::Unsupported,
                PresentationError::AudioUnsupported => ErrorKind::Unsupported,
                PresentationError::OutputTimeout => ErrorKind::TimedOut,
                PresentationError::TargetUnstable => ErrorKind::WouldBlock,
                _ => ErrorKind::BrokenPipe,
            },
    {
        match self {
            PresentationError::AlreadyStarted => ErrorKind::AlreadyExists,
            PresentationError::RasterUnsupported => ErrorKind::Unsupported,
            PresentationError::AudioUnsupported => ErrorKind::Unsupported,
            PresentationError::OutputTimeout => ErrorKind::TimedOut,
            PresentationError::TargetUnstable => ErrorKind::WouldBlock,
            _ => ErrorKind::BrokenPipe,
        }
    }

    /// The text of the error.
    pub open spec fn spec_message(self) -> Seq<char> {
        match self {
            PresentationError::AlreadyStarted => "media workers already started"@,
            PresentationError::RasterUnsupported => {
                "presenter does not support the required live RGBA raster track"@
            },
            PresentationError::AudioUnsupported => {
                "presenter does not support live pcm_f32le audio; rerun vvdoom with -nosound"@
            },
            PresentationError::AudioChannelMissing => {
                "Vivid audio channel disappeared before activation"@
            },
            PresentationError::OutputTimeout => "timed out waiting for Vivid output readiness"@,
            PresentationError::RasterLost(diagnostic) => {
                "presenter lost Vivid raster track: "@ + diagnostic@
            },
            PresentationError::TrackLost(track) => {
                "presenter lost Vivid track "@ + crate::text::decimal_text(track as nat)
            },
            PresentationError::ConnectionClosed(diagnostic) => diagnostic@,
            PresentationError::Worker(error) => error@,
            PresentationError::TargetUnstable => {
                "terminal target kept changing while vvdoom created its scene node"@
            },
        }
    }

    /// The text of the error.
    pub fn message(&self) -> (text: String)
        ensures
            text@ == self.spec_message(),
    {
        proof {
            reveal_strlit("");
        }
        let text = match self {
            PresentationError::AlreadyStarted => "media workers already started".to_owned(),
            PresentationError::RasterUnsupported => {
                "presenter does not support the required live RGBA raster track".to_owned()
            },
            PresentationError::AudioUnsupported => {
                "presenter does not support live pcm_f32le audio; rerun vvdoom with -nosound".to_owned()
            },
            PresentationError::AudioChannelMissing => {
                "Vivid audio channel disappeared before activation".to_owned()
            },
            PresentationError::OutputTimeout => {
                "timed out waiting for Vivid output readiness".to_owned()
            },
            PresentationError::RasterLost(diagnostic) => join(
                "presenter lost Vivid raster track: ",
                diagnostic.as_str(),
                "",
            ),
            PresentationError::TrackLost(track) => join(
                "presenter lost Vivid track ",
                decimal(*track).as_str(),
                "",
            ),
            PresentationError::ConnectionClosed(diagnostic) => diagnostic.clone(),
            PresentationError::Worker(error) => error.clone(),
            PresentationError::TargetUnstable => {
                "terminal target kept changing while vvdoom created its scene node".to_owned()
            },
        };
        assert(text@ =~= self.spec_message());
        text
    }
}

/// How long a track may take to become ready, in microseconds.
pub const ACTIVATION_TIMEOUT_US: u64 = 30_000_000;

/// How long the workers may take to complete once they were asked to stop, in nanoseconds.
pub const GRACEFUL_WORKER_TIMEOUT_NS: u64 = 250_000_000;

/// How long the presenter may take to explain an error of a worker, in nanoseconds.
pub const TRACK_FAILURE_DIAGNOSTIC_WAIT_NS: u64 = 100_000_000;

/// How long a poll waits before it looks for an explanation again, in nanoseconds.
pub const POLL_INTERVAL_NS: u64 = 2_000_000;

/// The key under which the presenter explains why it lost a track.
pub const DIAGNOSTIC_KEY: u64 = 6;

/// The diagnostic of a payload: the text of the first entry with the diagnostic key.
pub open spec fn payload_diagnostic(payload: Seq<(u64, Option<String>)>) -> Seq<char>
    decreases payload.len(),
{
    if payload.len() == 0 {
        "presenter supplied no diagnostic"@
    } else if payload[0].0 == DIAGNOSTIC_KEY {
        match payload[0].1 {
            Some(text) => text@,
            None => "presenter supplied no diagnostic"@,
        }
    } else {
        payload_diagnostic(payload.skip(1))
    }
}

/// The diagnostic of a payload, given the text of each entry that is text.
pub fn track_diagnostic(payload: &[(u64, Option<String>)]) -> (diagnostic: String)
    ensures
        diagnostic@ == payload_diagnostic(payload@),
{
    let mut index: usize = 0;
    assert(payload@.skip(0) == payload@);
    while index < payload.len()
        invariant
            index <= payload@.len(),
            payload_diagnostic(payload@) == payload_diagnostic(payload@.skip(index as int)),
        decreases payload@.len() - index,
    {
        if payload[index].0 == DIAGNOSTIC_KEY {
            return match &payload[index].1 {
                Some(text) => text.clone(),
                None => "presenter supplied no diagnostic".to_owned(),
            };
        }
        assert(payload@.skip(index as int).skip(1) == payload@.skip(index + 1));
        index = index + 1;
    }
    "presenter supplied no diagnostic".to_owned()
}

/// What the presenter reported.
#[derive(Debug)]
pub enum SessionEvent {
    TargetChanged,
    TrackLost { object_id: u64, payload: Vec<(u64, Option<String>)> },
    ConnectionClosed { diagnostic: String },
    Other,
}

/// What a report means for the presentation.
#[derive(Debug, Clone, Copy, PartialEq, Eq, Structural)]
pub enum EventClass {
    TargetChanged,
    VideoLost,
    AudioLost,
    OtherLost,
    Closed,
    Other,
}

/// What a report means, given the tracks of the presentation.
pub open spec fn event_class(
    event: SessionEvent,
    video_track: u64,
    audio_track: Option<u64>,
) -> EventClass {
    match event {
        SessionEvent::TargetChanged => EventClass::TargetChanged,
        SessionEvent::TrackLost { object_id, .. } => if object_id == video_track {
            EventClass::VideoLost
        } else if audio_track == Some(object_id) {
            EventClass::AudioLost
        } else {
            EventClass::OtherLost
        },
        SessionEvent::ConnectionClosed { .. } => EventClass::Closed,
        SessionEvent::Other => EventClass::Other,
    }
}

/// Whether a report tells of the loss of `track`.
pub open spec fn loses(event: SessionEvent, track: Option<u64>) -> bool {
    match event {
        SessionEvent::TrackLost { object_id, .. } => track == Some(object_id),
        _ => false,
    }
}

/// The explanation that a report carries.
pub open spec fn event_diagnostic(event: SessionEvent) -> Seq<char> {
    match event {
        SessionEvent::TrackLost { payload, .. } => payload_diagnostic(payload@),
        SessionEvent::ConnectionClosed { diagnostic } => diagnostic@,
        _ => Seq::empty(),
    }
}

/// What is left to do to end the sound.
#[derive(Debug, Clone, Copy, PartialEq, Eq, Structural)]
pub struct AudioShutdown {
    pub track: u64,
    pub close_channel: bool,
    pub rebind_video: bool,
}

/// What is left to do about a report.
#[derive(Debug, Clone, Copy, PartialEq, Eq, Structural)]
pub enum EventAction {
    Nothing,
    ApplyTarget,
    DisableAudio(Option<AudioShutdown>),
}

/// What the caller of a poll does next.
#[derive(Debug)]
pub enum PollStep {
    Done,
    /// Wait for this many nanoseconds.
    Wait(u64),
    DisableAudio(Option<AudioShutdown>),
    Fail(PresentationError),
}

/// A media worker.
#[derive(Debug, Clone, Copy, PartialEq, Eq, Structural)]
pub enum Worker {
    Video,
    AudioMixer,
    AudioSender,
}

/// A track bound to a slot of the surface, once it has reached the milestone.
#[derive(Debug, Clone, Copy, PartialEq, Eq, Structural)]
pub struct SlotBinding {
    pub slot: u64,
    pub track_id: u64,
    pub expected_channel_generation: u64,
    pub required_milestone: u64,
}

/// The milestone of a track that is ready to be shown or heard.
pub const OUTPUT_READY: u64 = 16;

/// `vivid_sdk::MILESTONE_OUTPUT_READY`: the milestone of a track whose output is ready, a single
/// bit with the value 16.
#[verifier::external_body]
fn output_ready_milestone() -> (milestone: u64)
    ensures
        milestone == OUTPUT_READY,
{
    vivid_sdk::MILESTONE_OUTPUT_READY
}

/// The code with which a presenter refuses a request that was made for an earlier target.
pub const STALE_TARGET: u64 = 15;

/// `vivid_protocol::registry::error::STALE_TARGET_GENERATION`: the error code 15, for a request
/// that was made for an earlier generation of the target.
#[verifier::external_body]
fn stale_target_code() -> (code: u64)
    ensures
        code == STALE_TARGET,
{
    vivid_protocol::registry::error::STALE_TARGET_GENERATION
}

/// How the wait for the audio track ended. The generation is that of the audio channel, while it
/// is there.
#[derive(Debug, Clone, Copy, PartialEq, Eq, Structural)]
pub enum AudioReadiness {
    Ready(Option<u64>),
    Failed,
}

/// The slots to bind, and what is to be done about the sound before.
#[derive(Debug)]
pub struct Activation {
    pub disable_audio: Option<AudioShutdown>,
    pub bindings: Vec<SlotBinding>,
}

/// Why a frame was not taken.
#[derive(Debug, Clone, Copy, PartialEq, Eq, Structural)]
pub enum SubmitError {
    Frame(MediaError),
    Closed,
}

impl SubmitError {
    /// The kind of the error.
    pub fn kind(&self) -> (kind: ErrorKind)
        ensures
            kind == match *self {
                SubmitError::Frame(error) => error.spec_kind(),
                SubmitError::Closed => ErrorKind::BrokenPipe,
            },
    {
        match self {
            SubmitError::Frame(error) => error.kind(),
            SubmitError::Closed => QueueClosed.kind(),
        }
    }

    /// The text of the error.
    pub fn message(&self) -> (text: &'static str)
        ensures
            text@ == match *self {
                SubmitError::Frame(error) => error.spec_message(),
                SubmitError::Closed => "latest-frame queue is closed"@,
            },
    {
        match self {
            SubmitError::Frame(error) => error.message(),
            SubmitError::Closed => QueueClosed.message(QueueKind::Latest),
        }
    }
}

/// The state of a presentation.
#[derive(Debug, Clone, Copy, PartialEq, Eq, Structural)]
pub struct Presentation {
    pub geometry: TerminalGeometry,
    pub scale: bool,
    pub activated: bool,
    pub video_track: u64,
    pub audio_track: Option<u64>,
    pub audio_channel: bool,
    /// The audio track that there was, once the sound has ended.
    pub ended_track: Option<u64>,
    pub workers: usize,
}

/// The state with the other size of the image.
pub open spec fn toggled(state: Presentation) -> Presentation {
    Presentation { scale: !state.scale, ..state }
}

/// The state without sound.
pub open spec fn silenced(state: Presentation) -> Presentation {
    match state.audio_track {
        Some(track) => Presentation {
            audio_track: None,
            audio_channel: false,
            ended_track: Some(track),
            ..state
        },
        None => state,
    }
}

/// Whether a report tells of the loss of a sound that has ended.
pub open spec fn is_late_loss(event: SessionEvent, state: Presentation) -> bool {
    loses(event, state.ended_track) && !loses(event, Some(state.video_track))
}

/// What is left to do to end the sound, if there is any. The video is bound anew only where slots
/// were bound before.
pub open spec fn audio_shutdown(state: Presentation, rebind_video: bool) -> Option<AudioShutdown> {
    match state.audio_track {
        Some(track) => Some(
            AudioShutdown {
                track,
                close_channel: state.audio_channel,
                rebind_video: rebind_video && state.activated,
            },
        ),
        None => None,
    }
}

/// The slots that activation binds.
pub open spec fn activation_bindings(
    state: Presentation,
    video_generation: u64,
    audio: AudioReadiness,
) -> Seq<SlotBinding> {
    let video = SlotBinding {
        slot: VIDEO_SLOT,
        track_id: state.video_track,
        expected_channel_generation: video_generation,
        required_milestone: OUTPUT_READY,
    };
    match (state.audio_track, audio) {
        (Some(track), AudioReadiness::Ready(Some(generation))) => seq![
            video,
            SlotBinding {
                slot: AUDIO_SLOT,
                track_id: track,
                expected_channel_generation: generation,
                required_milestone: OUTPUT_READY,
            },
        ],
        _ => seq![video],
    }
}

impl Presentation {
    /// Whether the terminal has cells to lay the image out in.
    pub open spec fn wf(self) -> bool {
        self.geometry.has_cells()
    }

    /// A presentation with its tracks open and nothing started: fitted to the window.
    pub fn new(geometry: TerminalGeometry, video_track: u64, audio_track: Option<u64>) -> (state:
        Presentation)
        requires
            geometry.has_cells(),
        ensures
            state.wf(),
            state == (Presentation {
                geometry,
                scale: true,
                activated: false,
                video_track,
                audio_track,
                audio_channel: audio_track is Some,
                ended_track: None,
                workers: 0,
            }),
    {
        Presentation {
            geometry,
            scale: true,
            activated: false,
            video_track,
            audio_track,
            audio_channel: audio_track.is_some(),
            ended_track: None,
            workers: 0,
        }
    }

    /// The workers to start: they start once, and those of the sound only where its channel is
    /// open.
    pub fn start_workers(&self) -> (workers: Result<Vec<Worker>, PresentationError>)
        ensures
            match workers {
                Ok(workers) => self.workers == 0 && workers@ == (if self.audio_channel {
                    seq![Worker::Video, Worker::AudioMixer, Worker::AudioSender]
                } else {
                    seq![Worker::Video]
                }),
                Err(error) => self.workers != 0 && error is AlreadyStarted,
            },
            workers is Ok <==> self.workers == 0,
            workers is Ok ==> {
                &&& workers->Ok_0@.len() == (if self.audio_channel {
                    3int
                } else {
                    1int
                })
                &&& workers->Ok_0@[0] == Worker::Video
                &&& workers->Ok_0@.contains(Worker::AudioMixer) <==> self.audio_channel
                &&& workers->Ok_0@.contains(Worker::AudioSender) <==> self.audio_channel
            },
    {
        if self.workers != 0 {
            return Err(PresentationError::AlreadyStarted);
        }
        let mut workers: Vec<Worker> = vec![Worker::Video];
        if self.audio_channel {
            workers.push(Worker::AudioMixer);
            workers.push(Worker::AudioSender);
        }
        Ok(workers)
    }

    /// Counts a worker that has started.
    pub fn worker_started(&mut self)
        requires
            old(self).workers < usize::MAX,
        ensures
            *final(self) == (Presentation {
                workers: (old(self).workers + 1) as usize,
                ..*old(self)
            }),
    {
        self.workers = self.workers + 1;
    }

    /// The binding of the raster track.
    pub fn video_binding(&self, generation: u64) -> (binding: SlotBinding)
        ensures
            binding == (SlotBinding {
                slot: VIDEO_SLOT,
                track_id: self.video_track,
                expected_channel_generation: generation,
                required_milestone: OUTPUT_READY,
            }),
    {
        SlotBinding {
            slot: VIDEO_SLOT,
            track_id: self.video_track,
            expected_channel_generation: generation,
            required_milestone: output_ready_milestone(),
        }
    }

    /// Plans the activation once the raster track is ready. A sound that did not become ready is
    /// ended; a sound that is ready without a channel is an error.
    pub fn activate(
        &mut self,
        queue: &mut BoundedQueue<AudioBlock>,
        video_generation: u64,
        audio: AudioReadiness,
    ) -> (plan: Result<Activation, PresentationError>)
        ensures
            closed_if(
                *old(queue),
                *final(queue),
                old(self).audio_track is Some && audio == AudioReadiness::Failed,
            ),
            match plan {
                Ok(plan) => {
                    &&& !(old(self).audio_track is Some && audio == AudioReadiness::Ready(
                        None::<u64>,
                    ))
                    &&& plan.bindings@ == activation_bindings(
                        *old(self),
                        video_generation,
                        audio,
                    )
                    &&& plan.disable_audio == (if audio == AudioReadiness::Failed {
                        audio_shutdown(*old(self), false)
                    } else {
                        None
                    })
                    &&& *final(self) == (if audio == AudioReadiness::Failed {
                        silenced(*old(self))
                    } else {
                        *old(self)
                    })
                },
                Err(error) => {
                    &&& error is AudioChannelMissing
                    &&& old(self).audio_track is Some && audio == AudioReadiness::Ready(
                        None::<u64>,
                    )
                    &&& *final(self) == *old(self)
                },
            },
    {
        let mut bindings: Vec<SlotBinding> = vec![self.video_binding(video_generation)];
        let mut disable_audio = None;
        if let Some(track) = self.audio_track {
            match audio {
                AudioReadiness::Ready(Some(generation)) => {
                    bindings.push(
                        SlotBinding {
                            slot: AUDIO_SLOT,
                            track_id: track,
                            expected_channel_generation: generation,
                            required_milestone: output_ready_milestone(),
                        },
                    );
                },
                AudioReadiness::Ready(None) => {
                    return Err(PresentationError::AudioChannelMissing);
                },
                AudioReadiness::Failed => {
                    disable_audio = self.disable_audio_track(queue, false);
                },
            }
        }
        assert(bindings@ =~= activation_bindings(*old(self), video_generation, audio));
        Ok(Activation { disable_audio, bindings })
    }

    /// Remembers that the slots were bound.
    pub fn mark_activated(&mut self)
        ensures
            *final(self) == (Presentation { activated: true, ..*old(self) }),
    {
        self.activated = true;
    }

    /// Hands a frame to the raster worker.
    pub fn submit_frame(queue: &mut LatestQueue<Vec<u8>>, rgba: &[u8]) -> (result: Result<
        (),
        SubmitError,
    >)
        ensures
            final(queue).closed == old(queue).closed,
            match result {
                Ok(()) => rgba@.len() == 1_024_000 && !old(queue).closed && final(queue).item is Some
                    && final(queue).item.unwrap()@ == rgba@,
                Err(error) => final(queue).item == old(queue).item && if rgba@.len() != 1_024_000 {
                    error == SubmitError::Frame(MediaError::FrameLength)
                } else {
                    error == SubmitError::Closed && old(queue).closed
                },
            },
    {
        let expected: u32 = match frame_pixel_bytes() {
            Ok(expected) => expected,
            Err(error) => return Err(SubmitError::Frame(error)),
        };
        if rgba.len() != expected as usize {
            return Err(SubmitError::Frame(MediaError::FrameLength));
        }
        match queue.push(vstd::slice::slice_to_vec(rgba)) {
            Ok(()) => Ok(()),
            Err(_) => Err(SubmitError::Closed),
        }
    }

    /// Where the image stands.
    pub fn layout(&self) -> (layout: FrameLayout)
        requires
            self.wf(),
        ensures
            layout == self.geometry.spec_layout(self.scale),
    {
        self.geometry.layout(self.scale)
    }

    /// Switches between the fitted and the natural size, and gives the new layout.
    pub fn toggle_scale(&mut self) -> (layout: FrameLayout)
        requires
            old(self).wf(),
        ensures
            final(self).wf(),
            *final(self) == toggled(*old(self)),
            layout == old(self).geometry.spec_layout(!old(self).scale),
    {
        self.scale = !self.scale;
        self.layout()
    }

    /// Takes over the geometry of a changed target, and gives the new layout.
    pub fn target_changed(&mut self, descriptor: &[(u64, DescriptorValue)]) -> (layout: Result<
        FrameLayout,
        GeometryError,
    >)
        requires
            old(self).wf(),
        ensures
            final(self).wf(),
            *final(self) == (Presentation { geometry: final(self).geometry, ..*old(self) }),
            match layout {
                Ok(layout) => {
                    &&& crate::geometry::descriptor_error(descriptor@) is None
                    &&& crate::geometry::is_geometry_of(final(self).geometry, descriptor@)
                    &&& layout == final(self).geometry.spec_layout(old(self).scale)
                },
                Err(error) => {
                    &&& crate::geometry::descriptor_error(descriptor@) == Some(error)
                    &&& final(self).geometry == old(self).geometry
                },
            },
    {
        match TerminalGeometry::from_descriptor(descriptor) {
            Ok(geometry) => {
                self.geometry = geometry;
                Ok(self.layout())
            },
            Err(error) => Err(error),
        }
    }

    /// Ends the sound, if there is any, and closes its queue. Nothing else of the presentation
    /// changes.
    pub fn disable_audio_track(
        &mut self,
        queue: &mut BoundedQueue<AudioBlock>,
        rebind_video: bool,
    ) -> (plan: Option<AudioShutdown>)
        ensures
            closed_if(*old(queue), *final(queue), old(self).audio_track is Some),
            plan == audio_shutdown(*old(self), rebind_video),
            *final(self) == silenced(*old(self)),
    {
        let track: u64 = match self.audio_track {
            Some(track) => track,
            None => return None,
        };
        queue.close();
        let plan = AudioShutdown {
            track,
            close_channel: self.audio_channel,
            rebind_video: rebind_video && self.activated,
        };
        self.audio_track = None;
        self.audio_channel = false;
        self.ended_track = Some(track);
        Some(plan)
    }

    /// What a report means for this presentation.
    fn classify(&self, event: &SessionEvent) -> (class: EventClass)
        ensures
            class == event_class(*event, self.video_track, self.audio_track),
    {
        match event {
            SessionEvent::TargetChanged => EventClass::TargetChanged,
            SessionEvent::TrackLost { object_id, .. } => {
                if *object_id == self.video_track {
                    return EventClass::VideoLost;
                }
                if let Some(track) = self.audio_track {
                    if *object_id == track {
                        return EventClass::AudioLost;
                    }
                }
                EventClass::OtherLost
            },
            SessionEvent::ConnectionClosed { .. } => EventClass::Closed,
            SessionEvent::Other => EventClass::Other,
        }
    }

    /// Handles a report. The loss of the raster track or of the connection ends the game, the
    /// loss of the audio track ends the sound.
    pub fn handle_event(
        &mut self,
        event: &SessionEvent,
        queue: &mut BoundedQueue<AudioBlock>,
    ) -> (action: Result<EventAction, PresentationError>)
        ensures
            closed_if(
                *old(queue),
                *final(queue),
                event_class(*event, old(self).video_track, old(self).audio_track)
                    == EventClass::AudioLost,
            ),
            ({
                let class = event_class(*event, old(self).video_track, old(self).audio_track);
                &&& *final(self) == (if class == EventClass::AudioLost {
                    silenced(*old(self))
                } else {
                    *old(self)
                })
                &&& match action {
                    Ok(action) => class != EventClass::VideoLost && class != EventClass::Closed
                        && action == (if class == EventClass::TargetChanged {
                        EventAction::ApplyTarget
                    } else if class == EventClass::AudioLost {
                        EventAction::DisableAudio(audio_shutdown(*old(self), true))
                    } else {
                        EventAction::Nothing
                    }),
                    Err(PresentationError::RasterLost(diagnostic)) => class == EventClass::VideoLost
                        && diagnostic@ == event_diagnostic(*event),
                    Err(PresentationError::ConnectionClosed(diagnostic)) => class
                        == EventClass::Closed && diagnostic@ == event_diagnostic(*event),
                    Err(_) => false,
                }
            }),
            action is Err <==> *event is ConnectionClosed || *event is TrackLost && event->object_id
                == old(self).video_track,
            action == Ok::<EventAction, PresentationError>(EventAction::ApplyTarget)
                <==> *event is TargetChanged,
    {
        let class = self.classify(event);
        match event {
            SessionEvent::TargetChanged => Ok(EventAction::ApplyTarget),
            SessionEvent::TrackLost { object_id, payload } => match class {
                EventClass::VideoLost => Err(
                    PresentationError::RasterLost(track_diagnostic(payload.as_slice())),
                ),
                EventClass::AudioLost => Ok(
                    EventAction::DisableAudio(self.disable_audio_track(queue, true)),
                ),
                _ => Ok(EventAction::Nothing),
            },
            SessionEvent::ConnectionClosed { diagnostic } => Err(
                PresentationError::ConnectionClosed(diagnostic.clone()),
            ),
            SessionEvent::Other => Ok(EventAction::Nothing),
        }
    }

    /// Handles a report that arrived while a layout was refused as out of date. Here the loss of
    /// any track ends the game, except that the loss of the audio track ends the sound, and means
    /// nothing once the sound has ended.
    pub fn handle_stale_event(
        &mut self,
        event: &SessionEvent,
        queue: &mut BoundedQueue<AudioBlock>,
    ) -> (action: Result<EventAction, PresentationError>)
        ensures
            closed_if(*old(queue), *final(queue), loses(*event, old(self).audio_track)),
            *final(self) == (if loses(*event, old(self).audio_track) {
                silenced(*old(self))
            } else {
                *old(self)
            }),
            match *event {
                SessionEvent::TargetChanged => action == Ok::<EventAction, PresentationError>(
                    EventAction::ApplyTarget,
                ),
                SessionEvent::TrackLost { object_id, .. } => if loses(
                    *event,
                    old(self).audio_track,
                ) {
                    action == Ok::<EventAction, PresentationError>(
                        EventAction::DisableAudio(audio_shutdown(*old(self), true)),
                    )
                } else if is_late_loss(*event, *old(self)) {
                    action == Ok::<EventAction, PresentationError>(EventAction::Nothing)
                } else {
                    action == Err::<EventAction, PresentationError>(
                        PresentationError::TrackLost(object_id),
                    )
                },
                SessionEvent::ConnectionClosed { diagnostic } => action is Err
                    && action->Err_0 is ConnectionClosed
                    && action->Err_0->ConnectionClosed_0@ == diagnostic@,
                SessionEvent::Other => action == Ok::<EventAction, PresentationError>(
                    EventAction::Nothing,
                ),
            },
    {
        match event {
            SessionEvent::TargetChanged => Ok(EventAction::ApplyTarget),
            SessionEvent::TrackLost { object_id, .. } => {
                if let Some(track) = self.audio_track {
                    if *object_id == track {
                        return Ok(
                            EventAction::DisableAudio(self.disable_audio_track(queue, true)),
                        );
                    }
                }
                if let Some(track) = self.ended_track {
                    if *object_id == track && *object_id != self.video_track {
                        return Ok(EventAction::Nothing);
                    }
                }
                Err(PresentationError::TrackLost(*object_id))
            },
            SessionEvent::ConnectionClosed { diagnostic } => Err(
                PresentationError::ConnectionClosed(diagnostic.clone()),
            ),
            SessionEvent::Other => Ok(EventAction::Nothing),
        }
    }

    /// Decides what to do about the errors that the workers reported, after all reports of the
    /// presenter have been handled. The presenter is given some time to explain an error: until
    /// then the caller waits and handles reports. An audio error is settled as soon as the sound
    /// has ended. `elapsed` nanoseconds have passed since the errors were taken.
    pub fn poll(
        &mut self,
        queue: &mut BoundedQueue<AudioBlock>,
        fatal_error: &Option<String>,
        audio_error: &Option<String>,
        elapsed: u64,
    ) -> (step: PollStep)
        ensures
            closed_if(*old(queue), *final(queue), step is DisableAudio),
            match step {
                PollStep::Done => *final(self) == *old(self) && *fatal_error is None && (
                *audio_error is None || old(self).audio_track is None),
                PollStep::Wait(interval) => *final(self) == *old(self) && interval
                    == POLL_INTERVAL_NS && elapsed < TRACK_FAILURE_DIAGNOSTIC_WAIT_NS && (
                *fatal_error is Some || (*audio_error is Some && old(self).audio_track is Some)),
                PollStep::Fail(PresentationError::Worker(error)) => *final(self) == *old(self)
                    && elapsed >= TRACK_FAILURE_DIAGNOSTIC_WAIT_NS && *fatal_error is Some
                    && error@ == fatal_error.unwrap()@,
                PollStep::Fail(_) => false,
                PollStep::DisableAudio(plan) => {
                    &&& elapsed >= TRACK_FAILURE_DIAGNOSTIC_WAIT_NS && *fatal_error is None
                    &&& *audio_error is Some && old(self).audio_track is Some
                    &&& plan == audio_shutdown(*old(self), true)
                    &&& *final(self) == silenced(*old(self))
                },
            },
            step is Done <==> *fatal_error is None && (*audio_error is None
                || old(self).audio_track is None),
            step is Wait <==> !(step is Done) && elapsed < 100_000_000,
            step is Wait ==> step->Wait_0 == 2_000_000,
            step is Fail <==> *fatal_error is Some && elapsed >= 100_000_000,
    {
        if fatal_error.is_none() && audio_error.is_none() {
            return PollStep::Done;
        }
        if audio_error.is_some() && self.audio_track.is_none() && fatal_error.is_none() {
            return PollStep::Done;
        }
        if elapsed < TRACK_FAILURE_DIAGNOSTIC_WAIT_NS {
            return PollStep::Wait(POLL_INTERVAL_NS);
        }
        match fatal_error {
            Some(error) => PollStep::Fail(PresentationError::Worker(error.clone())),
            None => PollStep::DisableAudio(self.disable_audio_track(queue, true)),
        }
    }

    /// Asks the workers to stop, and closes both queues so that they can.
    pub fn stop_workers(
        status: &mut WorkerStatus,
        video_queue: &mut LatestQueue<Vec<u8>>,
        audio_queue: &mut BoundedQueue<AudioBlock>,
    )
        ensures
            *final(status) == (WorkerStatus { stop: true, ..*old(status) }),
            *final(video_queue) == old(video_queue).spec_close(),
            closed_if(*old(audio_queue), *final(audio_queue), true),
    {
        status.request_stop();
        video_queue.close();
        audio_queue.close();
    }

    /// Decides how the wait for the workers goes on. It ends when all have completed, when
    /// `elapsed` nanoseconds since the start of the shutdown are too many, or when a wait has
    /// failed; the session is aborted where not all have completed.
    pub fn shutdown(&self, completed: usize, elapsed: u64, failed: bool) -> (step: ShutdownStep)
        ensures
            step == (if completed < self.workers && !failed && elapsed
                < GRACEFUL_WORKER_TIMEOUT_NS {
                ShutdownStep::Wait((GRACEFUL_WORKER_TIMEOUT_NS - elapsed) as u64)
            } else if completed != self.workers {
                ShutdownStep::Abort
            } else {
                ShutdownStep::Join
            }),
            step is Join <==> completed == self.workers,
            step is Wait <==> completed < self.workers && !failed && elapsed < 250_000_000,
            step is Wait ==> elapsed + step->Wait_0 == 250_000_000,
    {
        if completed < self.workers && !failed && elapsed < GRACEFUL_WORKER_TIMEOUT_NS {
            ShutdownStep::Wait(GRACEFUL_WORKER_TIMEOUT_NS - elapsed)
        } else if completed != self.workers {
            ShutdownStep::Abort
        } else {
            ShutdownStep::Join
        }
    }
}

/// What follows in a shutdown.
#[derive(Debug, Clone, Copy, PartialEq, Eq, Structural)]
pub enum ShutdownStep {
    /// Wait for one more worker, for this many nanoseconds at most.
    Wait(u64),
    Join,
    Abort,
}

/// A wait for a track to reach a milestone.
#[derive(Debug, Clone, Copy, PartialEq, Eq, Structural)]
pub struct MilestoneWait {
    pub milestone: u64,
    pub timeout_us: u64,
}

/// The wait for a track to become ready.
pub fn output_wait() -> (wait: MilestoneWait)
    ensures
        wait == (MilestoneWait { milestone: OUTPUT_READY, timeout_us: ACTIVATION_TIMEOUT_US }),
        wait.timeout_us == 30_000_000,
{
    MilestoneWait { milestone: output_ready_milestone(), timeout_us: ACTIVATION_TIMEOUT_US }
}

/// Checks what a wait for output readiness observed: nothing, where it timed out.
pub fn output_ready(observed: Option<u64>) -> (result: Result<(), PresentationError>)
    ensures
        match result {
            Ok(()) => observed is Some,
            Err(error) => observed is None && error is OutputTimeout,
        },
{
    if observed.is_none() {
        Err(PresentationError::OutputTimeout)
    } else {
        Ok(())
    }
}

/// How the presenter answered a request. A refusal may carry a code.
#[derive(Debug, Clone, Copy, PartialEq, Eq, Structural)]
pub enum Answer {
    Accepted,
    Refused(Option<u64>),
}

/// What follows an answer, or the reports that were read because of it.
#[derive(Debug, Clone, Copy, PartialEq, Eq, Structural)]
pub enum RetryStep {
    /// The request is done.
    Done,
    /// Read the waiting reports.
    Drain,
    /// Read the geometry anew and make the request again.
    Retry,
    /// Fail as the presenter answered.
    Refuse,
}

/// Whether the presenter refused a request for an earlier target.
pub open spec fn is_stale(answer: Answer) -> bool {
    answer == Answer::Refused(Some(STALE_TARGET))
}

/// Whether the presenter refused a request for an earlier target.
fn stale(answer: Answer) -> (result: bool)
    ensures
        result == is_stale(answer),
{
    match answer {
        Answer::Refused(Some(code)) => code == stale_target_code(),
        _ => false,
    }
}

/// The update of the layout: a refusal for an earlier target is answered with one more request,
/// if a newer target has been reported.
#[derive(Debug, Clone, Copy, PartialEq, Eq, Structural)]
pub struct LayoutUpdate {
    pub retried: bool,
    pub applied: bool,
}

impl LayoutUpdate {
    /// What follows an answer.
    pub open spec fn spec_answered(self, answer: Answer) -> RetryStep {
        if answer == Answer::Accepted {
            RetryStep::Done
        } else if is_stale(answer) && !self.retried {
            RetryStep::Drain
        } else {
            RetryStep::Refuse
        }
    }

    /// What follows the reading of the reports.
    pub open spec fn spec_drained(applied: bool) -> RetryStep {
        if applied {
            RetryStep::Retry
        } else {
            RetryStep::Refuse
        }
    }

    /// How many requests are made if the presenter answers them in turn with `answers`, and a
    /// newer target has been reported after those that `applied` marks.
    pub open spec fn requests(self, answers: Seq<Answer>, applied: Seq<bool>) -> nat
        decreases answers.len(),
    {
        if answers.len() == 0 || applied.len() == 0 {
            1
        } else if self.spec_answered(answers[0]) == RetryStep::Drain && Self::spec_drained(
            applied[0],
        ) == RetryStep::Retry {
            1 + (LayoutUpdate { retried: true, applied: false }).requests(answers.skip(1), applied.skip(1))
        } else {
            1
        }
    }

    /// An update that has not been sent yet.
    pub fn new() -> (update: LayoutUpdate)
        ensures
            update == (LayoutUpdate { retried: false, applied: false }),
    {
        LayoutUpdate { retried: false, applied: false }
    }

    /// What follows an answer.
    pub fn answered(&self, answer: Answer) -> (step: RetryStep)
        ensures
            step == self.spec_answered(answer),
    {
        match answer {
            Answer::Accepted => RetryStep::Done,
            Answer::Refused(_) => if stale(answer) && !self.retried {
                RetryStep::Drain
            } else {
                RetryStep::Refuse
            },
        }
    }

    /// Remembers what was done about a report.
    pub fn handled(&mut self, action: &EventAction)
        ensures
            *final(self) == (LayoutUpdate {
                applied: old(self).applied || *action is ApplyTarget,
                ..*old(self)
            }),
    {
        if let EventAction::ApplyTarget = action {
            self.applied = true;
        }
    }

    /// What follows once all reports have been handled.
    pub fn drained(&mut self) -> (step: RetryStep)
        ensures
            step == Self::spec_drained(old(self).applied),
            *final(self) == (LayoutUpdate { retried: true, applied: false }),
            step == RetryStep::Retry <==> old(self).applied,
    {
        let applied = self.applied;
        self.retried = true;
        self.applied = false;
        if applied {
            RetryStep::Retry
        } else {
            RetryStep::Refuse
        }
    }
}

/// The creation of the scene node: it is tried twice, the second time if a newer target has been
/// reported since.
#[derive(Debug, Clone, Copy, PartialEq, Eq, Structural)]
pub struct NodeCreation {
    pub retried: bool,
    pub applied: bool,
}

impl NodeCreation {
    /// What follows an answer.
    pub open spec fn spec_answered(answer: Answer) -> RetryStep {
        if answer == Answer::Accepted {
            RetryStep::Done
        } else if is_stale(answer) {
            RetryStep::Drain
        } else {
            RetryStep::Refuse
        }
    }

    /// What follows the reading of the reports. There is no second retry.
    pub open spec fn spec_drained(self, applied: bool) -> Result<RetryStep, PresentationError> {
        if !applied {
            Ok(RetryStep::Refuse)
        } else if self.retried {
            Err(PresentationError::TargetUnstable)
        } else {
            Ok(RetryStep::Retry)
        }
    }

    /// How many requests are made if the presenter answers them in turn with `answers`, and a
    /// newer target has been reported after those that `applied` marks.
    pub open spec fn requests(self, answers: Seq<Answer>, applied: Seq<bool>) -> nat
        decreases answers.len(),
    {
        if answers.len() == 0 || applied.len() == 0 {
            1
        } else if Self::spec_answered(answers[0]) == RetryStep::Drain && self.spec_drained(
            applied[0],
        ) == Ok::<RetryStep, PresentationError>(RetryStep::Retry) {
            1 + (NodeCreation { retried: true, applied: false }).requests(answers.skip(1), applied.skip(1))
        } else {
            1
        }
    }

    /// A creation that has not been requested yet.
    pub fn new() -> (creation: NodeCreation)
        ensures
            creation == (NodeCreation { retried: false, applied: false }),
    {
        NodeCreation { retried: false, applied: false }
    }

    /// What follows an answer.
    pub fn answered(&self, answer: Answer) -> (step: RetryStep)
        ensures
            step == Self::spec_answered(answer),
    {
        match answer {
            Answer::Accepted => RetryStep::Done,
            Answer::Refused(_) => if stale(answer) {
                RetryStep::Drain
            } else {
                RetryStep::Refuse
            },
        }
    }

    /// Handles a report: a newer target is to be applied, the end of the connection is an error,
    /// and every other report is ignored.
    pub fn handle_event(&mut self, event: &SessionEvent) -> (action: Result<
        EventAction,
        PresentationError,
    >)
        ensures
            *final(self) == (NodeCreation {
                applied: old(self).applied || *event is TargetChanged,
                ..*old(self)
            }),
            match *event {
                SessionEvent::TargetChanged => action == Ok::<EventAction, PresentationError>(
                    EventAction::ApplyTarget,
                ),
                SessionEvent::ConnectionClosed { diagnostic } => action is Err
                    && action->Err_0 is ConnectionClosed
                    && action->Err_0->ConnectionClosed_0@ == diagnostic@,
                _ => action == Ok::<EventAction, PresentationError>(EventAction::Nothing),
            },
    {
        match event {
            SessionEvent::TargetChanged => {
                self.applied = true;
                Ok(EventAction::ApplyTarget)
            },
            SessionEvent::ConnectionClosed { diagnostic } => Err(
                PresentationError::ConnectionClosed(diagnostic.clone()),
            ),
            _ => Ok(EventAction::Nothing),
        }
    }

    /// What follows once all reports have been handled.
    pub fn drained(&mut self) -> (step: Result<RetryStep, PresentationError>)
        ensures
            step == old(self).spec_drained(old(self).applied),
            *final(self) == (NodeCreation {
                retried: old(self).retried || old(self).applied,
                applied: false,
            }),
            step is Err <==> old(self).applied && old(self).retried,
            old(self).applied ==> final(self).retried,
    {
        let applied = self.applied;
        self.applied = false;
        if !applied {
            return Ok(RetryStep::Refuse);
        }
        if self.retried {
            return Err(PresentationError::TargetUnstable);
        }
        self.retried = true;
        Ok(RetryStep::Retry)
    }
}

/// What is done to set a presentation up, in this order.
#[derive(Debug, Clone, Copy, PartialEq, Eq, Structural)]
pub enum SetupStep {
    CreateSurface,
    CreateNode,
    ProbeVideo,
    CreateVideo,
    OpenVideo,
    ProbeAudio,
    CreateAudio,
    OpenAudio,
    Ready,
}

/// The step after `step`. A probe that finds its track unsupported ends the setup; `supported` is
/// of no account after other steps.
pub open spec fn spec_next_setup_step(step: SetupStep, sound: bool, supported: bool) -> Result<
    SetupStep,
    PresentationError,
> {
    match step {
        SetupStep::CreateSurface => Ok(SetupStep::CreateNode),
        SetupStep::CreateNode => Ok(SetupStep::ProbeVideo),
        SetupStep::ProbeVideo => if supported {
            Ok(SetupStep::CreateVideo)
        } else {
            Err(PresentationError::RasterUnsupported)
        },
        SetupStep::CreateVideo => Ok(SetupStep::OpenVideo),
        SetupStep::OpenVideo => Ok(
            if sound {
                SetupStep::ProbeAudio
            } else {
                SetupStep::Ready
            },
        ),
        SetupStep::ProbeAudio => if supported {
            Ok(SetupStep::CreateAudio)
        } else {
            Err(PresentationError::AudioUnsupported)
        },
        SetupStep::CreateAudio => Ok(SetupStep::OpenAudio),
        SetupStep::OpenAudio => Ok(SetupStep::Ready),
        SetupStep::Ready => Ok(SetupStep::Ready),
    }
}

/// The step after `step`.
pub fn next_setup_step(step: SetupStep, sound: bool, supported: bool) -> (next: Result<
    SetupStep,
    PresentationError,
>)
    ensures
        next == spec_next_setup_step(step, sound, supported),
{
    match step {
        SetupStep::CreateSurface => Ok(SetupStep::CreateNode),
        SetupStep::CreateNode => Ok(SetupStep::ProbeVideo),
        SetupStep::ProbeVideo => if supported {
            Ok(SetupStep::CreateVideo)
        } else {
            Err(PresentationError::RasterUnsupported)
        },
        SetupStep::CreateVideo => Ok(SetupStep::OpenVideo),
        SetupStep::OpenVideo => if sound {
            Ok(SetupStep::ProbeAudio)
        } else {
            Ok(SetupStep::Ready)
        },
        SetupStep::ProbeAudio => if supported {
            Ok(SetupStep::CreateAudio)
        } else {
            Err(PresentationError::AudioUnsupported)
        },
        SetupStep::CreateAudio => Ok(SetupStep::OpenAudio),
        SetupStep::OpenAudio => Ok(SetupStep::Ready),
        SetupStep::Ready => Ok(SetupStep::Ready),
    }
}

/// The step after `count` steps of a setup whose probes all succeed.
pub open spec fn setup_after(sound: bool, count: nat) -> SetupStep
    decreases count,
{
    if count == 0 {
        SetupStep::CreateSurface
    } else {
        match spec_next_setup_step(setup_after(sound, (count - 1) as nat), sound, true) {
            Ok(step) => step,
            Err(_) => SetupStep::Ready,
        }
    }
}

/// What the coordinates of a surface count.
#[derive(Debug, Clone, Copy, PartialEq, Eq, Structural)]
pub enum CoordinateModel {
    DesktopLogicalPixels,
    Normalized,
    CanvasLogicalUnits,
    TerminalContentCells,
}

/// What a surface is used for.
#[derive(Debug, Clone, Copy, PartialEq, Eq, Structural)]
pub enum SurfaceRole {
    Unspecified,
    Document,
    Desktop,
    TimedMedia,
    Figure,
    TerminalText,
    ApplicationCanvas,
}

/// The surface on which the game is shown.
#[derive(Debug)]
pub struct SurfaceDefinition {
    pub context_id: u64,
    pub surface_id: u64,
    pub semantic_profile: String,
    pub coordinate_model: CoordinateModel,
    pub logical_width: u64,
    pub logical_height: u64,
    pub scale_numerator: u64,
    pub scale_denominator: u64,
    pub rotation: u16,
    pub role: SurfaceRole,
    pub title: String,
    pub semantic_content_revision: u64,
    pub semantic_availability: u64,
    pub locator_hint: String,
    pub policy: u64,
    pub profile_parameters: Vec<(u64, u64)>,
}

/// `vivid_sdk::GENERIC_CONTENT`: the name of the semantic profile of surfaces without a more
/// specific one, `generic-content-v1`.
#[verifier::external_body]
fn generic_content() -> (profile: String)
    ensures
        profile@ == "generic-content-v1"@,
{
    vivid_sdk::GENERIC_CONTENT.to_owned()
}

/// The surface on which the game is shown: a canvas of the size of the game's screen.
pub fn surface_definition(context_id: u64, surface_id: u64) -> (surface: SurfaceDefinition)
    ensures
        surface.context_id == context_id,
        surface.surface_id == surface_id,
        surface.semantic_profile@ == "generic-content-v1"@,
        surface.coordinate_model == CoordinateModel::DesktopLogicalPixels,
        surface.logical_width == DOOM_WIDTH,
        surface.logical_height == DOOM_HEIGHT,
        surface.scale_numerator == 1,
        surface.scale_denominator == 1,
        surface.rotation == 0,
        surface.role == SurfaceRole::ApplicationCanvas,
        surface.title@ == "Doom"@,
        surface.semantic_content_revision == 1,
        surface.semantic_availability == 0,
        surface.locator_hint@ == Seq::<char>::empty(),
        surface.policy == 0,
        surface.profile_parameters@.len() == 0,
{
    proof {
        reveal_strlit("");
    }
    SurfaceDefinition {
        context_id,
        surface_id,
        semantic_profile: generic_content(),
        coordinate_model: CoordinateModel::DesktopLogicalPixels,
        logical_width: DOOM_WIDTH as u64,
        logical_height: DOOM_HEIGHT as u64,
        scale_numerator: 1,
        scale_denominator: 1,
        rotation: 0,
        role: SurfaceRole::ApplicationCanvas,
        title: "Doom".to_owned(),
        semantic_content_revision: 1,
        semantic_availability: 0,
        locator_hint: "".to_owned(),
        policy: 0,
        profile_parameters: Vec::new(),
    }
}

/// The loss of the audio track never ends the game: the report leads to no error, only the sound
/// ends, and the video is bound anew if slots had been bound.
pub proof fn law_audio_loss_keeps_the_game_running(state: Presentation, event: SessionEvent)
    requires
        loses(event, state.audio_track),
        state.audio_track != Some(state.video_track),
    ensures
        event_class(event, state.video_track, state.audio_track) == EventClass::AudioLost,
        silenced(state).audio_track is None,
        !silenced(state).audio_channel,
        silenced(state) == (Presentation {
            audio_track: None,
            audio_channel: false,
            ended_track: state.audio_track,
            ..state
        }),
        audio_shutdown(state, true) is Some,
        audio_shutdown(state, true).unwrap().rebind_video == state.activated,
{
}

/// Sound that has ended stays so: ending it again changes nothing and leaves nothing to do.
pub proof fn law_sound_ends_once(state: Presentation, rebind_video: bool)
    requires
        state.audio_track is None ==> !state.audio_channel,
    ensures
        silenced(silenced(state)) == silenced(state),
        audio_shutdown(silenced(state), rebind_video) is None,
        !silenced(state).audio_channel,
{
}

/// However often the loss of the audio track is reported, the game goes on: a report that comes
/// after the sound has ended is not about a track of the game, and is known for a late one.
pub proof fn law_late_reports_of_lost_sound_are_harmless(state: Presentation, event: SessionEvent)
    requires
        loses(event, state.audio_track),
        state.audio_track != Some(state.video_track),
    ensures
        event_class(event, silenced(state).video_track, silenced(state).audio_track)
            == EventClass::OtherLost,
        !loses(event, silenced(state).audio_track),
        is_late_loss(event, silenced(state)),
{
}

/// Every activation binds the raster track first, and binds the audio track only where it became
/// ready; no slot is bound twice.
pub proof fn law_activation_binds_the_video(
    state: Presentation,
    generation: u64,
    audio: AudioReadiness,
)
    ensures
        ({
            let bindings = activation_bindings(state, generation, audio);
            &&& bindings.len() >= 1
            &&& bindings[0].slot == VIDEO_SLOT && bindings[0].track_id == state.video_track
            &&& bindings.len() == 2 <==> state.audio_track is Some && audio is Ready
                && audio->Ready_0 is Some
            &&& forall|i: int, j: int|
                0 <= i < j < bindings.len() ==> bindings[i].slot != bindings[j].slot
        }),
{
}

/// A change of size is undone by a second one.
pub proof fn law_scale_toggles_back(state: Presentation)
    ensures
        toggled(toggled(state)) == state,
        toggled(state).scale != state.scale,
{
}

/// However often the target changes, a layout is sent at most twice.
pub proof fn law_layout_is_sent_at_most_twice(answers: Seq<Answer>, applied: Seq<bool>)
    ensures
        1 <= (LayoutUpdate { retried: false, applied: false }).requests(answers, applied) <= 2,
{
    reveal_with_fuel(LayoutUpdate::requests, 3);
}

/// However often the target changes, the creation of the node is requested at most twice.
pub proof fn law_node_is_requested_at_most_twice(answers: Seq<Answer>, applied: Seq<bool>)
    ensures
        1 <= (NodeCreation { retried: false, applied: false }).requests(answers, applied) <= 2,
{
    reveal_with_fuel(NodeCreation::requests, 3);
}

/// The setup comes to its end, and without sound it does nothing about audio.
pub proof fn law_setup_ends(sound: bool, count: nat)
    ensures
        count >= 8 ==> setup_after(sound, count) == SetupStep::Ready,
        !sound && count >= 5 ==> setup_after(sound, count) == SetupStep::Ready,
        !sound ==> !(setup_after(sound, count) is ProbeAudio) && !(setup_after(sound, count)
            is CreateAudio) && !(setup_after(sound, count) is OpenAudio),
        sound && count == 7 ==> setup_after(sound, count) == SetupStep::OpenAudio,
    decreases count,
{
    reveal_with_fuel(setup_after, 9);
    if count > 8 {
        law_setup_ends(sound, (count - 1) as nat);
    }
}

/// A payload explains a loss by the first of its entries under 6, whatever other entries it has.
/// Where that entry is no text, or where there is none, nothing is explained.
pub proof fn law_first_explanation_counts(payload: Seq<(u64, Option<String>)>, index: int)
    requires
        0 <= index <= payload.len(),
        forall|i: int| 0 <= i < index ==> (#[trigger] payload[i]).0 != 6,
    ensures
        index == payload.len() ==> payload_diagnostic(payload)
            == "presenter supplied no diagnostic"@,
        index < payload.len() && payload[index].0 == 6 ==> match payload[index].1 {
            Some(text) => payload_diagnostic(payload) == text@,
            None => payload_diagnostic(payload) == "presenter supplied no diagnostic"@,
        },
    decreases index,
{
    if index > 0 {
        let rest = payload.skip(1);
        assert forall|i: int| 0 <= i < index - 1 implies (#[trigger] rest[i]).0 != 6 by {
            assert(payload[i + 1].0 != 6);
        }
        assert(payload[0].0 != 6);
        law_first_explanation_counts(rest, index - 1);
        if index < payload.len() {
            assert(rest[index - 1] == payload[index]);
        }
    }
}

/// Every report has one meaning. A lost track is that of the video, that of the sound, or none of
/// the game's; the video comes first where both are one track.
pub proof fn law_reports_have_one_meaning(
    event: SessionEvent,
    video_track: u64,
    audio_track: Option<u64>,
)
    ensures
        ({
            let class = event_class(event, video_track, audio_track);
            &&& class == EventClass::TargetChanged <==> event is TargetChanged
            &&& class == EventClass::Closed <==> event is ConnectionClosed
            &&& class == EventClass::Other <==> event is Other
            &&& class == EventClass::VideoLost <==> event is TrackLost && event->object_id
                == video_track
            &&& class == EventClass::AudioLost <==> event is TrackLost && event->object_id
                != video_track && audio_track is Some && audio_track.unwrap() == event->object_id
            &&& class == EventClass::OtherLost <==> event is TrackLost && event->object_id
                != video_track && (audio_track is None || audio_track.unwrap() != event->object_id)
        }),
        loses(event, audio_track) <==> event is TrackLost && audio_track is Some
            && audio_track.unwrap() == event->object_id,
{
}

/// A report of a lost track is explained by its payload, and one of a closed connection in its own
/// words.
pub proof fn law_reports_carry_their_explanation(event: SessionEvent)
    ensures
        event is TrackLost ==> event_diagnostic(event) == payload_diagnostic(event->payload@),
        event is ConnectionClosed ==> event_diagnostic(event) == event->diagnostic@,
{
}

/// A late report is one of the loss of the track that the sound had, where that is not the track of
/// the video.
pub proof fn law_late_reports_are_known(event: SessionEvent, state: Presentation)
    ensures
        is_late_loss(event, state) <==> event is TrackLost && state.ended_track is Some
            && state.ended_track.unwrap() == event->object_id && event->object_id
            != state.video_track,
{
}

/// Ending the sound touches nothing but the sound: its track and its channel are gone, and the
/// track is remembered. A presentation without sound stays as it is.
pub proof fn law_silence_touches_only_the_sound(state: Presentation)
    ensures
        ({
            let after = silenced(state);
            &&& after.audio_track is None
            &&& state.audio_track is Some ==> !after.audio_channel && after.ended_track
                == state.audio_track
            &&& state.audio_track is None ==> after == state
            &&& after.geometry == state.geometry
            &&& after.scale == state.scale
            &&& after.activated == state.activated
            &&& after.video_track == state.video_track
            &&& after.workers == state.workers
        }),
{
}

/// What is left to do to end the sound names its track, closes its channel if it is open, and binds
/// the video anew if that was asked for and slots had been bound. Without sound nothing is left.
pub proof fn law_shutdown_of_sound_is_complete(state: Presentation, rebind_video: bool)
    ensures
        ({
            let plan = audio_shutdown(state, rebind_video);
            &&& plan is Some <==> state.audio_track is Some
            &&& plan is Some ==> {
                &&& plan.unwrap().track == state.audio_track.unwrap()
                &&& plan.unwrap().close_channel == state.audio_channel
                &&& plan.unwrap().rebind_video <==> rebind_video && state.activated
            }
        }),
{
}

/// Activation binds the video to slot 3 and a sound that is ready to slot 2, each under the
/// generation of its own channel and once it is ready for output.
pub proof fn law_slots_are_bound_to_their_tracks(
    state: Presentation,
    video_generation: u64,
    audio: AudioReadiness,
)
    ensures
        ({
            let bindings = activation_bindings(state, video_generation, audio);
            &&& bindings.len() == 1 || bindings.len() == 2
            &&& bindings[0].slot == 3
            &&& bindings[0].track_id == state.video_track
            &&& bindings[0].expected_channel_generation == video_generation
            &&& bindings[0].required_milestone == 16
            &&& bindings.len() == 2 <==> state.audio_track is Some && audio is Ready
                && audio->Ready_0 is Some
            &&& bindings.len() == 2 ==> {
                &&& bindings[1].slot == 2
                &&& bindings[1].track_id == state.audio_track.unwrap()
                &&& bindings[1].expected_channel_generation == audio->Ready_0.unwrap()
                &&& bindings[1].required_milestone == 16
            }
        }),
{
}

/// A change of size changes nothing but the size.
pub proof fn law_toggling_changes_only_the_size(state: Presentation)
    ensures
        ({
            let after = toggled(state);
            &&& after.scale == !state.scale
            &&& after.geometry == state.geometry
            &&& after.activated == state.activated
            &&& after.video_track == state.video_track
            &&& after.audio_track == state.audio_track
            &&& after.audio_channel == state.audio_channel
            &&& after.ended_track == state.ended_track
            &&& after.workers == state.workers
        }),
{
}

/// Only a refusal with the code 15 is one for an earlier target.
pub proof fn law_stale_refusals_have_their_code(answer: Answer)
    ensures
        is_stale(answer) <==> answer is Refused && answer->Refused_0 is Some
            && answer->Refused_0.unwrap() == 15,
{
}

/// A layout that was accepted is done. One that was refused for an earlier target is sent once
/// more, if a newer target was reported; every other refusal stands.
pub proof fn law_layout_is_retried_for_a_newer_target(
    update: LayoutUpdate,
    answer: Answer,
    applied: bool,
)
    ensures
        ({
            let step = update.spec_answered(answer);
            let stale = answer == Answer::Refused(Some(15u64));
            &&& step == RetryStep::Done <==> answer == Answer::Accepted
            &&& step == RetryStep::Drain <==> stale && !update.retried
            &&& step == RetryStep::Refuse <==> answer is Refused && !(stale && !update.retried)
        }),
        LayoutUpdate::spec_drained(applied) == RetryStep::Retry <==> applied,
        LayoutUpdate::spec_drained(applied) == RetryStep::Refuse <==> !applied,
{
}

/// A node that was accepted is done. One that was refused for an earlier target is requested once
/// more, if a newer target was reported; if one is reported again after that, the target is not
/// stable. Every other refusal stands.
pub proof fn law_node_is_retried_for_a_newer_target(
    creation: NodeCreation,
    answer: Answer,
    applied: bool,
)
    ensures
        ({
            let step = NodeCreation::spec_answered(answer);
            let stale = answer == Answer::Refused(Some(15u64));
            &&& step == RetryStep::Done <==> answer == Answer::Accepted
            &&& step == RetryStep::Drain <==> stale
            &&& step == RetryStep::Refuse <==> answer is Refused && !stale
        }),
        ({
            let step = creation.spec_drained(applied);
            &&& step == Ok::<RetryStep, PresentationError>(RetryStep::Refuse) <==> !applied
            &&& step == Ok::<RetryStep, PresentationError>(RetryStep::Retry) <==> applied
                && !creation.retried
            &&& step is Err <==> applied && creation.retried
            &&& step is Err ==> step->Err_0 is TargetUnstable
        }),
{
}

/// The setup makes the surface, then the node, then the video, then the sound if there is any: each
/// track is probed before it is made and made before it is opened. A probe that fails ends the
/// setup for its own reason, and nothing else does.
pub proof fn law_setup_keeps_its_order(sound: bool, supported: bool)
    ensures
        spec_next_setup_step(SetupStep::CreateSurface, sound, supported) == Ok::<
            SetupStep,
            PresentationError,
        >(SetupStep::CreateNode),
        spec_next_setup_step(SetupStep::CreateNode, sound, supported) == Ok::<
            SetupStep,
            PresentationError,
        >(SetupStep::ProbeVideo),
        spec_next_setup_step(SetupStep::ProbeVideo, sound, true) == Ok::<
            SetupStep,
            PresentationError,
        >(SetupStep::CreateVideo),
        spec_next_setup_step(SetupStep::CreateVideo, sound, supported) == Ok::<
            SetupStep,
            PresentationError,
        >(SetupStep::OpenVideo),
        spec_next_setup_step(SetupStep::OpenVideo, true, supported) == Ok::<
            SetupStep,
            PresentationError,
        >(SetupStep::ProbeAudio),
        spec_next_setup_step(SetupStep::OpenVideo, false, supported) == Ok::<
            SetupStep,
            PresentationError,
        >(SetupStep::Ready),
        spec_next_setup_step(SetupStep::ProbeAudio, sound, true) == Ok::<
            SetupStep,
            PresentationError,
        >(SetupStep::CreateAudio),
        spec_next_setup_step(SetupStep::CreateAudio, sound, supported) == Ok::<
            SetupStep,
            PresentationError,
        >(SetupStep::OpenAudio),
        spec_next_setup_step(SetupStep::OpenAudio, sound, supported) == Ok::<
            SetupStep,
            PresentationError,
        >(SetupStep::Ready),
        spec_next_setup_step(SetupStep::Ready, sound, supported) == Ok::<
            SetupStep,
            PresentationError,
        >(SetupStep::Ready),
        spec_next_setup_step(SetupStep::ProbeVideo, sound, false) is Err,
        spec_next_setup_step(SetupStep::ProbeVideo, sound, false)->Err_0 is RasterUnsupported,
        spec_next_setup_step(SetupStep::ProbeAudio, sound, false) is Err,
        spec_next_setup_step(SetupStep::ProbeAudio, sound, false)->Err_0 is AudioUnsupported,
{
}

/// An error that has a cause tells it: the diagnostic of the presenter, the words of a worker or
/// the number of the track.
pub proof fn law_errors_tell_their_cause(cause: String, track: u64)
    ensures
        PresentationError::RasterLost(cause).spec_message()
            == "presenter lost Vivid raster track: "@ + cause@,
        PresentationError::ConnectionClosed(cause).spec_message() == cause@,
        PresentationError::Worker(cause).spec_message() == cause@,
        PresentationError::TrackLost(track).spec_message() == "presenter lost Vivid track "@
            + crate::text::decimal_text(track as nat),
{
}

} // verus!
