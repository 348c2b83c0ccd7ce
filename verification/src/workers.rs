//! What the media workers decide between their blocking calls.
use vstd::prelude::*;

use crate::media::{
    next_raster_deadline, pcm_f32le, raster_deadline, AUDIO_FRAMES_PER_PACKET, AUDIO_FRAME_US,
    MEDIA_EPOCH, VIDEO_FRAME_PERIOD_NS,
};
use crate::queue::{bounded_push, closed_if, BoundedQueue};
use crate::text::join;

verus! {

/// Why a worker gives up by itself.
#[derive(Debug, Clone, Copy, PartialEq, Eq, Structural)]
pub enum WorkerError {
    FrameIdsExhausted,
    ShortBlock,
    TimelineExhausted,
    PacketIdsExhausted,
}

impl WorkerError {
    /// The text of the error.
    pub open spec fn spec_message(self) -> Seq<char> {
        match self {
            WorkerError::FrameIdsExhausted => "Vivid raster frame identity space exhausted"@,
            WorkerError::ShortBlock => "headless miniaudio mixer returned a short PCM block"@,
            WorkerError::TimelineExhausted => "Vivid audio timeline exhausted"@,
            WorkerError::PacketIdsExhausted => "Vivid audio packet identity space exhausted"@,
        }
    }

    /// The text of the error.
    pub fn message(&self) -> (text: &'static str)
        ensures
            text@ == self.spec_message(),
    {
        match self {
            WorkerError::FrameIdsExhausted => "Vivid raster frame identity space exhausted",
            WorkerError::ShortBlock => "headless miniaudio mixer returned a short PCM block",
            WorkerError::TimelineExhausted => "Vivid audio timeline exhausted",
            WorkerError::PacketIdsExhausted => "Vivid audio packet identity space exhausted",
        }
    }
}

/// What the workers report to the game: the first fatal error and the first audio error since
/// either was last taken.
pub struct WorkerStatus {
    pub stop: bool,
    pub fatal_error: Option<String>,
    pub audio_error: Option<String>,
}

/// An error slot after `message` was reported: the first report stays.
pub open spec fn first_report(slot: Option<String>, message: String) -> Option<String> {
    match slot {
        Some(_) => slot,
        None => Some(message),
    }
}

/// Whether `after` is an error slot that was `before` when `text` was reported.
pub open spec fn reported(before: Option<String>, after: Option<String>, text: Seq<char>) -> bool {
    match before {
        Some(_) => after == before,
        None => after is Some && after.unwrap()@ == text,
    }
}

impl Default for WorkerStatus {
    fn default() -> (status: WorkerStatus)
        ensures
            status == (WorkerStatus {
                stop: false,
                fatal_error: None::<String>,
                audio_error: None::<String>,
            }),
    {
        WorkerStatus { stop: false, fatal_error: None, audio_error: None }
    }
}

impl WorkerStatus {
    /// Asks the workers to stop. Failures that follow from it are not reported.
    pub fn request_stop(&mut self)
        ensures
            *final(self) == (WorkerStatus { stop: true, ..*old(self) }),
    {
        self.stop = true;
    }

    /// Reports an error that ends the game.
    pub fn fail_fatal(&mut self, message: String)
        ensures
            *final(self) == (WorkerStatus {
                fatal_error: first_report(old(self).fatal_error, message),
                ..*old(self)
            }),
    {
        if self.fatal_error.is_none() {
            self.fatal_error = Some(message);
        }
    }

    /// Reports an error that ends the sound only.
    pub fn fail_audio(&mut self, message: String)
        ensures
            *final(self) == (WorkerStatus {
                audio_error: first_report(old(self).audio_error, message),
                ..*old(self)
            }),
    {
        if self.audio_error.is_none() {
            self.audio_error = Some(message);
        }
    }

    /// Takes the fatal error.
    pub fn take_fatal_error(&mut self) -> (error: Option<String>)
        ensures
            error == old(self).fatal_error,
            *final(self) == (WorkerStatus { fatal_error: None::<String>, ..*old(self) }),
    {
        self.fatal_error.take()
    }

    /// Takes the audio error.
    pub fn take_audio_error(&mut self) -> (error: Option<String>)
        ensures
            error == old(self).audio_error,
            *final(self) == (WorkerStatus { audio_error: None::<String>, ..*old(self) }),
    {
        self.audio_error.take()
    }

    /// Reports that the channel refused a frame, unless the workers were asked to stop.
    pub fn raster_send_failed(&mut self, error: &str)
        ensures
            final(self).stop == old(self).stop,
            final(self).audio_error == old(self).audio_error,
            if old(self).stop || old(self).fatal_error is Some {
                final(self).fatal_error == old(self).fatal_error
            } else {
                final(self).fatal_error is Some && final(self).fatal_error.unwrap()@
                    == "raster sender failed: "@ + error@
            },
    {
        if !self.stop {
            let message = join("raster sender failed: ", error, "");
            proof {
                reveal_strlit("");
                assert(message@ == "raster sender failed: "@ + error@);
            }
            self.fail_fatal(message);
        }
    }

    /// Reports that the channel refused a packet, unless the workers were asked to stop.
    pub fn audio_send_failed(&mut self, error: &str)
        ensures
            final(self).stop == old(self).stop,
            final(self).fatal_error == old(self).fatal_error,
            if old(self).stop || old(self).audio_error is Some {
                final(self).audio_error == old(self).audio_error
            } else {
                final(self).audio_error is Some && final(self).audio_error.unwrap()@
                    == "audio sender failed: "@ + error@
            },
    {
        if !self.stop {
            let message = join("audio sender failed: ", error, "");
            proof {
                reveal_strlit("");
                assert(message@ == "audio sender failed: "@ + error@);
            }
            self.fail_audio(message);
        }
    }
}

/// A report does not change the error that is already there.
pub proof fn law_first_report_stays(first: String, second: String)
    ensures
        first_report(first_report(None, first), second) == Some(first),
{
}

/// What happened to the raster worker.
#[derive(Debug)]
pub enum VideoEvent {
    /// It has started, waited or sent a frame.
    Ready,
    /// It took a frame from the queue.
    Taken,
    /// The queue is closed and empty.
    Closed,
    /// The channel refused a frame.
    SendFailed(String),
}

/// What the raster worker does next.
#[derive(Debug, Clone, Copy, PartialEq, Eq, Structural)]
pub enum VideoStep {
    /// Wait for this many nanoseconds.
    Wait(u64),
    /// Take a frame from the queue, waiting for one if need be.
    Take,
    /// Send the frame that was taken, whole.
    Send { epoch: u32, frame_id: u64 },
    /// End the stream and tell that the worker is done.
    Finish,
    /// Nothing more.
    Stop,
}

/// The raster worker. Times are nanoseconds of one clock.
#[derive(Debug, Clone, Copy, PartialEq, Eq, Structural)]
pub struct VideoWorker {
    pub frame_id: u64,
    pub next_send: u64,
    pub finished: bool,
}

/// The worker and what it does next, when `event` happened at `now`. It waits before it takes a
/// frame, not after; it ends where there is no frame left to take, no identity for a frame, or no
/// channel to send it through.
pub open spec fn video_step(worker: VideoWorker, event: VideoEvent, now: u64) -> (
    VideoWorker,
    VideoStep,
) {
    if worker.finished {
        (worker, VideoStep::Stop)
    } else {
        match event {
            VideoEvent::Ready => (
                worker,
                if worker.next_send > now {
                    VideoStep::Wait((worker.next_send - now) as u64)
                } else {
                    VideoStep::Take
                },
            ),
            VideoEvent::Taken => {
                let next_send = raster_deadline(worker.next_send as int, now as int) as u64;
                if worker.frame_id == u64::MAX {
                    (VideoWorker { next_send, finished: true, ..worker }, VideoStep::Finish)
                } else {
                    let frame_id = (worker.frame_id + 1) as u64;
                    (
                        VideoWorker { frame_id, next_send, ..worker },
                        VideoStep::Send { epoch: MEDIA_EPOCH, frame_id },
                    )
                }
            },
            VideoEvent::Closed | VideoEvent::SendFailed(_) => (
                VideoWorker { finished: true, ..worker },
                VideoStep::Finish,
            ),
        }
    }
}

/// The error that the worker reports because of `event`, if any. A refusal that follows from a
/// request to stop is none.
pub open spec fn video_error(worker: VideoWorker, event: VideoEvent, stop: bool) -> Option<
    Seq<char>,
> {
    if worker.finished {
        None
    } else {
        match event {
            VideoEvent::Taken if worker.frame_id == u64::MAX => Some(
                WorkerError::FrameIdsExhausted.spec_message(),
            ),
            VideoEvent::SendFailed(error) if !stop => Some("raster sender failed: "@ + error@),
            _ => None,
        }
    }
}

impl VideoWorker {
    /// A worker that may take a frame at once.
    pub fn new(now: u64) -> (worker: VideoWorker)
        ensures
            worker == (VideoWorker { frame_id: 0, next_send: now, finished: false }),
    {
        VideoWorker { frame_id: 0, next_send: now, finished: false }
    }

    /// Accounts for a frame that was taken at `taken`, and gives it its identity.
    fn take_frame(&mut self, taken: u64) -> (frame_id: Result<u64, WorkerError>)
        requires
            old(self).next_send + VIDEO_FRAME_PERIOD_NS <= u64::MAX,
        ensures
            final(self).finished == old(self).finished,
            final(self).next_send == raster_deadline(old(self).next_send as int, taken as int),
            match frame_id {
                Ok(frame_id) => frame_id == old(self).frame_id + 1 && final(self).frame_id
                    == frame_id,
                Err(error) => {
                    &&& error == WorkerError::FrameIdsExhausted
                    &&& old(self).frame_id == u64::MAX
                    &&& final(self).frame_id == old(self).frame_id
                },
            },
    {
        self.next_send = next_raster_deadline(self.next_send, taken);
        match self.frame_id.checked_add(1) {
            Some(frame_id) => {
                self.frame_id = frame_id;
                Ok(frame_id)
            },
            None => Err(WorkerError::FrameIdsExhausted),
        }
    }

    /// What the worker does next, when `event` happened at `now`. An error ends the game.
    pub fn next(&mut self, status: &mut WorkerStatus, event: VideoEvent, now: u64) -> (step:
        VideoStep)
        requires
            event is Taken ==> old(self).next_send + VIDEO_FRAME_PERIOD_NS <= u64::MAX,
        ensures
            (*final(self), step) == video_step(*old(self), event, now),
            *final(status) == (WorkerStatus {
                fatal_error: final(status).fatal_error,
                ..*old(status)
            }),
            match video_error(*old(self), event, old(status).stop) {
                Some(text) => reported(old(status).fatal_error, final(status).fatal_error, text),
                None => final(status).fatal_error == old(status).fatal_error,
            },
    {
        if self.finished {
            return VideoStep::Stop;
        }
        match event {
            VideoEvent::Ready => if self.next_send > now {
                VideoStep::Wait(self.next_send - now)
            } else {
                VideoStep::Take
            },
            VideoEvent::Taken => match self.take_frame(now) {
                Ok(frame_id) => VideoStep::Send { epoch: MEDIA_EPOCH, frame_id },
                Err(error) => {
                    status.fail_fatal(error.message().to_owned());
                    self.finished = true;
                    VideoStep::Finish
                },
            },
            VideoEvent::Closed => {
                self.finished = true;
                VideoStep::Finish
            },
            VideoEvent::SendFailed(error) => {
                status.raster_send_failed(error.as_str());
                self.finished = true;
                VideoStep::Finish
            },
        }
    }
}

/// A frame is taken only once the wait for it is over, and a wait ends exactly then: what is sent
/// is the newest frame after the wait, not the one from before it.
pub proof fn law_take_follows_its_wait(worker: VideoWorker, event: VideoEvent, now: u64)
    ensures
        video_step(worker, event, now).1 is Take ==> now >= worker.next_send,
        video_step(worker, event, now).1 is Wait ==> {
            let wait = video_step(worker, event, now).1->Wait_0;
            &&& now + wait == worker.next_send
            &&& video_step(worker, VideoEvent::Ready, (now + wait) as u64) == (
                worker,
                VideoStep::Take,
            )
        },
        video_step(worker, event, now).1 is Send ==> event is Taken,
{
}

/// Whether a worker that started at `start` has not got ahead of the declared rate.
pub open spec fn keeps_pace(worker: VideoWorker, start: int) -> bool {
    worker.next_send >= start + worker.frame_id * VIDEO_FRAME_PERIOD_NS
}

/// Frames are numbered from one without a gap, and each is taken at least as many periods after
/// the start as there were frames before it: a worker keeps pace when it starts, and whatever
/// happens to it.
pub proof fn law_frames_keep_their_pace(
    worker: VideoWorker,
    start: u64,
    event: VideoEvent,
    now: u64,
)
    requires
        keeps_pace(worker, start as int),
        worker.next_send + VIDEO_FRAME_PERIOD_NS <= u64::MAX,
    ensures
        keeps_pace(VideoWorker { frame_id: 0, next_send: start, finished: false }, start as int),
        keeps_pace(video_step(worker, event, now).0, start as int),
        video_step(worker, event, now).1 is Take ==> now >= start + worker.frame_id
            * VIDEO_FRAME_PERIOD_NS,
        match video_step(worker, event, now).1 {
            VideoStep::Send { epoch, frame_id } => {
                &&& epoch == MEDIA_EPOCH
                &&& frame_id == worker.frame_id + 1
                &&& video_step(worker, event, now).0.frame_id == frame_id
            },
            _ => video_step(worker, event, now).0.frame_id == worker.frame_id,
        },
{
    assert((worker.frame_id + 1) * VIDEO_FRAME_PERIOD_NS == worker.frame_id * VIDEO_FRAME_PERIOD_NS
        + VIDEO_FRAME_PERIOD_NS) by (nonlinear_arith);
}

/// What the raster worker does when `events` happen to it, each at its time.
pub open spec fn video_steps(worker: VideoWorker, events: Seq<(VideoEvent, u64)>) -> Seq<VideoStep>
    decreases events.len(),
{
    if events.len() == 0 {
        Seq::empty()
    } else {
        let (next, step) = video_step(worker, events[0].0, events[0].1);
        seq![step] + video_steps(next, events.skip(1))
    }
}

/// The raster worker ends its stream once at most, and does nothing after that. It ends where the
/// queue is closed or the channel refuses a frame.
pub proof fn law_raster_stream_ends_once(
    worker: VideoWorker,
    events: Seq<(VideoEvent, u64)>,
    i: int,
    j: int,
)
    requires
        0 <= i < j < events.len(),
    ensures
        video_steps(worker, events).len() == events.len(),
        worker.finished ==> video_steps(worker, events)[i] is Stop,
        worker.finished ==> video_steps(worker, events)[j] is Stop,
        video_steps(worker, events)[i] is Finish || video_steps(worker, events)[i] is Stop
            ==> video_steps(worker, events)[j] is Stop,
        events[i].0 is Closed || events[i].0 is SendFailed ==> video_steps(worker, events)[i]
            is Finish || video_steps(worker, events)[i] is Stop,
    decreases events.len(),
{
    let (next, step) = video_step(worker, events[0].0, events[0].1);
    let rest = events.skip(1);
    let steps = video_steps(worker, events);
    assert(steps == seq![step] + video_steps(next, rest));
    lemma_video_steps(next, rest);
    assert(forall|k: int| 1 <= k < steps.len() ==> steps[k] == video_steps(next, rest)[k - 1]);
    if i > 0 {
        assert(rest[i - 1] == events[i]);
        law_raster_stream_ends_once(next, rest, i - 1, j - 1);
    }
}

/// One step for each event, and none but the last kind once the worker has finished.
proof fn lemma_video_steps(worker: VideoWorker, events: Seq<(VideoEvent, u64)>)
    ensures
        video_steps(worker, events).len() == events.len(),
        worker.finished ==> forall|k: int|
            0 <= k < events.len() ==> (#[trigger] video_steps(worker, events)[k]) is Stop,
    decreases events.len(),
{
    if events.len() > 0 {
        let (next, step) = video_step(worker, events[0].0, events[0].1);
        lemma_video_steps(next, events.skip(1));
        if worker.finished {
            let steps = video_steps(worker, events);
            assert forall|k: int| 0 <= k < events.len() implies (#[trigger] steps[k]) is Stop by {
                if k > 0 {
                    assert(steps[k] == video_steps(next, events.skip(1))[k - 1]);
                }
            }
        }
    }
}

/// A packet of samples and when it plays.
#[derive(Debug)]
pub struct AudioBlock {
    pub pts_us: i64,
    pub data: Vec<u8>,
}

/// When packet `index` plays, in microseconds.
pub open spec fn packet_time(index: int) -> int {
    index * AUDIO_FRAME_US
}

/// How long the mixer waits before it asks again whether the game has sound, in nanoseconds.
pub const MIXER_READY_INTERVAL_NS: u64 = 2_000_000;

/// The longest wait of the mixer between two packets, in nanoseconds.
pub const MIXER_LONGEST_WAIT_NS: u64 = 20_000_000;

/// What happened to the audio mixer.
#[derive(Debug)]
pub enum MixerEvent {
    /// It has started or waited.
    Turn,
    /// The game has no sound yet.
    NotReady,
    /// The game has sound.
    Ready,
    /// The game rendered `frames` frames into `samples`.
    Rendered { frames: u32, samples: Vec<u32> },
    /// A packet was queued.
    Queued,
}

/// What the audio mixer does next.
#[derive(Debug, Clone, Copy, PartialEq, Eq, Structural)]
pub enum MixerStep {
    /// Ask whether the game has sound.
    Check,
    /// Have the game render a packet.
    Render,
    /// Wait for this many nanoseconds.
    Wait(u64),
    /// Look at the clock.
    Pace,
    /// Tell that the mixer is done. Its queue has been closed.
    Finish,
    /// Nothing more.
    Stop,
}

/// The audio mixer, which renders one packet for each period of its clock.
#[derive(Debug, Clone, Copy, PartialEq, Eq, Structural)]
pub struct AudioMixer {
    pub packet_index: u64,
    pub finished: bool,
}

/// Why the mixer cannot make packet `index` of `frames` frames.
pub open spec fn mixer_error(index: int, frames: int) -> Option<WorkerError> {
    if frames != AUDIO_FRAMES_PER_PACKET {
        Some(WorkerError::ShortBlock)
    } else if packet_time(index) > i64::MAX {
        Some(WorkerError::TimelineExhausted)
    } else {
        None
    }
}

/// How long the mixer waits before packet `index`, in nanoseconds, when `elapsed` nanoseconds have
/// passed since the timeline started: until the packet is due, but no longer than one packet
/// lasts.
pub open spec fn mixer_wait(index: int, elapsed: int) -> Option<u64> {
    let due = if packet_time(index) > u64::MAX {
        u64::MAX as int
    } else {
        packet_time(index)
    } * 1_000;
    if due < elapsed {
        None
    } else if due - elapsed > MIXER_LONGEST_WAIT_NS {
        Some(MIXER_LONGEST_WAIT_NS)
    } else {
        Some((due - elapsed) as u64)
    }
}

/// What the mixer does where a turn begins: it ends once the workers were asked to stop.
pub open spec fn mixer_turn(stop: bool) -> MixerStep {
    if stop {
        MixerStep::Finish
    } else {
        MixerStep::Check
    }
}

/// What the mixer does next, when `event` happened at `elapsed`. It also ends once it cannot make
/// a packet, or once the queue that the packet is for is closed.
pub open spec fn mixer_step(
    mixer: AudioMixer,
    closed: bool,
    stop: bool,
    event: MixerEvent,
    elapsed: u64,
) -> MixerStep {
    if mixer.finished {
        MixerStep::Stop
    } else {
        match event {
            MixerEvent::Turn => mixer_turn(stop),
            MixerEvent::NotReady => MixerStep::Wait(MIXER_READY_INTERVAL_NS),
            MixerEvent::Ready => MixerStep::Render,
            MixerEvent::Rendered { frames, .. } => if closed || mixer_error(
                mixer.packet_index as int,
                frames as int,
            ) is Some {
                MixerStep::Finish
            } else {
                MixerStep::Pace
            },
            MixerEvent::Queued => match mixer_wait(mixer.packet_index as int, elapsed as int) {
                Some(wait) => MixerStep::Wait(wait),
                None => mixer_turn(stop),
            },
        }
    }
}

/// The frames and the samples of an event that brings some to a mixer at work.
pub open spec fn rendered(mixer: AudioMixer, event: MixerEvent) -> Option<(u32, Seq<u32>)> {
    match event {
        MixerEvent::Rendered { frames, samples } if !mixer.finished => Some((frames, samples@)),
        _ => None,
    }
}

impl AudioMixer {
    /// A mixer at the start of its timeline.
    pub fn new() -> (mixer: AudioMixer)
        ensures
            mixer == (AudioMixer { packet_index: 0, finished: false }),
    {
        AudioMixer { packet_index: 0, finished: false }
    }

    /// The next packet, of `frames` frames that were rendered into `samples`.
    pub fn block(&self, frames: u32, samples: &[u32]) -> (block: Result<AudioBlock, WorkerError>)
        ensures
            match block {
                Ok(block) => {
                    &&& mixer_error(self.packet_index as int, frames as int) is None
                    &&& block.pts_us == packet_time(self.packet_index as int)
                    &&& block.data@ == crate::media::little_endian(samples@)
                },
                Err(error) => mixer_error(self.packet_index as int, frames as int) == Some(error),
            },
    {
        if frames != AUDIO_FRAMES_PER_PACKET as u32 {
            return Err(WorkerError::ShortBlock);
        }
        let data = pcm_f32le(samples);
        match self.packet_index.checked_mul(AUDIO_FRAME_US) {
            Some(pts_us) => if pts_us > i64::MAX as u64 {
                Err(WorkerError::TimelineExhausted)
            } else {
                Ok(AudioBlock { pts_us: pts_us as i64, data })
            },
            None => Err(WorkerError::TimelineExhausted),
        }
    }

    /// Moves on to the next packet.
    pub fn advance(&mut self) -> (result: Result<(), WorkerError>)
        ensures
            final(self).finished == old(self).finished,
            match result {
                Ok(()) => final(self).packet_index == old(self).packet_index + 1,
                Err(error) => {
                    &&& error == WorkerError::PacketIdsExhausted
                    &&& old(self).packet_index == u64::MAX
                    &&& final(self).packet_index == old(self).packet_index
                },
            },
    {
        match self.packet_index.checked_add(1) {
            Some(packet_index) => {
                self.packet_index = packet_index;
                Ok(())
            },
            None => Err(WorkerError::PacketIdsExhausted),
        }
    }

    /// How long to wait before the next packet.
    pub fn wait(&self, elapsed: u64) -> (wait: Option<u64>)
        ensures
            wait == mixer_wait(self.packet_index as int, elapsed as int),
    {
        let due_us: u64 = match self.packet_index.checked_mul(AUDIO_FRAME_US) {
            Some(due_us) => due_us,
            None => u64::MAX,
        };
        let due: u128 = due_us as u128 * 1_000;
        if due < elapsed as u128 {
            return None;
        }
        let wait: u128 = due - elapsed as u128;
        if wait > MIXER_LONGEST_WAIT_NS as u128 {
            Some(MIXER_LONGEST_WAIT_NS)
        } else {
            Some(wait as u64)
        }
    }

    /// Queues the frames that were rendered into `samples` as the next packet. The result tells
    /// whether the mixer goes on. It does not once the queue is closed, nor after an error, which
    /// ends the sound.
    pub fn period(
        &mut self,
        queue: &mut BoundedQueue<AudioBlock>,
        status: &mut WorkerStatus,
        frames: u32,
        samples: &[u32],
    ) -> (goes_on: bool)
        requires
            old(queue).wf(),
        ensures
            final(queue).wf(),
            final(queue).spec_capacity() == old(queue).spec_capacity(),
            final(queue).spec_closed() == old(queue).spec_closed(),
            final(self).finished == old(self).finished,
            goes_on == (mixer_error(old(self).packet_index as int, frames as int) is None
                && !old(queue).spec_closed()),
            packet_queued(
                *old(self),
                *final(self),
                old(queue)@,
                final(queue)@,
                old(queue).spec_capacity(),
                samples@,
                goes_on,
            ),
            mixer_reported(
                *old(status),
                *final(status),
                mixer_error(old(self).packet_index as int, frames as int),
            ),
    {
        let block = match self.block(frames, samples) {
            Ok(block) => block,
            Err(error) => {
                status.fail_audio(error.message().to_owned());
                return false;
            },
        };
        let ghost pushed = block;
        if queue.push(block).is_err() {
            return false;
        }
        assert(queue@.last() == pushed);
        match self.advance() {
            Ok(()) => true,
            Err(error) => {
                status.fail_audio(error.message().to_owned());
                false
            },
        }
    }

    /// Ends the mixer.
    fn finish(&mut self, queue: &mut BoundedQueue<AudioBlock>) -> (step: MixerStep)
        ensures
            step == MixerStep::Finish,
            *final(self) == (AudioMixer { finished: true, ..*old(self) }),
            closed_if(*old(queue), *final(queue), true),
    {
        queue.close();
        self.finished = true;
        MixerStep::Finish
    }

    /// What the mixer does next, when `event` happened and `elapsed` nanoseconds have passed since
    /// its timeline started. An error ends the sound. Where the mixer ends, it closes its queue.
    pub fn next(
        &mut self,
        queue: &mut BoundedQueue<AudioBlock>,
        status: &mut WorkerStatus,
        event: MixerEvent,
        elapsed: u64,
    ) -> (step: MixerStep)
        requires
            old(queue).wf(),
        ensures
            final(queue).wf(),
            step == mixer_step(
                *old(self),
                old(queue).spec_closed(),
                old(status).stop,
                event,
                elapsed,
            ),
            final(self).finished == (old(self).finished || step is Finish),
            final(queue).spec_closed() == (old(queue).spec_closed() || step is Finish),
            final(queue).spec_capacity() == old(queue).spec_capacity(),
            match rendered(*old(self), event) {
                Some((frames, samples)) => {
                    &&& packet_queued(
                        *old(self),
                        *final(self),
                        old(queue)@,
                        final(queue)@,
                        old(queue).spec_capacity(),
                        samples,
                        step is Pace,
                    )
                    &&& mixer_reported(
                        *old(status),
                        *final(status),
                        mixer_error(old(self).packet_index as int, frames as int),
                    )
                },
                None => {
                    &&& final(self).packet_index == old(self).packet_index
                    &&& final(queue)@ == old(queue)@
                    &&& *final(status) == *old(status)
                },
            },
    {
        if self.finished {
            return MixerStep::Stop;
        }
        match event {
            MixerEvent::Turn => if status.stop {
                self.finish(queue)
            } else {
                MixerStep::Check
            },
            MixerEvent::NotReady => MixerStep::Wait(MIXER_READY_INTERVAL_NS),
            MixerEvent::Ready => MixerStep::Render,
            MixerEvent::Rendered { frames, samples } => if self.period(
                queue,
                status,
                frames,
                samples.as_slice(),
            ) {
                MixerStep::Pace
            } else {
                self.finish(queue)
            },
            MixerEvent::Queued => match self.wait(elapsed) {
                Some(wait) => MixerStep::Wait(wait),
                None => if status.stop {
                    self.finish(queue)
                } else {
                    MixerStep::Check
                },
            },
        }
    }
}

/// Whether the mixer and its queue are as they must be after `samples` were to be queued as a
/// packet, and were if `queued` holds.
pub open spec fn packet_queued(
    before: AudioMixer,
    after: AudioMixer,
    blocks_before: Seq<AudioBlock>,
    blocks_after: Seq<AudioBlock>,
    capacity: int,
    samples: Seq<u32>,
    queued: bool,
) -> bool {
    if queued {
        &&& after.packet_index == before.packet_index + 1
        &&& blocks_after == bounded_push(blocks_before, capacity, blocks_after.last())
        &&& blocks_after.last().pts_us == packet_time(before.packet_index as int)
        &&& blocks_after.last().data@ == crate::media::little_endian(samples)
    } else {
        &&& after.packet_index == before.packet_index
        &&& blocks_after == blocks_before
    }
}

/// Whether the status is as it must be after the mixer reported `error`, if there is one.
pub open spec fn mixer_reported(
    before: WorkerStatus,
    after: WorkerStatus,
    error: Option<WorkerError>,
) -> bool {
    match error {
        Some(error) => {
            &&& after == (WorkerStatus { audio_error: after.audio_error, ..before })
            &&& reported(before.audio_error, after.audio_error, error.spec_message())
        },
        None => after == before,
    }
}

/// The mixer renders only where the game has sound and it was not asked to stop when its turn
/// began; once it was asked to stop, its next turn ends it.
pub proof fn law_mixer_heeds_a_stop(
    mixer: AudioMixer,
    closed: bool,
    stop: bool,
    event: MixerEvent,
    elapsed: u64,
)
    ensures
        mixer_step(mixer, closed, stop, event, elapsed) is Render ==> event is Ready,
        mixer_step(mixer, closed, stop, event, elapsed) is Check ==> !stop,
        stop && event is Turn && !mixer.finished ==> mixer_step(
            mixer,
            closed,
            stop,
            event,
            elapsed,
        ) is Finish,
        mixer.finished ==> mixer_step(mixer, closed, stop, event, elapsed) is Stop,
{
}

/// No wait of the mixer is longer than one packet lasts, and a shorter one ends exactly when the
/// next packet is due. There is no wait for a packet that is overdue.
pub proof fn law_mixer_follows_its_clock(index: int, elapsed: int)
    requires
        0 <= index,
        packet_time(index) <= u64::MAX,
    ensures
        match mixer_wait(index, elapsed) {
            Some(wait) => wait <= MIXER_LONGEST_WAIT_NS && (elapsed + wait == packet_time(index)
                * 1_000 || wait == MIXER_LONGEST_WAIT_NS),
            None => elapsed > packet_time(index) * 1_000,
        },
{
}

/// The header of an audio record.
#[derive(Debug, Clone, Copy, PartialEq, Eq, Structural)]
pub struct AudioPacket {
    pub epoch: u32,
    pub packet_id: u64,
    pub pts_us: i64,
    pub dts_us: i64,
    pub duration_us: u64,
    pub trim_start_samples: u32,
    pub trim_end_samples: u32,
}

/// The header of a packet that plays at `pts_us`.
pub open spec fn packet_header(packet_id: u64, pts_us: i64) -> AudioPacket {
    AudioPacket {
        epoch: MEDIA_EPOCH,
        packet_id,
        pts_us,
        dts_us: pts_us,
        duration_us: AUDIO_FRAME_US,
        trim_start_samples: 0,
        trim_end_samples: 0,
    }
}

/// What happened to the audio sender.
#[derive(Debug)]
pub enum SenderEvent {
    /// It has started or sent a packet.
    Ready,
    /// It took a packet from the queue, which plays at `pts_us`.
    Taken { pts_us: i64 },
    /// The queue is closed and empty.
    Closed,
    /// The channel refused a packet.
    SendFailed(String),
}

/// What the audio sender does next.
#[derive(Debug, Clone, Copy, PartialEq, Eq, Structural)]
pub enum SenderStep {
    /// Take a packet from the queue, waiting for one if need be.
    Take,
    /// Send the packet that was taken, under this header.
    Send(AudioPacket),
    /// End the stream and tell that the sender is done.
    Finish,
    /// Nothing more.
    Stop,
}

/// The audio sender.
#[derive(Debug, Clone, Copy, PartialEq, Eq, Structural)]
pub struct AudioSender {
    pub packet_id: u64,
    pub finished: bool,
}

/// The sender and what it does next, when `event` happened. It ends where there is no packet left
/// to take, no identity for a packet, or no channel to send it through.
pub open spec fn sender_step(sender: AudioSender, event: SenderEvent) -> (AudioSender, SenderStep) {
    if sender.finished {
        (sender, SenderStep::Stop)
    } else {
        match event {
            SenderEvent::Ready => (sender, SenderStep::Take),
            SenderEvent::Taken { pts_us } if sender.packet_id < u64::MAX => {
                let packet_id = (sender.packet_id + 1) as u64;
                (
                    AudioSender { packet_id, ..sender },
                    SenderStep::Send(packet_header(packet_id, pts_us)),
                )
            },
            _ => (AudioSender { finished: true, ..sender }, SenderStep::Finish),
        }
    }
}

/// The error that the sender reports because of `event`, if any. A refusal that follows from a
/// request to stop is none.
pub open spec fn sender_error(sender: AudioSender, event: SenderEvent, stop: bool) -> Option<
    Seq<char>,
> {
    if sender.finished {
        None
    } else {
        match event {
            SenderEvent::Taken { .. } if sender.packet_id == u64::MAX => Some(
                WorkerError::PacketIdsExhausted.spec_message(),
            ),
            SenderEvent::SendFailed(error) if !stop => Some("audio sender failed: "@ + error@),
            _ => None,
        }
    }
}

impl AudioSender {
    /// A sender that has sent nothing.
    pub fn new() -> (sender: AudioSender)
        ensures
            sender == (AudioSender { packet_id: 0, finished: false }),
    {
        AudioSender { packet_id: 0, finished: false }
    }

    /// The header for the next packet, which plays at `pts_us`.
    fn packet(&mut self, pts_us: i64) -> (packet: Result<AudioPacket, WorkerError>)
        ensures
            final(self).finished == old(self).finished,
            match packet {
                Ok(packet) => {
                    &&& old(self).packet_id < u64::MAX
                    &&& final(self).packet_id == old(self).packet_id + 1
                    &&& packet == packet_header(final(self).packet_id, pts_us)
                },
                Err(error) => {
                    &&& error == WorkerError::PacketIdsExhausted
                    &&& old(self).packet_id == u64::MAX
                    &&& final(self).packet_id == old(self).packet_id
                },
            },
    {
        match self.packet_id.checked_add(1) {
            Some(packet_id) => {
                self.packet_id = packet_id;
                Ok(
                    AudioPacket {
                        epoch: MEDIA_EPOCH,
                        packet_id,
                        pts_us,
                        dts_us: pts_us,
                        duration_us: AUDIO_FRAME_US,
                        trim_start_samples: 0,
                        trim_end_samples: 0,
                    },
                )
            },
            None => Err(WorkerError::PacketIdsExhausted),
        }
    }

    /// What the sender does next, when `event` happened. An error ends the sound.
    pub fn next(&mut self, status: &mut WorkerStatus, event: SenderEvent) -> (step: SenderStep)
        ensures
            (*final(self), step) == sender_step(*old(self), event),
            *final(status) == (WorkerStatus {
                audio_error: final(status).audio_error,
                ..*old(status)
            }),
            match sender_error(*old(self), event, old(status).stop) {
                Some(text) => reported(old(status).audio_error, final(status).audio_error, text),
                None => final(status).audio_error == old(status).audio_error,
            },
    {
        if self.finished {
            return SenderStep::Stop;
        }
        match event {
            SenderEvent::Ready => SenderStep::Take,
            SenderEvent::Taken { pts_us } => match self.packet(pts_us) {
                Ok(packet) => SenderStep::Send(packet),
                Err(error) => {
                    status.fail_audio(error.message().to_owned());
                    self.finished = true;
                    SenderStep::Finish
                },
            },
            SenderEvent::Closed => {
                self.finished = true;
                SenderStep::Finish
            },
            SenderEvent::SendFailed(error) => {
                status.audio_send_failed(error.as_str());
                self.finished = true;
                SenderStep::Finish
            },
        }
    }
}

/// Packets are numbered from one without a gap, each under a header with its own time, and nothing
/// follows the end of the stream.
pub proof fn law_audio_stream_is_numbered_and_ends_once(
    sender: AudioSender,
    event: SenderEvent,
    later: SenderEvent,
)
    ensures
        ({
            let (next, step) = sender_step(sender, event);
            &&& step is Send ==> event is Taken && step->Send_0.packet_id == sender.packet_id + 1
                && next.packet_id == sender.packet_id + 1 && step->Send_0.pts_us
                == event->pts_us
            &&& !(step is Send) ==> next.packet_id == sender.packet_id
            &&& step is Finish || step is Stop ==> sender_step(next, later) == (
                next,
                SenderStep::Stop,
            )
        }),
{
}

/// The audio timeline has no gaps and no overlaps: each packet starts when the one before it
/// ends.
pub proof fn law_audio_timeline_is_gapless(index: int)
    ensures
        packet_time(index + 1) == packet_time(index) + AUDIO_FRAME_US,
{
    assert((index + 1) * AUDIO_FRAME_US == index * AUDIO_FRAME_US + AUDIO_FRAME_US)
        by (nonlinear_arith);
}

/// An error slot keeps its first report word for word, and takes a report only while it is empty.
pub proof fn law_reports_are_kept_word_for_word(
    before: Option<String>,
    after: Option<String>,
    text: Seq<char>,
    message: String,
)
    ensures
        reported(before, after, text) && before is None ==> after is Some && after.unwrap()@ == text,
        reported(before, after, text) && before is Some ==> after == before,
        first_report(None, message) == Some(message),
        before is Some ==> first_report(before, message) == before,
{
}

/// A raster worker at work waits until its deadline, then takes a frame. Each frame that it takes
/// is sent under the next number, in epoch 1, and moves the deadline by one period of 28571428
/// nanoseconds, or to the time of the take where that is later. Where the queue is closed, the
/// channel refuses a frame or no number is left, it ends the stream. Ended, it does nothing.
pub proof fn law_raster_worker_keeps_its_turns(worker: VideoWorker, now: u64, text: String)
    requires
        worker.next_send + 28_571_428 <= u64::MAX,
    ensures
        !worker.finished ==> {
            &&& video_step(worker, VideoEvent::Ready, now).0 == worker
            &&& worker.next_send > now ==> video_step(worker, VideoEvent::Ready, now).1
                == VideoStep::Wait((worker.next_send - now) as u64)
            &&& worker.next_send <= now ==> video_step(worker, VideoEvent::Ready, now).1
                == VideoStep::Take
        },
        !worker.finished ==> {
            let (next, step) = video_step(worker, VideoEvent::Taken, now);
            &&& next.next_send >= worker.next_send + 28_571_428
            &&& next.next_send >= now
            &&& next.next_send == now || next.next_send == worker.next_send + 28_571_428
            &&& worker.frame_id < u64::MAX ==> {
                &&& step is Send
                &&& step->epoch == 1
                &&& step->frame_id == worker.frame_id + 1
                &&& next.frame_id == worker.frame_id + 1
                &&& !next.finished
            }
            &&& worker.frame_id == u64::MAX ==> step == VideoStep::Finish && next.finished
                && next.frame_id == worker.frame_id
        },
        !worker.finished ==> {
            let ended = VideoWorker { finished: true, ..worker };
            &&& video_step(worker, VideoEvent::Closed, now) == (ended, VideoStep::Finish)
            &&& video_step(worker, VideoEvent::SendFailed(text), now) == (ended, VideoStep::Finish)
        },
        worker.finished ==> forall|event: VideoEvent| #[trigger]
            video_step(worker, event, now) == (worker, VideoStep::Stop),
{
}

/// The raster worker reports that no number is left for a frame, and that the channel refused a
/// frame, with the words of the channel, unless it was asked to stop. It reports nothing else.
pub proof fn law_raster_worker_reports_its_end(worker: VideoWorker, stop: bool, text: String)
    ensures
        video_error(worker, VideoEvent::Ready, stop) is None,
        video_error(worker, VideoEvent::Closed, stop) is None,
        video_error(worker, VideoEvent::Taken, stop) is Some <==> !worker.finished
            && worker.frame_id == u64::MAX,
        video_error(worker, VideoEvent::Taken, stop) is Some ==> video_error(
            worker,
            VideoEvent::Taken,
            stop,
        ) == Some("Vivid raster frame identity space exhausted"@),
        video_error(worker, VideoEvent::SendFailed(text), stop) is Some <==> !worker.finished
            && !stop,
        !worker.finished && !stop ==> video_error(worker, VideoEvent::SendFailed(text), stop)
            == Some("raster sender failed: "@ + text@),
{
}

/// A packet is made of exactly 960 frames, and as long as its time fits into the timeline. The
/// first packet plays at the start and each lasts 20000 microseconds.
pub proof fn law_packets_are_whole_and_in_time(index: int, frames: int)
    ensures
        packet_time(index) == 20_000 * index,
        mixer_error(index, frames) is None <==> frames == 960 && 20_000 * index <= i64::MAX,
        frames != 960 ==> mixer_error(index, frames) == Some(WorkerError::ShortBlock),
        frames == 960 && 20_000 * index > i64::MAX ==> mixer_error(index, frames) == Some(
            WorkerError::TimelineExhausted,
        ),
{
}

/// The mixer waits out the time until its next packet is due, 20 milliseconds at a time, and not
/// at all for a packet that is overdue.
pub proof fn law_mixer_waits_for_its_packet(index: int, elapsed: int)
    requires
        0 <= index,
        0 <= elapsed <= u64::MAX,
    ensures
        20_000_000 * index < elapsed ==> mixer_wait(index, elapsed) is None,
        elapsed <= 20_000_000 * index <= elapsed + 20_000_000 ==> mixer_wait(index, elapsed) is Some
            && mixer_wait(index, elapsed).unwrap() == 20_000_000 * index - elapsed,
        20_000_000 * index > elapsed + 20_000_000 ==> mixer_wait(index, elapsed) == Some(
            20_000_000u64,
        ),
{
}

/// A mixer at work goes from its turn to a look for sound, from sound to a packet, from a packet to
/// the clock, and from the clock to its next turn, which waits until it is due. Without sound it
/// looks again after two milliseconds. It ends where it is asked to stop as its turn begins, where
/// its queue is closed and where a packet cannot be made.
pub proof fn law_mixer_keeps_its_turns(
    mixer: AudioMixer,
    closed: bool,
    stop: bool,
    frames: u32,
    samples: Vec<u32>,
    elapsed: u64,
)
    requires
        !mixer.finished,
    ensures
        mixer_step(mixer, closed, stop, MixerEvent::Turn, elapsed) == (if stop {
            MixerStep::Finish
        } else {
            MixerStep::Check
        }),
        mixer_step(mixer, closed, stop, MixerEvent::NotReady, elapsed) == MixerStep::Wait(2_000_000),
        mixer_step(mixer, closed, stop, MixerEvent::Ready, elapsed) == MixerStep::Render,
        ({
            let step = mixer_step(
                mixer,
                closed,
                stop,
                MixerEvent::Rendered { frames, samples },
                elapsed,
            );
            &&& step == MixerStep::Pace || step == MixerStep::Finish
            &&& step == MixerStep::Pace <==> !closed && frames == 960 && 20_000
                * mixer.packet_index <= i64::MAX
        }),
        ({
            let step = mixer_step(mixer, closed, stop, MixerEvent::Queued, elapsed);
            let due = 20_000_000 * mixer.packet_index;
            &&& due < elapsed && stop ==> step == MixerStep::Finish
            &&& due < elapsed && !stop ==> step == MixerStep::Check
            &&& elapsed <= due <= elapsed + 20_000_000 ==> step is Wait && step->Wait_0 == due
                - elapsed
            &&& due > elapsed + 20_000_000 ==> step == MixerStep::Wait(20_000_000)
        }),
{
    law_mixer_waits_for_its_packet(mixer.packet_index as int, elapsed as int);
    law_packets_are_whole_and_in_time(mixer.packet_index as int, frames as int);
}

/// What the game rendered becomes the newest packet in the queue: its samples in little-endian
/// order, to be played 20000 microseconds after the packet before it. At most the oldest packet
/// makes room for it. Where no packet is queued, neither the queue nor the mixer changes.
pub proof fn law_rendered_sound_is_queued(
    before: AudioMixer,
    after: AudioMixer,
    blocks_before: Seq<AudioBlock>,
    blocks_after: Seq<AudioBlock>,
    capacity: int,
    samples: Seq<u32>,
    queued: bool,
)
    requires
        0 < capacity,
        blocks_before.len() <= capacity,
        packet_queued(
            before,
            after,
            blocks_before,
            blocks_after,
            capacity,
            samples,
            queued,
        ),
    ensures
        !queued ==> after.packet_index == before.packet_index && blocks_after == blocks_before,
        queued ==> {
            let block = blocks_after.last();
            &&& after.packet_index == before.packet_index + 1
            &&& block.pts_us == 20_000 * before.packet_index
            &&& block.data@.len() == 4 * samples.len()
            &&& forall|i: int|
                #![trigger samples[i]]
                0 <= i < samples.len() ==> block.data@[4 * i] + 0x100 * block.data@[4 * i + 1]
                    + 0x1_0000 * block.data@[4 * i + 2] + 0x100_0000 * block.data@[4 * i + 3]
                    == samples[i]
            &&& blocks_before.len() < capacity ==> blocks_after.drop_last() == blocks_before
            &&& blocks_before.len() == capacity ==> blocks_after.drop_last()
                == blocks_before.drop_first()
        },
{
    crate::media::law_samples_keep_their_place(samples);
    crate::queue::law_only_the_oldest_item_makes_room(
        blocks_before,
        capacity,
        blocks_after.last(),
    );
}

/// A mixer at work hands on what the game rendered as it is, and the status hears of it only where
/// a packet could not be made: then the sound has an error, the first one that there was.
pub proof fn law_mixer_reports_only_errors(
    mixer: AudioMixer,
    event: MixerEvent,
    before: WorkerStatus,
    after: WorkerStatus,
    error: Option<WorkerError>,
)
    requires
        mixer_reported(before, after, error),
    ensures
        rendered(mixer, event) is Some <==> event is Rendered && !mixer.finished,
        rendered(mixer, event) is Some ==> rendered(mixer, event).unwrap() == (
            event->frames,
            event->samples@,
        ),
        after.stop == before.stop,
        after.fatal_error == before.fatal_error,
        error is None || before.audio_error is Some ==> after.audio_error == before.audio_error,
        error is Some && before.audio_error is None ==> after.audio_error is Some
            && after.audio_error.unwrap()@ == error.unwrap().spec_message(),
{
}

/// Every audio record is of epoch 1, is decoded when it plays, lasts 20000 microseconds and is
/// played whole.
pub proof fn law_packets_play_whole(packet_id: u64, pts_us: i64)
    ensures
        ({
            let header = packet_header(packet_id, pts_us);
            &&& header.packet_id == packet_id
            &&& header.pts_us == pts_us
            &&& header.dts_us == pts_us
            &&& header.duration_us == 20_000
            &&& header.epoch == 1
            &&& header.trim_start_samples == 0
            &&& header.trim_end_samples == 0
        }),
{
}

/// An audio sender at work takes a packet when it is ready, and sends each packet that it took
/// under the next number and with the time of the packet. Where the queue is closed, the channel
/// refuses a packet or no number is left, it ends the stream. Ended, it does nothing.
pub proof fn law_audio_sender_keeps_its_turns(sender: AudioSender, pts_us: i64, text: String)
    ensures
        !sender.finished ==> {
            let ended = AudioSender { finished: true, ..sender };
            &&& sender_step(sender, SenderEvent::Ready) == (sender, SenderStep::Take)
            &&& sender_step(sender, SenderEvent::Closed) == (ended, SenderStep::Finish)
            &&& sender_step(sender, SenderEvent::SendFailed(text)) == (ended, SenderStep::Finish)
            &&& sender.packet_id == u64::MAX ==> sender_step(sender, SenderEvent::Taken { pts_us })
                == (ended, SenderStep::Finish)
            &&& sender.packet_id < u64::MAX ==> {
                let (next, step) = sender_step(sender, SenderEvent::Taken { pts_us });
                &&& !next.finished
                &&& next.packet_id == sender.packet_id + 1
                &&& step is Send
                &&& step->Send_0.packet_id == sender.packet_id + 1
                &&& step->Send_0.pts_us == pts_us
                &&& step->Send_0.dts_us == pts_us
                &&& step->Send_0.duration_us == 20_000
            }
        },
        sender.finished ==> forall|event: SenderEvent| #[trigger]
            sender_step(sender, event) == (sender, SenderStep::Stop),
{
}

/// The audio sender reports that no number is left for a packet, and that the channel refused a
/// packet, with the words of the channel, unless it was asked to stop. It reports nothing else.
pub proof fn law_audio_sender_reports_its_end(
    sender: AudioSender,
    stop: bool,
    pts_us: i64,
    text: String,
)
    ensures
        sender_error(sender, SenderEvent::Ready, stop) is None,
        sender_error(sender, SenderEvent::Closed, stop) is None,
        sender_error(sender, SenderEvent::Taken { pts_us }, stop) is Some <==> !sender.finished
            && sender.packet_id == u64::MAX,
        sender_error(sender, SenderEvent::Taken { pts_us }, stop) is Some ==> sender_error(
            sender,
            SenderEvent::Taken { pts_us },
            stop,
        ) == Some("Vivid audio packet identity space exhausted"@),
        sender_error(sender, SenderEvent::SendFailed(text), stop) is Some <==> !sender.finished
            && !stop,
        !sender.finished && !stop ==> sender_error(sender, SenderEvent::SendFailed(text), stop)
            == Some("audio sender failed: "@ + text@),
{
}

} // verus!
