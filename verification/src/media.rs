//! The raster and audio tracks: what they claim, how they are paced and what they carry.
use vstd::prelude::*;

use crate::error::ErrorKind;
use crate::geometry::{DOOM_HEIGHT, DOOM_WIDTH};

verus! {

/// Raster frames per second.
pub const VIDEO_RATE: u64 = 35;

/// The declared raster period in nanoseconds, enforced before a frame is taken rather than after.
///
/// A sender that takes a frame first and then waits for the channel sends a frame that is one
/// period old. Waiting the period out first costs the same bandwidth and sends the newest image.
pub const VIDEO_FRAME_PERIOD_NS: u64 = 28_571_428;

/// The surface slot of the raster track.
pub const VIDEO_SLOT: u64 = 3;

/// The surface slot of the audio track.
pub const AUDIO_SLOT: u64 = 2;

/// The epoch that all media records carry.
pub const MEDIA_EPOCH: u32 = 1;

/// Audio frames per second.
pub const AUDIO_RATE: u32 = 48_000;

/// Samples per audio frame.
pub const AUDIO_CHANNELS: u8 = 2;

/// The duration of an audio packet in microseconds.
pub const AUDIO_FRAME_US: u64 = 20_000;

/// Audio frames per packet.
pub const AUDIO_FRAMES_PER_PACKET: usize = 960;

/// Samples per packet.
pub const AUDIO_SAMPLES_PER_PACKET: usize = 1_920;

/// Bytes per packet.
pub const AUDIO_PACKET_BYTES: u32 = 7_680;

/// How many packets the audio queue holds.
pub const AUDIO_QUEUE_PACKETS: usize = 8;

/// Audio packets per second.
pub const AUDIO_PACKET_RATE: u64 = 50;

/// The byte size of the header that an audio record carries before its samples.
pub const AUDIO_RECORD_PREFIX: u32 = 48;

/// The byte size of the headers that a full raster record carries before its pixels.
pub const RASTER_RECORD_PREFIX: u32 = 72;

/// The largest record body that the protocol admits.
pub const RECORD_BODY_LIMIT: u32 = 67_108_864;

/// Why a record body has no length.
#[derive(Debug, Clone, Copy, PartialEq, Eq, Structural)]
pub enum BodyLengthError {
    Overflow,
    TooLarge,
    Empty,
}

/// The body length of a record with `payload` bytes after `prefix` bytes of headers.
pub open spec fn body_length(payload: int, prefix: int, countable: int) -> Result<
    int,
    BodyLengthError,
> {
    if payload == 0 {
        Err(BodyLengthError::Empty)
    } else if payload > countable {
        Err(BodyLengthError::Overflow)
    } else if payload + prefix > RECORD_BODY_LIMIT {
        Err(BodyLengthError::TooLarge)
    } else {
        Ok(payload + prefix)
    }
}

/// Whether an executed length is the specified one.
pub open spec fn is_length(
    length: Result<u32, BodyLengthError>,
    specified: Result<int, BodyLengthError>,
) -> bool {
    match length {
        Ok(length) => specified == Ok::<int, BodyLengthError>(length as int),
        Err(error) => specified == Err::<int, BodyLengthError>(error),
    }
}

/// `vivid_protocol::media::rgba8_raw_frame_body_len`: the body length of an uncompressed full
/// frame, four bytes for each pixel after the frame and rectangle headers. It fails as `Empty`
/// for a side of zero, as `Overflow` where the pixel bytes exceed 64 bits and as `TooLarge`
/// where the body exceeds the protocol's limit.
#[verifier::external_body]
fn raster_body_length(width: u32, height: u32) -> (length: Result<u32, BodyLengthError>)
    ensures
        is_length(
            length,
            body_length(width * height * 4, RASTER_RECORD_PREFIX as int, u64::MAX as int),
        ),
{
    match vivid_protocol::media::rgba8_raw_frame_body_len(width, height) {
        Ok(length) => Ok(length),
        Err(vivid_protocol::media::SizeError::Overflow) => Err(BodyLengthError::Overflow),
        Err(vivid_protocol::media::SizeError::TooLarge) => Err(BodyLengthError::TooLarge),
        Err(vivid_protocol::media::SizeError::Empty) => Err(BodyLengthError::Empty),
    }
}

/// `vivid_protocol::media::audio_body_len`: the body length of an audio record, its payload after
/// the packet header. It fails as `Empty` without a payload, as `Overflow` where the sum exceeds
/// 32 bits and as `TooLarge` where it exceeds the protocol's limit.
#[verifier::external_body]
fn audio_body_length(payload: u32) -> (length: Result<u32, BodyLengthError>)
    ensures
        is_length(
            length,
            body_length(
                payload as int,
                AUDIO_RECORD_PREFIX as int,
                u32::MAX - AUDIO_RECORD_PREFIX,
            ),
        ),
{
    match vivid_protocol::media::audio_body_len(payload) {
        Ok(length) => Ok(length),
        Err(vivid_protocol::media::SizeError::Overflow) => Err(BodyLengthError::Overflow),
        Err(vivid_protocol::media::SizeError::TooLarge) => Err(BodyLengthError::TooLarge),
        Err(vivid_protocol::media::SizeError::Empty) => Err(BodyLengthError::Empty),
    }
}

/// Why a track cannot be configured or a frame cannot be sent.
#[derive(Debug, Clone, Copy, PartialEq, Eq, Structural)]
pub enum MediaError {
    Body(BodyLengthError),
    RasterPixels,
    RasterBitrate,
    AudioBitrate,
    FrameSize,
    FrameLength,
}

impl MediaError {
    /// The kind of the error.
    pub open spec fn spec_kind(self) -> ErrorKind {
        match self {
            MediaError::Body(_) => ErrorKind::Other,
            _ => ErrorKind::InvalidInput,
        }
    }

    /// The kind of the error.
    pub fn kind(&self) -> (kind: ErrorKind)
        ensures
            kind == self.spec_kind(),
    {
        match self {
            MediaError::Body(_) => ErrorKind::Other,
            _ => ErrorKind::InvalidInput,
        }
    }

    /// The text of the error.
    pub open spec fn spec_message(self) -> Seq<char> {
        match self {
            MediaError::Body(BodyLengthError::Overflow) => "Overflow"@,
            MediaError::Body(BodyLengthError::TooLarge) => "TooLarge"@,
            MediaError::Body(BodyLengthError::Empty) => "Empty"@,
            MediaError::RasterPixels => "raster pixel claim overflows"@,
            MediaError::RasterBitrate => "raster bitrate claim overflows"@,
            MediaError::AudioBitrate => "audio bitrate claim overflows"@,
            MediaError::FrameSize => "Doom RGBA frame size overflows"@,
            MediaError::FrameLength => "Doom frame does not contain exactly 640x400 RGBA pixels"@,
        }
    }

    /// The text of the error.
    pub fn message(&self) -> (text: &'static str)
        ensures
            text@ == self.spec_message(),
    {
        match self {
            MediaError::Body(BodyLengthError::Overflow) => "Overflow",
            MediaError::Body(BodyLengthError::TooLarge) => "TooLarge",
            MediaError::Body(BodyLengthError::Empty) => "Empty",
            MediaError::RasterPixels => "raster pixel claim overflows",
            MediaError::RasterBitrate => "raster bitrate claim overflows",
            MediaError::AudioBitrate => "audio bitrate claim overflows",
            MediaError::FrameSize => "Doom RGBA frame size overflows",
            MediaError::FrameLength => "Doom frame does not contain exactly 640x400 RGBA pixels",
        }
    }
}

/// Whether media flow to the presenter or from it.
#[derive(Debug, Clone, Copy, PartialEq, Eq, Structural)]
pub enum TrackDirection {
    Downlink,
    Uplink,
}

/// The transport lane of a track.
#[derive(Debug, Clone, Copy, PartialEq, Eq, Structural)]
pub enum LaneClass {
    Realtime,
    Bulk,
}

/// Whether a track plays as it arrives or by a clock.
#[derive(Debug, Clone, Copy, PartialEq, Eq, Structural)]
pub enum TrackMode {
    Live,
    Timed,
}

/// What a raster track carries.
#[derive(Debug, Clone, Copy, PartialEq, Eq, Structural)]
pub struct RasterConfiguration {
    pub width: u32,
    pub height: u32,
    pub alpha_mode: u64,
    pub delta_enabled: bool,
    pub maximum_delta_operations: u8,
    pub zstd_enabled: bool,
}

/// What an audio track carries.
#[derive(Debug)]
pub struct AudioConfiguration {
    pub codec: String,
    pub packetization: String,
    pub extradata: Vec<u8>,
    pub sample_rate: u32,
    pub channels: u8,
    pub channel_mask: u64,
    pub maximum_access_unit_bytes: u32,
    pub codec_string: String,
}

/// What a track carries.
#[derive(Debug)]
pub enum KindConfiguration {
    Raster(RasterConfiguration),
    Audio(AudioConfiguration),
}

/// A track and the resources that it claims.
#[derive(Debug)]
pub struct TrackConfiguration {
    pub direction: TrackDirection,
    pub context_id: u64,
    pub surface_id: u64,
    pub track_id: u64,
    pub slot: u64,
    pub mode: TrackMode,
    pub lane: LaneClass,
    pub maximum_record_body: u32,
    pub maximum_rate_millihertz: u64,
    pub maximum_encoded_bits_per_second: u64,
    pub maximum_records_per_second: u64,
    pub maximum_inflight_body_bytes: u64,
    pub kind: KindConfiguration,
    pub target_latency_us: u64,
    pub maximum_latency_us: u64,
    pub retained_pixel_charge: u64,
}

/// The raster track of a surface. Its claims cover full records at the full rate, headers
/// included.
pub open spec fn raster_track(context_id: u64, surface_id: u64, track_id: u64) -> TrackConfiguration {
    let body = DOOM_WIDTH * DOOM_HEIGHT * 4 + RASTER_RECORD_PREFIX;
    TrackConfiguration {
        direction: TrackDirection::Downlink,
        context_id,
        surface_id,
        track_id,
        slot: VIDEO_SLOT,
        mode: TrackMode::Live,
        lane: LaneClass::Bulk,
        maximum_record_body: body as u32,
        maximum_rate_millihertz: (VIDEO_RATE * 1_000) as u64,
        maximum_encoded_bits_per_second: (body * 8 * VIDEO_RATE) as u64,
        maximum_records_per_second: VIDEO_RATE,
        maximum_inflight_body_bytes: (body * 2) as u64,
        kind: KindConfiguration::Raster(
            RasterConfiguration {
                width: DOOM_WIDTH,
                height: DOOM_HEIGHT,
                alpha_mode: 1,
                delta_enabled: false,
                maximum_delta_operations: 1,
                zstd_enabled: true,
            },
        ),
        target_latency_us: 0,
        maximum_latency_us: 100_000,
        retained_pixel_charge: (DOOM_WIDTH * DOOM_HEIGHT) as u64,
    }
}

/// Whether `kind` is stereo PCM in 32-bit floats, in packets of the fixed size.
pub open spec fn is_pcm_audio(kind: KindConfiguration) -> bool {
    match kind {
        KindConfiguration::Audio(audio) => {
            &&& audio.codec@ == "pcm_f32le"@
            &&& audio.packetization@ == "pcm-packet-v1"@
            &&& audio.extradata@ == Seq::<u8>::empty()
            &&& audio.sample_rate == AUDIO_RATE
            &&& audio.channels == AUDIO_CHANNELS
            &&& audio.channel_mask == 3
            &&& audio.maximum_access_unit_bytes == AUDIO_PACKET_BYTES
            &&& audio.codec_string@ == "pcm-f32"@
        },
        KindConfiguration::Raster(_) => false,
    }
}

/// The audio track of a surface, apart from its kind. Its claims cover full records at the full
/// rate, headers included: without them a sustained stream would exceed its own claim.
pub open spec fn audio_track(
    context_id: u64,
    surface_id: u64,
    track_id: u64,
    kind: KindConfiguration,
) -> TrackConfiguration {
    let body = AUDIO_PACKET_BYTES + AUDIO_RECORD_PREFIX;
    TrackConfiguration {
        direction: TrackDirection::Downlink,
        context_id,
        surface_id,
        track_id,
        slot: AUDIO_SLOT,
        mode: TrackMode::Live,
        lane: LaneClass::Realtime,
        maximum_record_body: body as u32,
        maximum_rate_millihertz: (AUDIO_PACKET_RATE * 1_000) as u64,
        maximum_encoded_bits_per_second: (body * 8 * AUDIO_PACKET_RATE) as u64,
        maximum_records_per_second: AUDIO_PACKET_RATE,
        maximum_inflight_body_bytes: (body * AUDIO_QUEUE_PACKETS) as u64,
        kind,
        target_latency_us: 40_000,
        maximum_latency_us: 250_000,
        retained_pixel_charge: 0,
    }
}

/// Configures the raster track.
pub fn raster_configuration(context_id: u64, surface_id: u64, track_id: u64) -> (track: Result<
    TrackConfiguration,
    MediaError,
>)
    ensures
        track == Ok::<TrackConfiguration, MediaError>(
            raster_track(context_id, surface_id, track_id),
        ),
{
    assert(DOOM_WIDTH * DOOM_HEIGHT == 256_000) by (nonlinear_arith);
    let maximum_record_body: u32 = match raster_body_length(DOOM_WIDTH, DOOM_HEIGHT) {
        Ok(length) => length,
        Err(error) => return Err(MediaError::Body(error)),
    };
    let retained_pixel_charge: u64 = match (DOOM_WIDTH as u64).checked_mul(DOOM_HEIGHT as u64) {
        Some(pixels) => pixels,
        None => return Err(MediaError::RasterPixels),
    };
    let bits_per_record: u64 = maximum_record_body as u64 * 8;
    let bits_per_second: u64 = match bits_per_record.checked_mul(VIDEO_RATE) {
        Some(bits) => bits,
        None => return Err(MediaError::RasterBitrate),
    };
    Ok(
        TrackConfiguration {
            direction: TrackDirection::Downlink,
            context_id,
            surface_id,
            track_id,
            slot: VIDEO_SLOT,
            mode: TrackMode::Live,
            lane: LaneClass::Bulk,
            maximum_record_body,
            maximum_rate_millihertz: VIDEO_RATE * 1_000,
            maximum_encoded_bits_per_second: bits_per_second,
            maximum_records_per_second: VIDEO_RATE,
            maximum_inflight_body_bytes: maximum_record_body as u64 * 2,
            kind: KindConfiguration::Raster(
                RasterConfiguration {
                    width: DOOM_WIDTH,
                    height: DOOM_HEIGHT,
                    alpha_mode: 1,
                    delta_enabled: false,
                    maximum_delta_operations: 1,
                    zstd_enabled: true,
                },
            ),
            target_latency_us: 0,
            maximum_latency_us: 100_000,
            retained_pixel_charge,
        },
    )
}

/// Configures the audio track.
pub fn audio_configuration(context_id: u64, surface_id: u64, track_id: u64) -> (track: Result<
    TrackConfiguration,
    MediaError,
>)
    ensures
        match track {
            Ok(track) => is_pcm_audio(track.kind) && track == audio_track(
                context_id,
                surface_id,
                track_id,
                track.kind,
            ),
            Err(_) => false,
        },
{
    let maximum_record_body: u32 = match audio_body_length(AUDIO_PACKET_BYTES) {
        Ok(length) => length,
        Err(error) => return Err(MediaError::Body(error)),
    };
    let bits_per_record: u64 = maximum_record_body as u64 * 8;
    let bits_per_second: u64 = match bits_per_record.checked_mul(AUDIO_PACKET_RATE) {
        Some(bits) => bits,
        None => return Err(MediaError::AudioBitrate),
    };
    Ok(
        TrackConfiguration {
            direction: TrackDirection::Downlink,
            context_id,
            surface_id,
            track_id,
            slot: AUDIO_SLOT,
            mode: TrackMode::Live,
            lane: LaneClass::Realtime,
            maximum_record_body,
            maximum_rate_millihertz: AUDIO_PACKET_RATE * 1_000,
            maximum_encoded_bits_per_second: bits_per_second,
            maximum_records_per_second: AUDIO_PACKET_RATE,
            maximum_inflight_body_bytes: maximum_record_body as u64 * AUDIO_QUEUE_PACKETS as u64,
            kind: KindConfiguration::Audio(
                AudioConfiguration {
                    codec: "pcm_f32le".to_owned(),
                    packetization: "pcm-packet-v1".to_owned(),
                    extradata: Vec::new(),
                    sample_rate: AUDIO_RATE,
                    channels: AUDIO_CHANNELS,
                    channel_mask: 3,
                    maximum_access_unit_bytes: AUDIO_PACKET_BYTES,
                    codec_string: "pcm-f32".to_owned(),
                },
            ),
            target_latency_us: 40_000,
            maximum_latency_us: 250_000,
            retained_pixel_charge: 0,
        },
    )
}

/// Whether two tracks carry the same.
pub open spec fn same_kind(one: KindConfiguration, other: KindConfiguration) -> bool {
    match (one, other) {
        (KindConfiguration::Raster(one), KindConfiguration::Raster(other)) => one == other,
        (KindConfiguration::Audio(one), KindConfiguration::Audio(other)) => {
            &&& one.codec == other.codec
            &&& one.packetization == other.packetization
            &&& one.extradata@ == other.extradata@
            &&& one.sample_rate == other.sample_rate
            &&& one.channels == other.channels
            &&& one.channel_mask == other.channel_mask
            &&& one.maximum_access_unit_bytes == other.maximum_access_unit_bytes
            &&& one.codec_string == other.codec_string
        },
        _ => false,
    }
}

/// The configuration that asks whether a track would be supported: the same one, for no track in
/// particular.
pub fn probe_configuration(configuration: &TrackConfiguration) -> (probe: TrackConfiguration)
    ensures
        same_kind(probe.kind, configuration.kind),
        probe == (TrackConfiguration { track_id: 0, kind: probe.kind, ..*configuration }),
{
    let kind = match &configuration.kind {
        KindConfiguration::Raster(raster) => KindConfiguration::Raster(*raster),
        KindConfiguration::Audio(audio) => KindConfiguration::Audio(
            AudioConfiguration {
                codec: audio.codec.clone(),
                packetization: audio.packetization.clone(),
                extradata: audio.extradata.clone(),
                sample_rate: audio.sample_rate,
                channels: audio.channels,
                channel_mask: audio.channel_mask,
                maximum_access_unit_bytes: audio.maximum_access_unit_bytes,
                codec_string: audio.codec_string.clone(),
            },
        ),
    };
    TrackConfiguration {
        direction: configuration.direction,
        context_id: configuration.context_id,
        surface_id: configuration.surface_id,
        track_id: 0,
        slot: configuration.slot,
        mode: configuration.mode,
        lane: configuration.lane,
        maximum_record_body: configuration.maximum_record_body,
        maximum_rate_millihertz: configuration.maximum_rate_millihertz,
        maximum_encoded_bits_per_second: configuration.maximum_encoded_bits_per_second,
        maximum_records_per_second: configuration.maximum_records_per_second,
        maximum_inflight_body_bytes: configuration.maximum_inflight_body_bytes,
        kind,
        target_latency_us: configuration.target_latency_us,
        maximum_latency_us: configuration.maximum_latency_us,
        retained_pixel_charge: configuration.retained_pixel_charge,
    }
}

/// The byte size of a frame.
pub fn frame_pixel_bytes() -> (bytes: Result<u32, MediaError>)
    ensures
        bytes == Ok::<u32, MediaError>(1_024_000),
{
    assert(DOOM_WIDTH * DOOM_HEIGHT == 256_000) by (nonlinear_arith);
    let pixels: u32 = match DOOM_WIDTH.checked_mul(DOOM_HEIGHT) {
        Some(pixels) => pixels,
        None => return Err(MediaError::FrameSize),
    };
    match pixels.checked_mul(4) {
        Some(bytes) => Ok(bytes),
        None => Err(MediaError::FrameSize),
    }
}

/// When the raster worker may take its next frame, given when it took this one.
pub open spec fn raster_deadline(previous: int, taken: int) -> int {
    if previous + VIDEO_FRAME_PERIOD_NS >= taken {
        previous + VIDEO_FRAME_PERIOD_NS
    } else {
        taken
    }
}

/// When the raster worker may take its next frame, given when it took this one, in nanoseconds
/// of one clock.
///
/// Advancing by exactly one period keeps the declared rate met rather than undershot. Going no
/// further back than `taken` stops an idle stretch from banking credit for a burst, so the first
/// frame after a still screen goes out at once.
pub fn next_raster_deadline(previous: u64, taken: u64) -> (deadline: u64)
    requires
        previous + VIDEO_FRAME_PERIOD_NS <= u64::MAX,
    ensures
        deadline == raster_deadline(previous as int, taken as int),
{
    let next: u64 = previous + VIDEO_FRAME_PERIOD_NS;
    if next >= taken {
        next
    } else {
        taken
    }
}

/// The deadline after frames were taken at the given times.
pub open spec fn deadline_after(start: int, takes: Seq<int>) -> int
    decreases takes.len(),
{
    if takes.len() == 0 {
        start
    } else {
        raster_deadline(deadline_after(start, takes.drop_last()), takes.last())
    }
}

/// Whenever frames are taken, each take moves the deadline by at least one period, so the
/// declared rate is never exceeded in the long run.
pub proof fn law_rate_is_not_exceeded(start: int, takes: Seq<int>)
    ensures
        deadline_after(start, takes) >= start + takes.len() * VIDEO_FRAME_PERIOD_NS,
    decreases takes.len(),
{
    if takes.len() > 0 {
        law_rate_is_not_exceeded(start, takes.drop_last());
        assert(takes.len() * VIDEO_FRAME_PERIOD_NS == takes.drop_last().len()
            * VIDEO_FRAME_PERIOD_NS + VIDEO_FRAME_PERIOD_NS) by (nonlinear_arith)
            requires
                takes.len() == takes.drop_last().len() + 1,
        ;
    }
}

/// Frames that are offered fast enough are taken exactly one period apart: the declared rate is
/// met.
pub proof fn law_offered_frames_meet_the_rate(start: int, takes: Seq<int>)
    requires
        forall|i: int|
            0 <= i < takes.len() ==> #[trigger] takes[i] <= start + (i + 1)
                * VIDEO_FRAME_PERIOD_NS,
    ensures
        deadline_after(start, takes) == start + takes.len() * VIDEO_FRAME_PERIOD_NS,
    decreases takes.len(),
{
    if takes.len() > 0 {
        let front = takes.drop_last();
        assert forall|i: int| 0 <= i < front.len() implies #[trigger] front[i] <= start + (i + 1)
            * VIDEO_FRAME_PERIOD_NS by {
            assert(front[i] == takes[i]);
        }
        law_offered_frames_meet_the_rate(start, front);
        assert(takes[takes.len() - 1] == takes.last());
        assert(takes.len() * VIDEO_FRAME_PERIOD_NS == front.len() * VIDEO_FRAME_PERIOD_NS
            + VIDEO_FRAME_PERIOD_NS) by (nonlinear_arith)
            requires
                takes.len() == front.len() + 1,
        ;
    }
}

/// An idle stretch of a period or more leaves no credit: the next frame may be taken when the
/// last one was, and no earlier.
pub proof fn law_idle_time_is_not_banked(previous: int, taken: int)
    requires
        taken >= previous + VIDEO_FRAME_PERIOD_NS,
    ensures
        raster_deadline(previous, taken) == taken,
{
}

/// Byte `index` of a 32-bit word, counted from the low end.
pub open spec fn word_byte(word: u32, index: int) -> u8 {
    if index == 0 {
        (word % 256) as u8
    } else if index == 1 {
        (word / 256 % 256) as u8
    } else if index == 2 {
        (word / 65_536 % 256) as u8
    } else {
        (word / 16_777_216) as u8
    }
}

/// The words as bytes, each from its low end.
pub open spec fn little_endian(words: Seq<u32>) -> Seq<u8> {
    Seq::new(words.len() * 4, |i: int| word_byte(words[i / 4], i % 4))
}

/// The word that four bytes make, counted from the low end.
pub open spec fn word_at(bytes: Seq<u8>, index: int) -> int {
    bytes[4 * index] + bytes[4 * index + 1] * 256 + bytes[4 * index + 2] * 65_536 + bytes[4 * index
        + 3] * 16_777_216
}

/// Encodes samples, given as the bit patterns of 32-bit floats, in little-endian order.
pub fn pcm_f32le(samples: &[u32]) -> (bytes: Vec<u8>)
    ensures
        bytes@ == little_endian(samples@),
{
    let mut bytes: Vec<u8> = Vec::new();
    let mut index: usize = 0;
    while index < samples.len()
        invariant
            index <= samples@.len(),
            bytes@ == little_endian(samples@.take(index as int)),
        decreases samples@.len() - index,
    {
        let word: u32 = samples[index];
        let ghost before = bytes@;
        bytes.push((word % 256) as u8);
        bytes.push((word / 256 % 256) as u8);
        bytes.push((word / 65_536 % 256) as u8);
        bytes.push((word / 16_777_216) as u8);
        proof {
            let next = samples@.take(index + 1);
            assert forall|i: int| 0 <= i < bytes@.len() implies bytes@[i] == little_endian(
                next,
            )[i] by {
                if i < before.len() {
                    assert(before[i] == word_byte(samples@.take(index as int)[i / 4], i % 4));
                } else {
                    assert(i / 4 == index);
                }
            }
            assert(bytes@ == little_endian(next));
        }
        index = index + 1;
    }
    assert(samples@.take(index as int) == samples@);
    bytes
}

/// The encoding loses nothing: each sample can be read back from its four bytes.
pub proof fn law_pcm_is_lossless(samples: Seq<u32>, index: int)
    requires
        0 <= index < samples.len(),
    ensures
        little_endian(samples).len() == 4 * samples.len(),
        word_at(little_endian(samples), index) == samples[index],
{
    let bytes = little_endian(samples);
    let word = samples[index];
    assert(bytes[4 * index] == word_byte(word, 0));
    assert(bytes[4 * index + 1] == word_byte(word, 1));
    assert(bytes[4 * index + 2] == word_byte(word, 2));
    assert(bytes[4 * index + 3] == word_byte(word, 3));
}

/// Every raster record is a whole frame: records that depend on earlier ones are not enabled, a
/// record has room for all pixels of a frame behind its headers, and the claimed bits suffice for
/// such records at the full rate.
pub proof fn law_every_raster_record_is_whole(context_id: u64, surface_id: u64, track_id: u64)
    ensures
        ({
            let track = raster_track(context_id, surface_id, track_id);
            &&& track.kind is Raster && !track.kind->Raster_0.delta_enabled
            &&& track.maximum_record_body == 1_024_000 + RASTER_RECORD_PREFIX
            &&& track.maximum_encoded_bits_per_second == track.maximum_record_body * 8
                * track.maximum_records_per_second
            &&& track.maximum_rate_millihertz == track.maximum_records_per_second * 1_000
        }),
{
    assert(DOOM_WIDTH * DOOM_HEIGHT == 256_000) by (nonlinear_arith);
}

/// The claims of the audio track suffice for full records at the full rate, headers included.
pub proof fn law_audio_records_fit_their_claims(
    context_id: u64,
    surface_id: u64,
    track_id: u64,
    kind: KindConfiguration,
)
    ensures
        ({
            let track = audio_track(context_id, surface_id, track_id, kind);
            &&& track.maximum_record_body == AUDIO_PACKET_BYTES + AUDIO_RECORD_PREFIX
            &&& track.maximum_encoded_bits_per_second == track.maximum_record_body * 8
                * track.maximum_records_per_second
            &&& track.maximum_rate_millihertz == track.maximum_records_per_second * 1_000
            &&& track.maximum_inflight_body_bytes == track.maximum_record_body
                * AUDIO_QUEUE_PACKETS
        }),
{
}

/// The constants of the tracks agree: an audio packet lasts as long as its frames do and holds
/// two samples of four bytes for each frame, and the raster period is a second divided by the
/// rate.
pub proof fn law_track_constants_agree()
    ensures
        AUDIO_FRAME_US * AUDIO_RATE == AUDIO_FRAMES_PER_PACKET * 1_000_000,
        AUDIO_PACKET_RATE * AUDIO_FRAME_US == 1_000_000,
        AUDIO_SAMPLES_PER_PACKET == AUDIO_FRAMES_PER_PACKET * AUDIO_CHANNELS,
        AUDIO_PACKET_BYTES == AUDIO_SAMPLES_PER_PACKET * 4,
        VIDEO_FRAME_PERIOD_NS == 1_000_000_000u64 / VIDEO_RATE,
{
    assert(AUDIO_FRAME_US * AUDIO_RATE == AUDIO_FRAMES_PER_PACKET * 1_000_000 && AUDIO_PACKET_RATE
        * AUDIO_FRAME_US == 1_000_000 && AUDIO_SAMPLES_PER_PACKET == AUDIO_FRAMES_PER_PACKET
        * AUDIO_CHANNELS && VIDEO_FRAME_PERIOD_NS == 1_000_000_000u64 / VIDEO_RATE)
        by (nonlinear_arith);
}

/// The four bytes of a sample stand at four times its index, the low one first, and there are no
/// others: samples are encoded one after the other.
pub proof fn law_samples_keep_their_place(samples: Seq<u32>)
    ensures
        little_endian(samples).len() == 4 * samples.len(),
        forall|i: int|
            #![trigger samples[i]]
            0 <= i < samples.len() ==> {
                let bytes = little_endian(samples);
                bytes[4 * i] + 0x100 * bytes[4 * i + 1] + 0x1_0000 * bytes[4 * i + 2] + 0x100_0000
                    * bytes[4 * i + 3] == samples[i]
            },
{
    assert forall|i: int|
        #![trigger samples[i]]
        0 <= i < samples.len() implies {
        let bytes = little_endian(samples);
        bytes[4 * i] + 0x100 * bytes[4 * i + 1] + 0x1_0000 * bytes[4 * i + 2] + 0x100_0000
            * bytes[4 * i + 3] == samples[i]
    } by {
        let bytes = little_endian(samples);
        let word = samples[i];
        assert(bytes[4 * i] == word_byte(word, 0));
        assert(bytes[4 * i + 1] == word_byte(word, 1));
        assert(bytes[4 * i + 2] == word_byte(word, 2));
        assert(bytes[4 * i + 3] == word_byte(word, 3));
    }
}

/// After a frame, the next one may be taken one period of 28571428 nanoseconds after the deadline
/// of this one, or when this one was taken, whichever is later.
pub proof fn law_deadline_is_the_later_time(previous: int, taken: int)
    ensures
        raster_deadline(previous, taken) >= previous + 28_571_428,
        raster_deadline(previous, taken) >= taken,
        raster_deadline(previous, taken) == previous + 28_571_428 || raster_deadline(
            previous,
            taken,
        ) == taken,
{
}

/// The raster track carries whole RGBA frames of 640 by 400 pixels, at most 35 in a second, over
/// the bulk lane to the presenter, with room for two frames under way. It belongs to the surface,
/// the context and the identity that it is made for.
pub proof fn law_raster_track_carries_the_game(context_id: u64, surface_id: u64, track_id: u64)
    ensures
        ({
            let track = raster_track(context_id, surface_id, track_id);
            &&& track.context_id == context_id
            &&& track.surface_id == surface_id
            &&& track.track_id == track_id
            &&& track.direction == TrackDirection::Downlink
            &&& track.mode == TrackMode::Live
            &&& track.lane == LaneClass::Bulk
            &&& track.slot == 3
            &&& track.kind is Raster
            &&& track.kind->Raster_0.width == 640
            &&& track.kind->Raster_0.height == 400
            &&& track.kind->Raster_0.alpha_mode == 1
            &&& !track.kind->Raster_0.delta_enabled
            &&& track.kind->Raster_0.maximum_delta_operations == 1
            &&& track.kind->Raster_0.zstd_enabled
            &&& track.maximum_record_body == 1_024_072
            &&& track.maximum_records_per_second == 35
            &&& track.maximum_rate_millihertz == 35_000
            &&& track.maximum_encoded_bits_per_second == 1_024_072 * 8 * 35
            &&& track.maximum_inflight_body_bytes == 2 * 1_024_072
            &&& track.target_latency_us == 0
            &&& track.maximum_latency_us == 100_000
            &&& track.retained_pixel_charge == 256_000
        }),
{
    assert(DOOM_WIDTH * DOOM_HEIGHT == 256_000) by (nonlinear_arith);
}

/// The audio track carries packets of 20 milliseconds, 50 in a second, over the realtime lane to
/// the presenter, with room for eight of them under way. It belongs to the surface, the context and
/// the identity that it is made for.
pub proof fn law_audio_track_carries_the_sound(
    context_id: u64,
    surface_id: u64,
    track_id: u64,
    kind: KindConfiguration,
)
    ensures
        ({
            let track = audio_track(context_id, surface_id, track_id, kind);
            &&& track.context_id == context_id
            &&& track.surface_id == surface_id
            &&& track.track_id == track_id
            &&& track.direction == TrackDirection::Downlink
            &&& track.mode == TrackMode::Live
            &&& track.lane == LaneClass::Realtime
            &&& track.slot == 2
            &&& track.kind == kind
            &&& track.maximum_record_body == 7_728
            &&& track.maximum_records_per_second == 50
            &&& track.maximum_rate_millihertz == 50_000
            &&& track.maximum_encoded_bits_per_second == 7_728 * 8 * 50
            &&& track.maximum_inflight_body_bytes == 8 * 7_728
            &&& track.target_latency_us == 40_000
            &&& track.maximum_latency_us == 250_000
            &&& track.retained_pixel_charge == 0
        }),
{
}

/// The sound is stereo PCM of 48000 frames in a second, in little-endian 32-bit floats.
pub proof fn law_sound_is_stereo_pcm(kind: KindConfiguration)
    requires
        is_pcm_audio(kind),
    ensures
        kind is Audio,
        kind->Audio_0.codec@ == "pcm_f32le"@,
        kind->Audio_0.packetization@ == "pcm-packet-v1"@,
        kind->Audio_0.codec_string@ == "pcm-f32"@,
        kind->Audio_0.extradata@.len() == 0,
        kind->Audio_0.sample_rate == 48_000,
        kind->Audio_0.channels == 2,
        kind->Audio_0.channel_mask == 3,
        kind->Audio_0.maximum_access_unit_bytes == 960 * 2 * 4,
{
}

/// A probe asks about the very track: raster for raster and audio for audio, with all that the
/// track carries.
pub proof fn law_probe_carries_the_same(one: KindConfiguration, other: KindConfiguration)
    requires
        same_kind(one, other),
    ensures
        one is Raster <==> other is Raster,
        one is Raster ==> one->Raster_0 == other->Raster_0,
        one is Audio ==> {
            &&& one->Audio_0.codec@ == other->Audio_0.codec@
            &&& one->Audio_0.packetization@ == other->Audio_0.packetization@
            &&& one->Audio_0.codec_string@ == other->Audio_0.codec_string@
            &&& one->Audio_0.extradata@ == other->Audio_0.extradata@
            &&& one->Audio_0.sample_rate == other->Audio_0.sample_rate
            &&& one->Audio_0.channels == other->Audio_0.channels
            &&& one->Audio_0.channel_mask == other->Audio_0.channel_mask
            &&& one->Audio_0.maximum_access_unit_bytes == other->Audio_0.maximum_access_unit_bytes
        },
{
}

/// An error is the caller's, except where the protocol has no length for a record.
pub proof fn law_errors_are_the_callers(error: MediaError)
    ensures
        error is Body ==> error.spec_kind() == ErrorKind::Other,
        !(error is Body) ==> error.spec_kind() == ErrorKind::InvalidInput,
{
}

} // verus!
