use vvdoom::error::ErrorKind;
use vvdoom::media::{
    audio_configuration, frame_pixel_bytes, next_raster_deadline, pcm_f32le, probe_configuration,
    raster_configuration, BodyLengthError, KindConfiguration, LaneClass, MediaError,
    RasterConfiguration, TrackDirection, TrackMode, AUDIO_FRAMES_PER_PACKET, AUDIO_FRAME_US, AUDIO_PACKET_BYTES,
    VIDEO_FRAME_PERIOD_NS, VIDEO_RATE,
};
use vvdoom::queue::BoundedQueue;
use vvdoom::workers::{
    AudioMixer, AudioPacket, AudioSender, MixerEvent, MixerStep, SenderEvent, SenderStep,
    VideoEvent, VideoStep, VideoWorker, WorkerError, WorkerStatus,
};

#[test]
fn raster_pacing_holds_the_declared_rate_without_banking_idle_credit() {
    let start: u64 = 1_000_000_007;
    // Frames offered faster than the declared rate are taken exactly one period apart, so the
    // channel's own limiter always has capacity and never holds a frame past its freshness.
    let mut deadline = start;
    for step in 1..=4 {
        deadline = next_raster_deadline(deadline, start);
        assert_eq!(deadline, start + VIDEO_FRAME_PERIOD_NS * step);
    }

    // A still screen leaves the schedule far behind. The frame that ends it is not made to
    // wait out the periods that elapsed with nothing to send.
    let resumed = start + 5_000_000_000;
    assert_eq!(next_raster_deadline(deadline, resumed), resumed);
}

#[test]
fn checked_claims_cover_raw_raster_and_pcm() {
    assert_eq!(frame_pixel_bytes().unwrap(), 1_024_000);
    assert_eq!(AUDIO_PACKET_BYTES, 7_680);
    assert_eq!(VIDEO_RATE * 1_000, 35_000);
    assert_eq!(VIDEO_FRAME_PERIOD_NS * VIDEO_RATE, 999_999_980);
    assert_eq!(1_000_000 / AUDIO_FRAME_US, 50);
}

#[test]
fn pcm_f32_is_little_endian_and_lossless() {
    let samples = [0.25_f32, -0.75_f32, 1.0_f32];
    let encoded = pcm_f32le(&samples.map(f32::to_bits));
    let decoded = encoded
        .chunks_exact(4)
        .map(|bytes| f32::from_le_bytes([bytes[0], bytes[1], bytes[2], bytes[3]]))
        .collect::<Vec<_>>();
    assert_eq!(decoded, samples);
}

#[test]
fn pcm_bytes_are_exact() {
    assert_eq!(pcm_f32le(&[0x0403_0201, 0xffff_ff80]), [1, 2, 3, 4, 0x80, 0xff, 0xff, 0xff]);
    assert_eq!(pcm_f32le(&[]), []);
}

#[test]
fn raster_track_claims_full_records_at_the_full_rate() {
    let track = raster_configuration(1, 2, 3).unwrap();
    assert_eq!((track.context_id, track.surface_id, track.track_id), (1, 2, 3));
    assert_eq!(track.direction, TrackDirection::Downlink);
    assert_eq!((track.slot, track.mode, track.lane), (3, TrackMode::Live, LaneClass::Bulk));
    assert_eq!(track.maximum_record_body, 1_024_072);
    assert_eq!(track.maximum_rate_millihertz, 35_000);
    assert_eq!(track.maximum_encoded_bits_per_second, 1_024_072 * 8 * 35);
    assert_eq!(track.maximum_records_per_second, 35);
    assert_eq!(track.maximum_inflight_body_bytes, 2_048_144);
    assert_eq!((track.target_latency_us, track.maximum_latency_us), (0, 100_000));
    assert_eq!(track.retained_pixel_charge, 256_000);
    let KindConfiguration::Raster(raster) = track.kind else {
        panic!("raster track is not raster");
    };
    assert_eq!(
        raster,
        RasterConfiguration {
            width: 640,
            height: 400,
            alpha_mode: 1,
            delta_enabled: false,
            maximum_delta_operations: 1,
            zstd_enabled: true,
        }
    );
}

#[test]
fn audio_track_claims_full_records_at_the_full_rate() {
    let track = audio_configuration(1, 2, 3).unwrap();
    assert_eq!((track.context_id, track.surface_id, track.track_id), (1, 2, 3));
    assert_eq!(track.direction, TrackDirection::Downlink);
    assert_eq!((track.slot, track.mode, track.lane), (2, TrackMode::Live, LaneClass::Realtime));
    assert_eq!(track.maximum_record_body, 7_728);
    assert_eq!(track.maximum_rate_millihertz, 50_000);
    assert_eq!(track.maximum_encoded_bits_per_second, 7_728 * 8 * 50);
    assert_eq!(track.maximum_records_per_second, 50);
    assert_eq!(track.maximum_inflight_body_bytes, 61_824);
    assert_eq!((track.target_latency_us, track.maximum_latency_us), (40_000, 250_000));
    assert_eq!(track.retained_pixel_charge, 0);
    let KindConfiguration::Audio(audio) = track.kind else {
        panic!("audio track is not audio");
    };
    assert_eq!(audio.codec, "pcm_f32le");
    assert_eq!(audio.packetization, "pcm-packet-v1");
    assert!(audio.extradata.is_empty());
    assert_eq!((audio.sample_rate, audio.channels, audio.channel_mask), (48_000, 2, 3));
    assert_eq!(audio.maximum_access_unit_bytes, 7_680);
    assert_eq!(audio.codec_string, "pcm-f32");
}

#[test]
fn probe_differs_in_its_track_only() {
    let track = audio_configuration(1, 2, 3).unwrap();
    let probe = probe_configuration(&track);
    assert_eq!((probe.context_id, probe.surface_id, probe.track_id), (1, 2, 0));
    assert_eq!(probe.maximum_record_body, track.maximum_record_body);
    assert_eq!(
        probe.maximum_encoded_bits_per_second,
        track.maximum_encoded_bits_per_second
    );
    let KindConfiguration::Audio(audio) = probe.kind else {
        panic!("probe of an audio track is not audio");
    };
    assert_eq!(audio.codec, "pcm_f32le");
    assert_eq!(audio.codec_string, "pcm-f32");
    let raster = probe_configuration(&raster_configuration(1, 2, 3).unwrap());
    assert_eq!(raster.track_id, 0);
    assert!(matches!(raster.kind, KindConfiguration::Raster(_)));
}

#[test]
fn media_errors_are_explained() {
    assert_eq!(MediaError::Body(BodyLengthError::Overflow).kind(), ErrorKind::Other);
    assert_eq!(MediaError::FrameLength.kind(), ErrorKind::InvalidInput);
    assert_eq!(MediaError::RasterBitrate.kind(), ErrorKind::InvalidInput);
    assert_eq!(MediaError::Body(BodyLengthError::Overflow).message(), "Overflow");
    assert_eq!(MediaError::Body(BodyLengthError::TooLarge).message(), "TooLarge");
    assert_eq!(MediaError::Body(BodyLengthError::Empty).message(), "Empty");
    assert_eq!(MediaError::RasterPixels.message(), "raster pixel claim overflows");
    assert_eq!(MediaError::RasterBitrate.message(), "raster bitrate claim overflows");
    assert_eq!(MediaError::AudioBitrate.message(), "audio bitrate claim overflows");
    assert_eq!(MediaError::FrameSize.message(), "Doom RGBA frame size overflows");
    assert_eq!(
        MediaError::FrameLength.message(),
        "Doom frame does not contain exactly 640x400 RGBA pixels"
    );
}

#[test]
fn mixer_packets_follow_each_other_without_gaps() {
    let mut mixer = AudioMixer::new();
    let frames = AUDIO_FRAMES_PER_PACKET as u32;
    for index in 0..3 {
        let block = mixer.block(frames, &[1, 2]).unwrap();
        assert_eq!(block.pts_us, index * 20_000);
        assert_eq!(block.data, [1, 0, 0, 0, 2, 0, 0, 0]);
        mixer.advance().unwrap();
    }
    assert_eq!(mixer.block(frames - 1, &[]).unwrap_err(), WorkerError::ShortBlock);
    mixer.packet_index = i64::MAX as u64 / 20_000;
    assert!(mixer.block(frames, &[]).is_ok());
    mixer.packet_index += 1;
    assert_eq!(mixer.block(frames, &[]).unwrap_err(), WorkerError::TimelineExhausted);
    mixer.packet_index = u64::MAX;
    assert_eq!(mixer.block(frames, &[]).unwrap_err(), WorkerError::TimelineExhausted);
    assert_eq!(mixer.advance(), Err(WorkerError::PacketIdsExhausted));
    assert_eq!(
        WorkerError::ShortBlock.message(),
        "headless miniaudio mixer returned a short PCM block"
    );
    assert_eq!(WorkerError::TimelineExhausted.message(), "Vivid audio timeline exhausted");
    assert_eq!(
        WorkerError::PacketIdsExhausted.message(),
        "Vivid audio packet identity space exhausted"
    );
}

#[test]
fn mixer_waits_for_its_clock() {
    let mut mixer = AudioMixer::new();
    assert_eq!(mixer.wait(0), Some(0));
    assert_eq!(mixer.wait(1), None);
    mixer.packet_index = 1;
    assert_eq!(mixer.wait(5_000_000), Some(15_000_000));
    mixer.packet_index = 2;
    assert_eq!(mixer.wait(5_000_000), Some(20_000_000));
    mixer.packet_index = u64::MAX;
    assert_eq!(mixer.wait(u64::MAX), Some(20_000_000));
}

#[test]
fn first_worker_error_stays_until_it_is_taken() {
    let mut status = WorkerStatus::default();
    assert_eq!(status.take_fatal_error(), None);
    status.fail_fatal("first".to_owned());
    status.fail_fatal("second".to_owned());
    status.fail_audio("sound".to_owned());
    status.fail_audio("later".to_owned());
    assert_eq!(status.take_fatal_error(), Some("first".to_owned()));
    assert_eq!(status.take_fatal_error(), None);
    assert_eq!(status.take_audio_error(), Some("sound".to_owned()));
    assert_eq!(status.take_audio_error(), None);
}

#[test]
fn send_failures_are_not_reported_after_a_stop() {
    let mut status = WorkerStatus::default();
    status.raster_send_failed("gone");
    status.audio_send_failed("silent");
    assert_eq!(status.take_fatal_error(), Some("raster sender failed: gone".to_owned()));
    assert_eq!(status.take_audio_error(), Some("audio sender failed: silent".to_owned()));
    status.request_stop();
    status.raster_send_failed("gone");
    status.audio_send_failed("silent");
    assert_eq!(status.take_fatal_error(), None);
    assert_eq!(status.take_audio_error(), None);
}

#[test]
fn mixer_periods_fill_the_queue() {
    let mut mixer = AudioMixer::new();
    let mut queue = BoundedQueue::new(2);
    let mut status = WorkerStatus::default();
    let frames = AUDIO_FRAMES_PER_PACKET as u32;
    for sample in 1..=3 {
        assert!(mixer.period(&mut queue, &mut status, frames, &[sample]));
    }
    let block = queue.pop().unwrap();
    assert_eq!((block.pts_us, block.data), (20_000, vec![2, 0, 0, 0]));
    assert!(!mixer.period(&mut queue, &mut status, frames - 1, &[4]));
    assert_eq!(mixer.packet_index, 3);
    assert_eq!(
        status.take_audio_error(),
        Some("headless miniaudio mixer returned a short PCM block".to_owned())
    );
    queue.close();
    assert!(!mixer.period(&mut queue, &mut status, frames, &[5]));
    assert_eq!(status.take_audio_error(), None);
    assert_eq!(queue.pop().unwrap().pts_us, 40_000);
    assert!(queue.pop().is_none());
    mixer.packet_index = u64::MAX;
    assert!(!mixer.period(&mut queue, &mut status, frames, &[6]));
    assert_eq!(status.take_audio_error(), Some("Vivid audio timeline exhausted".to_owned()));
}

#[test]
fn raster_worker_waits_before_it_takes_a_frame() {
    let mut status = WorkerStatus::default();
    let mut worker = VideoWorker::new(100);
    assert_eq!(worker.next(&mut status, VideoEvent::Ready, 99), VideoStep::Wait(1));
    assert_eq!(worker.next(&mut status, VideoEvent::Ready, 100), VideoStep::Take);
    assert_eq!(
        worker.next(&mut status, VideoEvent::Taken, 100),
        VideoStep::Send { epoch: 1, frame_id: 1 }
    );
    assert_eq!(
        worker.next(&mut status, VideoEvent::Ready, 200),
        VideoStep::Wait(28_571_328)
    );
    assert_eq!(worker.next(&mut status, VideoEvent::Ready, 28_571_528), VideoStep::Take);
    // The queue held the worker up: the next frame may follow at once, and no burst after it.
    assert_eq!(
        worker.next(&mut status, VideoEvent::Taken, 5_000_000_000),
        VideoStep::Send { epoch: 1, frame_id: 2 }
    );
    assert_eq!(worker.next(&mut status, VideoEvent::Ready, 5_000_000_000), VideoStep::Take);
    assert_eq!(status.take_fatal_error(), None);
}

#[test]
fn raster_worker_ends_once() {
    let mut status = WorkerStatus::default();
    let mut worker = VideoWorker::new(0);
    assert_eq!(worker.next(&mut status, VideoEvent::Closed, 0), VideoStep::Finish);
    assert_eq!(worker.next(&mut status, VideoEvent::Ready, 0), VideoStep::Stop);
    assert_eq!(
        worker.next(&mut status, VideoEvent::SendFailed("late".to_owned()), 0),
        VideoStep::Stop
    );
    assert_eq!(status.take_fatal_error(), None);

    let mut worker = VideoWorker::new(0);
    assert_eq!(
        worker.next(&mut status, VideoEvent::SendFailed("gone".to_owned()), 0),
        VideoStep::Finish
    );
    assert_eq!(status.take_fatal_error(), Some("raster sender failed: gone".to_owned()));

    let mut worker = VideoWorker { frame_id: u64::MAX, next_send: 0, finished: false };
    assert_eq!(worker.next(&mut status, VideoEvent::Taken, 7), VideoStep::Finish);
    assert!(worker.finished);
    assert_eq!(
        status.take_fatal_error(),
        Some("Vivid raster frame identity space exhausted".to_owned())
    );
    assert_eq!(
        WorkerError::FrameIdsExhausted.message(),
        "Vivid raster frame identity space exhausted"
    );
}

#[test]
fn mixer_goes_through_its_turns() {
    let mut mixer = AudioMixer::new();
    let mut queue = BoundedQueue::new(8);
    let mut status = WorkerStatus::default();
    let frames = AUDIO_FRAMES_PER_PACKET as u32;
    assert_eq!(
        mixer.next(&mut queue, &mut status, MixerEvent::Turn, 0),
        MixerStep::Check
    );
    assert_eq!(
        mixer.next(&mut queue, &mut status, MixerEvent::NotReady, 0),
        MixerStep::Wait(2_000_000)
    );
    assert_eq!(
        mixer.next(&mut queue, &mut status, MixerEvent::Ready, 0),
        MixerStep::Render
    );
    let rendered = MixerEvent::Rendered { frames, samples: vec![1] };
    assert_eq!(mixer.next(&mut queue, &mut status, rendered, 0), MixerStep::Pace);
    assert_eq!(
        mixer.next(&mut queue, &mut status, MixerEvent::Queued, 5_000_000),
        MixerStep::Wait(15_000_000)
    );
    // An overdue packet is rendered without a wait.
    assert_eq!(
        mixer.next(&mut queue, &mut status, MixerEvent::Queued, 20_000_001),
        MixerStep::Check
    );
    status.request_stop();
    assert_eq!(
        mixer.next(&mut queue, &mut status, MixerEvent::Queued, 20_000_001),
        MixerStep::Finish
    );
    assert!(queue.push(vvdoom::workers::AudioBlock { pts_us: 0, data: vec![] }).is_err());
    assert_eq!(queue.pop().unwrap().data, [1, 0, 0, 0]);
    assert_eq!(
        mixer.next(&mut queue, &mut status, MixerEvent::Turn, 0),
        MixerStep::Stop
    );
}

#[test]
fn mixer_closes_its_queue_where_it_ends() {
    let frames = AUDIO_FRAMES_PER_PACKET as u32;
    for (stop, event, error) in [
        (true, MixerEvent::Turn, None),
        (
            false,
            MixerEvent::Rendered { frames: frames - 1, samples: vec![] },
            Some("headless miniaudio mixer returned a short PCM block".to_owned()),
        ),
    ] {
        let mut mixer = AudioMixer::new();
        let mut queue = BoundedQueue::new(8);
        let mut status = WorkerStatus { stop, ..WorkerStatus::default() };
        assert_eq!(mixer.next(&mut queue, &mut status, event, 0), MixerStep::Finish);
        assert!(mixer.finished);
        assert!(!queue.must_wait());
        assert_eq!(status.take_audio_error(), error);
    }
    let mut mixer = AudioMixer::new();
    let mut queue = BoundedQueue::new(8);
    queue.close();
    let mut status = WorkerStatus::default();
    let rendered = MixerEvent::Rendered { frames, samples: vec![] };
    assert_eq!(mixer.next(&mut queue, &mut status, rendered, 0), MixerStep::Finish);
    assert_eq!(status.take_audio_error(), None);
}

#[test]
fn audio_sender_numbers_packets_and_ends_once() {
    let mut status = WorkerStatus::default();
    let mut sender = AudioSender::new();
    assert_eq!(sender.next(&mut status, SenderEvent::Ready), SenderStep::Take);
    assert_eq!(
        sender.next(&mut status, SenderEvent::Taken { pts_us: 40_000 }),
        SenderStep::Send(AudioPacket {
            epoch: 1,
            packet_id: 1,
            pts_us: 40_000,
            dts_us: 40_000,
            duration_us: 20_000,
            trim_start_samples: 0,
            trim_end_samples: 0,
        })
    );
    assert_eq!(
        sender.next(&mut status, SenderEvent::SendFailed("gone".to_owned())),
        SenderStep::Finish
    );
    assert_eq!(status.take_audio_error(), Some("audio sender failed: gone".to_owned()));
    assert_eq!(sender.next(&mut status, SenderEvent::Ready), SenderStep::Stop);
    let mut sender = AudioSender::new();
    assert_eq!(sender.next(&mut status, SenderEvent::Closed), SenderStep::Finish);
    assert_eq!(status.take_audio_error(), None);
    let mut sender = AudioSender { packet_id: u64::MAX, finished: false };
    assert_eq!(
        sender.next(&mut status, SenderEvent::Taken { pts_us: 0 }),
        SenderStep::Finish
    );
    assert_eq!(
        status.take_audio_error(),
        Some("Vivid audio packet identity space exhausted".to_owned())
    );
}
