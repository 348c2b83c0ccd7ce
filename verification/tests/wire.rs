use vivid_protocol::{
    cbor::Value,
    messages::LaneClass,
    track::{
        AudioConfiguration, KindConfiguration, RasterConfiguration, TrackConfiguration, TrackMode,
    },
};
use vivid_sdk::{
    CoordinateModel, Fit, SceneNode, SurfaceDefinition, SurfaceDescriptor, SurfaceRole,
};
use vvdoom::geometry::{scene_node, TerminalGeometry};
use vvdoom::presentation::surface_definition;
use vvdoom::{geometry, media};

fn wire_node(node: &geometry::SceneNode) -> SceneNode {
    SceneNode {
        owning_context_id: node.owning_context_id,
        node_id: node.node_id,
        surface_context_id: node.surface_context_id,
        surface_id: node.surface_id,
        geometry: node.geometry.iter().map(|(key, value)| (*key, Value::Unsigned(*value))).collect(),
        fit: Fit::Contain,
        linear_sampling: node.linear_sampling,
        z_index: node.z_index,
        visible: node.visible,
        opacity: node.opacity,
        clip: None,
    }
}

fn wire_track(track: media::TrackConfiguration) -> TrackConfiguration {
    TrackConfiguration {
        direction: Default::default(),
        context_id: track.context_id,
        surface_id: track.surface_id,
        track_id: track.track_id,
        slot: track.slot,
        mode: TrackMode::Live,
        lane: match track.lane {
            media::LaneClass::Realtime => LaneClass::Realtime,
            media::LaneClass::Bulk => LaneClass::Bulk,
        },
        maximum_record_body: track.maximum_record_body,
        maximum_rate_millihertz: track.maximum_rate_millihertz,
        maximum_encoded_bits_per_second: track.maximum_encoded_bits_per_second,
        maximum_records_per_second: track.maximum_records_per_second,
        maximum_inflight_body_bytes: track.maximum_inflight_body_bytes,
        kind: match track.kind {
            media::KindConfiguration::Raster(raster) => {
                KindConfiguration::Raster(RasterConfiguration {
                    width: raster.width,
                    height: raster.height,
                    alpha_mode: raster.alpha_mode,
                    delta_enabled: raster.delta_enabled,
                    maximum_delta_operations: raster.maximum_delta_operations,
                    zstd_enabled: raster.zstd_enabled,
                })
            }
            media::KindConfiguration::Audio(audio) => {
                KindConfiguration::Audio(AudioConfiguration {
                    codec: audio.codec,
                    packetization: audio.packetization,
                    extradata: audio.extradata,
                    sample_rate: audio.sample_rate,
                    channels: audio.channels,
                    channel_mask: audio.channel_mask,
                    maximum_access_unit_bytes: audio.maximum_access_unit_bytes,
                    codec_string: Some(audio.codec_string),
                })
            }
        },
        target_latency_us: track.target_latency_us,
        maximum_latency_us: track.maximum_latency_us,
        retained_pixel_charge: track.retained_pixel_charge,
    }
}

#[test]
fn test_presenter_accepts_headless_pcm_track_configuration() {
    let configuration = media::audio_configuration(1, 2, 3).unwrap();
    let probe = wire_track(media::probe_configuration(&configuration));
    assert!(probe.validate(true).is_ok());
    assert!(probe.validate(false).is_err());
    let track_configuration = wire_track(configuration);
    assert!(track_configuration.validate(false).is_ok());
    assert_eq!(
        track_configuration.maximum_encoded_bits_per_second,
        u64::from(track_configuration.maximum_record_body) * 8 * 50
    );
    let KindConfiguration::Audio(audio) = track_configuration.kind else {
        panic!("vvdoom audio track is not audio");
    };
    assert_eq!(audio.codec, "pcm_f32le");
    assert_eq!(audio.codec_string.as_deref(), Some("pcm-f32"));
    assert_eq!((audio.sample_rate, audio.channels), (48_000, 2));
}

#[test]
fn raster_track_is_valid_on_the_wire() {
    let configuration = media::raster_configuration(1, 2, 3).unwrap();
    assert!(wire_track(media::probe_configuration(&configuration)).validate(true).is_ok());
    assert!(wire_track(configuration).validate(false).is_ok());
}

#[test]
fn surface_is_valid_on_the_wire() {
    let surface = surface_definition(1, 2);
    let definition = SurfaceDefinition {
        context_id: surface.context_id,
        surface_id: surface.surface_id,
        semantic_profile: surface.semantic_profile,
        coordinate_model: CoordinateModel::DesktopLogicalPixels,
        logical_width: surface.logical_width,
        logical_height: surface.logical_height,
        scale_numerator: surface.scale_numerator,
        scale_denominator: surface.scale_denominator,
        rotation: surface.rotation,
        descriptor: SurfaceDescriptor {
            role: SurfaceRole::ApplicationCanvas,
            title: surface.title,
            semantic_content_revision: surface.semantic_content_revision,
            semantic_availability: surface.semantic_availability,
            locator_hint: surface.locator_hint,
        },
        policy: surface.policy,
        profile_parameters: vec![],
    };
    assert!(definition.validate().is_ok());
}

#[test]
fn node_is_valid_on_the_wire() {
    let terminal = TerminalGeometry {
        viewport_width_px: 1000,
        viewport_height_px: 800,
        cols: 100,
        rows: 40,
        cell_width_px: 10,
        cell_height_px: 20,
    };
    let node = wire_node(&scene_node(1, 2, 3, 4, terminal.layout(true)));
    assert!(node.validate().is_ok());
    assert_eq!(node.geometry[3], (3, Value::Unsigned(100 << 32)));
}
