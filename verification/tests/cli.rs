use std::path::Path;

use vvdoom::cli::{
    asset_dir_candidate, build_doom_argv, has_doom_flag, is_flag, sound_enabled, to_c_args, Args,
    ArgsError, DEFAULT_IWAD,
};
use vvdoom::client::{
    check_target_profile, required_profiles, session_request, Authentication, ClientError,
};
use vvdoom::error::ErrorKind;

fn args() -> Args {
    Args {
        asset_dir: None,
        control_endpoint: Some("unix:/control".into()),
        realtime_endpoint: None,
        bulk_endpoint: None,
        verbose: false,
        doom_args: Vec::new(),
    }
}

fn list(items: &[&str]) -> Vec<Vec<u8>> {
    items.iter().map(|item| item.as_bytes().to_vec()).collect()
}

fn argv(asset_dir: &str, doom_args: &[&str]) -> Vec<Vec<u8>> {
    let iwad = Path::new(asset_dir).join(DEFAULT_IWAD);
    build_doom_argv(
        Some(b"./vvdoom".to_vec()),
        iwad.as_os_str().as_encoded_bytes().to_vec(),
        list(doom_args),
    )
}

#[test]
fn endpoint_is_required() {
    let mut value = args();
    assert!(value.validate().is_ok());
    value.control_endpoint = None;
    assert!(value.validate().is_err());
}

#[test]
fn injects_default_iwad_when_missing() {
    let argv = argv("/tmp/assets", &["-nosound"]);
    assert!(argv.iter().any(|arg| arg == b"-iwad"));
    assert!(argv.iter().any(|arg| arg == b"/tmp/assets/doom1.wad"));
    assert!(has_doom_flag(&argv, "-nosound"));
}

#[test]
fn preserves_explicit_iwad() {
    let argv = argv("/tmp/assets", &["-iwad", "other.wad"]);
    assert_eq!(argv.iter().filter(|arg| *arg == b"-iwad").count(), 1);
    assert!(argv.iter().any(|arg| arg == b"other.wad"));
}

#[test]
fn missing_endpoint_is_explained() {
    let mut value = args();
    value.control_endpoint = None;
    assert_eq!(value.validate(), Err(ArgsError::EndpointMissing));
    assert_eq!(
        ArgsError::EndpointMissing.message(),
        "VIVID_ENDPOINT_CONTROL is not set; run vvdoom inside Vivido, through vvssh, or in a Vivid-enabled vvmux pane"
    );
}

#[test]
fn argument_list_is_exact() {
    assert_eq!(
        argv("/tmp/assets", &["-nosound", "-warp"]),
        list(&["./vvdoom", "-iwad", "/tmp/assets/doom1.wad", "-nosound", "-warp"])
    );
    assert_eq!(
        argv("/tmp/assets", &["-warp", "-IWAD", "other.wad"]),
        list(&["./vvdoom", "-warp", "-IWAD", "other.wad"])
    );
    assert_eq!(
        build_doom_argv(None, b"a.wad".to_vec(), Vec::new()),
        list(&["vvdoom", "-iwad", "a.wad"])
    );
}

#[test]
fn flags_ignore_ascii_case_only() {
    let args = list(&["-NoSound", "-Stra\u{df}e", "-nosounds"]);
    assert!(has_doom_flag(&args, "-nosound"));
    assert!(has_doom_flag(&args, "-NOSOUND"));
    assert!(has_doom_flag(&args, "-stra\u{df}E"));
    assert!(!has_doom_flag(&args, "-strasse"));
    assert!(!has_doom_flag(&args, "-nosoun"));
    assert!(!has_doom_flag(&[], "-nosound"));
    assert!(!has_doom_flag(&list(&["-\u{c4}"]), "-\u{e4}"));
    // The neighbours of the letters are no capitals.
    assert!(!has_doom_flag(&list(&["@["]), "`{"));
    assert!(is_flag("-IWAD", "-iwad"));
    assert!(!is_flag("-iwad ", "-iwad"));
}

#[test]
fn arguments_need_not_be_text() {
    let args = vec![vec![b'-', 0xff], b"-Warp".to_vec()];
    // What is not text reads as a replacement character.
    assert!(has_doom_flag(&args, "-\u{fffd}"));
    assert!(has_doom_flag(&args, "-warp"));
    assert!(!has_doom_flag(&args, "-"));
    // But it is handed on as it is.
    let argv = build_doom_argv(None, b"/a".to_vec(), args);
    assert_eq!(argv[3], [b'-', 0xff]);
    assert_eq!(to_c_args(&argv).unwrap()[3], [b'-', 0xff, 0]);
}

#[test]
fn sound_can_be_switched_off() {
    assert!(sound_enabled(&[]));
    assert!(sound_enabled(&list(&["-nomusic"])));
    assert!(!sound_enabled(&list(&["-warp", "-NOSOUND"])));
}

#[test]
fn c_arguments_end_in_zero() {
    assert_eq!(
        to_c_args(&list(&["ab", "", "\u{e9}"])),
        Ok(vec![vec![b'a', b'b', 0], vec![0], vec![0xc3, 0xa9, 0]])
    );
    assert_eq!(to_c_args(&list(&["a", "b\0c", "\0"])), Err(1));
    assert_eq!(to_c_args(&[]), Ok(Vec::new()));
}

#[test]
fn asset_directories_are_tried_in_order() {
    assert_eq!(asset_dir_candidate(Some(1), Some(2), Some(3), 4), 1);
    assert_eq!(asset_dir_candidate(None, Some(2), Some(3), 4), 2);
    assert_eq!(asset_dir_candidate(None, None, Some(3), 4), 3);
    assert_eq!(asset_dir_candidate(None, None, None, 4), 4);
}

#[test]
fn required_profiles_are_sorted_and_complete() {
    let profiles = required_profiles();
    assert!(profiles.windows(2).all(|pair| pair[0] < pair[1]));
    for profile in [
        vivid_sdk::CORE_CONTROL,
        vivid_sdk::LIVE_MEDIA,
        vivid_sdk::OBSERVABILITY,
        vivid_sdk::TERMINAL_SURFACE,
    ] {
        assert!(profiles.iter().any(|name| name == profile));
    }
    assert_eq!(profiles.len(), 4);
    assert_eq!(
        profiles,
        ["live-media-v1", "observability-v1", "terminal-surface-v1", "vivid-core-control-v1"]
    );
}

#[test]
fn session_request_carries_the_endpoints() {
    let mut value = args();
    value.bulk_endpoint = Some("unix:/bulk".into());
    let request = session_request(&value, "1.2.3");
    assert_eq!(request.endpoint_control.as_deref(), Some("unix:/control"));
    assert_eq!(request.endpoint_realtime, None);
    assert_eq!(request.endpoint_bulk.as_deref(), Some("unix:/bulk"));
    assert!(matches!(request.authentication, Authentication::RootFromEnvironment));
    assert_eq!(request.producer_name, "vvdoom");
    assert_eq!(request.producer_version, "1.2.3");
    assert_eq!(request.target_profile, "terminal-surface-v1");
    assert_eq!(request.required_profiles, required_profiles());
    assert!(request.optional_profiles.is_empty());
}

#[test]
fn other_targets_are_refused() {
    assert_eq!(check_target_profile(&vivid_sdk::TERMINAL_SURFACE.to_owned()), Ok(()));
    assert_eq!(
        check_target_profile(&"desktop-surface-v1".to_owned()),
        Err(ClientError::WrongTarget)
    );
    assert_eq!(ClientError::WrongTarget.kind(), ErrorKind::Unsupported);
    assert_eq!(
        ClientError::WrongTarget.message(),
        "presenter did not select terminal-surface-v1"
    );
}
