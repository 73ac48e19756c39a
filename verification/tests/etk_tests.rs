use etk::config::{DEFAULT_LEFT_PORT, DEFAULT_RIGHT_PORT, DEFAULT_RING_CAPACITY};
use etk::{check_correspondences, config_path_from_env, CaptureConfig, HomographyError};

fn bytes(s: &str) -> Vec<u8> {
    s.as_bytes().to_vec()
}

#[test]
fn rejects_too_few_points() {
    let src = [(0.0f64, 0.0f64); 3];
    let dst = [(0.0f64, 0.0f64); 3];
    assert_eq!(
        check_correspondences(src.len(), dst.len()),
        Err(HomographyError::TooFewPoints { got: 3 })
    );
}

#[test]
fn rejects_length_mismatch() {
    let src = [(0.0f64, 0.0f64); 5];
    let dst = [(0.0f64, 0.0f64); 4];
    assert!(matches!(
        check_correspondences(src.len(), dst.len()),
        Err(HomographyError::LengthMismatch { src: 5, dst: 4 })
    ));
}

#[test]
fn length_mismatch_is_reported_before_too_few_points() {
    assert_eq!(
        check_correspondences(2, 3),
        Err(HomographyError::LengthMismatch { src: 2, dst: 3 })
    );
    assert_eq!(
        check_correspondences(0, 0),
        Err(HomographyError::TooFewPoints { got: 0 })
    );
}

#[test]
fn accepts_four_or_more_matched_points() {
    assert_eq!(check_correspondences(4, 4), Ok(4));
    assert_eq!(check_correspondences(9, 9), Ok(9));
}

#[test]
fn capture_defaults_match_plan() {
    let c = CaptureConfig::default();
    assert_eq!(c.left_port, 5005);
    assert_eq!(c.right_port, 5006);
    assert_eq!(c.ring_capacity, 4);
    assert_eq!(
        c,
        CaptureConfig {
            left_port: DEFAULT_LEFT_PORT,
            right_port: DEFAULT_RIGHT_PORT,
            ring_capacity: DEFAULT_RING_CAPACITY,
        }
    );
}

#[test]
fn error_messages() {
    assert_eq!(
        HomographyError::TooFewPoints { got: 3 }.message(),
        "need at least 4 correspondences, got 3"
    );
    assert_eq!(
        HomographyError::LengthMismatch { src: 5, dst: 4 }.message(),
        "src/dst length mismatch: 5 vs 4"
    );
    assert_eq!(
        HomographyError::Singular.message(),
        "degenerate correspondences: system is singular"
    );
}

#[test]
fn error_messages_print_numbers_in_decimal() {
    assert_eq!(
        HomographyError::TooFewPoints { got: 0 }.message(),
        "need at least 4 correspondences, got 0"
    );
    assert_eq!(
        HomographyError::LengthMismatch { src: 10, dst: 1234567 }.message(),
        "src/dst length mismatch: 10 vs 1234567"
    );
    assert_eq!(
        HomographyError::TooFewPoints { got: usize::MAX }.message(),
        format!("need at least 4 correspondences, got {}", usize::MAX)
    );
}

#[test]
fn config_path_prefers_xdg_config_home() {
    assert_eq!(
        config_path_from_env(Some(bytes("/xdg")), Some(bytes("/home/u"))),
        Some(bytes("/xdg/eye-tracker-rust/config.toml"))
    );
    assert_eq!(
        config_path_from_env(Some(bytes("/xdg")), None),
        Some(bytes("/xdg/eye-tracker-rust/config.toml"))
    );
}

#[test]
fn config_path_falls_back_to_home() {
    assert_eq!(
        config_path_from_env(None, Some(bytes("/home/u"))),
        Some(bytes("/home/u/.config/eye-tracker-rust/config.toml"))
    );
    assert_eq!(
        config_path_from_env(None, Some(bytes("/home/u/"))),
        Some(bytes("/home/u/.config/eye-tracker-rust/config.toml"))
    );
}

#[test]
fn config_path_needs_one_variable() {
    assert_eq!(config_path_from_env(None, None), None);
}

#[test]
fn config_path_joins_like_a_path() {
    assert_eq!(
        config_path_from_env(Some(bytes("/xdg/")), None),
        Some(bytes("/xdg/eye-tracker-rust/config.toml"))
    );
    assert_eq!(
        config_path_from_env(Some(bytes("")), None),
        Some(bytes("eye-tracker-rust/config.toml"))
    );
    assert_eq!(
        config_path_from_env(None, Some(bytes(""))),
        Some(bytes(".config/eye-tracker-rust/config.toml"))
    );
}

#[test]
fn config_path_keeps_raw_bytes() {
    let base = vec![b'/', 0xff, 0xfe];
    let mut want = base.clone();
    want.extend_from_slice(b"/eye-tracker-rust/config.toml");
    assert_eq!(config_path_from_env(Some(base), None), Some(want));
}
