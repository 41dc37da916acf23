//! Unit tests of the integer building blocks.

use xenotester::automation::{
    ErrorInfo, MouseButton, PermissionStatus, ScenarioInfo, ScrollDirection, WebhookPayload,
};
use xenotester::b64::decode_base64;
use xenotester::error::{IpcError, XenotesterError};
use xenotester::keys::is_modifier;
use xenotester::matcher::find_template_in_screenshot;
use xenotester::raster::{calculate_opacity_ratio, luma_px, RgbaRaster};
use xenotester::scale::scaled_dimension;

/// Base64 decoding accepts exactly padded standard input and yields the
/// original bytes.
#[test]
fn base64_decodes_standard_vectors() {
    assert_eq!(decode_base64("").unwrap(), Vec::<u8>::new());
    assert_eq!(decode_base64("TWFu").unwrap(), b"Man".to_vec());
    assert_eq!(decode_base64("TWE=").unwrap(), b"Ma".to_vec());
    assert_eq!(decode_base64("TQ==").unwrap(), b"M".to_vec());
    assert_eq!(
        decode_base64("eHJhcw==").unwrap(),
        b"xras".to_vec()
    );
    assert_eq!(
        decode_base64("AAECAwQF").unwrap(),
        vec![0u8, 1, 2, 3, 4, 5]
    );
}

/// Base64 decoding rejects bad alphabet bytes, bad lengths, and
/// non-canonical padding.
#[test]
fn base64_rejects_invalid_input() {
    assert!(decode_base64("not-valid-base64!!!").is_err());
    assert!(decode_base64("TWF").is_err()); // length not a multiple of 4
    assert!(decode_base64("T===").is_err()); // padding in the value positions
    assert!(decode_base64("TWF=").is_err()); // non-zero dangling bits
    assert!(decode_base64("TR==").is_err()); // non-zero dangling bits
    assert!(decode_base64("TWFu TWFu").is_err()); // embedded space
    let msg = decode_base64("????").unwrap_err();
    assert!(msg.contains("decode"));
}

/// The integer post-scale dimension equals the rounded scaling on
/// representative sizes and factors, clamped to a minimum of 1.
#[test]
fn scaled_dimension_matches_rounding() {
    let cases: Vec<(u32, u32, u32)> = vec![
        (100, 1_000_000, 100),
        (100, 500_000, 50),
        (101, 500_000, 51), // 50.5 rounds half up
        (99, 500_000, 50),  // 49.5 rounds half up
        (100, 600_000, 60),
        (3, 250_000, 1),
        (1, 1, 1),          // clamped to 1
        (2560, 750_000, 1920),
        (1, 1_000_000, 1),
    ];
    for &(d, ppm, expected) in &cases {
        assert_eq!(scaled_dimension(d, ppm), expected, "scaled_dimension({}, {})", d, ppm);
    }
}

/// Exact luminance values of composited pixels.
#[test]
fn luma_compositing_exact_values() {
    // Opaque white and black keep their extremes.
    assert_eq!(luma_px(255, 255, 255, 255), 255);
    assert_eq!(luma_px(0, 0, 0, 255), 0);
    // Fully transparent anything becomes the white background.
    assert_eq!(luma_px(12, 34, 56, 0), 255);
    // Half-transparent black sits at the midpoint.
    assert_eq!(luma_px(0, 0, 0, 128), 127);
    // An opaque colored pixel: round(0.299*10 + 0.587*20 + 0.114*30) = 18.
    assert_eq!(luma_px(10, 20, 30, 255), 18);
    // Perceptual weights on pure channels.
    assert_eq!(luma_px(255, 0, 0, 255), 76); // round(76.245)
    assert_eq!(luma_px(0, 255, 0, 255), 150); // round(149.685)
    assert_eq!(luma_px(0, 0, 255, 255), 29); // round(29.07)
    // An opaque gray stays itself, so container gray images decode exactly.
    assert_eq!(luma_px(100, 100, 100, 255), 100);
}

/// An image without pixels counts as fully transparent.
#[test]
fn opacity_of_empty_raster_is_zero() {
    let img = RgbaRaster { width: 0, height: 0, data: vec![] };
    assert_eq!(calculate_opacity_ratio(&img), 0);
}

/// A single pixel with the smallest non-zero alpha counts as opaque.
#[test]
fn opacity_counts_any_nonzero_alpha() {
    let img = RgbaRaster { width: 1, height: 1, data: vec![0, 0, 0, 1] };
    assert_eq!(calculate_opacity_ratio(&img), 1_000_000);
}

/// An exact end-to-end correlation: a 2x1 template found verbatim inside a
/// 3x1 screenshot scores a perfect 1 000 000 at its true offset.
#[test]
fn exact_peak_on_tiny_rasters() {
    // Grays 100, 200, 50 across; template grays 100, 200.
    let shot = tiny_b64(&tiny_container(
        3,
        1,
        &[100, 100, 100, 255, 200, 200, 200, 255, 50, 50, 50, 255],
    ));
    let tmpl = tiny_b64(&tiny_container(2, 1, &[100, 100, 100, 255, 200, 200, 200, 255]));

    let result = find_template_in_screenshot(&shot, &tmpl, 1_000_000, 1_000_000);

    assert!(result.found);
    assert_eq!(result.confidence, Some(1_000_000));
    // Top-left of the best window is (0, 0); center adds half the template.
    assert_eq!(result.center_x, Some(1));
    assert_eq!(result.center_y, Some(0));
    assert_eq!(result.template_width, 2);
    assert_eq!(result.template_height, 1);
}

/// Error messages compose the fixed prefix with the carried detail, and the
/// IPC classification pairs them with stable codes.
#[test]
fn error_messages_and_codes() {
    let e = XenotesterError::ImageError("broken header".to_string());
    assert_eq!(e.message(), "Image processing error: broken header");

    let ipc = IpcError::from(e);
    assert_eq!(ipc.code, "IMAGE_ERROR");
    assert_eq!(ipc.message, "Image processing error: broken header");

    let ipc = IpcError::from(XenotesterError::Cancelled);
    assert_eq!(ipc.code, "CANCELLED");
    assert_eq!(ipc.message, "Operation cancelled");

    let ipc = IpcError::from(XenotesterError::CaptureError("no monitor".to_string()));
    assert_eq!(ipc.code, "CAPTURE_ERROR");
    assert_eq!(ipc.message, "Screenshot capture failed: no monitor");

    let ipc = IpcError::from(XenotesterError::InputError("no device".to_string()));
    assert_eq!(ipc.code, "INPUT_ERROR");

    let ipc = IpcError::from(XenotesterError::PermissionError("denied".to_string()));
    assert_eq!(ipc.code, "PERMISSION_ERROR");

    let ipc = IpcError::from(XenotesterError::ConfigError("missing".to_string()));
    assert_eq!(ipc.code, "CONFIG_ERROR");
}

/// Modifier tokens are recognized case-insensitively; other key names are
/// not modifiers.
#[test]
fn modifier_classification() {
    let modifiers = [
        "ctrl", "control", "alt", "option", "shift", "cmd", "command", "meta", "super", "win",
    ];
    for name in modifiers {
        assert!(is_modifier(name), "{} should be a modifier", name);
    }
    assert!(is_modifier("CTRL"));
    assert!(is_modifier("Shift"));
    assert!(is_modifier("COMMAND"));
    assert!(!is_modifier("a"));
    assert!(!is_modifier("f1"));
    assert!(!is_modifier("enter"));
    assert!(!is_modifier(""));
    assert!(!is_modifier("ctrl "));
}

/// The automation-shell vocabulary types carry their data as given.
#[test]
fn automation_vocabulary_types() {
    assert_eq!(MouseButton::Left, MouseButton::Left);
    assert_ne!(MouseButton::Left, MouseButton::Right);
    assert!(matches!(ScrollDirection::Down, ScrollDirection::Down));
    let status = PermissionStatus { screen_recording: true, accessibility: false };
    assert!(status.screen_recording && !status.accessibility);
    let payload = WebhookPayload {
        event: "scenario_failed".to_string(),
        timestamp: "2024-01-01T00:00:00Z".to_string(),
        scenario: ScenarioInfo { id: "s1".to_string(), title: "login".to_string() },
        error: ErrorInfo {
            message: "click target not found".to_string(),
            failed_at_action: Some("click".to_string()),
            last_successful_action: None,
            completed_actions: 3,
        },
    };
    assert_eq!(payload.scenario.id, "s1");
    assert_eq!(payload.error.completed_actions, 3);
}

const TINY_ALPHABET: &[u8] = b"ABCDEFGHIJKLMNOPQRSTUVWXYZabcdefghijklmnopqrstuvwxyz0123456789+/";

/// Standard base64 with padding.
fn tiny_b64(data: &[u8]) -> String {
    let mut s = String::new();
    for chunk in data.chunks(3) {
        let b0 = chunk[0] as u32;
        let b1 = *chunk.get(1).unwrap_or(&0) as u32;
        let b2 = *chunk.get(2).unwrap_or(&0) as u32;
        let trip = (b0 << 16) | (b1 << 8) | b2;
        s.push(TINY_ALPHABET[(trip >> 18) as usize & 63] as char);
        s.push(TINY_ALPHABET[(trip >> 12) as usize & 63] as char);
        if chunk.len() > 1 {
            s.push(TINY_ALPHABET[(trip >> 6) as usize & 63] as char);
        } else {
            s.push('=');
        }
        if chunk.len() > 2 {
            s.push(TINY_ALPHABET[trip as usize & 63] as char);
        } else {
            s.push('=');
        }
    }
    s
}

/// Raw RGBA pixels wrapped in the engine's raster container.
fn tiny_container(w: u32, h: u32, rgba: &[u8]) -> Vec<u8> {
    let mut v = Vec::new();
    v.extend_from_slice(b"xras");
    v.extend_from_slice(&w.to_be_bytes());
    v.extend_from_slice(&h.to_be_bytes());
    v.extend_from_slice(rgba);
    v
}
