//! Tests of the template-matching pipeline against encoded raster data.

use xenotester::matcher::{find_template_in_screenshot, match_templates_batch};
use xenotester::raster::{calculate_opacity_ratio, convert_to_grayscale_with_alpha, RgbaRaster};

const FULL_SCALE: u32 = 1_000_000;
const B64_ALPHABET: &[u8] = b"ABCDEFGHIJKLMNOPQRSTUVWXYZabcdefghijklmnopqrstuvwxyz0123456789+/";

/// Standard base64 with padding, as the engine's transport expects.
fn b64(data: &[u8]) -> String {
    let mut s = String::new();
    for chunk in data.chunks(3) {
        let b0 = chunk[0] as u32;
        let b1 = *chunk.get(1).unwrap_or(&0) as u32;
        let b2 = *chunk.get(2).unwrap_or(&0) as u32;
        let trip = (b0 << 16) | (b1 << 8) | b2;
        s.push(B64_ALPHABET[(trip >> 18) as usize & 63] as char);
        s.push(B64_ALPHABET[(trip >> 12) as usize & 63] as char);
        if chunk.len() > 1 {
            s.push(B64_ALPHABET[(trip >> 6) as usize & 63] as char);
        } else {
            s.push('=');
        }
        if chunk.len() > 2 {
            s.push(B64_ALPHABET[trip as usize & 63] as char);
        } else {
            s.push('=');
        }
    }
    s
}

/// Wrap raw RGBA pixels in the engine's raster container.
fn container(width: u32, height: u32, rgba: &[u8]) -> Vec<u8> {
    let mut v = Vec::new();
    v.extend_from_slice(b"xras");
    v.extend_from_slice(&width.to_be_bytes());
    v.extend_from_slice(&height.to_be_bytes());
    v.extend_from_slice(rgba);
    v
}

/// An encoded image of one solid color (opaque).
fn create_test_image(width: u32, height: u32, color: [u8; 3]) -> String {
    let mut rgba = Vec::new();
    for _ in 0..(width * height) {
        rgba.extend_from_slice(&[color[0], color[1], color[2], 255]);
    }
    b64(&container(width, height, &rgba))
}

/// An encoded grayscale screenshot with a subtle background pattern and a
/// solid white target region.
fn create_screenshot_with_target(
    width: u32,
    height: u32,
    target_x: u32,
    target_y: u32,
    target_w: u32,
    target_h: u32,
) -> String {
    let mut rgba = Vec::new();
    for y in 0..height {
        for x in 0..width {
            let in_target = x >= target_x
                && x < (target_x + target_w).min(width)
                && y >= target_y
                && y < (target_y + target_h).min(height);
            let val: u8 = if in_target {
                255
            } else if (x / 10 + y / 10) % 2 == 0 {
                80
            } else {
                90
            };
            rgba.extend_from_slice(&[val, val, val, 255]);
        }
    }
    b64(&container(width, height, &rgba))
}

/// An encoded solid grayscale template.
fn create_template(width: u32, height: u32, value: u8) -> String {
    let mut rgba = Vec::new();
    for _ in 0..(width * height) {
        rgba.extend_from_slice(&[value, value, value, 255]);
    }
    b64(&container(width, height, &rgba))
}

/// An encoded transparent template: an opaque white circle with a fully
/// transparent border.
fn create_transparent_template(width: u32, height: u32) -> String {
    let mut rgba = Vec::new();
    for y in 0..height {
        for x in 0..width {
            let center_x = width as f32 / 2.0;
            let center_y = height as f32 / 2.0;
            let dist = ((x as f32 - center_x).powi(2) + (y as f32 - center_y).powi(2)).sqrt();
            let radius = (width.min(height) as f32) / 2.0 - 2.0;
            if dist < radius {
                rgba.extend_from_slice(&[255, 255, 255, 255]);
            } else {
                rgba.extend_from_slice(&[0, 0, 0, 0]);
            }
        }
    }
    b64(&container(width, height, &rgba))
}

/// An encoded screenshot that is a white circle on a gray surround.
fn create_screenshot_with_circle(
    width: u32,
    height: u32,
    circle_x: u32,
    circle_y: u32,
    radius: u32,
) -> String {
    let mut rgba = Vec::new();
    for y in 0..height {
        for x in 0..width {
            let dist = (((x as i32 - circle_x as i32).pow(2) + (y as i32 - circle_y as i32).pow(2))
                as f32)
                .sqrt();
            let val: u8 = if dist >= radius as f32 { 128 } else { 255 };
            rgba.extend_from_slice(&[val, val, val, 255]);
        }
    }
    b64(&container(width, height, &rgba))
}

#[test]
fn test_template_larger_than_screenshot_returns_error() {
    let screenshot = create_test_image(50, 50, [128, 128, 128]);
    let template = create_test_image(100, 100, [255, 255, 255]);

    let result = find_template_in_screenshot(&screenshot, &template, FULL_SCALE, 700_000);

    assert!(!result.found);
    assert!(result.error.is_some());
    assert!(result.error.unwrap().contains("larger than screenshot"));
}

#[test]
fn test_center_coordinate_calculation() {
    let screenshot = create_screenshot_with_target(500, 500, 100, 100, 50, 50);
    let template = create_template(50, 50, 255);

    let result = find_template_in_screenshot(&screenshot, &template, FULL_SCALE, 300_000);

    assert!(
        result.found,
        "Template should be found, confidence: {:?}",
        result.confidence
    );
    assert!(result.center_x.is_some());
    assert!(result.center_y.is_some());

    let center_x = result.center_x.unwrap() as i32;
    let center_y = result.center_y.unwrap() as i32;

    assert!(
        (center_x - 125).abs() <= 5,
        "center_x {} should be close to 125",
        center_x
    );
    assert!(
        (center_y - 125).abs() <= 5,
        "center_y {} should be close to 125",
        center_y
    );
}

#[test]
fn test_scale_factor_applied_to_template() {
    let screenshot = create_test_image(500, 500, [128, 128, 128]);
    let template = create_test_image(100, 100, [255, 255, 255]);

    let result = find_template_in_screenshot(&screenshot, &template, 500_000, 100_000);

    assert_eq!(result.template_width, 50);
    assert_eq!(result.template_height, 50);
}

#[test]
fn test_invalid_base64_returns_error() {
    let result =
        find_template_in_screenshot("not-valid-base64!!!", "also-invalid!!!", FULL_SCALE, 700_000);

    assert!(!result.found);
    assert!(result.error.is_some());
    assert!(result.error.unwrap().contains("decode"));
}

#[test]
fn test_confidence_below_threshold_not_found() {
    let screenshot = create_test_image(200, 200, [50, 50, 50]);
    let template = create_test_image(30, 30, [255, 255, 255]);

    // A threshold above the perfect-match score can never be met.
    let result = find_template_in_screenshot(&screenshot, &template, FULL_SCALE, 1_010_000);

    assert!(!result.found, "Should not find with threshold > 1.0");
    assert!(result.confidence.is_some());
    assert!(result.error.is_none());
}

#[test]
fn test_transparent_png_matching() {
    let screenshot = create_screenshot_with_circle(300, 300, 150, 150, 23);
    let template = create_transparent_template(50, 50);

    let result = find_template_in_screenshot(&screenshot, &template, FULL_SCALE, 300_000);

    assert!(
        result.found,
        "Transparent template should be detected, confidence: {:?}",
        result.confidence
    );
    assert!(result.center_x.is_some());
    assert!(result.center_y.is_some());
    assert!(result.confidence.unwrap() > 0, "Confidence should be positive");
}

#[test]
fn test_alpha_compositing_produces_correct_values() {
    // 2x2 RGBA raster: opaque white, fully transparent, 50% transparent
    // black, opaque black.
    let img = RgbaRaster {
        width: 2,
        height: 2,
        data: vec![
            255, 255, 255, 255, //
            0, 0, 0, 0, //
            0, 0, 0, 128, //
            0, 0, 0, 255,
        ],
    };

    let gray = convert_to_grayscale_with_alpha(&img);

    assert_eq!(gray.data[0], 255, "Opaque white should stay 255");
    assert_eq!(gray.data[1], 255, "Transparent should become white (255)");
    let semi_transparent = gray.data[2];
    assert!(
        semi_transparent >= 125 && semi_transparent <= 130,
        "50% transparent black should be ~127, got {}",
        semi_transparent
    );
    assert_eq!(gray.data[3], 0, "Opaque black should stay 0");
}

#[test]
fn test_batch_matching() {
    let screenshot = create_screenshot_with_target(500, 500, 100, 100, 50, 50);
    let template1 = create_template(50, 50, 255);
    let template2 = create_template(30, 30, 0);

    let templates = vec![
        (template1.as_str(), "match.png"),
        (template2.as_str(), "nomatch.png"),
    ];

    let results = match_templates_batch(&screenshot, templates, FULL_SCALE, 500_000);

    assert_eq!(results.len(), 2);

    let (name1, result1) = &results[0];
    assert_eq!(name1, "match.png");
    assert!(result1.found);

    let (name2, result2) = &results[1];
    assert_eq!(name2, "nomatch.png");
    if result2.found {
        assert!(result2.confidence.unwrap_or(0) < 900_000);
    }
}

#[test]
fn test_batch_matching_with_screenshot_decode_error() {
    let templates = vec![
        ("valid-base64", "image1.png"),
        ("valid-base64", "image2.png"),
    ];

    let results = match_templates_batch("invalid-screenshot!!!", templates, FULL_SCALE, 500_000);

    assert_eq!(results.len(), 2);
    for (_, result) in &results {
        assert!(!result.found);
        assert!(result.error.is_some());
        assert!(result
            .error
            .as_ref()
            .unwrap()
            .contains("Screenshot decode error"));
    }
}

#[test]
fn test_confidence_is_reasonable() {
    let screenshot = create_test_image(200, 200, [128, 128, 128]);
    let template = create_test_image(30, 30, [255, 255, 255]);

    let result = find_template_in_screenshot(&screenshot, &template, FULL_SCALE, 0);

    assert!(result.confidence.is_some());
    let confidence = result.confidence.unwrap();

    assert!(
        confidence <= 1_100_000,
        "Confidence {} should be in reasonable range [0, 1.1]",
        confidence
    );
}

#[test]
fn test_opacity_ratio_calculation() {
    // Fully transparent 10x10 image.
    let mut data = Vec::new();
    for _ in 0..100 {
        data.extend_from_slice(&[0, 0, 0, 0]);
    }
    let img = RgbaRaster { width: 10, height: 10, data };
    let ratio = calculate_opacity_ratio(&img);
    assert_eq!(ratio, 0, "Fully transparent image should have 0% opacity");

    // Fully opaque 10x10 image.
    let mut data = Vec::new();
    for _ in 0..100 {
        data.extend_from_slice(&[128, 128, 128, 255]);
    }
    let img = RgbaRaster { width: 10, height: 10, data };
    let ratio = calculate_opacity_ratio(&img);
    assert_eq!(
        ratio, 1_000_000,
        "Fully opaque image should have 100% opacity"
    );

    // Every other pixel opaque.
    let mut data = Vec::new();
    for i in 0..100 {
        if i % 2 == 0 {
            data.extend_from_slice(&[128, 128, 128, 255]);
        } else {
            data.extend_from_slice(&[0, 0, 0, 0]);
        }
    }
    let img = RgbaRaster { width: 10, height: 10, data };
    let ratio = calculate_opacity_ratio(&img) as i64;
    assert!(
        (ratio - 500_000).abs() < 10_000,
        "Half opaque image should have ~50% opacity, got {}",
        ratio
    );
}

#[test]
fn test_low_opacity_template_rejected() {
    // 50x50 template with only 5% opaque pixels (below the 10% minimum).
    let total_pixels = 50 * 50;
    let opaque_count = total_pixels / 20;
    let mut rgba = Vec::new();
    for i in 0..total_pixels {
        if i < opaque_count {
            rgba.extend_from_slice(&[255, 255, 255, 255]);
        } else {
            rgba.extend_from_slice(&[0, 0, 0, 0]);
        }
    }
    let template_base64 = b64(&container(50, 50, &rgba));

    let screenshot = create_test_image(200, 200, [128, 128, 128]);

    let result = find_template_in_screenshot(&screenshot, &template_base64, FULL_SCALE, 500_000);

    assert!(!result.found, "Low opacity template should not match");
    assert!(result.error.is_some(), "Should have error message");
    assert!(
        result.error.as_ref().unwrap().contains("insufficient opacity"),
        "Error should mention opacity issue: {}",
        result.error.unwrap()
    );
}

#[test]
fn test_sufficient_opacity_template_processed() {
    // 50x50 template with 50% opaque pixels (well above the minimum).
    let mut rgba = Vec::new();
    for i in 0..(50 * 50) {
        if i % 2 == 0 {
            rgba.extend_from_slice(&[255, 255, 255, 255]);
        } else {
            rgba.extend_from_slice(&[0, 0, 0, 0]);
        }
    }
    let template_base64 = b64(&container(50, 50, &rgba));

    let screenshot = create_test_image(200, 200, [128, 128, 128]);

    let result = find_template_in_screenshot(&screenshot, &template_base64, FULL_SCALE, 500_000);

    if result.error.is_some() {
        assert!(
            !result.error.as_ref().unwrap().contains("insufficient opacity"),
            "Sufficient opacity template should not be rejected: {}",
            result.error.unwrap()
        );
    }
    assert!(
        result.confidence.is_some(),
        "Template should be processed and have confidence value"
    );
}

#[test]
fn test_single_color_template_handles_gracefully() {
    let template = create_template(30, 30, 255);
    let screenshot = create_test_image(200, 200, [128, 128, 128]);

    let result = find_template_in_screenshot(&screenshot, &template, FULL_SCALE, 500_000);

    if result.found {
        assert!(result.confidence.is_some());
        assert!(
            result.confidence.unwrap() <= 1_000_000,
            "Confidence must be a valid bounded score"
        );
    }
}

#[test]
fn test_non_finite_confidence_returns_error() {
    // With a well-formed template the guard against degenerate correlation
    // stays silent and any reported score is a valid bounded value.
    let screenshot = create_screenshot_with_target(200, 200, 50, 50, 30, 30);
    let template = create_template(30, 30, 255);

    let result = find_template_in_screenshot(&screenshot, &template, FULL_SCALE, 100_000);

    if result.confidence.is_some() {
        let confidence = result.confidence.unwrap();
        assert!(
            confidence <= 1_000_000,
            "Confidence {} should be a valid bounded score",
            confidence
        );
    }
}
