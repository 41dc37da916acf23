//! The template-matching pipeline and batch protocol.
//!
//! One template runs through the stages decode, scale alignment, opacity
//! gate, grayscale compositing, size guard, correlation and classification,
//! ending in a found/not-found result or a classified failure. A batch call
//! decodes the screenshot once, runs every template independently against
//! it, and returns one result per template in input order; one bad template
//! never poisons its siblings.
//!
//! Scale factors arrive in parts per million of the factor already applied
//! to the screenshot (`1 ..= 1_000_000`); confidence values and thresholds
//! are correlation scores in parts per million, `1_000_000` denoting a
//! perfect match.

use crate::b64::{b64_decoded, decode_base64};
use crate::codec::{decode_image_to_gray, decode_image_to_rgba, gray_decoded, rgba_decoded};
use crate::error::{prefixed_message, XenotesterError};
use crate::ncc::{ncc_peak, ncc_peak_of, sq_all, template_energy, MAX_DIM};
use crate::raster::{
    calculate_opacity_ratio, convert_to_grayscale_with_alpha, gray_of, opacity_ppm, GrayRaster,
};
use crate::scale::{
    lemma_scaled_dim_le, nn_resized, resize_rgba, scaled_dim, scaled_dimension, PPM_DENOM,
};
use vstd::prelude::*;
use vstd::string::{StringExecFns, StringSliceAdditionalSpecFns};

verus! {

/// Error codes for template matching failures, so a consumer can classify a
/// failure without parsing the message text.
#[derive(Debug, Clone, Copy, PartialEq, Eq, Structural)]
pub enum MatchErrorCode {
    /// The screenshot could not be decoded (a different capture may work).
    ScreenshotDecodeError,
    /// The template's base64 transport data is corrupted.
    TemplateBase64DecodeError,
    /// The template's bytes are not a decodable image.
    TemplateImageDecodeError,
    /// The template has too few opaque pixels to match reliably.
    InsufficientOpacity,
    /// The correlation is degenerate: the composited template has no energy,
    /// so no finite confidence exists anywhere on the surface.
    NonFiniteConfidence,
    /// The template exceeds the screenshot bounds at the current scale.
    TemplateTooLarge,
}

impl MatchErrorCode {
    /// A permanent error will not resolve with a different screenshot; only
    /// a screenshot decode failure and a size mismatch are transient.
    pub open spec fn spec_is_permanent(self) -> bool {
        !(self == MatchErrorCode::ScreenshotDecodeError
            || self == MatchErrorCode::TemplateTooLarge)
    }

    /// A size-related error may resolve when the screen content changes.
    pub open spec fn spec_is_size_related(self) -> bool {
        self == MatchErrorCode::TemplateTooLarge
    }

    /// Whether this error is permanent (won't resolve with different
    /// screenshots).
    pub fn is_permanent(&self) -> (r: bool)
        ensures
            r == self.spec_is_permanent(),
    {
        match self {
            MatchErrorCode::ScreenshotDecodeError => false,
            MatchErrorCode::TemplateBase64DecodeError => true,
            MatchErrorCode::TemplateImageDecodeError => true,
            MatchErrorCode::InsufficientOpacity => true,
            MatchErrorCode::NonFiniteConfidence => true,
            MatchErrorCode::TemplateTooLarge => false,
        }
    }

    /// Whether this error is size-related (may resolve when the screen
    /// changes).
    pub fn is_size_related(&self) -> (r: bool)
        ensures
            r == self.spec_is_size_related(),
    {
        match self {
            MatchErrorCode::TemplateTooLarge => true,
            _ => false,
        }
    }
}

/// Result of template matching for a single hint image. Coordinates are in
/// the (already downscaled) screenshot's coordinate space. A confidence is
/// a correlation score in parts per million; whenever one is present it is
/// at most 1 000 000.
#[derive(Debug, Clone)]
pub struct MatchResult {
    /// Whether a match was found at or above the confidence threshold.
    pub found: bool,
    /// Column of the matched region's center point.
    pub center_x: Option<u32>,
    /// Row of the matched region's center point.
    pub center_y: Option<u32>,
    /// Confidence score of the best match, in parts per million.
    pub confidence: Option<u32>,
    /// Template width after scaling.
    pub template_width: u32,
    /// Template height after scaling.
    pub template_height: u32,
    /// Error message if matching failed for this image.
    pub error: Option<String>,
    /// Error code for programmatic error handling.
    pub error_code: Option<MatchErrorCode>,
}

/// Tunable policy of the engine, passed explicitly into every call instead
/// of living in process-wide state.
#[derive(Debug, Clone, Copy, PartialEq, Eq, Structural)]
pub struct MatchConfig {
    /// Minimum opacity ratio, in parts per million, below which a template
    /// is rejected before any compositing or correlation work.
    pub min_opacity_ppm: u32,
}

/// The default policy: at least 10% of a template's pixels must be opaque.
pub open spec fn default_config() -> MatchConfig {
    MatchConfig { min_opacity_ppm: 100000 }
}

impl Default for MatchConfig {
    /// The default policy: at least 10% of a template's pixels must be
    /// opaque.
    fn default() -> (r: Self)
        ensures
            r == default_config(),
    {
        MatchConfig { min_opacity_ppm: 100000 }
    }
}

/// The default confidence threshold: a correlation score of 0.7, in parts
/// per million.
pub const DEFAULT_CONFIDENCE_THRESHOLD_PPM: u32 = 700000;

/// What decoding the base64-wrapped screenshot to grayscale yields.
pub open spec fn screenshot_decoded(s: Seq<u8>) -> Option<(nat, nat, Seq<u8>)> {
    match b64_decoded(s) {
        Option::None => Option::None,
        Option::Some(bytes) => gray_decoded(bytes),
    }
}

/// The field shape every failed slot shares: not found, no center, the
/// given confidence, the post-scale dimensions as far as they were computed,
/// a message, and the classifying code.
pub open spec fn failure_fields(
    r: MatchResult,
    code: MatchErrorCode,
    tw: nat,
    th: nat,
    conf: Option<u32>,
) -> bool {
    &&& r.found == false
    &&& r.center_x is None
    &&& r.center_y is None
    &&& r.confidence == conf
    &&& r.template_width as nat == tw
    &&& r.template_height as nat == th
    &&& r.error is Some
    &&& r.error_code == Some(code)
}

/// A failed slot whose message additionally starts with the given stable
/// prefix, so consumers may match on message text as well as on the code.
pub open spec fn is_failure_result(
    r: MatchResult,
    code: MatchErrorCode,
    tw: nat,
    th: nat,
    conf: Option<u32>,
    msg_prefix: Seq<char>,
) -> bool {
    &&& failure_fields(r, code, tw, th, conf)
    &&& r.error matches Some(m) && msg_prefix.is_prefix_of(m@)
}

/// The result every slot of a batch receives when the screenshot itself
/// could not be decoded: its message starts "Screenshot decode error".
pub open spec fn is_screenshot_error_result(r: MatchResult) -> bool {
    is_failure_result(
        r,
        MatchErrorCode::ScreenshotDecodeError,
        0,
        0,
        Option::None,
        "Screenshot decode error"@,
    )
}

/// The result of a single-template call whose screenshot could not be
/// decoded: the rendered application error, whose message is the image
/// processing prefix followed by the decode failure's own prefixed text.
pub open spec fn is_screenshot_error_single(r: MatchResult) -> bool {
    &&& failure_fields(r, MatchErrorCode::ScreenshotDecodeError, 0, 0, Option::None)
    &&& r.error matches Some(m) && (exists|detail: Seq<char>|
        #![auto]
        m@ == "Image processing error: "@ + detail && ("Base64 decode error"@.is_prefix_of(detail)
            || "Image decode error"@.is_prefix_of(detail)))
}

/// The template's effective pixels after scale alignment: the resampled
/// raster at a scale below one, the original pixels at full scale.
pub open spec fn effective_pixels(w0: nat, h0: nat, px0: Seq<u8>, scale_ppm: u32) -> Seq<u8> {
    if scale_ppm < PPM_DENOM {
        nn_resized(
            px0,
            w0,
            h0,
            scaled_dim(w0, scale_ppm as nat),
            scaled_dim(h0, scale_ppm as nat),
        )
    } else {
        px0
    }
}

/// Exact outcome of one template pipeline run against a decoded grayscale
/// screenshot of dimensions `sw x sh` with pixels `spx`: which stage decides
/// the result and every field the result must then carry. Message text is
/// left open; everything else is pinned.
pub open spec fn template_outcome_ok(
    r: MatchResult,
    sw: nat,
    sh: nat,
    spx: Seq<u8>,
    t64: Seq<u8>,
    scale_ppm: u32,
    threshold_ppm: u32,
    cfg: MatchConfig,
) -> bool {
    match b64_decoded(t64) {
        Option::None => is_failure_result(
            r,
            MatchErrorCode::TemplateBase64DecodeError,
            0,
            0,
            Option::None,
            "Base64 decode error"@,
        ),
        Option::Some(bytes) => match rgba_decoded(bytes) {
            Option::None => is_failure_result(
                r,
                MatchErrorCode::TemplateImageDecodeError,
                0,
                0,
                Option::None,
                "Image decode error"@,
            ),
            Option::Some(dec) => template_outcome_scaled(
                r,
                sw,
                sh,
                spx,
                dec.0,
                dec.1,
                dec.2,
                scale_ppm,
                threshold_ppm,
                cfg,
            ),
        },
    }
}

/// Outcome of the pipeline from scale alignment on, for a decoded template
/// of original size `w0 x h0` with RGBA pixels `px0`.
pub open spec fn template_outcome_scaled(
    r: MatchResult,
    sw: nat,
    sh: nat,
    spx: Seq<u8>,
    w0: nat,
    h0: nat,
    px0: Seq<u8>,
    scale_ppm: u32,
    threshold_ppm: u32,
    cfg: MatchConfig,
) -> bool {
    let tw = scaled_dim(w0, scale_ppm as nat);
    let th = scaled_dim(h0, scale_ppm as nat);
    let px1 = effective_pixels(w0, h0, px0, scale_ppm);
    if opacity_ppm(px1, tw * th) < cfg.min_opacity_ppm as nat {
        is_failure_result(
            r,
            MatchErrorCode::InsufficientOpacity,
            tw,
            th,
            Option::None,
            "Template has insufficient opacity"@,
        )
    } else if tw > sw || th > sh {
        is_failure_result(
            r,
            MatchErrorCode::TemplateTooLarge,
            tw,
            th,
            Option::Some(0u32),
            "Template is larger than screenshot"@,
        )
    } else if sq_all(gray_of(px1, tw * th), tw * th) == 0 {
        is_failure_result(
            r,
            MatchErrorCode::NonFiniteConfidence,
            tw,
            th,
            Option::None,
            "Template matching produced no finite confidence value"@,
        )
    } else {
        let peak = ncc_peak(spx, sw, sh, gray_of(px1, tw * th), tw, th);
        &&& r.found == (peak.0 >= threshold_ppm as nat)
        &&& r.confidence matches Some(c) && c as nat == peak.0
        &&& r.template_width as nat == tw
        &&& r.template_height as nat == th
        &&& r.error is None
        &&& r.error_code is None
        &&& if r.found {
            &&& r.center_x matches Some(cx) && cx as nat == peak.1 + tw / 2
            &&& r.center_y matches Some(cy) && cy as nat == peak.2 + th / 2
        } else {
            r.center_x is None && r.center_y is None
        }
    }
}

/// Build a failed result slot carrying exactly the given message.
fn failure(code: MatchErrorCode, tw: u32, th: u32, confidence: Option<u32>, msg: String) -> (r:
    MatchResult)
    ensures
        failure_fields(r, code, tw as nat, th as nat, confidence),
        r.error matches Some(m) && m == msg,
{
    MatchResult {
        found: false,
        center_x: None,
        center_y: None,
        confidence,
        template_width: tw,
        template_height: th,
        error: Some(msg),
        error_code: Some(code),
    }
}

/// Match one template against an already decoded grayscale screenshot,
/// under an explicit policy. This is the whole per-template pipeline:
/// decode, scale alignment, opacity gate, grayscale compositing, size guard,
/// correlation, classification.
pub fn find_template_with_config(
    screenshot_gray: &GrayRaster,
    template_base64: &str,
    scale_ppm: u32,
    threshold_ppm: u32,
    cfg: &MatchConfig,
) -> (r: MatchResult)
    requires
        screenshot_gray.wf(),
        screenshot_gray.width <= MAX_DIM,
        screenshot_gray.height <= MAX_DIM,
        1 <= scale_ppm <= PPM_DENOM,
    ensures
        template_outcome_ok(
            r,
            screenshot_gray.width as nat,
            screenshot_gray.height as nat,
            screenshot_gray.data@,
            template_base64.spec_bytes(),
            scale_ppm,
            threshold_ppm,
            *cfg,
        ),
{
    let bytes = match decode_base64(template_base64) {
        Ok(b) => b,
        Err(msg) => {
            return failure(MatchErrorCode::TemplateBase64DecodeError, 0, 0, None, msg);
        },
    };
    let template_rgba = match decode_image_to_rgba(bytes.as_slice()) {
        Ok(img) => img,
        Err(msg) => {
            return failure(MatchErrorCode::TemplateImageDecodeError, 0, 0, None, msg);
        },
    };
    let template_width = scaled_dimension(template_rgba.width, scale_ppm);
    let template_height = scaled_dimension(template_rgba.height, scale_ppm);
    proof {
        lemma_scaled_dim_le(template_rgba.width as nat, scale_ppm as nat);
        lemma_scaled_dim_le(template_rgba.height as nat, scale_ppm as nat);
    }
    let template = if scale_ppm < PPM_DENOM {
        resize_rgba(&template_rgba, template_width, template_height)
    } else {
        template_rgba
    };
    let opacity = calculate_opacity_ratio(&template);
    if opacity < cfg.min_opacity_ppm {
        return failure(
            MatchErrorCode::InsufficientOpacity,
            template_width,
            template_height,
            None,
            prefixed_message(
                "Template has insufficient opacity",
                " (below the configured minimum). Mostly transparent images cannot be reliably matched.",
            ),
        );
    }
    let template_gray = convert_to_grayscale_with_alpha(&template);
    if template_width > screenshot_gray.width || template_height > screenshot_gray.height {
        return failure(
            MatchErrorCode::TemplateTooLarge,
            template_width,
            template_height,
            Some(0u32),
            prefixed_message("Template is larger than screenshot", " after scaling"),
        );
    }
    let t_energy = template_energy(&template_gray);
    if t_energy == 0 {
        return failure(
            MatchErrorCode::NonFiniteConfidence,
            template_width,
            template_height,
            None,
            prefixed_message(
                "Template matching produced no finite confidence value",
                ". Template may have insufficient variance (e.g., single-color image).",
            ),
        );
    }
    let peak = ncc_peak_of(screenshot_gray, &template_gray);
    if peak.0 >= threshold_ppm {
        let center_x = peak.1 + template_width / 2;
        let center_y = peak.2 + template_height / 2;
        MatchResult {
            found: true,
            center_x: Some(center_x),
            center_y: Some(center_y),
            confidence: Some(peak.0),
            template_width,
            template_height,
            error: None,
            error_code: None,
        }
    } else {
        MatchResult {
            found: false,
            center_x: None,
            center_y: None,
            confidence: Some(peak.0),
            template_width,
            template_height,
            error: None,
            error_code: None,
        }
    }
}

/// Match one template against an already decoded grayscale screenshot under
/// the default policy.
pub fn find_template_with_decoded_screenshot(
    screenshot_gray: &GrayRaster,
    template_base64: &str,
    scale_ppm: u32,
    threshold_ppm: u32,
) -> (r: MatchResult)
    requires
        screenshot_gray.wf(),
        screenshot_gray.width <= MAX_DIM,
        screenshot_gray.height <= MAX_DIM,
        1 <= scale_ppm <= PPM_DENOM,
    ensures
        template_outcome_ok(
            r,
            screenshot_gray.width as nat,
            screenshot_gray.height as nat,
            screenshot_gray.data@,
            template_base64.spec_bytes(),
            scale_ppm,
            threshold_ppm,
            default_config(),
        ),
{
    let cfg = MatchConfig::default();
    find_template_with_config(screenshot_gray, template_base64, scale_ppm, threshold_ppm, &cfg)
}

/// Decode the base64-wrapped screenshot and convert it to grayscale.
fn decode_screenshot(screenshot_base64: &str) -> (r: Result<GrayRaster, XenotesterError>)
    ensures
        r is Ok <==> screenshot_decoded(screenshot_base64.spec_bytes()) is Some,
        r matches Ok(g) ==> (screenshot_decoded(screenshot_base64.spec_bytes()) == Some(
            (g.width as nat, g.height as nat, g.data@),
        ) && g.wf() && g.width <= MAX_DIM && g.height <= MAX_DIM),
        r matches Err(e) ==> (e matches XenotesterError::ImageError(detail) && (
        "Base64 decode error"@.is_prefix_of(detail@) || "Image decode error"@.is_prefix_of(
            detail@,
        ))),
{
    let bytes = match decode_base64(screenshot_base64) {
        Ok(b) => b,
        Err(msg) => {
            return Err(XenotesterError::ImageError(msg));
        },
    };
    match decode_image_to_gray(bytes.as_slice()) {
        Ok(g) => Ok(g),
        Err(msg) => Err(XenotesterError::ImageError(msg)),
    }
}

/// Find a template image within a screenshot and report the center of the
/// best match. Both images arrive base64-encoded; the screenshot was already
/// downscaled by `scale_ppm` parts per million, and the template is resized
/// by the same factor before correlation, so reported coordinates are in the
/// screenshot's own coordinate space.
pub fn find_template_in_screenshot(
    screenshot_base64: &str,
    template_base64: &str,
    scale_ppm: u32,
    threshold_ppm: u32,
) -> (r: MatchResult)
    requires
        1 <= scale_ppm <= PPM_DENOM,
    ensures
        match screenshot_decoded(screenshot_base64.spec_bytes()) {
            Option::None => is_screenshot_error_single(r),
            Option::Some(dec) => template_outcome_ok(
                r,
                dec.0,
                dec.1,
                dec.2,
                template_base64.spec_bytes(),
                scale_ppm,
                threshold_ppm,
                default_config(),
            ),
        },
{
    let screenshot_gray = match decode_screenshot(screenshot_base64) {
        Ok(g) => g,
        Err(e) => {
            let ghost detail = (match &e {
                XenotesterError::ImageError(d) => d@,
                _ => Seq::<char>::empty(),
            });
            let msg = e.message();
            proof {
                assert(msg@ == "Image processing error: "@ + detail);
            }
            return failure(MatchErrorCode::ScreenshotDecodeError, 0, 0, None, msg);
        },
    };
    find_template_with_decoded_screenshot(
        &screenshot_gray,
        template_base64,
        scale_ppm,
        threshold_ppm,
    )
}

/// Match a batch of templates against one screenshot. The screenshot is
/// decoded exactly once and shared read-only by every per-template run; each
/// template is processed independently, so one failing template affects only
/// its own slot. The result list always has exactly one entry per request,
/// in request order, pairing the request's name with its result; if the
/// screenshot itself cannot be decoded, every slot reports that.
pub fn match_templates_batch(
    screenshot_base64: &str,
    templates: Vec<(&str, &str)>,
    scale_ppm: u32,
    threshold_ppm: u32,
) -> (results: Vec<(String, MatchResult)>)
    requires
        1 <= scale_ppm <= PPM_DENOM,
    ensures
        results@.len() == templates@.len(),
        forall|i: int|
            0 <= i < results@.len() ==> (#[trigger] results@[i]).0@ == templates@[i].1@,
        match screenshot_decoded(screenshot_base64.spec_bytes()) {
            Option::None => forall|i: int|
                0 <= i < results@.len() ==> is_screenshot_error_result((#[trigger] results@[i]).1),
            Option::Some(dec) => forall|i: int|
                0 <= i < results@.len() ==> template_outcome_ok(
                    (#[trigger] results@[i]).1,
                    dec.0,
                    dec.1,
                    dec.2,
                    templates@[i].0.spec_bytes(),
                    scale_ppm,
                    threshold_ppm,
                    default_config(),
                ),
        },
{
    let template_count = templates.len();
    let screenshot_gray = match decode_screenshot(screenshot_base64) {
        Ok(g) => g,
        Err(e) => {
            let rendered = e.message();
            let msg = prefixed_message("Screenshot decode error", ": ").concat(
                rendered.as_str(),
            );
            proof {
                assert("Screenshot decode error"@.is_prefix_of(msg@)) by {
                    assert("Screenshot decode error"@ =~= msg@.subrange(
                        0,
                        "Screenshot decode error"@.len() as int,
                    ));
                }
            }
            let mut results: Vec<(String, MatchResult)> = Vec::new();
            for i in 0..template_count
                invariant
                    template_count == templates@.len(),
                    screenshot_decoded(screenshot_base64.spec_bytes()) is None,
                    "Screenshot decode error"@.is_prefix_of(msg@),
                    results@.len() == i,
                    forall|j: int|
                        0 <= j < i ==> (#[trigger] results@[j]).0@ == templates@[j].1@,
                    forall|j: int|
                        0 <= j < i ==> is_screenshot_error_result((#[trigger] results@[j]).1),
            {
                let slot = failure(
                    MatchErrorCode::ScreenshotDecodeError,
                    0,
                    0,
                    None,
                    msg.clone(),
                );
                results.push((templates[i].1.to_owned(), slot));
            }
            return results;
        },
    };
    let cfg = MatchConfig::default();
    let mut results: Vec<(String, MatchResult)> = Vec::new();
    for i in 0..template_count
        invariant
            template_count == templates@.len(),
            screenshot_gray.wf(),
            screenshot_gray.width <= MAX_DIM,
            screenshot_gray.height <= MAX_DIM,
            1 <= scale_ppm <= PPM_DENOM,
            cfg == default_config(),
            screenshot_decoded(screenshot_base64.spec_bytes()) == Some(
                (
                    screenshot_gray.width as nat,
                    screenshot_gray.height as nat,
                    screenshot_gray.data@,
                ),
            ),
            results@.len() == i,
            forall|j: int| 0 <= j < i ==> (#[trigger] results@[j]).0@ == templates@[j].1@,
            forall|j: int|
                0 <= j < i ==> template_outcome_ok(
                    (#[trigger] results@[j]).1,
                    screenshot_gray.width as nat,
                    screenshot_gray.height as nat,
                    screenshot_gray.data@,
                    templates@[j].0.spec_bytes(),
                    scale_ppm,
                    threshold_ppm,
                    default_config(),
                ),
    {
        let r = find_template_with_config(
            &screenshot_gray,
            templates[i].0,
            scale_ppm,
            threshold_ppm,
            &cfg,
        );
        results.push((templates[i].1.to_owned(), r));
    }
    results
}

/// Reported-dimension law: once a template has decoded to an image of
/// original size `w0 x h0`, its result always reports the post-scale
/// dimensions `scaled_dim(w0), scaled_dim(h0)`, whatever the outcome of the
/// later stages.
pub proof fn lemma_reported_dimensions(
    r: MatchResult,
    sw: nat,
    sh: nat,
    spx: Seq<u8>,
    w0: nat,
    h0: nat,
    px0: Seq<u8>,
    scale_ppm: u32,
    threshold_ppm: u32,
    cfg: MatchConfig,
)
    requires
        template_outcome_scaled(r, sw, sh, spx, w0, h0, px0, scale_ppm, threshold_ppm, cfg),
    ensures
        r.template_width as nat == scaled_dim(w0, scale_ppm as nat),
        r.template_height as nat == scaled_dim(h0, scale_ppm as nat),
{
}

/// Opacity gate law: a template whose effective opacity ratio lies below the
/// configured minimum is rejected as `InsufficientOpacity` — not found, no
/// confidence — whatever its pixel colors, before any compositing or
/// correlation enters the picture.
pub proof fn lemma_opacity_gate_rejects(
    r: MatchResult,
    sw: nat,
    sh: nat,
    spx: Seq<u8>,
    w0: nat,
    h0: nat,
    px0: Seq<u8>,
    scale_ppm: u32,
    threshold_ppm: u32,
    cfg: MatchConfig,
)
    requires
        template_outcome_scaled(r, sw, sh, spx, w0, h0, px0, scale_ppm, threshold_ppm, cfg),
        opacity_ppm(
            effective_pixels(w0, h0, px0, scale_ppm),
            scaled_dim(w0, scale_ppm as nat) * scaled_dim(h0, scale_ppm as nat),
        ) < cfg.min_opacity_ppm as nat,
    ensures
        !r.found,
        r.error_code == Some(MatchErrorCode::InsufficientOpacity),
        r.confidence is None,
        r.center_x is None,
        r.center_y is None,
        r.error matches Some(m) && "Template has insufficient opacity"@.is_prefix_of(m@),
{
}

/// Size guard law: a template whose post-scale width or height exceeds the
/// screenshot's (and which passed the opacity gate, which comes first in the
/// pipeline) is rejected as `TemplateTooLarge` — not found, with a zero
/// confidence reported.
pub proof fn lemma_size_guard_rejects(
    r: MatchResult,
    sw: nat,
    sh: nat,
    spx: Seq<u8>,
    w0: nat,
    h0: nat,
    px0: Seq<u8>,
    scale_ppm: u32,
    threshold_ppm: u32,
    cfg: MatchConfig,
)
    requires
        template_outcome_scaled(r, sw, sh, spx, w0, h0, px0, scale_ppm, threshold_ppm, cfg),
        opacity_ppm(
            effective_pixels(w0, h0, px0, scale_ppm),
            scaled_dim(w0, scale_ppm as nat) * scaled_dim(h0, scale_ppm as nat),
        ) >= cfg.min_opacity_ppm as nat,
        scaled_dim(w0, scale_ppm as nat) > sw || scaled_dim(h0, scale_ppm as nat) > sh,
    ensures
        !r.found,
        r.error_code == Some(MatchErrorCode::TemplateTooLarge),
        r.confidence == Some(0u32),
        r.center_x is None,
        r.center_y is None,
        r.error matches Some(m) && "Template is larger than screenshot"@.is_prefix_of(m@),
{
}

/// Degenerate-correlation law: when the composited template has no energy
/// at all (after the opacity gate and the size guard both passed), no finite
/// correlation value exists, the result is classified `NonFiniteConfidence`
/// and carries no confidence value — an invalid score is never surfaced.
pub proof fn lemma_degenerate_template_classified(
    r: MatchResult,
    sw: nat,
    sh: nat,
    spx: Seq<u8>,
    w0: nat,
    h0: nat,
    px0: Seq<u8>,
    scale_ppm: u32,
    threshold_ppm: u32,
    cfg: MatchConfig,
)
    requires
        template_outcome_scaled(r, sw, sh, spx, w0, h0, px0, scale_ppm, threshold_ppm, cfg),
        opacity_ppm(
            effective_pixels(w0, h0, px0, scale_ppm),
            scaled_dim(w0, scale_ppm as nat) * scaled_dim(h0, scale_ppm as nat),
        ) >= cfg.min_opacity_ppm as nat,
        scaled_dim(w0, scale_ppm as nat) <= sw,
        scaled_dim(h0, scale_ppm as nat) <= sh,
        sq_all(
            gray_of(
                effective_pixels(w0, h0, px0, scale_ppm),
                scaled_dim(w0, scale_ppm as nat) * scaled_dim(h0, scale_ppm as nat),
            ),
            scaled_dim(w0, scale_ppm as nat) * scaled_dim(h0, scale_ppm as nat),
        ) == 0,
    ensures
        !r.found,
        r.error_code == Some(MatchErrorCode::NonFiniteConfidence),
        r.confidence is None,
        r.center_x is None,
        r.center_y is None,
        r.error matches Some(m) && "Template matching produced no finite confidence value"@.is_prefix_of(
            m@,
        ),
{
}

/// Bounded-confidence law: whatever a template run's outcome, a reported
/// confidence value never exceeds the perfect-match score of 1 000 000.
pub proof fn lemma_confidence_bounded(
    r: MatchResult,
    sw: nat,
    sh: nat,
    spx: Seq<u8>,
    w0: nat,
    h0: nat,
    px0: Seq<u8>,
    scale_ppm: u32,
    threshold_ppm: u32,
    cfg: MatchConfig,
)
    requires
        template_outcome_scaled(r, sw, sh, spx, w0, h0, px0, scale_ppm, threshold_ppm, cfg),
        1 <= w0,
        1 <= h0,
        1 <= scale_ppm <= PPM_DENOM,
    ensures
        r.confidence matches Some(c) ==> c <= 1000000,
{
    let tw = scaled_dim(w0, scale_ppm as nat);
    let th = scaled_dim(h0, scale_ppm as nat);
    lemma_scaled_dim_le(w0, scale_ppm as nat);
    lemma_scaled_dim_le(h0, scale_ppm as nat);
    if tw <= sw && th <= sh {
        let g = gray_of(effective_pixels(w0, h0, px0, scale_ppm), tw * th);
        let cols = sw - tw + 1;
        let rows = sh - th + 1;
        assert(cols * rows >= 1) by (nonlinear_arith)
            requires
                cols >= 1,
                rows >= 1,
        ;
        let m = (cols * rows) as nat;
        crate::ncc::lemma_peak_in_range(spx, sw, sh, g, tw, th, m);
    }
}

} // verus!
