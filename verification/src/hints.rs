//! Batch entry point for hint-image matching requests.
//!
//! A request carries base64-encoded hint images with identifying file names;
//! the reply pairs every request, by array index and in input order, with
//! the result of its independent pipeline run.

use crate::matcher::{
    default_config, is_screenshot_error_result, screenshot_decoded, template_outcome_ok,
    MatchResult, DEFAULT_CONFIDENCE_THRESHOLD_PPM,
};
use crate::scale::PPM_DENOM;
use vstd::prelude::*;
use vstd::utf8::encode_utf8;

verus! {

/// Input template image data.
#[derive(Debug)]
pub struct TemplateImage {
    /// Base64 encoded image data (original size).
    pub image_data: String,
    /// Original file name for identification.
    pub file_name: String,
}

/// Result of matching a single hint image.
#[derive(Debug)]
pub struct HintImageMatchResult {
    /// Index of the hint image in the input array.
    pub index: usize,
    /// Original file name.
    pub file_name: String,
    /// Match result with coordinates or error.
    pub match_result: MatchResult,
}

/// The confidence threshold actually applied: the caller's, or the default
/// score of 0.7 when none was given.
pub open spec fn chosen_threshold(requested: Option<u32>) -> u32 {
    match requested {
        Option::Some(ppm) => ppm,
        Option::None => DEFAULT_CONFIDENCE_THRESHOLD_PPM,
    }
}

/// Match multiple hint images against one screenshot. The screenshot is
/// decoded and converted to grayscale once and reused for every template;
/// each image is processed independently, and errors in one image don't
/// affect the others. The reply holds exactly one entry per input image, in
/// input order, carrying the input's array index and file name.
pub fn match_hint_images(
    screenshot_base64: String,
    template_images: Vec<TemplateImage>,
    scale_ppm: u32,
    confidence_threshold_ppm: Option<u32>,
) -> (results: Vec<HintImageMatchResult>)
    requires
        1 <= scale_ppm <= PPM_DENOM,
    ensures
        results@.len() == template_images@.len(),
        forall|i: int| 0 <= i < results@.len() ==> (#[trigger] results@[i]).index == i,
        forall|i: int|
            0 <= i < results@.len() ==> (#[trigger] results@[i]).file_name@
                == template_images@[i].file_name@,
        match screenshot_decoded(encode_utf8(screenshot_base64@)) {
            Option::None => forall|i: int|
                0 <= i < results@.len() ==> is_screenshot_error_result(
                    (#[trigger] results@[i]).match_result,
                ),
            Option::Some(dec) => forall|i: int|
                0 <= i < results@.len() ==> template_outcome_ok(
                    (#[trigger] results@[i]).match_result,
                    dec.0,
                    dec.1,
                    dec.2,
                    encode_utf8(template_images@[i].image_data@),
                    scale_ppm,
                    chosen_threshold(confidence_threshold_ppm),
                    default_config(),
                ),
        },
{
    let threshold_ppm = match confidence_threshold_ppm {
        Some(ppm) => ppm,
        None => DEFAULT_CONFIDENCE_THRESHOLD_PPM,
    };
    let mut tuples: Vec<(&str, &str)> = Vec::new();
    let image_count = template_images.len();
    for i in 0..image_count
        invariant
            image_count == template_images@.len(),
            tuples@.len() == i,
            forall|j: int|
                0 <= j < i ==> (#[trigger] tuples@[j]).0@ == template_images@[j].image_data@,
            forall|j: int|
                0 <= j < i ==> (#[trigger] tuples@[j]).1@ == template_images@[j].file_name@,
    {
        tuples.push(
            (template_images[i].image_data.as_str(), template_images[i].file_name.as_str()),
        );
    }
    let mut batch_results = crate::matcher::match_templates_batch(
        screenshot_base64.as_str(),
        tuples,
        scale_ppm,
        threshold_ppm,
    );
    let mut results: Vec<HintImageMatchResult> = Vec::new();
    let result_count = batch_results.len();
    let ghost whole_batch = batch_results@;
    for i in 0..result_count
        invariant
            result_count == whole_batch.len(),
            result_count == template_images@.len(),
            batch_results@ =~= whole_batch.skip(i as int),
            results@.len() == i,
            forall|j: int|
                0 <= j < result_count ==> (#[trigger] whole_batch[j]).0@
                    == template_images@[j].file_name@,
            match screenshot_decoded(encode_utf8(screenshot_base64@)) {
                Option::None => forall|j: int|
                    0 <= j < result_count ==> is_screenshot_error_result(
                        (#[trigger] whole_batch[j]).1,
                    ),
                Option::Some(dec) => forall|j: int|
                    0 <= j < result_count ==> template_outcome_ok(
                        (#[trigger] whole_batch[j]).1,
                        dec.0,
                        dec.1,
                        dec.2,
                        encode_utf8(template_images@[j].image_data@),
                        scale_ppm,
                        chosen_threshold(confidence_threshold_ppm),
                        default_config(),
                    ),
            },
            forall|j: int| 0 <= j < i ==> (#[trigger] results@[j]).index == j,
            forall|j: int|
                0 <= j < i ==> (#[trigger] results@[j]).file_name@
                    == template_images@[j].file_name@,
            forall|j: int|
                0 <= j < i ==> (#[trigger] results@[j]).match_result == whole_batch[j].1,
    {
        let entry = batch_results.remove(0);
        proof {
            assert(entry == whole_batch[i as int]);
            assert(batch_results@ =~= whole_batch.skip(i as int + 1));
        }
        let (file_name, match_result) = entry;
        results.push(HintImageMatchResult { index: i, file_name, match_result });
    }
    results
}

} // verus!
