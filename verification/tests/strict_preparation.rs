use std::cell::RefCell;

use base64::engine::general_purpose::STANDARD as BASE64_STANDARD;
use base64::Engine;
use codex_strict_images::image::{EncodedImage, ImageProcessingError, PromptImageMode};
use codex_strict_images::models::{
    ContentItem, FunctionCallOutputContentItem, FunctionCallOutputPayload, ImageDetail,
    ResponseItem,
};
use codex_strict_images::strict::{
    prepare_response_items_for_responses_codex_strict_mode,
    prepare_response_items_for_responses_codex_strict_mode_request_fallback,
    prompt_image_mode_for_responses_codex_strict_detail,
    ResponsesCodexStrictImagePreparationError,
};

const TINY_PNG_BYTES: &[u8] = &[
    137, 80, 78, 71, 13, 10, 26, 10, 0, 0, 0, 13, 73, 72, 68, 82, 0, 0, 0, 1, 0, 0, 0, 1, 8, 6, 0,
    0, 0, 31, 21, 196, 137, 0, 0, 0, 11, 73, 68, 65, 84, 120, 156, 99, 96, 0, 2, 0, 0, 5, 0, 1,
    122, 94, 171, 63, 0, 0, 0, 0, 73, 69, 78, 68, 174, 66, 96, 130,
];

fn tiny_png_data_url() -> String {
    format!(
        "data:image/png;base64,{}",
        BASE64_STANDARD.encode(TINY_PNG_BYTES)
    )
}

/// Loads a base64 `data:` URL whose image is already within every prompt
/// budget: the bytes and the MIME type are kept as they are, as the prompt
/// image loader does for such images.
fn load_small_image(
    image_url: &str,
    _mode: PromptImageMode,
) -> Result<EncodedImage, ImageProcessingError> {
    let decode_error = || ImageProcessingError::Decode {
        message: format!("not a base64 data URL: {image_url}"),
    };
    if image_url.len() < 5 || !image_url[..5].eq_ignore_ascii_case("data:") {
        return Err(decode_error());
    }
    let rest = &image_url[5..];
    let lower = rest.to_ascii_lowercase();
    let marker = lower.find(";base64,").ok_or_else(decode_error)?;
    let mime = rest[..marker].to_string();
    let payload = &rest[marker + ";base64,".len()..];
    let bytes = BASE64_STANDARD.decode(payload).map_err(|_| decode_error())?;
    Ok(EncodedImage {
        bytes,
        mime,
        width: 1,
        height: 1,
    })
}

fn message_with_image(image_url: String, detail: Option<ImageDetail>) -> ResponseItem {
    ResponseItem::Message {
        id: None,
        role: "user".to_string(),
        content: vec![ContentItem::InputImage { image_url, detail }],
        phase: None,
    }
}

#[test]
fn strict_preparation_strips_detail_from_message_images() {
    let mut items = vec![message_with_image(
        tiny_png_data_url(),
        Some(ImageDetail::High),
    )];

    prepare_response_items_for_responses_codex_strict_mode(&mut items, &load_small_image)
        .expect("strict image preparation should succeed");

    let ResponseItem::Message { content, .. } = &items[0] else {
        panic!("expected message item");
    };
    let [ContentItem::InputImage { image_url, detail }] = content.as_slice() else {
        panic!("expected one input image");
    };
    assert!(image_url.starts_with("data:image/png;base64,"));
    assert_eq!(*detail, None);
}

#[test]
fn strict_preparation_accepts_case_insensitive_data_url_markers() {
    let original_image_url = tiny_png_data_url()
        .replacen("data:", "DATA:", 1)
        .replacen(";base64,", ";BASE64,", 1);
    let mut items = vec![message_with_image(
        original_image_url,
        Some(ImageDetail::High),
    )];

    prepare_response_items_for_responses_codex_strict_mode(&mut items, &load_small_image)
        .expect("strict image preparation should accept data URL markers case-insensitively");

    let ResponseItem::Message { content, .. } = &items[0] else {
        panic!("expected message item");
    };
    let [ContentItem::InputImage { image_url, detail }] = content.as_slice() else {
        panic!("expected one input image");
    };
    assert!(image_url.starts_with("data:image/png;base64,"));
    assert_eq!(*detail, None);
}

#[test]
fn strict_preparation_detail_modes_match_responses_defaults() {
    assert_eq!(
        prompt_image_mode_for_responses_codex_strict_detail(/*detail*/ None)
            .expect("missing detail should default to original"),
        PromptImageMode::ResponsesLiteOriginal
    );
    assert_eq!(
        prompt_image_mode_for_responses_codex_strict_detail(Some(ImageDetail::Auto))
            .expect("auto detail should use original"),
        PromptImageMode::ResponsesLiteOriginal
    );
    assert_eq!(
        prompt_image_mode_for_responses_codex_strict_detail(Some(ImageDetail::High))
            .expect("high detail should use high"),
        PromptImageMode::ResizeToFit
    );
    assert_eq!(
        prompt_image_mode_for_responses_codex_strict_detail(Some(ImageDetail::Original))
            .expect("original detail should use original"),
        PromptImageMode::ResponsesLiteOriginal
    );
}

#[test]
fn strict_preparation_rejects_http_images() {
    let mut items = vec![ResponseItem::FunctionCallOutput {
        call_id: "call-1".to_string(),
        output: FunctionCallOutputPayload::from_content_items(vec![
            FunctionCallOutputContentItem::InputImage {
                image_url: "https://example.com/image.png".to_string(),
                detail: Some(ImageDetail::Original),
            },
        ]),
    }];

    let err = prepare_response_items_for_responses_codex_strict_mode(&mut items, &load_small_image)
        .expect_err("HTTP image URL should fail");

    assert!(matches!(
        err,
        ResponsesCodexStrictImagePreparationError::NonDataUrl { .. }
    ));
}

#[test]
fn strict_preparation_request_fallback_skips_prepared_images() {
    let original_image_url = tiny_png_data_url();
    let mut items = vec![message_with_image(original_image_url.clone(), None)];

    prepare_response_items_for_responses_codex_strict_mode_request_fallback(
        &mut items,
        &load_small_image,
    )
    .expect("request fallback should succeed for already-prepared image");

    let ResponseItem::Message { content, .. } = &items[0] else {
        panic!("expected message item");
    };
    let [ContentItem::InputImage { image_url, detail }] = content.as_slice() else {
        panic!("expected one input image");
    };
    assert_eq!(image_url, &original_image_url);
    assert_eq!(*detail, None);
}

#[test]
fn strict_preparation_request_fallback_rejects_http_images_without_detail() {
    let mut items = vec![message_with_image(
        "https://example.com/image.png".to_string(),
        None,
    )];

    let err = prepare_response_items_for_responses_codex_strict_mode_request_fallback(
        &mut items,
        &load_small_image,
    )
    .expect_err("unprepared HTTP image URL should fail even without detail metadata");

    assert!(matches!(
        err,
        ResponsesCodexStrictImagePreparationError::NonDataUrl { .. }
    ));
}

#[test]
fn strict_preparation_rejects_low_detail() {
    let mut items = vec![message_with_image(
        tiny_png_data_url(),
        Some(ImageDetail::Low),
    )];

    let err = prepare_response_items_for_responses_codex_strict_mode(&mut items, &load_small_image)
        .expect_err("low detail should fail");

    assert!(matches!(
        err,
        ResponsesCodexStrictImagePreparationError::UnsupportedLowDetail
    ));
}

#[test]
fn strict_preparation_rejects_unsupported_url_schemes() {
    let mut items = vec![message_with_image(
        "file:///tmp/image.png".to_string(),
        None,
    )];

    let err = prepare_response_items_for_responses_codex_strict_mode(&mut items, &load_small_image)
        .expect_err("unsupported scheme should fail");

    assert!(matches!(
        err,
        ResponsesCodexStrictImagePreparationError::NonDataUrl { .. }
    ));
}

// Further scenarios.

/// A loader that records every request and gives back a fixed image.
struct RecordingLoader {
    calls: RefCell<Vec<(String, PromptImageMode)>>,
}

impl RecordingLoader {
    fn new() -> Self {
        RecordingLoader {
            calls: RefCell::new(Vec::new()),
        }
    }

    fn load(&self, image_url: &str, mode: PromptImageMode) -> Result<EncodedImage, ImageProcessingError> {
        self.calls.borrow_mut().push((image_url.to_string(), mode));
        Ok(EncodedImage {
            bytes: vec![1, 2, 3],
            mime: "image/webp".to_string(),
            width: 2,
            height: 2,
        })
    }
}

#[test]
fn strict_preparation_replaces_url_with_loaded_image() {
    let loader = RecordingLoader::new();
    let load = |url: &str, mode: PromptImageMode| loader.load(url, mode);
    let mut items = vec![message_with_image(tiny_png_data_url(), Some(ImageDetail::Auto))];

    prepare_response_items_for_responses_codex_strict_mode(&mut items, &load)
        .expect("preparation should succeed");

    let ResponseItem::Message { content, .. } = &items[0] else {
        panic!("expected message item");
    };
    assert_eq!(
        content,
        &vec![ContentItem::InputImage {
            image_url: "data:image/webp;base64,AQID".to_string(),
            detail: None,
        }]
    );
    assert_eq!(
        *loader.calls.borrow(),
        vec![(tiny_png_data_url(), PromptImageMode::ResponsesLiteOriginal)]
    );
}

#[test]
fn strict_preparation_loads_high_detail_resized_to_fit() {
    let loader = RecordingLoader::new();
    let load = |url: &str, mode: PromptImageMode| loader.load(url, mode);
    let mut items = vec![
        message_with_image(tiny_png_data_url(), Some(ImageDetail::High)),
        message_with_image(tiny_png_data_url(), Some(ImageDetail::Original)),
        message_with_image(tiny_png_data_url(), None),
    ];

    prepare_response_items_for_responses_codex_strict_mode(&mut items, &load)
        .expect("preparation should succeed");

    let modes: Vec<PromptImageMode> = loader.calls.borrow().iter().map(|(_, m)| *m).collect();
    assert_eq!(
        modes,
        vec![
            PromptImageMode::ResizeToFit,
            PromptImageMode::ResponsesLiteOriginal,
            PromptImageMode::ResponsesLiteOriginal,
        ]
    );
}

#[test]
fn strict_preparation_stops_at_first_failure() {
    let loader = RecordingLoader::new();
    let load = |url: &str, mode: PromptImageMode| loader.load(url, mode);
    let untouched_url = tiny_png_data_url();
    let mut items = vec![
        message_with_image(tiny_png_data_url(), Some(ImageDetail::High)),
        message_with_image("https://example.com/a.png".to_string(), Some(ImageDetail::High)),
        message_with_image(untouched_url.clone(), Some(ImageDetail::High)),
    ];

    let err = prepare_response_items_for_responses_codex_strict_mode(&mut items, &load)
        .expect_err("the HTTP image should stop the pass");

    match err {
        ResponsesCodexStrictImagePreparationError::NonDataUrl { image_url_preview } => {
            assert_eq!(image_url_preview, "https://example.com/a.png");
        }
        other => panic!("unexpected error {other:?}"),
    }
    assert_eq!(loader.calls.borrow().len(), 1);
    assert_eq!(
        items[0],
        message_with_image("data:image/webp;base64,AQID".to_string(), None)
    );
    assert_eq!(
        items[1],
        message_with_image("https://example.com/a.png".to_string(), Some(ImageDetail::High))
    );
    assert_eq!(
        items[2],
        message_with_image(untouched_url, Some(ImageDetail::High))
    );
}

#[test]
fn strict_preparation_preview_keeps_first_128_characters() {
    let long_url = format!("https://example.com/{}", "é".repeat(300));
    let mut items = vec![message_with_image(long_url.clone(), None)];

    let err = prepare_response_items_for_responses_codex_strict_mode(&mut items, &load_small_image)
        .expect_err("HTTP image URL should fail");

    let ResponsesCodexStrictImagePreparationError::NonDataUrl { image_url_preview } = err else {
        panic!("expected a non-data URL error");
    };
    let expected: String = long_url.chars().take(128).collect();
    assert_eq!(image_url_preview, expected);
    assert_eq!(image_url_preview.chars().count(), 128);
}

#[test]
fn strict_preparation_reports_loader_failures() {
    let failing = |_url: &str, _mode: PromptImageMode| -> Result<EncodedImage, ImageProcessingError> {
        Err(ImageProcessingError::UnsupportedImageFormat {
            mime: "image/tiff".to_string(),
        })
    };
    let original_url = tiny_png_data_url();
    let mut items = vec![message_with_image(original_url.clone(), Some(ImageDetail::High))];

    let err = prepare_response_items_for_responses_codex_strict_mode(&mut items, &failing)
        .expect_err("a loader failure should fail the pass");

    match err {
        ResponsesCodexStrictImagePreparationError::ImageProcessing(
            ImageProcessingError::UnsupportedImageFormat { mime },
        ) => assert_eq!(mime, "image/tiff"),
        other => panic!("unexpected error {other:?}"),
    }
    assert_eq!(
        items[0],
        message_with_image(original_url, Some(ImageDetail::High))
    );
}

#[test]
fn strict_preparation_leaves_items_without_images_alone() {
    let loader = RecordingLoader::new();
    let load = |url: &str, mode: PromptImageMode| loader.load(url, mode);
    let mut items = vec![
        ResponseItem::Message {
            id: Some("msg-1".to_string()),
            role: "assistant".to_string(),
            content: vec![ContentItem::OutputText {
                text: "hello".to_string(),
            }],
            phase: None,
        },
        ResponseItem::FunctionCall {
            name: "shell".to_string(),
            arguments: "{}".to_string(),
            call_id: "call-1".to_string(),
        },
        ResponseItem::FunctionCallOutput {
            call_id: "call-1".to_string(),
            output: FunctionCallOutputPayload::from_text("https://example.com/not-an-image".to_string()),
        },
        ResponseItem::Other,
    ];
    let before = items.clone();

    prepare_response_items_for_responses_codex_strict_mode(&mut items, &load)
        .expect("items without images should pass");

    assert_eq!(items, before);
    assert!(loader.calls.borrow().is_empty());
}

#[test]
fn strict_preparation_prepares_custom_tool_call_output_images() {
    let loader = RecordingLoader::new();
    let load = |url: &str, mode: PromptImageMode| loader.load(url, mode);
    let mut items = vec![ResponseItem::CustomToolCallOutput {
        call_id: "call-2".to_string(),
        output: FunctionCallOutputPayload::from_content_items(vec![
            FunctionCallOutputContentItem::InputText {
                text: "see image".to_string(),
            },
            FunctionCallOutputContentItem::InputImage {
                image_url: tiny_png_data_url(),
                detail: Some(ImageDetail::Original),
            },
        ]),
    }];

    prepare_response_items_for_responses_codex_strict_mode(&mut items, &load)
        .expect("preparation should succeed");

    assert_eq!(
        items[0],
        ResponseItem::CustomToolCallOutput {
            call_id: "call-2".to_string(),
            output: FunctionCallOutputPayload::from_content_items(vec![
                FunctionCallOutputContentItem::InputText {
                    text: "see image".to_string(),
                },
                FunctionCallOutputContentItem::InputImage {
                    image_url: "data:image/webp;base64,AQID".to_string(),
                    detail: None,
                },
            ]),
        }
    );
}

#[test]
fn strict_preparation_rejects_low_detail_mode() {
    assert!(matches!(
        prompt_image_mode_for_responses_codex_strict_detail(Some(ImageDetail::Low)),
        Err(ResponsesCodexStrictImagePreparationError::UnsupportedLowDetail)
    ));
}

#[test]
fn request_fallback_prepares_data_urls_that_carry_a_detail() {
    let loader = RecordingLoader::new();
    let load = |url: &str, mode: PromptImageMode| loader.load(url, mode);
    let mut items = vec![
        message_with_image(tiny_png_data_url(), None),
        message_with_image(tiny_png_data_url(), Some(ImageDetail::High)),
    ];

    prepare_response_items_for_responses_codex_strict_mode_request_fallback(&mut items, &load)
        .expect("fallback preparation should succeed");

    assert_eq!(items[0], message_with_image(tiny_png_data_url(), None));
    assert_eq!(
        items[1],
        message_with_image("data:image/webp;base64,AQID".to_string(), None)
    );
    assert_eq!(
        *loader.calls.borrow(),
        vec![(tiny_png_data_url(), PromptImageMode::ResizeToFit)]
    );
}

#[test]
fn request_fallback_after_strict_preparation_changes_nothing() {
    let loader = RecordingLoader::new();
    let load = |url: &str, mode: PromptImageMode| loader.load(url, mode);
    let mut items = vec![
        message_with_image(tiny_png_data_url().replacen("data:", "Data:", 1), Some(ImageDetail::High)),
        ResponseItem::FunctionCallOutput {
            call_id: "call-3".to_string(),
            output: FunctionCallOutputPayload::from_content_items(vec![
                FunctionCallOutputContentItem::InputImage {
                    image_url: tiny_png_data_url(),
                    detail: Some(ImageDetail::Auto),
                },
            ]),
        },
    ];

    prepare_response_items_for_responses_codex_strict_mode(&mut items, &load)
        .expect("strict preparation should succeed");
    let prepared = items.clone();
    let calls_after_strict = loader.calls.borrow().len();

    prepare_response_items_for_responses_codex_strict_mode_request_fallback(&mut items, &load)
        .expect("fallback preparation should succeed");

    assert_eq!(items, prepared);
    assert_eq!(loader.calls.borrow().len(), calls_after_strict);
}

#[test]
fn strict_error_converts_from_image_processing_error() {
    let err = ResponsesCodexStrictImagePreparationError::from(ImageProcessingError::Decode {
        message: "broken".to_string(),
    });
    assert!(matches!(
        err,
        ResponsesCodexStrictImagePreparationError::ImageProcessing(ImageProcessingError::Decode { .. })
    ));
}

#[test]
fn strict_preparation_checks_scheme_before_detail() {
    let mut items = vec![message_with_image(
        "https://example.com/image.png".to_string(),
        Some(ImageDetail::Low),
    )];

    let err = prepare_response_items_for_responses_codex_strict_mode(&mut items, &load_small_image)
        .expect_err("HTTP image URL should fail");

    assert!(matches!(
        err,
        ResponsesCodexStrictImagePreparationError::NonDataUrl { .. }
    ));
}
