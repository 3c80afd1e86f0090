//! Preparation of the images of a conversation history for the Responses API
//! strict mode: every image must be a `data:` URL, `low` detail is refused,
//! and each image is re-encoded for the prompt with its detail cleared.
//!
//! Decoding and fitting an image is the work of a prompt image loader, which
//! the caller hands in as a closure; the contracts hold for every result the
//! loader may give back.

use vstd::prelude::*;

use crate::data_url::{is_data_url, spec_is_data_url};
use crate::image::{
    base64_padded_len, spec_data_url, EncodedImage, ImageProcessingError, PromptImageMode,
};
use crate::models::{
    ContentItem, FunctionCallOutputBody, FunctionCallOutputContentItem,
    FunctionCallOutputPayload, ImageDetail, ResponseItem,
};

verus! {

/// Why the images of a history could not be prepared for strict mode.
#[derive(Debug)]
pub enum ResponsesCodexStrictImagePreparationError {
    /// An image asked for `low` detail, which strict mode does not support.
    UnsupportedLowDetail,
    /// An image is not a `data:` URL; the preview holds its first 128 characters.
    NonDataUrl { image_url_preview: String },
    /// The image could not be loaded for the prompt.
    ImageProcessing(ImageProcessingError),
}

impl From<ImageProcessingError> for ResponsesCodexStrictImagePreparationError {
    fn from(err: ImageProcessingError) -> (res: Self)
        ensures
            res == ResponsesCodexStrictImagePreparationError::ImageProcessing(err),
    {
        ResponsesCodexStrictImagePreparationError::ImageProcessing(err)
    }
}

impl vstd::std_specs::convert::FromSpecImpl<ImageProcessingError> for ResponsesCodexStrictImagePreparationError {
    open spec fn obeys_from_spec() -> bool {
        true
    }

    open spec fn from_spec(err: ImageProcessingError) -> Self {
        ResponsesCodexStrictImagePreparationError::ImageProcessing(err)
    }
}

/// Which images a preparation pass touches.
#[derive(Clone, Copy, Debug, PartialEq, Eq, Structural)]
pub enum PreparationMode {
    /// Every image is prepared.
    AllImages,
    /// Images that are already `data:` URLs without a detail are left alone.
    UnpreparedImagesOnly,
}

/// The result of a preparation step.
pub type PrepResult = Result<(), ResponsesCodexStrictImagePreparationError>;

/// The first 128 characters of `url` (all of it when it is shorter).
pub open spec fn url_preview(url: Seq<char>) -> Seq<char> {
    if url.len() <= 128 {
        url
    } else {
        url.take(128)
    }
}

/// The prompt image mode that strict mode uses for a detail; `None` for `low`,
/// which strict mode refuses.
pub open spec fn strict_prompt_image_mode(detail: Option<ImageDetail>) -> Option<PromptImageMode> {
    match detail {
        None => Some(PromptImageMode::ResponsesLiteOriginal),
        Some(ImageDetail::Auto) => Some(PromptImageMode::ResponsesLiteOriginal),
        Some(ImageDetail::Original) => Some(PromptImageMode::ResponsesLiteOriginal),
        Some(ImageDetail::High) => Some(PromptImageMode::ResizeToFit),
        Some(ImageDetail::Low) => None,
    }
}

/// Maps an image detail to the prompt image mode that strict mode loads it with.
pub fn prompt_image_mode_for_responses_codex_strict_detail(detail: Option<ImageDetail>) -> (res:
    Result<PromptImageMode, ResponsesCodexStrictImagePreparationError>)
    ensures
        match strict_prompt_image_mode(detail) {
            Some(m) => res matches Ok(r) && r == m,
            None => res matches Err(ResponsesCodexStrictImagePreparationError::UnsupportedLowDetail),
        },
        detail == Some(ImageDetail::High) ==> (res matches Ok(r) && r == PromptImageMode::ResizeToFit),
        detail == Some(ImageDetail::Low) ==> res matches Err(
            ResponsesCodexStrictImagePreparationError::UnsupportedLowDetail,
        ),
        detail is None || detail == Some(ImageDetail::Auto) || detail == Some(ImageDetail::Original)
            ==> (res matches Ok(r) && r == PromptImageMode::ResponsesLiteOriginal),
{
    match detail {
        None => Ok(PromptImageMode::ResponsesLiteOriginal),
        Some(ImageDetail::Auto) => Ok(PromptImageMode::ResponsesLiteOriginal),
        Some(ImageDetail::Original) => Ok(PromptImageMode::ResponsesLiteOriginal),
        Some(ImageDetail::High) => Ok(PromptImageMode::ResizeToFit),
        Some(ImageDetail::Low) => Err(ResponsesCodexStrictImagePreparationError::UnsupportedLowDetail),
    }
}


/// `load` may give back `r` when asked to load the image at `url` in `mode`.
pub open spec fn loader_may_return<F>(
    load: F,
    url: Seq<char>,
    mode: PromptImageMode,
    r: Result<EncodedImage, ImageProcessingError>,
) -> bool where
    F: Fn(&str, PromptImageMode) -> Result<EncodedImage, ImageProcessingError>,
 {
    exists|s: &str| s@ == url && #[trigger] call_ensures(load, (s, mode), r)
}

/// `load` can be called on any URL and mode, and every image it gives back can
/// be encoded as a `data:` URL without the length overflowing `usize`.
pub open spec fn is_image_loader<F>(load: F) -> bool where
    F: Fn(&str, PromptImageMode) -> Result<EncodedImage, ImageProcessingError>,
 {
    &&& forall|s: &str, m: PromptImageMode| #[trigger] call_requires(load, (s, m))
    &&& forall|s: &str, m: PromptImageMode, r: Result<EncodedImage, ImageProcessingError>|
        #[trigger] call_ensures(load, (s, m), r) ==> (r matches Ok(img) ==> base64_padded_len(
            img.bytes@.len() as int,
        ) <= usize::MAX)
}

/// One strict-mode preparation of the image `(url, detail)` turned it into
/// `(new_url, new_detail)` with result `res`: a URL that is not a `data:` URL
/// is refused with its preview, `low` detail is refused, and otherwise the
/// image is loaded in the mode its detail asks for, its URL replaced by the
/// loaded image's `data:` URL and its detail cleared. A refused image is left
/// as it was.
pub open spec fn strict_image_prepared<F>(
    load: F,
    url: String,
    detail: Option<ImageDetail>,
    new_url: String,
    new_detail: Option<ImageDetail>,
    res: PrepResult,
) -> bool where
    F: Fn(&str, PromptImageMode) -> Result<EncodedImage, ImageProcessingError>,
 {
    if !spec_is_data_url(url@) {
        &&& res matches Err(
            ResponsesCodexStrictImagePreparationError::NonDataUrl { image_url_preview },
        ) && image_url_preview@ == url_preview(url@)
        &&& new_url == url
        &&& new_detail == detail
    } else {
        match strict_prompt_image_mode(detail) {
            None => {
                &&& res matches Err(ResponsesCodexStrictImagePreparationError::UnsupportedLowDetail)
                &&& new_url == url
                &&& new_detail == detail
            },
            Some(m) => exists|r: Result<EncodedImage, ImageProcessingError>|
                #[trigger] loader_may_return(load, url@, m, r) && match r {
                    Ok(img) => {
                        &&& res is Ok
                        &&& new_url@ == spec_data_url(img.mime@, img.bytes@)
                        &&& new_detail is None
                    },
                    Err(e) => {
                        &&& res == Err::<(), ResponsesCodexStrictImagePreparationError>(
                            ResponsesCodexStrictImagePreparationError::ImageProcessing(e),
                        )
                        &&& new_url == url
                        &&& new_detail == detail
                    },
                },
        }
    }
}

/// Prepares one image for strict mode, as [`strict_image_prepared`] says.
pub fn prepare_image_url_for_responses_codex_strict_mode<F>(
    image_url: &mut String,
    detail: &mut Option<ImageDetail>,
    load: &F,
) -> (res: PrepResult) where
    F: Fn(&str, PromptImageMode) -> Result<EncodedImage, ImageProcessingError>,

    requires
        is_image_loader(*load),
    ensures
        strict_image_prepared(
            *load,
            *old(image_url),
            *old(detail),
            *final(image_url),
            *final(detail),
            res,
        ),
{
    if !is_data_url(image_url.as_str()) {
        let url_len = image_url.as_str().unicode_len();
        let preview_len = if url_len < 128 {
            url_len
        } else {
            128
        };
        let image_url_preview = image_url.as_str().substring_char(0, preview_len).to_owned();
        proof {
            assert(image_url_preview@ =~= url_preview(image_url@));
        }
        return Err(ResponsesCodexStrictImagePreparationError::NonDataUrl { image_url_preview });
    }
    let mode = match prompt_image_mode_for_responses_codex_strict_detail(*detail) {
        Ok(mode) => mode,
        Err(err) => {
            return Err(err);
        },
    };
    let loaded = load(image_url.as_str(), mode);
    proof {
        assert(loader_may_return(*load, image_url@, mode, loaded));
    }
    match loaded {
        Ok(image) => {
            *image_url = image.into_data_url();
            *detail = None;
            Ok(())
        },
        Err(err) => Err(ResponsesCodexStrictImagePreparationError::from(err)),
    }
}


/// The fallback pass leaves alone an image that is already a `data:` URL
/// without a detail.
pub open spec fn skips_image(mode: PreparationMode, url: Seq<char>, detail: Option<ImageDetail>) -> bool {
    &&& mode == PreparationMode::UnpreparedImagesOnly
    &&& detail is None
    &&& spec_is_data_url(url)
}

/// One pass in `mode` turned the image `(url, detail)` into
/// `(new_url, new_detail)` with result `res`: a skipped image is kept as it is,
/// every other image is prepared as [`strict_image_prepared`] says.
pub open spec fn image_prepared<F>(
    load: F,
    mode: PreparationMode,
    url: String,
    detail: Option<ImageDetail>,
    new_url: String,
    new_detail: Option<ImageDetail>,
    res: PrepResult,
) -> bool where
    F: Fn(&str, PromptImageMode) -> Result<EncodedImage, ImageProcessingError>,
 {
    if skips_image(mode, url@, detail) {
        &&& res is Ok
        &&& new_url == url
        &&& new_detail == detail
    } else {
        strict_image_prepared(load, url, detail, new_url, new_detail, res)
    }
}

/// Prepares one image in `mode`, as [`image_prepared`] says.
pub fn prepare_image_url_if_needed<F>(
    image_url: &mut String,
    detail: &mut Option<ImageDetail>,
    mode: PreparationMode,
    load: &F,
) -> (res: PrepResult) where
    F: Fn(&str, PromptImageMode) -> Result<EncodedImage, ImageProcessingError>,

    requires
        is_image_loader(*load),
    ensures
        image_prepared(*load, mode, *old(image_url), *old(detail), *final(image_url), *final(detail), res),
{
    if mode == PreparationMode::UnpreparedImagesOnly && detail.is_none() && is_data_url(
        image_url.as_str(),
    ) {
        return Ok(());
    }
    prepare_image_url_for_responses_codex_strict_mode(image_url, detail, load)
}

/// A pass turned the items `old` into `new` with result `res`, `step` saying
/// what a pass does to a single item: on success every item took its step
/// successfully; on failure some item `k` failed with that error, the items
/// before it took their step successfully and the items after it are untouched.
pub open spec fn items_prepared<T>(
    old: Seq<T>,
    new: Seq<T>,
    res: PrepResult,
    step: spec_fn(T, T, PrepResult) -> bool,
) -> bool {
    &&& new.len() == old.len()
    &&& match res {
        Ok(_) => forall|i: int| #![trigger new[i]] 0 <= i < old.len() ==> step(old[i], new[i], res),
        Err(_) => exists|k: int|
            #![trigger new[k]]
            {
                &&& 0 <= k < old.len()
                &&& step(old[k], new[k], res)
                &&& forall|i: int|
                    #![trigger new[i]]
                    0 <= i < k ==> step(old[i], new[i], Ok(()))
                &&& forall|i: int| #![trigger new[i]] k < i < old.len() ==> new[i] == old[i]
            },
    }
}

/// What a pass in `mode` does to one content item of a message: an input
/// image is prepared as [`image_prepared`] says, anything else is kept.
pub open spec fn content_item_prepared<F>(
    load: F,
    mode: PreparationMode,
    old: ContentItem,
    new: ContentItem,
    res: PrepResult,
) -> bool where
    F: Fn(&str, PromptImageMode) -> Result<EncodedImage, ImageProcessingError>,
 {
    match old {
        ContentItem::InputImage { image_url, detail } => match new {
            ContentItem::InputImage { image_url: new_url, detail: new_detail } => image_prepared(
                load,
                mode,
                image_url,
                detail,
                new_url,
                new_detail,
                res,
            ),
            _ => false,
        },
        _ => new == old && res is Ok,
    }
}

/// Prepares the input images of a message's content, in order, stopping at
/// the first failure.
pub fn prepare_content_items<F>(
    items: &mut Vec<ContentItem>,
    mode: PreparationMode,
    load: &F,
) -> (res: PrepResult) where
    F: Fn(&str, PromptImageMode) -> Result<EncodedImage, ImageProcessingError>,

    requires
        is_image_loader(*load),
    ensures
        items_prepared(
            old(items)@,
            final(items)@,
            res,
            |o: ContentItem, n: ContentItem, r: PrepResult| content_item_prepared(*load, mode, o, n, r),
        ),
{
    let ghost old_items = items@;
    let ghost step = |o: ContentItem, n: ContentItem, r: PrepResult| content_item_prepared(*load, mode, o, n, r);
    let mut i: usize = 0;
    while i < items.len()
        invariant
            is_image_loader(*load),
            old_items == old(items)@,
            step == (|o: ContentItem, n: ContentItem, r: PrepResult| content_item_prepared(*load, mode, o, n, r)),
            items@.len() == old_items.len(),
            0 <= i <= items@.len(),
            forall|j: int| #![trigger items@[j]] 0 <= j < i ==> step(old_items[j], items@[j], Ok(())),
            forall|j: int| #![trigger items@[j]] i <= j < items@.len() ==> items@[j] == old_items[j],
        decreases items@.len() - i,
    {
        let item = &mut items[i];
        let r = match item {
            ContentItem::InputImage { image_url, detail } => prepare_image_url_if_needed(
                image_url,
                detail,
                mode,
                load,
            ),
            _ => Ok(()),
        };
        if r.is_err() {
            assert(step(old_items[i as int], items@[i as int], r));
            return r;
        }
        i = i + 1;
    }
    Ok(())
}


/// What a pass in `mode` does to one content item of a function call output:
/// an input image is prepared as [`image_prepared`] says, text is kept.
pub open spec fn output_content_item_prepared<F>(
    load: F,
    mode: PreparationMode,
    old: FunctionCallOutputContentItem,
    new: FunctionCallOutputContentItem,
    res: PrepResult,
) -> bool where
    F: Fn(&str, PromptImageMode) -> Result<EncodedImage, ImageProcessingError>,
 {
    match old {
        FunctionCallOutputContentItem::InputImage { image_url, detail } => match new {
            FunctionCallOutputContentItem::InputImage {
                image_url: new_url,
                detail: new_detail,
            } => image_prepared(load, mode, image_url, detail, new_url, new_detail, res),
            _ => false,
        },
        _ => new == old && res is Ok,
    }
}

/// Prepares the input images of a function call output, in order, stopping at
/// the first failure.
pub fn prepare_function_call_output_content_items<F>(
    items: &mut Vec<FunctionCallOutputContentItem>,
    mode: PreparationMode,
    load: &F,
) -> (res: PrepResult) where
    F: Fn(&str, PromptImageMode) -> Result<EncodedImage, ImageProcessingError>,

    requires
        is_image_loader(*load),
    ensures
        items_prepared(
            old(items)@,
            final(items)@,
            res,
            |o: FunctionCallOutputContentItem, n: FunctionCallOutputContentItem, r: PrepResult|
                output_content_item_prepared(*load, mode, o, n, r),
        ),
{
    let ghost old_items = items@;
    let ghost step = |o: FunctionCallOutputContentItem, n: FunctionCallOutputContentItem, r: PrepResult|
        output_content_item_prepared(*load, mode, o, n, r);
    let mut i: usize = 0;
    while i < items.len()
        invariant
            is_image_loader(*load),
            old_items == old(items)@,
            step == (|o: FunctionCallOutputContentItem, n: FunctionCallOutputContentItem, r: PrepResult|
                output_content_item_prepared(*load, mode, o, n, r)),
            items@.len() == old_items.len(),
            0 <= i <= items@.len(),
            forall|j: int| #![trigger items@[j]] 0 <= j < i ==> step(old_items[j], items@[j], Ok(())),
            forall|j: int| #![trigger items@[j]] i <= j < items@.len() ==> items@[j] == old_items[j],
        decreases items@.len() - i,
    {
        let item = &mut items[i];
        let r = match item {
            FunctionCallOutputContentItem::InputImage { image_url, detail } => prepare_image_url_if_needed(
                image_url,
                detail,
                mode,
                load,
            ),
            _ => Ok(()),
        };
        if r.is_err() {
            assert(step(old_items[i as int], items@[i as int], r));
            return r;
        }
        i = i + 1;
    }
    Ok(())
}

/// What a pass in `mode` does to the payload of a function call output: a list
/// of content items is prepared item by item, a text body is kept.
pub open spec fn payload_prepared<F>(
    load: F,
    mode: PreparationMode,
    old: FunctionCallOutputPayload,
    new: FunctionCallOutputPayload,
    res: PrepResult,
) -> bool where
    F: Fn(&str, PromptImageMode) -> Result<EncodedImage, ImageProcessingError>,
 {
    &&& new.success == old.success
    &&& match old.body {
        FunctionCallOutputBody::ContentItems(items) => match new.body {
            FunctionCallOutputBody::ContentItems(new_items) => items_prepared(
                items@,
                new_items@,
                res,
                |o: FunctionCallOutputContentItem, n: FunctionCallOutputContentItem, r: PrepResult|
                    output_content_item_prepared(load, mode, o, n, r),
            ),
            _ => false,
        },
        FunctionCallOutputBody::Text(_) => new.body == old.body && res is Ok,
    }
}

/// What a pass in `mode` does to one item of the history: the content of a
/// message and the payload of a function or custom tool call output are
/// prepared, every other field and every other item is kept.
pub open spec fn response_item_prepared<F>(
    load: F,
    mode: PreparationMode,
    old: ResponseItem,
    new: ResponseItem,
    res: PrepResult,
) -> bool where
    F: Fn(&str, PromptImageMode) -> Result<EncodedImage, ImageProcessingError>,
 {
    match old {
        ResponseItem::Message { id, role, content, phase } => match new {
            ResponseItem::Message { id: new_id, role: new_role, content: new_content, phase: new_phase } => {
                &&& new_id == id
                &&& new_role == role
                &&& new_phase == phase
                &&& items_prepared(
                    content@,
                    new_content@,
                    res,
                    |o: ContentItem, n: ContentItem, r: PrepResult| content_item_prepared(load, mode, o, n, r),
                )
            },
            _ => false,
        },
        ResponseItem::FunctionCallOutput { call_id, output } => match new {
            ResponseItem::FunctionCallOutput { call_id: new_call_id, output: new_output } => {
                &&& new_call_id == call_id
                &&& payload_prepared(load, mode, output, new_output, res)
            },
            _ => false,
        },
        ResponseItem::CustomToolCallOutput { call_id, output } => match new {
            ResponseItem::CustomToolCallOutput { call_id: new_call_id, output: new_output } => {
                &&& new_call_id == call_id
                &&& payload_prepared(load, mode, output, new_output, res)
            },
            _ => false,
        },
        _ => new == old && res is Ok,
    }
}

/// Prepares the images of one item of the history in `mode`, as
/// [`response_item_prepared`] says.
pub fn prepare_response_item<F>(item: &mut ResponseItem, mode: PreparationMode, load: &F) -> (res:
    PrepResult) where
    F: Fn(&str, PromptImageMode) -> Result<EncodedImage, ImageProcessingError>,

    requires
        is_image_loader(*load),
    ensures
        response_item_prepared(*load, mode, *old(item), *final(item), res),
{
    match item {
        ResponseItem::Message { content, .. } => prepare_content_items(content, mode, load),
        ResponseItem::FunctionCallOutput { output, .. } => {
            if let Some(content_items) = output.content_items_mut() {
                prepare_function_call_output_content_items(content_items, mode, load)
            } else {
                Ok(())
            }
        },
        ResponseItem::CustomToolCallOutput { output, .. } => {
            if let Some(content_items) = output.content_items_mut() {
                prepare_function_call_output_content_items(content_items, mode, load)
            } else {
                Ok(())
            }
        },
        ResponseItem::FunctionCall { .. } => Ok(()),
        ResponseItem::CustomToolCall { .. } => Ok(()),
        ResponseItem::Other => Ok(()),
    }
}


/// A pass in `mode` turned the history `old` into `new` with result `res`:
/// items are prepared in order, and the first failure stops the pass, leaving
/// the items before it prepared and the items after it untouched.
pub open spec fn history_prepared<F>(
    load: F,
    mode: PreparationMode,
    old: Seq<ResponseItem>,
    new: Seq<ResponseItem>,
    res: PrepResult,
) -> bool where
    F: Fn(&str, PromptImageMode) -> Result<EncodedImage, ImageProcessingError>,
 {
    items_prepared(
        old,
        new,
        res,
        |o: ResponseItem, n: ResponseItem, r: PrepResult| response_item_prepared(load, mode, o, n, r),
    )
}

/// Prepares the images of every item of the history in `mode`, in order,
/// stopping at the first failure.
pub fn prepare_response_items<F>(items: &mut Vec<ResponseItem>, mode: PreparationMode, load: &F) -> (res:
    PrepResult) where
    F: Fn(&str, PromptImageMode) -> Result<EncodedImage, ImageProcessingError>,

    requires
        is_image_loader(*load),
    ensures
        history_prepared(*load, mode, old(items)@, final(items)@, res),
{
    let ghost old_items = items@;
    let ghost step = |o: ResponseItem, n: ResponseItem, r: PrepResult| response_item_prepared(*load, mode, o, n, r);
    let mut i: usize = 0;
    while i < items.len()
        invariant
            is_image_loader(*load),
            old_items == old(items)@,
            step == (|o: ResponseItem, n: ResponseItem, r: PrepResult| response_item_prepared(*load, mode, o, n, r)),
            items@.len() == old_items.len(),
            0 <= i <= items@.len(),
            forall|j: int| #![trigger items@[j]] 0 <= j < i ==> step(old_items[j], items@[j], Ok(())),
            forall|j: int| #![trigger items@[j]] i <= j < items@.len() ==> items@[j] == old_items[j],
        decreases items@.len() - i,
    {
        let r = prepare_response_item(&mut items[i], mode, load);
        if r.is_err() {
            assert(step(old_items[i as int], items@[i as int], r));
            return r;
        }
        i = i + 1;
    }
    Ok(())
}

/// Prepares every image of the history for the Responses API strict mode.
pub fn prepare_response_items_for_responses_codex_strict_mode<F>(
    items: &mut Vec<ResponseItem>,
    load: &F,
) -> (res: PrepResult) where
    F: Fn(&str, PromptImageMode) -> Result<EncodedImage, ImageProcessingError>,

    requires
        is_image_loader(*load),
    ensures
        history_prepared(*load, PreparationMode::AllImages, old(items)@, final(items)@, res),
{
    prepare_response_items(items, PreparationMode::AllImages, load)
}

/// Prepares the images of the history that are not prepared yet, for a
/// request that falls back to strict mode: images that are already `data:`
/// URLs without a detail are kept as they are.
pub fn prepare_response_items_for_responses_codex_strict_mode_request_fallback<F>(
    items: &mut Vec<ResponseItem>,
    load: &F,
) -> (res: PrepResult) where
    F: Fn(&str, PromptImageMode) -> Result<EncodedImage, ImageProcessingError>,

    requires
        is_image_loader(*load),
    ensures
        history_prepared(
            *load,
            PreparationMode::UnpreparedImagesOnly,
            old(items)@,
            final(items)@,
            res,
        ),
{
    prepare_response_items(items, PreparationMode::UnpreparedImagesOnly, load)
}


/// An image is prepared for strict mode when it is a `data:` URL without a detail.
pub open spec fn image_is_prepared(url: Seq<char>, detail: Option<ImageDetail>) -> bool {
    detail is None && spec_is_data_url(url)
}

/// Every input image among `items` is prepared.
pub open spec fn content_items_are_prepared(items: Seq<ContentItem>) -> bool {
    forall|i: int|
        #![trigger items[i]]
        0 <= i < items.len() ==> (items[i] matches ContentItem::InputImage { image_url, detail }
            ==> image_is_prepared(image_url@, detail))
}

/// Every input image among `items` is prepared.
pub open spec fn output_content_items_are_prepared(items: Seq<FunctionCallOutputContentItem>) -> bool {
    forall|i: int|
        #![trigger items[i]]
        0 <= i < items.len() ==> (items[i] matches FunctionCallOutputContentItem::InputImage {
            image_url,
            detail,
        } ==> image_is_prepared(image_url@, detail))
}

/// Every input image of the payload is prepared.
pub open spec fn payload_is_prepared(payload: FunctionCallOutputPayload) -> bool {
    payload.body matches FunctionCallOutputBody::ContentItems(items)
        ==> output_content_items_are_prepared(items@)
}

/// Every input image of the item is prepared.
pub open spec fn response_item_is_prepared(item: ResponseItem) -> bool {
    match item {
        ResponseItem::Message { content, .. } => content_items_are_prepared(content@),
        ResponseItem::FunctionCallOutput { output, .. } => payload_is_prepared(output),
        ResponseItem::CustomToolCallOutput { output, .. } => payload_is_prepared(output),
        _ => true,
    }
}

/// Every input image of the history is prepared.
pub open spec fn history_is_prepared(items: Seq<ResponseItem>) -> bool {
    forall|i: int| #![trigger items[i]] 0 <= i < items.len() ==> response_item_is_prepared(items[i])
}

/// The two payloads hold the same values, their content item lists compared by
/// their elements.
pub open spec fn same_payload(a: FunctionCallOutputPayload, b: FunctionCallOutputPayload) -> bool {
    &&& a.success == b.success
    &&& match a.body {
        FunctionCallOutputBody::ContentItems(items) => b.body matches FunctionCallOutputBody::ContentItems(
            other,
        ) && other@ == items@,
        FunctionCallOutputBody::Text(_) => b.body == a.body,
    }
}

/// The two items hold the same values, their lists compared by their elements.
pub open spec fn same_response_item(a: ResponseItem, b: ResponseItem) -> bool {
    match a {
        ResponseItem::Message { id, role, content, phase } => b matches ResponseItem::Message {
            id: other_id,
            role: other_role,
            content: other_content,
            phase: other_phase,
        } && other_id == id && other_role == role && other_phase == phase && other_content@
            == content@,
        ResponseItem::FunctionCallOutput { call_id, output } => b matches ResponseItem::FunctionCallOutput {
            call_id: other_call_id,
            output: other_output,
        } && other_call_id == call_id && same_payload(output, other_output),
        ResponseItem::CustomToolCallOutput { call_id, output } => b matches ResponseItem::CustomToolCallOutput {
            call_id: other_call_id,
            output: other_output,
        } && other_call_id == call_id && same_payload(output, other_output),
        _ => b == a,
    }
}

/// The two histories hold the same items.
pub open spec fn same_history(a: Seq<ResponseItem>, b: Seq<ResponseItem>) -> bool {
    &&& a.len() == b.len()
    &&& forall|i: int| #![trigger b[i]] 0 <= i < a.len() ==> same_response_item(a[i], b[i])
}

} // verus!
