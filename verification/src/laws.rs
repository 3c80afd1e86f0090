//! Properties of the strict-mode preparation that hold across calls.

use vstd::prelude::*;

use crate::data_url::{chars_eq_ignore_ascii_case, data_url_prefix, spec_is_data_url};
use crate::image::{
    base64_standard_encoding, spec_data_url, EncodedImage, ImageProcessingError, PromptImageMode,
};
use crate::models::{
    ContentItem, FunctionCallOutputBody, FunctionCallOutputContentItem,
    FunctionCallOutputPayload, ImageDetail, ResponseItem,
};
use crate::strict::{
    content_item_prepared, content_items_are_prepared, history_is_prepared, history_prepared,
    image_is_prepared, image_prepared, items_prepared, output_content_item_prepared,
    output_content_items_are_prepared, payload_is_prepared, payload_prepared, PrepResult,
    PreparationMode, ResponsesCodexStrictImagePreparationError, response_item_is_prepared,
    response_item_prepared, same_history, same_payload, same_response_item, url_preview,
    loader_may_return,
};

verus! {

/// A URL built as `data:<mime>;base64,<payload>` is recognized as a `data:` URL.
pub proof fn lemma_data_url_is_data_url(mime: Seq<char>, bytes: Seq<u8>)
    ensures
        spec_is_data_url(spec_data_url(mime, bytes)),
{
    let url = spec_data_url(mime, bytes);
    assert forall|i: int| 0 <= i < data_url_prefix().len() implies chars_eq_ignore_ascii_case(
        #[trigger] url[i],
        data_url_prefix()[i],
    ) by {
        assert(url[i] == data_url_prefix()[i]);
    }
}

/// Whether a URL is a `data:` URL depends only on its first five characters,
/// each compared without regard to ASCII case.
pub proof fn lemma_data_url_ignores_ascii_case(a: Seq<char>, b: Seq<char>)
    requires
        a.len() >= 5,
        b.len() >= 5,
        forall|i: int| 0 <= i < 5 ==> chars_eq_ignore_ascii_case(#[trigger] a[i], b[i]),
    ensures
        spec_is_data_url(a) == spec_is_data_url(b),
{
    if spec_is_data_url(a) {
        assert forall|i: int| 0 <= i < data_url_prefix().len() implies chars_eq_ignore_ascii_case(
            #[trigger] b[i],
            data_url_prefix()[i],
        ) by {
            assert(chars_eq_ignore_ascii_case(a[i], b[i]));
            assert(chars_eq_ignore_ascii_case(a[i], data_url_prefix()[i]));
        }
    }
    if spec_is_data_url(b) {
        assert forall|i: int| 0 <= i < data_url_prefix().len() implies chars_eq_ignore_ascii_case(
            #[trigger] a[i],
            data_url_prefix()[i],
        ) by {
            assert(chars_eq_ignore_ascii_case(a[i], b[i]));
            assert(chars_eq_ignore_ascii_case(b[i], data_url_prefix()[i]));
        }
    }
}

/// An image that a pass prepared without error is a `data:` URL without a detail.
pub proof fn lemma_successful_image_is_prepared<F>(
    load: F,
    mode: PreparationMode,
    url: String,
    detail: Option<ImageDetail>,
    new_url: String,
    new_detail: Option<ImageDetail>,
) where
    F: Fn(&str, PromptImageMode) -> Result<EncodedImage, ImageProcessingError>,

    requires
        image_prepared(load, mode, url, detail, new_url, new_detail, Ok(())),
    ensures
        image_is_prepared(new_url@, new_detail),
{
    assert forall|mime: Seq<char>, bytes: Seq<u8>| #[trigger]
        spec_is_data_url(spec_data_url(mime, bytes)) by {
        lemma_data_url_is_data_url(mime, bytes);
    }
}


proof fn lemma_successful_content_items_are_prepared<F>(
    load: F,
    mode: PreparationMode,
    old: Seq<ContentItem>,
    new: Seq<ContentItem>,
) where
    F: Fn(&str, PromptImageMode) -> Result<EncodedImage, ImageProcessingError>,

    requires
        items_prepared(
            old,
            new,
            Ok(()),
            |o: ContentItem, n: ContentItem, r: PrepResult| content_item_prepared(load, mode, o, n, r),
        ),
    ensures
        content_items_are_prepared(new),
{
    assert forall|i: int| 0 <= i < new.len() implies (#[trigger] new[i] matches ContentItem::InputImage {
        image_url,
        detail,
    } ==> image_is_prepared(image_url@, detail)) by {
        assert(content_item_prepared(load, mode, old[i], new[i], Ok(())));
        if let ContentItem::InputImage { image_url, detail } = old[i] {
            if let ContentItem::InputImage { image_url: new_url, detail: new_detail } = new[i] {
                lemma_successful_image_is_prepared(load, mode, image_url, detail, new_url, new_detail);
            }
        }
    }
}

proof fn lemma_successful_output_content_items_are_prepared<F>(
    load: F,
    mode: PreparationMode,
    old: Seq<FunctionCallOutputContentItem>,
    new: Seq<FunctionCallOutputContentItem>,
) where
    F: Fn(&str, PromptImageMode) -> Result<EncodedImage, ImageProcessingError>,

    requires
        items_prepared(
            old,
            new,
            Ok(()),
            |o: FunctionCallOutputContentItem, n: FunctionCallOutputContentItem, r: PrepResult|
                output_content_item_prepared(load, mode, o, n, r),
        ),
    ensures
        output_content_items_are_prepared(new),
{
    assert forall|i: int| 0 <= i < new.len() implies (#[trigger] new[i] matches FunctionCallOutputContentItem::InputImage {
        image_url,
        detail,
    } ==> image_is_prepared(image_url@, detail)) by {
        assert(output_content_item_prepared(load, mode, old[i], new[i], Ok(())));
        if let FunctionCallOutputContentItem::InputImage { image_url, detail } = old[i] {
            if let FunctionCallOutputContentItem::InputImage {
                image_url: new_url,
                detail: new_detail,
            } = new[i] {
                lemma_successful_image_is_prepared(load, mode, image_url, detail, new_url, new_detail);
            }
        }
    }
}

proof fn lemma_successful_payload_is_prepared<F>(
    load: F,
    mode: PreparationMode,
    old: FunctionCallOutputPayload,
    new: FunctionCallOutputPayload,
) where
    F: Fn(&str, PromptImageMode) -> Result<EncodedImage, ImageProcessingError>,

    requires
        payload_prepared(load, mode, old, new, Ok(())),
    ensures
        payload_is_prepared(new),
{
    if let FunctionCallOutputBody::ContentItems(items) = old.body {
        if let FunctionCallOutputBody::ContentItems(new_items) = new.body {
            lemma_successful_output_content_items_are_prepared(load, mode, items@, new_items@);
        }
    }
}

/// After a pass that succeeds, in either mode, every input image of the
/// history is a `data:` URL without a detail.
pub proof fn lemma_successful_pass_prepares_every_image<F>(
    load: F,
    mode: PreparationMode,
    old: Seq<ResponseItem>,
    new: Seq<ResponseItem>,
) where
    F: Fn(&str, PromptImageMode) -> Result<EncodedImage, ImageProcessingError>,

    requires
        history_prepared(load, mode, old, new, Ok(())),
    ensures
        history_is_prepared(new),
{
    assert forall|i: int| 0 <= i < new.len() implies response_item_is_prepared(#[trigger] new[i]) by {
        assert(response_item_prepared(load, mode, old[i], new[i], Ok(())));
        match old[i] {
            ResponseItem::Message { content, .. } => {
                if let ResponseItem::Message { content: new_content, .. } = new[i] {
                    lemma_successful_content_items_are_prepared(load, mode, content@, new_content@);
                }
            },
            ResponseItem::FunctionCallOutput { output, .. } => {
                if let ResponseItem::FunctionCallOutput { output: new_output, .. } = new[i] {
                    lemma_successful_payload_is_prepared(load, mode, output, new_output);
                }
            },
            ResponseItem::CustomToolCallOutput { output, .. } => {
                if let ResponseItem::CustomToolCallOutput { output: new_output, .. } = new[i] {
                    lemma_successful_payload_is_prepared(load, mode, output, new_output);
                }
            },
            _ => {},
        }
    }
}


proof fn lemma_fallback_keeps_prepared_content_items<F>(
    load: F,
    old: Seq<ContentItem>,
    new: Seq<ContentItem>,
    res: PrepResult,
) where
    F: Fn(&str, PromptImageMode) -> Result<EncodedImage, ImageProcessingError>,

    requires
        content_items_are_prepared(old),
        items_prepared(
            old,
            new,
            res,
            |o: ContentItem, n: ContentItem, r: PrepResult|
                content_item_prepared(load, PreparationMode::UnpreparedImagesOnly, o, n, r),
        ),
    ensures
        res is Ok,
        new == old,
{
    let mode = PreparationMode::UnpreparedImagesOnly;
    if res is Err {
        let k = choose|k: int|
            #![trigger new[k]]
            {
                &&& 0 <= k < old.len()
                &&& content_item_prepared(load, mode, old[k], new[k], res)
                &&& forall|i: int|
                    #![trigger new[i]]
                    0 <= i < k ==> content_item_prepared(load, mode, old[i], new[i], Ok(()))
                &&& forall|i: int| #![trigger new[i]] k < i < old.len() ==> new[i] == old[i]
            };
    }
    assert forall|i: int| 0 <= i < old.len() implies #[trigger] new[i] == old[i] by {
        assert(content_item_prepared(load, mode, old[i], new[i], Ok(())));
    }
    assert(new =~= old);
}

proof fn lemma_fallback_keeps_prepared_output_content_items<F>(
    load: F,
    old: Seq<FunctionCallOutputContentItem>,
    new: Seq<FunctionCallOutputContentItem>,
    res: PrepResult,
) where
    F: Fn(&str, PromptImageMode) -> Result<EncodedImage, ImageProcessingError>,

    requires
        output_content_items_are_prepared(old),
        items_prepared(
            old,
            new,
            res,
            |o: FunctionCallOutputContentItem, n: FunctionCallOutputContentItem, r: PrepResult|
                output_content_item_prepared(load, PreparationMode::UnpreparedImagesOnly, o, n, r),
        ),
    ensures
        res is Ok,
        new == old,
{
    let mode = PreparationMode::UnpreparedImagesOnly;
    if res is Err {
        let k = choose|k: int|
            #![trigger new[k]]
            {
                &&& 0 <= k < old.len()
                &&& output_content_item_prepared(load, mode, old[k], new[k], res)
                &&& forall|i: int|
                    #![trigger new[i]]
                    0 <= i < k ==> output_content_item_prepared(load, mode, old[i], new[i], Ok(()))
                &&& forall|i: int| #![trigger new[i]] k < i < old.len() ==> new[i] == old[i]
            };
    }
    assert forall|i: int| 0 <= i < old.len() implies #[trigger] new[i] == old[i] by {
        assert(output_content_item_prepared(load, mode, old[i], new[i], Ok(())));
    }
    assert(new =~= old);
}

proof fn lemma_fallback_keeps_prepared_payload<F>(
    load: F,
    old: FunctionCallOutputPayload,
    new: FunctionCallOutputPayload,
    res: PrepResult,
) where
    F: Fn(&str, PromptImageMode) -> Result<EncodedImage, ImageProcessingError>,

    requires
        payload_is_prepared(old),
        payload_prepared(load, PreparationMode::UnpreparedImagesOnly, old, new, res),
    ensures
        res is Ok,
        same_payload(old, new),
{
    if let FunctionCallOutputBody::ContentItems(items) = old.body {
        if let FunctionCallOutputBody::ContentItems(new_items) = new.body {
            lemma_fallback_keeps_prepared_output_content_items(load, items@, new_items@, res);
        }
    }
}

proof fn lemma_fallback_keeps_prepared_item<F>(
    load: F,
    old: ResponseItem,
    new: ResponseItem,
    res: PrepResult,
) where
    F: Fn(&str, PromptImageMode) -> Result<EncodedImage, ImageProcessingError>,

    requires
        response_item_is_prepared(old),
        response_item_prepared(load, PreparationMode::UnpreparedImagesOnly, old, new, res),
    ensures
        res is Ok,
        same_response_item(old, new),
{
    match old {
        ResponseItem::Message { content, .. } => {
            if let ResponseItem::Message { content: new_content, .. } = new {
                lemma_fallback_keeps_prepared_content_items(load, content@, new_content@, res);
            }
        },
        ResponseItem::FunctionCallOutput { output, .. } => {
            if let ResponseItem::FunctionCallOutput { output: new_output, .. } = new {
                lemma_fallback_keeps_prepared_payload(load, output, new_output, res);
            }
        },
        ResponseItem::CustomToolCallOutput { output, .. } => {
            if let ResponseItem::CustomToolCallOutput { output: new_output, .. } = new {
                lemma_fallback_keeps_prepared_payload(load, output, new_output, res);
            }
        },
        _ => {},
    }
}

/// The request-fallback pass on a history whose images are all prepared
/// succeeds and leaves the history as it was.
pub proof fn lemma_fallback_keeps_prepared_history<F>(
    load: F,
    old: Seq<ResponseItem>,
    new: Seq<ResponseItem>,
    res: PrepResult,
) where
    F: Fn(&str, PromptImageMode) -> Result<EncodedImage, ImageProcessingError>,

    requires
        history_is_prepared(old),
        history_prepared(load, PreparationMode::UnpreparedImagesOnly, old, new, res),
    ensures
        res is Ok,
        same_history(old, new),
{
    let mode = PreparationMode::UnpreparedImagesOnly;
    if res is Err {
        let k = choose|k: int|
            #![trigger new[k]]
            {
                &&& 0 <= k < old.len()
                &&& response_item_prepared(load, mode, old[k], new[k], res)
                &&& forall|i: int|
                    #![trigger new[i]]
                    0 <= i < k ==> response_item_prepared(load, mode, old[i], new[i], Ok(()))
                &&& forall|i: int| #![trigger new[i]] k < i < old.len() ==> new[i] == old[i]
            };
        lemma_fallback_keeps_prepared_item(load, old[k], new[k], res);
    }
    assert forall|i: int| 0 <= i < old.len() implies same_response_item(old[i], #[trigger] new[i]) by {
        lemma_fallback_keeps_prepared_item(load, old[i], new[i], Ok(()));
    }
}

/// A strict pass that succeeds followed by a request-fallback pass: the second
/// pass succeeds and changes nothing.
pub proof fn lemma_fallback_after_strict_pass_changes_nothing<F>(
    load: F,
    original: Seq<ResponseItem>,
    prepared: Seq<ResponseItem>,
    again: Seq<ResponseItem>,
    res: PrepResult,
) where
    F: Fn(&str, PromptImageMode) -> Result<EncodedImage, ImageProcessingError>,

    requires
        history_prepared(load, PreparationMode::AllImages, original, prepared, Ok(())),
        history_prepared(load, PreparationMode::UnpreparedImagesOnly, prepared, again, res),
    ensures
        res is Ok,
        same_history(prepared, again),
{
    lemma_successful_pass_prepares_every_image(load, PreparationMode::AllImages, original, prepared);
    lemma_fallback_keeps_prepared_history(load, prepared, again, res);
}


/// The request-fallback pass treats every image that is not prepared yet
/// exactly as the strict pass does.
pub proof fn lemma_passes_agree_on_unprepared_images<F>(
    load: F,
    url: String,
    detail: Option<ImageDetail>,
    new_url: String,
    new_detail: Option<ImageDetail>,
    res: PrepResult,
) where
    F: Fn(&str, PromptImageMode) -> Result<EncodedImage, ImageProcessingError>,

    requires
        !(detail is None && spec_is_data_url(url@)),
    ensures
        image_prepared(load, PreparationMode::AllImages, url, detail, new_url, new_detail, res)
            == image_prepared(
            load,
            PreparationMode::UnpreparedImagesOnly,
            url,
            detail,
            new_url,
            new_detail,
            res,
        ),
{
}

/// In either pass, an image whose URL is not a `data:` URL is refused, with
/// the first 128 characters of its URL, and is left as it was.
pub proof fn lemma_non_data_url_is_refused<F>(
    load: F,
    mode: PreparationMode,
    url: String,
    detail: Option<ImageDetail>,
    new_url: String,
    new_detail: Option<ImageDetail>,
    res: PrepResult,
) where
    F: Fn(&str, PromptImageMode) -> Result<EncodedImage, ImageProcessingError>,

    requires
        !spec_is_data_url(url@),
        image_prepared(load, mode, url, detail, new_url, new_detail, res),
    ensures
        res matches Err(ResponsesCodexStrictImagePreparationError::NonDataUrl { image_url_preview })
            && image_url_preview@ == url_preview(url@) && image_url_preview@ == url@.take(
            if url@.len() <= 128 {
                url@.len() as int
            } else {
                128
            },
        ),
        new_url == url,
        new_detail == detail,
{
}

/// In either pass, a `data:` URL image that asks for `low` detail is refused
/// and left as it was.
pub proof fn lemma_low_detail_is_refused<F>(
    load: F,
    mode: PreparationMode,
    url: String,
    new_url: String,
    new_detail: Option<ImageDetail>,
    res: PrepResult,
) where
    F: Fn(&str, PromptImageMode) -> Result<EncodedImage, ImageProcessingError>,

    requires
        spec_is_data_url(url@),
        image_prepared(load, mode, url, Some(ImageDetail::Low), new_url, new_detail, res),
    ensures
        res matches Err(ResponsesCodexStrictImagePreparationError::UnsupportedLowDetail),
        new_url == url,
        new_detail == Some(ImageDetail::Low),
{
}


/// A built `data:` URL is `data:`, the MIME type, `;base64,`, then the base64
/// encoding of every one of the image's bytes.
pub proof fn lemma_data_url_carries_whole_payload(mime: Seq<char>, bytes: Seq<u8>)
    ensures
        spec_data_url(mime, bytes).take(mime.len() + 13int) == seq!['d', 'a', 't', 'a', ':'] + mime
            + seq![';', 'b', 'a', 's', 'e', '6', '4', ','],
        spec_data_url(mime, bytes).skip(mime.len() + 13int) == base64_standard_encoding(bytes),
{
    let url = spec_data_url(mime, bytes);
    assert(url.take(mime.len() + 13int) =~= seq!['d', 'a', 't', 'a', ':'] + mime + seq![
        ';',
        'b',
        'a',
        's',
        'e',
        '6',
        '4',
        ',',
    ]);
    assert(url.skip(mime.len() + 13int) =~= base64_standard_encoding(bytes));
}

/// In the strict pass, a `data:` URL image whose detail is not `low` is loaded
/// (high detail resized to fit, any other detail, or none, within the
/// original-detail budget); when the loader gives back `img` for it, the pass
/// succeeds, the URL becomes `data:<img.mime>;base64,<base64 of img.bytes>` and
/// the detail is cleared, whether or not the image had a detail before.
pub proof fn lemma_strict_pass_uses_loaded_image<F>(
    load: F,
    url: String,
    detail: Option<ImageDetail>,
    load_mode: PromptImageMode,
    img: EncodedImage,
    new_url: String,
    new_detail: Option<ImageDetail>,
    res: PrepResult,
) where
    F: Fn(&str, PromptImageMode) -> Result<EncodedImage, ImageProcessingError>,

    requires
        spec_is_data_url(url@),
        detail != Some(ImageDetail::Low),
        detail == Some(ImageDetail::High) ==> load_mode == PromptImageMode::ResizeToFit,
        detail != Some(ImageDetail::High) ==> load_mode == PromptImageMode::ResponsesLiteOriginal,
        forall|r: Result<EncodedImage, ImageProcessingError>|
            #[trigger] loader_may_return(
                load,
                url@,
                load_mode,
                r,
            ) ==> r == Ok::<EncodedImage, ImageProcessingError>(img),
        image_prepared(load, PreparationMode::AllImages, url, detail, new_url, new_detail, res),
    ensures
        res is Ok,
        new_detail is None,
        new_url@ == seq!['d', 'a', 't', 'a', ':'] + img.mime@ + seq![
            ';',
            'b',
            'a',
            's',
            'e',
            '6',
            '4',
            ',',
        ] + base64_standard_encoding(img.bytes@),
{
    assert(spec_data_url(img.mime@, img.bytes@) =~= seq!['d', 'a', 't', 'a', ':'] + img.mime@
        + seq![';', 'b', 'a', 's', 'e', '6', '4', ','] + base64_standard_encoding(img.bytes@));
}

/// In the strict pass, a `data:` URL image whose detail is not `low` that the
/// pass prepared without error now carries the `data:` URL of an image the
/// loader can give back for it, in the mode its detail asks for, and no detail.
pub proof fn lemma_strict_success_comes_from_loaded_image<F>(
    load: F,
    url: String,
    detail: Option<ImageDetail>,
    load_mode: PromptImageMode,
    new_url: String,
    new_detail: Option<ImageDetail>,
) where
    F: Fn(&str, PromptImageMode) -> Result<EncodedImage, ImageProcessingError>,

    requires
        spec_is_data_url(url@),
        detail != Some(ImageDetail::Low),
        detail == Some(ImageDetail::High) ==> load_mode == PromptImageMode::ResizeToFit,
        detail != Some(ImageDetail::High) ==> load_mode == PromptImageMode::ResponsesLiteOriginal,
        image_prepared(load, PreparationMode::AllImages, url, detail, new_url, new_detail, Ok(())),
    ensures
        new_detail is None,
        exists|img: EncodedImage|
            #[trigger] loader_may_return(
                load,
                url@,
                load_mode,
                Ok::<EncodedImage, ImageProcessingError>(img),
            ) && new_url@ == seq!['d', 'a', 't', 'a', ':'] + img.mime@ + seq![
                ';',
                'b',
                'a',
                's',
                'e',
                '6',
                '4',
                ',',
            ] + base64_standard_encoding(img.bytes@),
{
    let m = load_mode;
    let r = choose|r: Result<EncodedImage, ImageProcessingError>|
        #[trigger] loader_may_return(load, url@, m, r) && match r {
            Ok(img) => {
                &&& new_url@ == spec_data_url(img.mime@, img.bytes@)
                &&& new_detail is None
            },
            Err(e) => {
                &&& Ok::<(), ResponsesCodexStrictImagePreparationError>(()) == Err::<
                    (),
                    ResponsesCodexStrictImagePreparationError,
                >(ResponsesCodexStrictImagePreparationError::ImageProcessing(e))
            },
        };
    if let Ok(img) = r {
        assert(spec_data_url(img.mime@, img.bytes@) =~= seq!['d', 'a', 't', 'a', ':'] + img.mime@
            + seq![';', 'b', 'a', 's', 'e', '6', '4', ','] + base64_standard_encoding(img.bytes@));
    }
}

/// In either pass, when an image that the pass loads (a `data:` URL whose
/// detail is not `low`, and not a detail-less one in the fallback pass) can
/// only fail to load with `e`, the pass fails with that error and leaves the
/// image's URL and detail as they were, whatever the detail.
pub proof fn lemma_loader_failure_is_reported<F>(
    load: F,
    mode: PreparationMode,
    url: String,
    detail: Option<ImageDetail>,
    load_mode: PromptImageMode,
    e: ImageProcessingError,
    new_url: String,
    new_detail: Option<ImageDetail>,
    res: PrepResult,
) where
    F: Fn(&str, PromptImageMode) -> Result<EncodedImage, ImageProcessingError>,

    requires
        spec_is_data_url(url@),
        detail != Some(ImageDetail::Low),
        detail == Some(ImageDetail::High) ==> load_mode == PromptImageMode::ResizeToFit,
        detail != Some(ImageDetail::High) ==> load_mode == PromptImageMode::ResponsesLiteOriginal,
        !(mode == PreparationMode::UnpreparedImagesOnly && detail is None),
        forall|r: Result<EncodedImage, ImageProcessingError>|
            #[trigger] loader_may_return(
                load,
                url@,
                load_mode,
                r,
            ) ==> r == Err::<EncodedImage, ImageProcessingError>(e),
        image_prepared(load, mode, url, detail, new_url, new_detail, res),
    ensures
        res == Err::<(), ResponsesCodexStrictImagePreparationError>(
            ResponsesCodexStrictImagePreparationError::ImageProcessing(e),
        ),
        new_url == url,
        new_detail == detail,
{
}


/// The request-fallback pass keeps an image that is already a `data:` URL
/// without a detail exactly as it is, and succeeds on it.
pub proof fn lemma_fallback_keeps_prepared_image<F>(
    load: F,
    url: String,
    new_url: String,
    new_detail: Option<ImageDetail>,
    res: PrepResult,
) where
    F: Fn(&str, PromptImageMode) -> Result<EncodedImage, ImageProcessingError>,

    requires
        spec_is_data_url(url@),
        image_prepared(load, PreparationMode::UnpreparedImagesOnly, url, None, new_url, new_detail, res),
    ensures
        res is Ok,
        new_url == url,
        new_detail is None,
{
}

} // verus!
