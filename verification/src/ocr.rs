use vstd::prelude::*;

use crate::bitmap::Bitmap;
use crate::error::Error;

verus! {

#[verifier::external_type_specification]
#[verifier::external_body]
pub struct ExModel(rten::Model);

#[verifier::external_type_specification]
#[verifier::external_body]
pub struct ExOcrEngine(ocrs::OcrEngine);

#[verifier::external_type_specification]
#[verifier::external_body]
pub struct ExOcrInput(ocrs::OcrInput);

#[verifier::external_type_specification]
#[verifier::external_body]
pub struct ExImageSource<'a>(ocrs::ImageSource<'a>);

#[verifier::external_type_specification]
#[verifier::external_body]
pub struct ExRotatedRect(rten_imageproc::RotatedRect);

/// Whether a byte blob parses as a serialized neural-network model. Parsing
/// reads nothing but the blob, so this is a function of the bytes.
pub uninterp spec fn parses_as_model(data: Seq<u8>) -> bool;

/// Relies on rten's `Model::load`, which parses a serialized neural-network
/// model from a byte blob and depends on nothing but the blob;
/// `parses_as_model` names whether it succeeds.
#[verifier::external_body]
fn load_model(data: Vec<u8>) -> (r: Result<rten::Model, Error>)
    ensures
        r is Ok <==> parses_as_model(data@),
        r matches Err(e) ==> e == Error::ModelLoadError,
{
    rten::Model::load(data).map_err(|_| Error::ModelLoadError)
}

/// Relies on ocrs' `OcrEngine::new`, which builds a recognition engine from a
/// text-detection model and a text-recognition model, with the library's
/// default decoding configuration.
#[verifier::external_body]
fn engine_new(detection: rten::Model, recognition: rten::Model) -> (r: Result<
    ocrs::OcrEngine,
    Error,
>)
    ensures
        r matches Err(e) ==> e == Error::EngineInitError,
{
    let mut params = ocrs::OcrEngineParams::default();
    params.detection_model = Some(detection);
    params.recognition_model = Some(recognition);
    ocrs::OcrEngine::new(params).map_err(|_| Error::EngineInitError)
}

/// Relies on ocrs' `ImageSource::from_bytes` over a row-major byte buffer:
/// with a nonzero pixel count that fits its 32-bit arithmetic and exactly
/// four bytes per pixel, the layout is accepted as an RGBA image.
#[verifier::external_body]
fn image_source_from_bytes<'a>(bytes: &'a [u8], width: u32, height: u32) -> (r: Result<
    ocrs::ImageSource<'a>,
    Error,
>)
    requires
        1 <= width * height <= u32::MAX,
        bytes@.len() == width * height * 4,
    ensures
        r matches Ok(_),
{
    ocrs::ImageSource::from_bytes(bytes, (width, height)).map_err(|_| Error::InvalidImageSource)
}

/// Relies on ocrs' `OcrEngine::prepare_input`, which normalizes the image
/// into the engine's internal tensor form.
#[verifier::external_body]
fn prepare_input(engine: &ocrs::OcrEngine, source: ocrs::ImageSource<'_>) -> (r: Result<
    ocrs::OcrInput,
    Error,
>)
    ensures
        r matches Err(e) ==> e == Error::InputPreparationError,
{
    engine.prepare_input(source).map_err(|_| Error::InputPreparationError)
}

/// Relies on ocrs' `OcrEngine::detect_words`, which runs the detection model
/// and returns the oriented bounding rectangle of each detected word, in no
/// particular order.
#[verifier::external_body]
fn detect_words(engine: &ocrs::OcrEngine, input: &ocrs::OcrInput) -> (r: Result<
    Vec<rten_imageproc::RotatedRect>,
    Error,
>)
    ensures
        r matches Err(e) ==> e == Error::WordDetectionError,
{
    engine.detect_words(input).map_err(|_| Error::WordDetectionError)
}

/// Relies on ocrs' `OcrEngine::find_text_lines`, a geometric grouping of word
/// rectangles into lines in reading order, with no model inference. Every
/// group it builds starts from a word, so none is empty.
#[verifier::external_body]
fn find_text_lines(
    engine: &ocrs::OcrEngine,
    input: &ocrs::OcrInput,
    words: &Vec<rten_imageproc::RotatedRect>,
) -> (r: Vec<Vec<rten_imageproc::RotatedRect>>)
    ensures
        forall|i: int| 0 <= i < r@.len() ==> (#[trigger] r@[i])@.len() >= 1,
{
    engine.find_text_lines(input, words)
}

/// Relies on ocrs' `OcrEngine::recognize_text`, which runs the recognition
/// model over each non-empty line region: one entry per input region, in the
/// input order (it re-sorts its batched results by input index), each either
/// the region's recognized text or nothing, when that line yielded no text.
/// It reads each region's bounding rectangle, so a region without words is
/// excluded.
#[verifier::external_body]
fn recognize_text(
    engine: &ocrs::OcrEngine,
    input: &ocrs::OcrInput,
    lines: &Vec<Vec<rten_imageproc::RotatedRect>>,
) -> (r: Result<Vec<Option<String>>, Error>)
    requires
        forall|i: int| 0 <= i < lines@.len() ==> (#[trigger] lines@[i])@.len() >= 1,
    ensures
        r matches Ok(v) ==> v@.len() == lines@.len(),
        r matches Err(e) ==> e == Error::LineRecognitionError,
{
    match engine.recognize_text(input, lines) {
        Ok(texts) => Ok(texts.into_iter().map(|t| t.map(|l| l.to_string())).collect()),
        Err(_) => Err(Error::LineRecognitionError),
    }
}

/// The texts of the lines that were recognized at all, in line order.
pub open spec fn present(raw: Seq<Option<Seq<char>>>) -> Seq<Seq<char>>
    decreases raw.len(),
{
    if raw.len() == 0 {
        Seq::empty()
    } else {
        let rest = present(raw.drop_last());
        match raw.last() {
            Some(t) => rest.push(t),
            None => rest,
        }
    }
}

/// Drop the absent entries of a per-line recognition result, keeping the
/// recognized texts in line order.
pub fn present_lines(raw: &Vec<Option<String>>) -> (r: Vec<String>)
    ensures
        r.deep_view() == present(raw.deep_view()),
{
    let ghost rv = raw.deep_view();
    let mut r: Vec<String> = Vec::new();
    let mut idx: usize = 0;
    proof {
        assert(rv.take(0int) =~= Seq::<Option<Seq<char>>>::empty());
        assert(r.deep_view() =~= present(rv.take(0int)));
    }
    while idx < raw.len()
        invariant
            idx <= raw@.len(),
            rv == raw.deep_view(),
            rv.len() == raw@.len(),
            r.deep_view() == present(rv.take(idx as int)),
        decreases raw@.len() - idx,
    {
        let ghost prev = r.deep_view();
        match &raw[idx] {
            Some(line) => {
                r.push(line.clone());
                proof {
                    assert(r.deep_view() =~= prev.push(line@));
                }
            },
            None => {},
        }
        proof {
            assert(rv.take(idx as int + 1).drop_last() =~= rv.take(idx as int));
            assert(rv.take(idx as int + 1).last() == rv[idx as int]);
        }
        idx = idx + 1;
    }
    proof {
        assert(rv.take(raw@.len() as int) =~= rv);
    }
    r
}

/// The pixel count of a bitmap.
pub open spec fn pixel_count(bitmap: &Bitmap) -> int {
    bitmap.spec_width() * bitmap.spec_height()
}

/// OCR Recognition Adapter: load both model blobs, build the engine, wrap the
/// bitmap as an image source, then detect words, group them into lines and
/// recognize each line; the result is every recognized line's text in the
/// engine's reading order, absent lines omitted. Each stage that fails keeps
/// its own error: a model error comes exactly when a blob does not parse, an
/// invalid image source exactly when both blobs parse but the pixel count is
/// zero or beyond the engine's 32-bit arithmetic — except that the engine may
/// still reject the parsed models first — and the later stages are reached
/// only with parsed models and an in-range pixel count.
pub fn recognize(bitmap: &Bitmap, detection_model: Vec<u8>, recognition_model: Vec<u8>) -> (r:
    Result<Vec<String>, Error>)
    requires
        bitmap.wf(),
    ensures
        r matches Err(e) ==> (e == Error::ModelLoadError || e == Error::EngineInitError || e
            == Error::InvalidImageSource || e == Error::InputPreparationError || e
            == Error::WordDetectionError || e == Error::LineRecognitionError),
        (r matches Err(e) && e == Error::ModelLoadError) <==> (!parses_as_model(detection_model@)
            || !parses_as_model(recognition_model@)),
        r matches Err(e) && e == Error::EngineInitError ==> parses_as_model(detection_model@)
            && parses_as_model(recognition_model@),
        r matches Err(e) && e == Error::InvalidImageSource ==> (parses_as_model(detection_model@)
            && parses_as_model(recognition_model@) && (pixel_count(bitmap) == 0 || pixel_count(
            bitmap,
        ) > u32::MAX)),
        (pixel_count(bitmap) == 0 || pixel_count(bitmap) > u32::MAX) && parses_as_model(
            detection_model@,
        ) && parses_as_model(recognition_model@) ==> (r matches Err(e) && (e
            == Error::EngineInitError || e == Error::InvalidImageSource)),
        r matches Err(e) && (e == Error::InputPreparationError || e == Error::WordDetectionError
            || e == Error::LineRecognitionError) ==> (parses_as_model(detection_model@)
            && parses_as_model(recognition_model@) && 1 <= pixel_count(bitmap) <= u32::MAX),
        r matches Ok(_) ==> (parses_as_model(detection_model@) && parses_as_model(
            recognition_model@,
        ) && 1 <= pixel_count(bitmap) <= u32::MAX),
{
    let detection = match load_model(detection_model) {
        Ok(m) => m,
        Err(e) => {
            return Err(e);
        },
    };
    let recognition = match load_model(recognition_model) {
        Ok(m) => m,
        Err(e) => {
            return Err(e);
        },
    };
    let engine = match engine_new(detection, recognition) {
        Ok(en) => en,
        Err(e) => {
            return Err(e);
        },
    };
    let width = bitmap.width();
    let height = bitmap.height();
    proof {
        vstd::arithmetic::mul::lemma_mul_upper_bound(
            width as int,
            u32::MAX as int,
            height as int,
            u32::MAX as int,
        );
    }
    let pixels: u64 = (width as u64) * (height as u64);
    if pixels == 0 || pixels > u32::MAX as u64 {
        return Err(Error::InvalidImageSource);
    }
    let source = match image_source_from_bytes(bitmap.data().as_slice(), width, height) {
        Ok(s) => s,
        Err(e) => {
            return Err(e);
        },
    };
    let input = match prepare_input(&engine, source) {
        Ok(i) => i,
        Err(e) => {
            return Err(e);
        },
    };
    let words = match detect_words(&engine, &input) {
        Ok(w) => w,
        Err(e) => {
            return Err(e);
        },
    };
    let lines = find_text_lines(&engine, &input, &words);
    let texts = match recognize_text(&engine, &input, &lines) {
        Ok(t) => t,
        Err(e) => {
            return Err(e);
        },
    };
    Ok(present_lines(&texts))
}

} // verus!
