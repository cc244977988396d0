use vstd::prelude::*;

verus! {

/// Everything that can go wrong between pressing a trigger and seeing a
/// result: clipboard access, bitmap validation, barcode detection, and each
/// stage of the OCR pipeline. Every failure is recoverable; the handler logs
/// it and leaves the UI field untouched.
#[derive(Clone, Copy, Debug, PartialEq, Eq, Structural)]
pub enum Error {
    /// The platform clipboard could not be opened.
    ClipboardUnavailable,
    /// The clipboard holds no image data.
    NoImageInClipboard,
    /// The clipboard image's width or height does not fit a 32-bit pixel count.
    InvalidDimensions,
    /// The clipboard byte buffer disagrees with width x height x 4.
    BufferSizeMismatch,
    /// The barcode detector itself failed.
    DetectionFailed,
    /// The barcode detector ran but found no symbol.
    NoSymbolFound,
    /// A model blob could not be parsed.
    ModelLoadError,
    /// The OCR engine rejected its configuration.
    EngineInitError,
    /// The bitmap could not be wrapped as an OCR image source.
    InvalidImageSource,
    /// The OCR engine could not normalize the image source.
    InputPreparationError,
    /// Word-level text detection failed.
    WordDetectionError,
    /// The whole line-recognition batch failed.
    LineRecognitionError,
}

} // verus!
