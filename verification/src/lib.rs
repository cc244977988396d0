//! Clipboard screenshot recognition: an RGBA bitmap taken from the system
//! clipboard is handed to either a barcode decoder or an OCR pipeline, the
//! recognized text is filtered for a fixed numeric pattern, and the winning
//! line is written into a single UI-bound text field.
//!
//! The recognition engines themselves (neural-network OCR, barcode symbology
//! decoding, colour-to-luma conversion) are outside libraries called through
//! trusted wrappers; everything around them — bitmap validation, the numeric
//! pattern filter, symbol selection, and the field-update semantics — is
//! verified.

pub mod barcode;
pub mod bitmap;
pub mod error;
pub mod field;
pub mod filter;
pub mod ocr;
