//! Batch image-format conversion: resolution of a format token, output
//! naming, the per-file decode / transform / encode pipeline, and the text of
//! the desktop "Convert to ..." integrations.
pub mod text;
pub mod format;
pub mod codec;
pub mod batch;
pub mod shell;
