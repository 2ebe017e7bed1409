use vstd::prelude::*;

verus! {

/// The failures of the document filter, one variant per pipeline stage.
///
/// Every variant but `DisplayUnavailable` carries the context of the failure
/// (the offending path, format string, or a diagnostic message).
#[derive(Debug)]
pub enum FilterError {
    /// The command line asked for something impossible.
    ConfigurationError(String),
    /// Probing or spawning the renderer (or its headless wrapper) failed.
    ToolUnavailable(String),
    /// The input bytes are not a well-formed document tree.
    MalformedDocument(String),
    /// The diagram file to convert does not exist.
    InputNotFound(String),
    /// A stale output file could not be removed before conversion.
    OutputCleanupFailed(String),
    /// The renderer exited in a way that signals a missing graphical display.
    DisplayUnavailable,
    /// The renderer exited without creating the output file; holds the output
    /// path that was not created and the renderer's captured stdout.
    ConversionProducedNoOutput(String, String),
    /// The requested document output format is not in the mapping table.
    UnsupportedFormat(String),
    /// A rendered output path is not valid UTF-8. Unreachable from this
    /// library, whose paths are `String`s throughout; kept so an embedding
    /// program can classify such a path at its own boundary.
    NonUtf8Path(String),
    /// The document tree could not be serialized back to the wire format.
    SerializationFailed(String),
}

/// The errors one conversion can fail with: everything a conversion policy's
/// `convert` may hand back. The run-level errors (a bad format string, a
/// malformed or unserializable document, configuration) are excluded.
pub open spec fn is_conversion_error(e: FilterError) -> bool {
    e is ToolUnavailable || e is InputNotFound || e is OutputCleanupFailed
        || e is DisplayUnavailable || e is ConversionProducedNoOutput
}

} // verus!
