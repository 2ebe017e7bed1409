use vstd::prelude::*;
use vstd::string::*;

use crate::drawio::DrawioConverter;
use crate::errors::{is_conversion_error, FilterError};
use crate::paths::{spec_with_extension, with_extension};
use crate::runner::ProcessRunner;

verus! {

/// The image formats a diagram can be rendered to.
#[derive(Clone, Copy, PartialEq, Eq, Structural, Debug)]
pub enum OutputFormat {
    Pdf,
    Svg,
}

/// The canonical file extension of an output format.
pub open spec fn spec_format_ext(f: OutputFormat) -> Seq<char> {
    match f {
        OutputFormat::Pdf => "pdf"@,
        OutputFormat::Svg => "svg"@,
    }
}

pub fn format_extension(f: OutputFormat) -> (r: &'static str)
    ensures
        r@ == spec_format_ext(f),
{
    match f {
        OutputFormat::Pdf => "pdf",
        OutputFormat::Svg => "svg",
    }
}

/// The fixed mapping from the document's output format string to the image
/// format a diagram is rendered to; `None` for an unsupported format.
pub open spec fn spec_output_format(fmt: Seq<char>) -> Option<OutputFormat> {
    if fmt == "pdf"@ || fmt == "latex"@ || fmt == "context"@ {
        Some(OutputFormat::Pdf)
    } else if fmt == "html"@ || fmt == "html5"@ || fmt == "html4"@ {
        Some(OutputFormat::Svg)
    } else {
        None
    }
}

pub fn output_format_of(format: &String) -> (r: Option<OutputFormat>)
    ensures
        r == spec_output_format(format@),
{
    let pdf: String = String::from_str("pdf");
    let latex: String = String::from_str("latex");
    let context: String = String::from_str("context");
    let html: String = String::from_str("html");
    let html5: String = String::from_str("html5");
    let html4: String = String::from_str("html4");
    if *format == pdf || *format == latex || *format == context {
        Some(OutputFormat::Pdf)
    } else if *format == html || *format == html5 || *format == html4 {
        Some(OutputFormat::Svg)
    } else {
        None
    }
}

/// Whether a conversion error's payload names the conversion it came from: a
/// missing input names the input path; a cleanup failure and a missing
/// output name the derived output path. The variants without a path payload
/// name nothing.
pub open spec fn error_names_conversion(
    e: FilterError,
    input: Seq<char>,
    format: OutputFormat,
) -> bool {
    &&& (e matches FilterError::InputNotFound(p) ==> p@ == input)
    &&& (e matches FilterError::OutputCleanupFailed(p) ==> p@ == spec_with_extension(
        input,
        spec_format_ext(format),
    ))
    &&& (e matches FilterError::ConversionProducedNoOutput(p, _t) ==> p@ == spec_with_extension(
        input,
        spec_format_ext(format),
    ))
}

/// A conversion policy: produce an output image for the diagram at
/// `input_path` and say where it was put. Every policy guarantees the shape
/// of the output path — the input path with its extension replaced by the
/// format's canonical one — and that a failure is a conversion-stage error
/// whose payload names this conversion's paths. Caching strategies may skip
/// the actual rendering but must keep this contract.
pub trait ConverterCache {
    fn convert(&self, input_path: &String, format: OutputFormat) -> (r: Result<
        String,
        FilterError,
    >)
        ensures
            (r matches Ok(p) ==> p@ == spec_with_extension(input_path@, spec_format_ext(format))),
            (r matches Err(e) ==> is_conversion_error(e) && error_names_conversion(
                e,
                input_path@,
                format,
            )),
    ;
}

/// The pass-through policy: always convert, never cache.
pub struct NoCacheConverter<'a, R: ProcessRunner> {
    converter: &'a DrawioConverter,
    runner: &'a R,
}

impl<'a, R: ProcessRunner> NoCacheConverter<'a, R> {
    pub closed spec fn spec_converter(&self) -> DrawioConverter {
        *self.converter
    }

    pub closed spec fn spec_runner(&self) -> R {
        *self.runner
    }

    /// Creates a policy that renders through `converter`, spawning with `runner`.
    pub fn new(converter: &'a DrawioConverter, runner: &'a R) -> (r: Self)
        ensures
            r.spec_converter() == *converter,
            r.spec_runner() == *runner,
    {
        NoCacheConverter { converter, runner }
    }
}

impl<'a, R: ProcessRunner> ConverterCache for NoCacheConverter<'a, R> {
    fn convert(&self, input_path: &String, format: OutputFormat) -> (r: Result<
        String,
        FilterError,
    >) {
        let output_path = with_extension(input_path, format_extension(format));
        match self.converter.convert_to(self.runner, input_path, &output_path, format) {
            Ok(()) => Ok(output_path),
            Err(e) => Err(e),
        }
    }
}

} // verus!
