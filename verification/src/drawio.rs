use vstd::prelude::*;
use vstd::string::*;

use crate::cache::{format_extension, spec_format_ext, OutputFormat};
use crate::errors::{is_conversion_error, FilterError};
use crate::runner::{ProcessOutput, ProcessRunner};

verus! {

/// The settings for converting a diagram file to another format: the path of
/// the renderer executable and, for headless environments, the path of a
/// display-wrapper executable the renderer is spawned under.
pub struct DrawioConverter {
    drawio_path: String,
    xvfb_run_path: Option<String>,
}

impl DrawioConverter {
    pub closed spec fn drawio_path_view(&self) -> Seq<char> {
        self.drawio_path@
    }

    pub closed spec fn xvfb_view(&self) -> Option<Seq<char>> {
        match self.xvfb_run_path {
            Some(s) => Some(s@),
            None => None,
        }
    }

    /// The program the conversion spawns: the display wrapper when one is
    /// configured, the renderer itself otherwise.
    pub open spec fn spec_program(&self) -> Seq<char> {
        match self.xvfb_view() {
            Some(x) => x,
            None => self.drawio_path_view(),
        }
    }

    /// The fixed argument contract of the renderer: crop, no GUI, explicit
    /// output path and format, the input path, and the headless-safety flags.
    /// Under a display wrapper the renderer path becomes the first argument.
    pub open spec fn spec_renderer_args(
        &self,
        input: Seq<char>,
        output: Seq<char>,
        ext: Seq<char>,
    ) -> Seq<Seq<char>> {
        let core = seq![
            "--crop"@,
            "-x"@,
            "-o"@,
            output,
            "-f"@,
            ext,
            input,
            "--no-sandbox"@,
            "--disable-gpu"@,
            "--disable-dev-shm-usage"@,
        ];
        match self.xvfb_view() {
            Some(_) => seq![self.drawio_path_view()] + core,
            None => core,
        }
    }

    /// The lightweight probe invocation handed to each executable at
    /// construction: a lone help flag.
    pub fn probe_args() -> (r: Vec<String>)
        ensures
            r@.len() == 1,
            r@[0]@ == "--help"@,
    {
        vec![String::from_str("--help")]
    }

    /// Probes both executables with the lightweight invocation and keeps
    /// their paths only when each could be spawned: fail fast, convert later.
    pub fn new<R: ProcessRunner>(
        runner: &R,
        xvfb_run_path: &Option<String>,
        drawio_path: &String,
    ) -> (r: Result<Self, FilterError>)
        ensures
            (r matches Ok(c) ==> c.drawio_path_view() == drawio_path@ && (match *xvfb_run_path {
                Some(x) => c.xvfb_view() == Some(x@),
                None => c.xvfb_view() is None,
            })),
            (r matches Err(e) ==> (e matches FilterError::ToolUnavailable(p) && (p@ == drawio_path@
                || (match *xvfb_run_path {
                    Some(x) => p@ == x@,
                    None => false,
                })))),
    {
        let help: Vec<String> = Self::probe_args();
        let xvfb_copy: Option<String> = match xvfb_run_path {
            Some(x) => {
                if let Some(e) = evaluate_probe(runner.run(x, &help).is_ok(), x) {
                    return Err(e);
                }
                Some(x.clone())
            },
            None => None,
        };
        if let Some(e) = evaluate_probe(runner.run(drawio_path, &help).is_ok(), drawio_path) {
            return Err(e);
        }
        Ok(DrawioConverter { drawio_path: drawio_path.clone(), xvfb_run_path: xvfb_copy })
    }

    /// The exact command line one conversion spawns.
    pub fn build_command(
        &self,
        input_path: &String,
        output_path: &String,
        format: OutputFormat,
    ) -> (r: (String, Vec<String>))
        ensures
            r.0@ == self.spec_program(),
            r.1@.len() == self.spec_renderer_args(
                input_path@,
                output_path@,
                spec_format_ext(format),
            ).len(),
            forall|i: int|
                0 <= i < r.1@.len() ==> r.1@[i]@ == self.spec_renderer_args(
                    input_path@,
                    output_path@,
                    spec_format_ext(format),
                )[i],
    {
        let program: String = match &self.xvfb_run_path {
            Some(x) => x.clone(),
            None => self.drawio_path.clone(),
        };
        let mut args: Vec<String> = Vec::new();
        if self.xvfb_run_path.is_some() {
            args.push(self.drawio_path.clone());
        }
        args.push(String::from_str("--crop"));
        args.push(String::from_str("-x"));
        args.push(String::from_str("-o"));
        args.push(output_path.clone());
        args.push(String::from_str("-f"));
        args.push(String::from_str(format_extension(format)));
        args.push(input_path.clone());
        args.push(String::from_str("--no-sandbox"));
        args.push(String::from_str("--disable-gpu"));
        args.push(String::from_str("--disable-dev-shm-usage"));
        (program, args)
    }

    /// One conversion: require the input, clear a stale output, spawn the
    /// renderer, and judge the outcome. No retries; every failure surfaces.
    pub fn convert_to<R: ProcessRunner>(
        &self,
        runner: &R,
        input_path: &String,
        output_path: &String,
        format: OutputFormat,
    ) -> (r: Result<(), FilterError>)
        ensures
            (r matches Err(e) ==> is_conversion_error(e)),
            (r matches Err(FilterError::InputNotFound(p)) ==> p@ == input_path@),
            (r matches Err(FilterError::OutputCleanupFailed(p)) ==> p@ == output_path@),
            (r matches Err(FilterError::ConversionProducedNoOutput(p, _t)) ==> p@ == output_path@),
    {
        let input_exists = runner.path_exists(input_path);
        let output_preexists = if input_exists {
            runner.path_exists(output_path)
        } else {
            false
        };
        let remove_ok = if input_exists && output_preexists {
            runner.remove_file(output_path)
        } else {
            true
        };
        if let Some(e) = evaluate_precheck(
            input_exists,
            output_preexists,
            remove_ok,
            input_path,
            output_path,
        ) {
            return Err(e);
        }
        let (program, args) = self.build_command(input_path, output_path, format);
        match runner.run(&program, &args) {
            Err(message) => Err(FilterError::ToolUnavailable(message)),
            Ok(out) => {
                let text = decode_stdout(out.stdout);
                evaluate_outcome(out.exit_code, output_path, runner.path_exists(output_path), text)
            },
        }
    }
}

/// The probe judgment at construction: an executable whose probe could not
/// be spawned makes the toolchain unavailable, named by its path — fail
/// fast, before any conversion work.
pub fn evaluate_probe(spawn_ok: bool, tool_path: &String) -> (r: Option<FilterError>)
    ensures
        r is None <==> spawn_ok,
        !spawn_ok ==> (r matches Some(FilterError::ToolUnavailable(p)) && p@ == tool_path@),
{
    if spawn_ok {
        None
    } else {
        Some(FilterError::ToolUnavailable(tool_path.clone()))
    }
}

/// The pre-run judgment of one conversion, before the renderer is spawned:
/// the input must exist, and a stale output must have been removed — a
/// missing input is `InputNotFound`, a stale output that could not be
/// removed is `OutputCleanupFailed`, and nothing blocks the run otherwise.
pub fn evaluate_precheck(
    input_exists: bool,
    output_preexists: bool,
    remove_ok: bool,
    input_path: &String,
    output_path: &String,
) -> (r: Option<FilterError>)
    ensures
        r is None <==> (input_exists && (!output_preexists || remove_ok)),
        !input_exists ==> (r matches Some(FilterError::InputNotFound(p)) && p@ == input_path@),
        (input_exists && output_preexists && !remove_ok) ==> (r matches Some(
            FilterError::OutputCleanupFailed(p),
        ) && p@ == output_path@),
{
    if !input_exists {
        Some(FilterError::InputNotFound(input_path.clone()))
    } else if output_preexists && !remove_ok {
        Some(FilterError::OutputCleanupFailed(output_path.clone()))
    } else {
        None
    }
}

/// The renderer does not reliably signal failure through its exit code, so
/// the outcome is judged in three steps: exit code 133 or death by signal
/// means no display was available; otherwise a missing output file means the
/// conversion silently failed, reported with the path that was not created
/// and the renderer's stdout; otherwise it succeeded.
pub fn evaluate_outcome(
    exit_code: Option<i32>,
    output_path: &String,
    output_exists: bool,
    stdout_text: String,
) -> (r: Result<(), FilterError>)
    ensures
        (exit_code is None || exit_code == Some(133i32)) ==> r == Err::<(), FilterError>(
            FilterError::DisplayUnavailable,
        ),
        (!(exit_code is None || exit_code == Some(133i32)) && !output_exists) ==> (r matches Err(
            FilterError::ConversionProducedNoOutput(p, t),
        ) && p@ == output_path@ && t@ == stdout_text@),
        (!(exit_code is None || exit_code == Some(133i32)) && output_exists) ==> r is Ok,
{
    let display_failed: bool = match exit_code {
        None => true,
        Some(c) => c == 133,
    };
    if display_failed {
        Err(FilterError::DisplayUnavailable)
    } else if !output_exists {
        Err(FilterError::ConversionProducedNoOutput(output_path.clone(), stdout_text))
    } else {
        Ok(())
    }
}

/// What `String::from_utf8` yields on these bytes: their characters when the
/// bytes are valid UTF-8, nothing otherwise — a function of the bytes alone.
pub uninterp spec fn utf8_of(bytes: Seq<u8>) -> Option<Seq<char>>;

/// The diagnostic text for captured process output: the bytes read as UTF-8
/// when they are valid, an explicit placeholder otherwise.
pub open spec fn utf8_or_placeholder(bytes: Seq<u8>) -> Seq<char> {
    match utf8_of(bytes) {
        Some(s) => s,
        None => "--non-utf8 output--"@,
    }
}

/// Relies on String::from_utf8: decodes bytes that are valid UTF-8.
#[verifier::external_body]
fn try_decode_utf8(bytes: Vec<u8>) -> (r: Option<String>)
    ensures
        match r {
            Some(s) => utf8_of(bytes@) == Some(s@),
            None => utf8_of(bytes@) is None,
        },
{
    String::from_utf8(bytes).ok()
}

/// The renderer's captured stdout as diagnostic text.
fn decode_stdout(bytes: Vec<u8>) -> (r: String)
    ensures
        r@ == utf8_or_placeholder(bytes@),
{
    match try_decode_utf8(bytes) {
        Some(s) => s,
        None => String::from_str("--non-utf8 output--"),
    }
}

} // verus!
