use std::sync::atomic::{AtomicBool, Ordering};

use drawio_filter::cache::{output_format_of, OutputFormat};
use drawio_filter::drawio::{evaluate_outcome, evaluate_precheck, evaluate_probe, DrawioConverter};
use drawio_filter::errors::FilterError;
use drawio_filter::runner::{ProcessOutput, ProcessRunner};

/// A process runner for tests: fixed answers, no real processes. The output
/// file "appears" once `run` was called, when `produce_output` says so.
pub struct StubRunner {
    pub input_exists: bool,
    pub output_preexists: bool,
    pub remove_ok: bool,
    pub spawn_ok: bool,
    pub produce_output: bool,
    pub exit_code: Option<i32>,
    pub stdout: Vec<u8>,
    pub ran: AtomicBool,
}

impl StubRunner {
    pub fn happy() -> Self {
        StubRunner {
            input_exists: true,
            output_preexists: false,
            remove_ok: true,
            spawn_ok: true,
            produce_output: true,
            exit_code: Some(0),
            stdout: Vec::new(),
            ran: AtomicBool::new(false),
        }
    }
}

impl ProcessRunner for StubRunner {
    fn path_exists(&self, path: &String) -> bool {
        if path.ends_with(".drawio") {
            self.input_exists
        } else if self.ran.load(Ordering::SeqCst) {
            self.produce_output
        } else {
            self.output_preexists
        }
    }

    fn remove_file(&self, _path: &String) -> bool {
        self.remove_ok
    }

    fn run(&self, _program: &String, _args: &Vec<String>) -> Result<ProcessOutput, String> {
        if !self.spawn_ok {
            return Err(String::from("spawn failed"));
        }
        self.ran.store(true, Ordering::SeqCst);
        Ok(ProcessOutput { exit_code: self.exit_code, stdout: self.stdout.clone() })
    }
}

#[test]
fn format_mapping_table() {
    assert_eq!(output_format_of(&String::from("pdf")), Some(OutputFormat::Pdf));
    assert_eq!(output_format_of(&String::from("latex")), Some(OutputFormat::Pdf));
    assert_eq!(output_format_of(&String::from("context")), Some(OutputFormat::Pdf));
    assert_eq!(output_format_of(&String::from("html")), Some(OutputFormat::Svg));
    assert_eq!(output_format_of(&String::from("html5")), Some(OutputFormat::Svg));
    assert_eq!(output_format_of(&String::from("html4")), Some(OutputFormat::Svg));
    assert_eq!(output_format_of(&String::from("docx")), None);
    assert_eq!(output_format_of(&String::from("HTML5")), None);
}

#[test]
fn failing_probe_is_tool_unavailable() {
    let mut runner = StubRunner::happy();
    runner.spawn_ok = false;
    let r = DrawioConverter::new(&runner, &None, &String::from("drawio"));
    assert!(matches!(r, Err(FilterError::ToolUnavailable(_))));
}

#[test]
fn probe_checks_the_wrapper_too() {
    let mut runner = StubRunner::happy();
    runner.spawn_ok = false;
    let r = DrawioConverter::new(
        &runner,
        &Some(String::from("xvfb-run")),
        &String::from("drawio"),
    );
    assert!(matches!(r, Err(FilterError::ToolUnavailable(p)) if p == "xvfb-run"));
}

#[test]
fn command_line_without_wrapper() {
    let runner = StubRunner::happy();
    let conv = DrawioConverter::new(&runner, &None, &String::from("/opt/drawio")).unwrap();
    let (program, args) = conv.build_command(
        &String::from("d.drawio"),
        &String::from("d.svg"),
        OutputFormat::Svg,
    );
    assert_eq!(program, "/opt/drawio");
    assert_eq!(
        args,
        vec![
            String::from("--crop"),
            String::from("-x"),
            String::from("-o"),
            String::from("d.svg"),
            String::from("-f"),
            String::from("svg"),
            String::from("d.drawio"),
            String::from("--no-sandbox"),
            String::from("--disable-gpu"),
            String::from("--disable-dev-shm-usage"),
        ]
    );
}

#[test]
fn command_line_under_wrapper() {
    let runner = StubRunner::happy();
    let conv = DrawioConverter::new(
        &runner,
        &Some(String::from("xvfb-run")),
        &String::from("drawio"),
    )
    .unwrap();
    let (program, args) = conv.build_command(
        &String::from("d.drawio"),
        &String::from("d.pdf"),
        OutputFormat::Pdf,
    );
    assert_eq!(program, "xvfb-run");
    assert_eq!(args[0], "drawio");
    assert_eq!(args[1], "--crop");
    assert_eq!(args[5], "-f");
    assert_eq!(args[6], "pdf");
    assert_eq!(args[7], "d.drawio");
    assert_eq!(args.len(), 11);
}

#[test]
fn missing_input_is_input_not_found() {
    let mut runner = StubRunner::happy();
    runner.input_exists = false;
    let conv = DrawioConverter::new(&runner, &None, &String::from("drawio")).unwrap();
    let r = conv.convert_to(
        &runner,
        &String::from("d.drawio"),
        &String::from("d.svg"),
        OutputFormat::Svg,
    );
    assert!(matches!(r, Err(FilterError::InputNotFound(p)) if p == "d.drawio"));
}

#[test]
fn stale_output_that_cannot_be_removed_fails() {
    let runner = StubRunner::happy();
    let conv = DrawioConverter::new(&runner, &None, &String::from("drawio")).unwrap();
    let mut blocked = StubRunner::happy();
    blocked.output_preexists = true;
    blocked.remove_ok = false;
    let r = conv.convert_to(
        &blocked,
        &String::from("d.drawio"),
        &String::from("d.svg"),
        OutputFormat::Svg,
    );
    assert!(matches!(r, Err(FilterError::OutputCleanupFailed(p)) if p == "d.svg"));
}

#[test]
fn exit_code_133_means_no_display() {
    let runner = StubRunner::happy();
    let conv = DrawioConverter::new(&runner, &None, &String::from("drawio")).unwrap();
    let mut no_display = StubRunner::happy();
    no_display.exit_code = Some(133);
    let r = conv.convert_to(
        &no_display,
        &String::from("d.drawio"),
        &String::from("d.svg"),
        OutputFormat::Svg,
    );
    assert!(matches!(r, Err(FilterError::DisplayUnavailable)));
}

#[test]
fn signal_death_means_no_display() {
    let r = evaluate_outcome(None, &String::from("d.svg"), true, String::new());
    assert!(matches!(r, Err(FilterError::DisplayUnavailable)));
}

#[test]
fn missing_output_fails_with_captured_stdout() {
    let runner = StubRunner::happy();
    let conv = DrawioConverter::new(&runner, &None, &String::from("drawio")).unwrap();
    let mut silent = StubRunner::happy();
    silent.produce_output = false;
    silent.stdout = b"renderer said something".to_vec();
    let r = conv.convert_to(
        &silent,
        &String::from("d.drawio"),
        &String::from("d.svg"),
        OutputFormat::Svg,
    );
    assert!(matches!(
        r,
        Err(FilterError::ConversionProducedNoOutput(p, s))
            if p == "d.svg" && s == "renderer said something"
    ));
}

#[test]
fn nonzero_exit_code_alone_is_not_a_failure() {
    let r = evaluate_outcome(Some(1), &String::from("d.svg"), true, String::new());
    assert!(matches!(r, Ok(())));
}

#[test]
fn probe_invocation_is_the_help_flag() {
    assert_eq!(DrawioConverter::probe_args(), vec![String::from("--help")]);
}

#[test]
fn successful_conversion_is_ok() {
    let runner = StubRunner::happy();
    let conv = DrawioConverter::new(&runner, &None, &String::from("drawio")).unwrap();
    let worker = StubRunner::happy();
    let r = conv.convert_to(
        &worker,
        &String::from("d.drawio"),
        &String::from("d.svg"),
        OutputFormat::Svg,
    );
    assert!(matches!(r, Ok(())));
}

#[test]
fn non_utf8_stdout_becomes_the_placeholder() {
    let runner = StubRunner::happy();
    let conv = DrawioConverter::new(&runner, &None, &String::from("drawio")).unwrap();
    let mut silent = StubRunner::happy();
    silent.produce_output = false;
    silent.stdout = vec![0xff, 0xfe, 0x80];
    let r = conv.convert_to(
        &silent,
        &String::from("d.drawio"),
        &String::from("d.svg"),
        OutputFormat::Svg,
    );
    assert!(matches!(
        r,
        Err(FilterError::ConversionProducedNoOutput(p, s))
            if p == "d.svg" && s == "--non-utf8 output--"
    ));
}

#[test]
fn precheck_judges_the_probes_exactly() {
    let input = String::from("d.drawio");
    let output = String::from("d.svg");
    assert!(evaluate_precheck(true, false, true, &input, &output).is_none());
    assert!(evaluate_precheck(true, true, true, &input, &output).is_none());
    let missing = evaluate_precheck(false, false, true, &input, &output);
    assert!(matches!(missing, Some(FilterError::InputNotFound(p)) if p == "d.drawio"));
    let blocked = evaluate_precheck(true, true, false, &input, &output);
    assert!(matches!(blocked, Some(FilterError::OutputCleanupFailed(p)) if p == "d.svg"));
    assert!(evaluate_probe(true, &String::from("drawio")).is_none());
    let failed = evaluate_probe(false, &String::from("xvfb-run"));
    assert!(matches!(failed, Some(FilterError::ToolUnavailable(p)) if p == "xvfb-run"));
}
