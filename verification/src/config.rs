use vstd::prelude::*;

verus! {

/// The static configuration of one run, as the command line hands it over
/// once resolved: the optional headless-display wrapper, the renderer
/// executable, whether to print licensing text instead of converting, and
/// the requested document output format.
#[derive(Debug)]
pub struct Config {
    pub xvfb_run_cmd: Option<String>,
    pub drawio_cmd: String,
    pub credits: bool,
    pub format: String,
}

impl Config {
    /// Bundle the resolved command-line values.
    pub fn new(
        xvfb_run_cmd: Option<String>,
        drawio_cmd: String,
        credits: bool,
        format: String,
    ) -> (r: Self)
        ensures
            r.xvfb_run_cmd == xvfb_run_cmd,
            r.drawio_cmd == drawio_cmd,
            r.credits == credits,
            r.format == format,
    {
        Config { xvfb_run_cmd, drawio_cmd, credits, format }
    }
}

} // verus!
