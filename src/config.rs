//! User settings of the capture and display sides.

use vstd::prelude::*;

verus! {

/// Which output to capture.
#[derive(Clone, Debug)]
pub struct Capture {
    /// Name of the output; the earliest announced output when absent.
    pub output_name: Option<String>,
}

impl Default for Capture {
    fn default() -> (r: Self)
        ensures
            r.output_name is None,
    {
        Capture { output_name: None }
    }
}

/// Where and how the stereo view is shown.
#[derive(Clone, Debug)]
pub struct Glasses {
    /// Name of the monitor of the glasses; the first one when absent.
    pub monitor_name: Option<String>,
    /// Show in a plain window instead of full screen.
    pub window_mode: bool,
}

impl Default for Glasses {
    fn default() -> (r: Self)
        ensures
            r.monitor_name is None,
            !r.window_mode,
    {
        Glasses { monitor_name: None, window_mode: false }
    }
}

} // verus!
