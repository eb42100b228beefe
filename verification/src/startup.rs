//! Startup configuration parsed from command-line flags.

use vstd::prelude::*;

use crate::strings::str_eq;

verus! {

#[derive(Clone, Copy, Debug, PartialEq, Eq, Structural)]
pub enum StartupCaptureMode {
    NoCapture,
    Full,
    Region,
    Window,
}

impl Default for StartupCaptureMode {
    fn default() -> (r: Self)
        ensures
            r is NoCapture,
    {
        StartupCaptureMode::NoCapture
    }
}

#[derive(Clone, Copy, Debug, PartialEq, Eq, Structural)]
pub struct StartupConfig {
    pub capture: StartupCaptureMode,
    pub show_launchpad: bool,
}

/// The capture mode the argument list asks for: the last capture flag wins.
pub open spec fn spec_capture_mode_of(args: Seq<&str>) -> StartupCaptureMode
    decreases args.len(),
{
    if args.len() == 0 {
        StartupCaptureMode::NoCapture
    } else {
        let a = args.last()@;
        if a == "--capture-full"@ || a == "--full"@ {
            StartupCaptureMode::Full
        } else if a == "--capture-region"@ || a == "--region"@ {
            StartupCaptureMode::Region
        } else if a == "--capture-window"@ || a == "--window"@ {
            StartupCaptureMode::Window
        } else {
            spec_capture_mode_of(args.drop_last())
        }
    }
}

/// Whether the argument list asks for the launchpad.
pub open spec fn spec_show_launchpad(args: Seq<&str>) -> bool
    decreases args.len(),
{
    if args.len() == 0 {
        false
    } else {
        spec_show_launchpad(args.drop_last()) || args.last()@ == "--launchpad"@
    }
}

impl StartupConfig {
    /// Parse command-line flags (the program name already dropped).
    pub fn from_iter(args: &[&str]) -> (r: Self)
        ensures
            r.capture == spec_capture_mode_of(args@),
            r.show_launchpad == spec_show_launchpad(args@),
    {
        let mut capture = StartupCaptureMode::NoCapture;
        let mut show_launchpad = false;
        let mut i: usize = 0;
        while i < args.len()
            invariant
                i <= args@.len(),
                capture == spec_capture_mode_of(args@.subrange(0, i as int)),
                show_launchpad == spec_show_launchpad(args@.subrange(0, i as int)),
            decreases args@.len() - i,
        {
            let arg = args[i];
            if str_eq(arg, "--capture-full") || str_eq(arg, "--full") {
                capture = StartupCaptureMode::Full;
            } else if str_eq(arg, "--capture-region") || str_eq(arg, "--region") {
                capture = StartupCaptureMode::Region;
            } else if str_eq(arg, "--capture-window") || str_eq(arg, "--window") {
                capture = StartupCaptureMode::Window;
            }
            if str_eq(arg, "--launchpad") {
                show_launchpad = true;
            }
            i += 1;
            proof {
                assert(args@.subrange(0, i as int).drop_last() =~= args@.subrange(0, i as int - 1));
                assert(args@.subrange(0, i as int).last() == args@[i - 1]);
            }
        }
        proof {
            assert(args@.subrange(0, args@.len() as int) =~= args@);
        }
        StartupConfig { capture, show_launchpad }
    }
}

} // verus!
