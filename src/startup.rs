use vstd::prelude::*;

verus! {

/// Whether one run of the startup hook opens the developer inspector: only
/// in a debug build, only the first time the hook runs, and only when the
/// main window is there to open it on.
pub open spec fn opens_inspector(has_run: bool, debug_build: bool, main_window_present: bool) -> bool {
    !has_run && debug_build && main_window_present
}

/// How many times the inspector is opened when the hook, starting from
/// `has_run`, is run once for each entry of `windows` (whether the main
/// window was present on that run), in a build whose debug flag is
/// `debug_build`.
pub open spec fn inspector_openings(has_run: bool, debug_build: bool, windows: Seq<bool>) -> nat
    decreases windows.len(),
{
    if windows.len() == 0 {
        0
    } else {
        let now: nat = if opens_inspector(has_run, debug_build, windows[0]) {
            1
        } else {
            0
        };
        now + inspector_openings(true, debug_build, windows.drop_first())
    }
}

/// The decision half of the host's setup hook. The host runs the hook and
/// performs the action; this type decides whether there is one.
pub struct StartupHook {
    ran: bool,
}

impl StartupHook {
    /// Whether the hook has already run in this process.
    pub closed spec fn has_run(&self) -> bool {
        self.ran
    }

    /// A hook that has not run yet, as at process start.
    pub fn new() -> (r: Self)
        ensures
            !r.has_run(),
    {
        StartupHook { ran: false }
    }

    /// Runs the hook: returns whether the host should now open the developer
    /// inspector on the main window. A missing window skips the action
    /// silently; either way the hook has run afterwards.
    pub fn on_setup(&mut self, debug_build: bool, main_window_present: bool) -> (open: bool)
        ensures
            open == opens_inspector(old(self).has_run(), debug_build, main_window_present),
            final(self).has_run(),
    {
        let open = !self.ran && debug_build && main_window_present;
        self.ran = true;
        open
    }
}

/// Once a hook has run, no later run opens the inspector.
proof fn no_opening_after_first_run(debug_build: bool, windows: Seq<bool>)
    ensures
        inspector_openings(true, debug_build, windows) == 0,
    decreases windows.len(),
{
    if windows.len() > 0 {
        no_opening_after_first_run(debug_build, windows.drop_first());
    }
}

/// From process start, however often the hook is run, the inspector is
/// opened at most once.
pub proof fn inspector_opened_at_most_once(debug_build: bool, windows: Seq<bool>)
    ensures
        inspector_openings(false, debug_build, windows) <= 1,
{
    if windows.len() > 0 {
        no_opening_after_first_run(debug_build, windows.drop_first());
    }
}

/// In a release build the inspector is never opened, whatever state the
/// hook is in and however often it is run.
pub proof fn inspector_never_opened_in_release(has_run: bool, windows: Seq<bool>)
    ensures
        inspector_openings(has_run, false, windows) == 0,
    decreases windows.len(),
{
    if windows.len() > 0 {
        inspector_never_opened_in_release(true, windows.drop_first());
    }
}

} // verus!
