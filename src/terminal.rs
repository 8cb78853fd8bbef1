use vstd::prelude::*;

verus! {

/// Who owns the terminal: the application, or a child process.
#[derive(Clone, Copy, Debug, PartialEq, Eq, Structural)]
pub enum TerminalMode {
    Interactive,
    Released,
}

/// The application's display could not be brought back; nothing drawn afterwards can be trusted.
#[derive(Clone, Debug)]
pub struct TerminalRestoreError {
    pub message: String,
}

/// The mode after handing the terminal to a child.
pub open spec fn mode_after_release(m: TerminalMode) -> TerminalMode {
    TerminalMode::Released
}

/// The mode after trying to take the terminal back; `ok` tells whether the display came back.
pub open spec fn mode_after_restore(m: TerminalMode, ok: bool) -> TerminalMode {
    if ok {
        TerminalMode::Interactive
    } else {
        m
    }
}

/// Releasing the terminal and then restoring it without failure leaves the
/// application in control again.
pub proof fn lemma_release_then_restore(m: TerminalMode)
    requires
        m == TerminalMode::Interactive,
    ensures
        mode_after_restore(mode_after_release(m), true) == TerminalMode::Interactive,
{
}

/// The application's hold on the terminal.
#[derive(Debug)]
pub struct TerminalSession {
    pub mode: TerminalMode,
}

impl TerminalSession {
    pub fn new() -> (r: TerminalSession)
        ensures
            r.mode == TerminalMode::Interactive,
    {
        TerminalSession { mode: TerminalMode::Interactive }
    }

    /// Tears the application's display down through `teardown` and hands the terminal over.
    pub fn release<D>(&mut self, teardown: D)
        where
            D: FnOnce(),
        requires
            old(self).mode == TerminalMode::Interactive,
            teardown.requires(()),
        ensures
            final(self).mode == mode_after_release(old(self).mode),
    {
        teardown();
        self.mode = TerminalMode::Released;
    }

    /// Brings the application's display back through `reinit`; on failure the
    /// terminal stays released and the failure is handed back.
    pub fn restore<R>(&mut self, reinit: R) -> (r: Result<(), TerminalRestoreError>)
        where
            R: FnOnce() -> Result<(), TerminalRestoreError>,
        requires
            reinit.requires(()),
        ensures
            reinit.ensures((), r),
            final(self).mode == mode_after_restore(old(self).mode, r is Ok),
    {
        let r = reinit();
        if r.is_ok() {
            self.mode = TerminalMode::Interactive;
        }
        r
    }
}

} // verus!
