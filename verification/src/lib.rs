//! In-process message-interception library.
//!
//! The library holds the decision logic of a system-wide window-message hook
//! that patches the context menu of text-entry controls: parsing the
//! caller-supplied thread identifier, classifying intercepted messages,
//! matching the target window's class name, computing the identifier for an
//! appended menu entry, and driving the install/wait/uninstall lifecycle that
//! a single installer runs while every later caller signals shutdown.
//!
//! Every operating-system call (creating the named signal, installing the
//! hook, querying a class name, mutating a menu) happens outside the library;
//! the functions here take the plain values those calls produce and return
//! the plain values they need, so the whole of the decision logic is verified.

use vstd::prelude::*;

pub mod args;
pub mod classify;
pub mod lifecycle;
pub mod menu;
pub mod trampoline;

verus! {

/// Failure taxonomy of the library: each variant names the boundary at which
/// an activation, classification or patch attempt stopped.
#[derive(Clone, Copy, Debug, PartialEq, Eq, Structural)]
pub enum Fault {
    /// The thread-id text did not parse as an unsigned 32-bit integer.
    Argument,
    /// The OS could not create, wait on, or set the named shutdown signal.
    Sync,
    /// The OS rejected a hook installation.
    Hook,
    /// The window-class query reported zero characters copied.
    Query,
    /// A hook payload or menu handle was null or mis-shaped, or a menu
    /// mutation was rejected.
    Patch,
}

impl Fault {
    /// Short description for the diagnostic sink.
    pub fn describe(&self) -> (r: &'static str)
        ensures
            r@ == self.describe_spec(),
    {
        match self {
            Fault::Argument => "invalid thread id",
            Fault::Sync => "shutdown signal failure",
            Fault::Hook => "hook installation failure",
            Fault::Query => "window class query failure",
            Fault::Patch => "menu patch failure",
        }
    }

    /// The text `describe` returns for each variant.
    pub open spec fn describe_spec(self) -> Seq<char> {
        match self {
            Fault::Argument => "invalid thread id"@,
            Fault::Sync => "shutdown signal failure"@,
            Fault::Hook => "hook installation failure"@,
            Fault::Query => "window class query failure"@,
            Fault::Patch => "menu patch failure"@,
        }
    }
}

} // verus!
