//! Single-instance coordination: at most one process owns the
//! user-facing window, and a later launch hands its invocation to that
//! owner and exits.
//!
//! The coordinator models the machine-wide singleton claim that the
//! shell registers at startup. Serializing all launches through it is
//! what entitles the settings store to its single-writer assumption.

use vstd::prelude::*;

verus! {

/// What a second launch carries to the primary instance.
pub struct Invocation {
    /// The new process's command-line arguments (a deep link, usually).
    pub args: Vec<String>,
    /// The new process's working directory.
    pub cwd: String,
}

/// The machine-wide singleton claim.
pub struct InstanceCoordinator {
    /// Whether some running process already owns the window.
    pub claimed: bool,
}

/// What one launch is told to do.
pub enum LaunchDecision {
    /// No instance was running: open the window and own it.
    BecomePrimary,
    /// An instance is running: hand it the invocation and terminate
    /// without creating a window.
    ForwardAndExit { forwarded: Invocation },
}

/// Whether a launch that finds the claim in state `claimed` opens a
/// window.
pub open spec fn grants_window(claimed: bool) -> bool {
    !claimed
}

/// The state of the claim after any launch: always taken.
pub open spec fn claimed_after_launch(claimed: bool) -> bool {
    true
}

impl InstanceCoordinator {
    /// The claim before any process has started.
    pub fn unclaimed() -> (c: InstanceCoordinator)
        ensures
            !c.claimed,
    {
        InstanceCoordinator { claimed: false }
    }

    /// Decide one launch: the first process becomes primary, every
    /// later one forwards its invocation — arguments and working
    /// directory intact — to the primary and exits.
    pub fn handle_launch(&mut self, invocation: Invocation) -> (d: LaunchDecision)
        ensures
            final(self).claimed == claimed_after_launch(old(self).claimed),
            grants_window(old(self).claimed) ==> d == LaunchDecision::BecomePrimary,
            !grants_window(old(self).claimed) ==> d == (LaunchDecision::ForwardAndExit {
                forwarded: invocation,
            }),
    {
        if self.claimed {
            LaunchDecision::ForwardAndExit { forwarded: invocation }
        } else {
            self.claimed = true;
            LaunchDecision::BecomePrimary
        }
    }
}

/// What the primary does with a forwarded invocation, before any
/// deep-link argument is routed.
pub struct Activation {
    /// Make the window visible.
    pub show: bool,
    /// Leave the minimized state.
    pub unminimize: bool,
    /// Take keyboard focus.
    pub focus: bool,
}

/// The primary's response to a forwarded invocation: unminimize, show
/// and focus its window, so the forwarding launch becomes visible as
/// the one running instance.
pub fn forwarded_activation() -> (a: Activation)
    ensures
        a.show,
        a.unminimize,
        a.focus,
{
    Activation { show: true, unminimize: true, focus: true }
}

/// Law: of two processes launched in succession against one machine,
/// exactly one opens a window. The first launch finds the claim free
/// and is granted the window; every launch leaves the claim taken, so
/// the second is not granted one and forwards instead (its invocation
/// reaching the primary verbatim, per
/// [`InstanceCoordinator::handle_launch`]).
pub proof fn lemma_exactly_one_window()
    ensures
        grants_window(false),
        !grants_window(claimed_after_launch(false)),
        claimed_after_launch(claimed_after_launch(false)),
{
}

} // verus!
