use vstd::prelude::*;
use vstd::string::*;

use crate::handle::SidecarHandle;
use crate::logline::{LogLine, Severity};

verus! {

/// What one delivery of the shutdown signal asks for.
#[derive(Debug)]
pub enum ShutdownAction<C> {
    /// The worker was taken out of the handle: terminate it, after the
    /// handle's lock has been released.
    Kill(C),
    /// The handle was already empty: report that there is nothing to kill.
    NothingToKill,
}

/// One delivery of the shutdown signal to a handle whose content is `h`: the
/// content afterwards, and the action.
pub open spec fn shutdown_step<C>(h: Option<C>) -> (Option<C>, ShutdownAction<C>) {
    match h {
        Some(c) => (None, ShutdownAction::Kill(c)),
        None => (None, ShutdownAction::NothingToKill),
    }
}

/// The content of the handle after `n` deliveries.
pub open spec fn after_deliveries<C>(h: Option<C>, n: nat) -> Option<C>
    decreases n,
{
    if n == 0 {
        h
    } else {
        after_deliveries(shutdown_step(h).0, (n - 1) as nat)
    }
}

/// The action of delivery number `k`, counted from 0.
pub open spec fn delivery_action<C>(h: Option<C>, k: nat) -> ShutdownAction<C> {
    shutdown_step(after_deliveries(h, k)).1
}

/// How many of the first `n` deliveries terminate a worker.
pub open spec fn kill_count<C>(h: Option<C>, n: nat) -> nat
    decreases n,
{
    if n == 0 {
        0
    } else {
        kill_count(h, (n - 1) as nat) + if delivery_action(h, (n - 1) as nat) is Kill {
            1nat
        } else {
            0nat
        }
    }
}

/// Handles one delivery of the shutdown signal: takes the worker out of the
/// handle if it is there. Called with the handle's lock held; the kill itself
/// is left to the caller, outside the lock.
pub fn on_shutdown<C>(handle: &mut SidecarHandle<C>) -> (a: ShutdownAction<C>)
    ensures
        (final(handle)@, a) == shutdown_step(old(handle)@),
{
    match handle.take() {
        Some(c) => ShutdownAction::Kill(c),
        None => ShutdownAction::NothingToKill,
    }
}

/// The text logged when the shutdown signal arrives.
pub open spec fn shutdown_notice_text() -> Seq<char> {
    "Main window destroyed. Attempting to kill sidecar..."@
}

/// The text logged when a delivery finds the handle empty.
pub open spec fn nothing_to_kill_text() -> Seq<char> {
    "No sidecar process found to kill."@
}

/// The log line for the outcome of a kill: success, or the reason it failed.
pub open spec fn kill_report_spec(outcome: Result<(), Seq<char>>) -> (Severity, Seq<char>) {
    match outcome {
        Ok(()) => (Severity::Info, "Sidecar killed."@),
        Err(e) => (Severity::Error, "Failed to kill sidecar: "@ + e),
    }
}

/// The line logged when the shutdown signal arrives.
pub fn shutdown_notice() -> (l: LogLine)
    ensures
        l@ == (Severity::Info, shutdown_notice_text()),
{
    LogLine { severity: Severity::Info, text: String::from_str("Main window destroyed. Attempting to kill sidecar...") }
}

/// The line logged when a delivery finds no worker; this is no error.
pub fn nothing_to_kill() -> (l: LogLine)
    ensures
        l@ == (Severity::Info, nothing_to_kill_text()),
{
    LogLine { severity: Severity::Info, text: String::from_str("No sidecar process found to kill.") }
}

/// The line logged for the outcome of a kill. A failure is only logged: it
/// never reaches the caller or the user.
pub fn kill_report(outcome: &Result<(), String>) -> (l: LogLine)
    ensures
        l@ == kill_report_spec(match outcome {
            Ok(()) => Ok(()),
            Err(e) => Err(e@),
        }),
{
    match outcome {
        Ok(()) => LogLine { severity: Severity::Info, text: String::from_str("Sidecar killed.") },
        Err(e) => LogLine {
            severity: Severity::Error,
            text: String::from_str("Failed to kill sidecar: ").concat(e.as_str()),
        },
    }
}

/// After any delivery the handle is empty, whatever it held.
proof fn lemma_empty_after<C>(h: Option<C>, n: nat)
    requires
        n >= 1,
    ensures
        after_deliveries(h, n) is None,
    decreases n,
{
    assert(after_deliveries(shutdown_step(h).0, 0) == shutdown_step(h).0);
    if n > 1 {
        lemma_empty_after(shutdown_step(h).0, (n - 1) as nat);
    }
}

/// An empty handle never leads to a kill.
proof fn lemma_no_kill_from_empty<C>(n: nat)
    ensures
        kill_count(None::<C>, n) == 0,
        forall|k: nat| k < n ==> #[trigger] delivery_action(None::<C>, k) is NothingToKill,
    decreases n,
{
    if n > 0 {
        lemma_no_kill_from_empty::<C>((n - 1) as nat);
        lemma_after_empty_is_empty::<C>((n - 1) as nat);
    }
    assert forall|k: nat| k < n implies #[trigger] delivery_action(None::<C>, k) is NothingToKill by {
        lemma_after_empty_is_empty::<C>(k);
    }
}

proof fn lemma_after_empty_is_empty<C>(k: nat)
    ensures
        after_deliveries(None::<C>, k) is None,
    decreases k,
{
    if k > 0 {
        lemma_after_empty_is_empty::<C>((k - 1) as nat);
    }
}

/// However often the shutdown signal is delivered to a handle that holds a
/// worker, that worker is killed exactly once, by the first delivery; every
/// later delivery finds the handle empty and only reports that.
pub proof fn lemma_idempotent_kill<C>(c: C, n: nat)
    requires
        n >= 1,
    ensures
        kill_count(Some(c), n) == 1,
        delivery_action(Some(c), 0) == ShutdownAction::Kill(c),
        forall|k: nat| 1 <= k < n ==> #[trigger] delivery_action(Some(c), k) is NothingToKill,
        after_deliveries(Some(c), n) is None,
    decreases n,
{
    lemma_empty_after(Some(c), n);
    assert forall|k: nat| 1 <= k < n implies #[trigger] delivery_action(Some(c), k) is NothingToKill by {
        lemma_empty_after(Some(c), k);
    }
    assert(after_deliveries(Some(c), 0) == Some(c));
    assert(kill_count(Some(c), 0) == 0);
    if n > 1 {
        lemma_idempotent_kill(c, (n - 1) as nat);
        assert(delivery_action(Some(c), (n - 1) as nat) is NothingToKill);
    }
}

/// Whatever the handle holds, no number of deliveries kills more than once.
pub proof fn lemma_at_most_one_kill<C>(h: Option<C>, n: nat)
    ensures
        kill_count(h, n) <= 1,
{
    match h {
        Some(c) => {
            if n >= 1 {
                lemma_idempotent_kill(c, n);
            }
        },
        None => lemma_no_kill_from_empty::<C>(n),
    }
}

/// Of two deliveries, in whichever order the lock lets them through, at most
/// one takes the worker; when the handle held one, exactly one does, and the
/// other finds the handle empty.
pub proof fn lemma_exclusive_handle<C>(h: Option<C>)
    ensures
        !(shutdown_step(h).1 is Kill && shutdown_step(shutdown_step(h).0).1 is Kill),
        shutdown_step(h).0 is None,
        h is Some ==> shutdown_step(h).1 is Kill && shutdown_step(shutdown_step(h).0).1 is NothingToKill,
{
}

} // verus!
