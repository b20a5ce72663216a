//! When the program shuts down.

use vstd::prelude::*;

verus! {

/// How far the wait for a shutdown signal has come.
#[derive(Clone, Copy, PartialEq, Eq, Structural)]
pub enum ShutdownWait {
    /// The handler for the termination signal is not installed yet.
    Installing,
    /// An interrupt or a termination signal ends the wait.
    Either,
    /// Only an interrupt ends the wait: the other handler could not be installed.
    InterruptOnly,
    /// Only an interrupt ends the wait: the platform has no other signal.
    Portable,
    /// A signal came.
    Over,
}

/// What happens during the wait.
#[derive(Clone, Copy, PartialEq, Eq, Structural)]
pub enum ShutdownEvent {
    /// The handler for the termination signal was installed.
    Installed,
    /// The handler for the termination signal could not be installed.
    InstallFailed,
    /// The platform has no termination signal.
    Unsupported,
    /// An interrupt came (`SIGINT`, Ctrl-C), or cannot be waited for.
    Interrupt,
    /// A termination signal came (`SIGTERM`).
    Terminate,
}

/// What to log about an event.
#[derive(Clone, Copy, PartialEq, Eq, Structural)]
pub enum ShutdownLog {
    /// Nothing.
    Quiet,
    /// A warning that only `SIGINT` is waited for.
    FallingBack,
    /// That `SIGINT` came.
    ReceivedSigint,
    /// That `SIGTERM` came.
    ReceivedSigterm,
    /// That a shutdown signal came.
    ReceivedSignal,
}

/// Whether an event ends the wait.
pub open spec fn ends_wait(wait: ShutdownWait, event: ShutdownEvent) -> bool {
    match event {
        ShutdownEvent::Interrupt => wait is Either || wait is InterruptOnly || wait is Portable,
        ShutdownEvent::Terminate => wait is Either,
        _ => false,
    }
}

/// The wait after an event.
pub open spec fn wait_after(wait: ShutdownWait, event: ShutdownEvent) -> ShutdownWait {
    if ends_wait(wait, event) {
        ShutdownWait::Over
    } else if wait is Installing {
        match event {
            ShutdownEvent::Installed => ShutdownWait::Either,
            ShutdownEvent::InstallFailed => ShutdownWait::InterruptOnly,
            ShutdownEvent::Unsupported => ShutdownWait::Portable,
            _ => wait,
        }
    } else {
        wait
    }
}

/// What to log about an event.
pub open spec fn log_about(wait: ShutdownWait, event: ShutdownEvent) -> ShutdownLog {
    if ends_wait(wait, event) {
        if wait is Portable {
            ShutdownLog::ReceivedSignal
        } else if event is Interrupt {
            ShutdownLog::ReceivedSigint
        } else {
            ShutdownLog::ReceivedSigterm
        }
    } else if wait is Installing && event is InstallFailed {
        ShutdownLog::FallingBack
    } else {
        ShutdownLog::Quiet
    }
}

/// Takes an event of the wait for a shutdown signal: moves the wait on and tells what to
/// log.
///
/// Where the platform has a termination signal, it ends the wait as an interrupt does,
/// so that process supervisors can stop the program. If its handler cannot be
/// installed, an interrupt alone is waited for.
pub fn shutdown_signal(wait: &mut ShutdownWait, event: ShutdownEvent) -> (log: ShutdownLog)
    ensures
        *final(wait) == wait_after(*old(wait), event),
        log == log_about(*old(wait), event),
        match (*old(wait), event) {
            (ShutdownWait::Installing, ShutdownEvent::Installed) => *final(wait) is Either
                && log is Quiet,
            (ShutdownWait::Installing, ShutdownEvent::InstallFailed) => {
                *final(wait) is InterruptOnly && log is FallingBack
            },
            (ShutdownWait::Installing, ShutdownEvent::Unsupported) => *final(wait) is Portable
                && log is Quiet,
            (ShutdownWait::Either, ShutdownEvent::Interrupt) => *final(wait) is Over
                && log is ReceivedSigint,
            (ShutdownWait::Either, ShutdownEvent::Terminate) => *final(wait) is Over
                && log is ReceivedSigterm,
            (ShutdownWait::InterruptOnly, ShutdownEvent::Interrupt) => *final(wait) is Over
                && log is ReceivedSigint,
            (ShutdownWait::Portable, ShutdownEvent::Interrupt) => *final(wait) is Over
                && log is ReceivedSignal,
            _ => *final(wait) == *old(wait) && log is Quiet,
        },
{
    match event {
        ShutdownEvent::Installed => {
            if *wait == ShutdownWait::Installing {
                *wait = ShutdownWait::Either;
            }
            ShutdownLog::Quiet
        },
        ShutdownEvent::InstallFailed => {
            if *wait == ShutdownWait::Installing {
                *wait = ShutdownWait::InterruptOnly;
                ShutdownLog::FallingBack
            } else {
                ShutdownLog::Quiet
            }
        },
        ShutdownEvent::Unsupported => {
            if *wait == ShutdownWait::Installing {
                *wait = ShutdownWait::Portable;
            }
            ShutdownLog::Quiet
        },
        ShutdownEvent::Interrupt => {
            if *wait == ShutdownWait::Either || *wait == ShutdownWait::InterruptOnly {
                *wait = ShutdownWait::Over;
                ShutdownLog::ReceivedSigint
            } else if *wait == ShutdownWait::Portable {
                *wait = ShutdownWait::Over;
                ShutdownLog::ReceivedSignal
            } else {
                ShutdownLog::Quiet
            }
        },
        ShutdownEvent::Terminate => {
            if *wait == ShutdownWait::Either {
                *wait = ShutdownWait::Over;
                ShutdownLog::ReceivedSigterm
            } else {
                ShutdownLog::Quiet
            }
        },
    }
}

impl ShutdownLog {
    /// The text of the log line, where there is one.
    pub fn message(self) -> (text: Option<&'static str>)
        ensures
            match self {
                ShutdownLog::Quiet => text is None,
                ShutdownLog::FallingBack => text is Some && text->0@
                    == "failed to install SIGTERM handler; falling back to SIGINT only"@,
                ShutdownLog::ReceivedSigint => text is Some && text->0@ == "received SIGINT"@,
                ShutdownLog::ReceivedSigterm => text is Some && text->0@ == "received SIGTERM"@,
                ShutdownLog::ReceivedSignal => text is Some && text->0@
                    == "received shutdown signal"@,
            },
    {
        match self {
            ShutdownLog::Quiet => None,
            ShutdownLog::FallingBack => Some(
                "failed to install SIGTERM handler; falling back to SIGINT only",
            ),
            ShutdownLog::ReceivedSigint => Some("received SIGINT"),
            ShutdownLog::ReceivedSigterm => Some("received SIGTERM"),
            ShutdownLog::ReceivedSignal => Some("received shutdown signal"),
        }
    }
}

/// The wait after a number of events.
pub open spec fn wait_after_all(wait: ShutdownWait, events: Seq<ShutdownEvent>) -> ShutdownWait
    decreases events.len(),
{
    if events.len() == 0 {
        wait
    } else {
        wait_after(wait_after_all(wait, events.drop_last()), events.last())
    }
}

/// However the installation of the termination handler went, an interrupt ends the
/// wait; a termination signal ends it exactly when the handler was installed.
pub proof fn law_supported_signals_end_the_wait(installation: ShutdownEvent)
    requires
        !(installation is Interrupt),
        !(installation is Terminate),
    ensures
        wait_after(
            wait_after(ShutdownWait::Installing, installation),
            ShutdownEvent::Interrupt,
        ) is Over,
        wait_after(
            wait_after(ShutdownWait::Installing, installation),
            ShutdownEvent::Terminate,
        ) is Over <==> installation is Installed,
{
}

/// Each event that does something is logged as what it is, and the others are not
/// logged and change nothing.
pub proof fn law_log_tells_what_happened(wait: ShutdownWait, event: ShutdownEvent)
    ensures
        log_about(wait, event) is ReceivedSigterm <==> wait is Either && event is Terminate,
        log_about(wait, event) is ReceivedSigint <==> (wait is Either || wait is InterruptOnly)
            && event is Interrupt,
        log_about(wait, event) is ReceivedSignal <==> wait is Portable && event is Interrupt,
        log_about(wait, event) is FallingBack <==> wait is Installing && event is InstallFailed,
        !(wait is Over) && wait_after(wait, event) is Over <==> log_about(
            wait,
            event,
        ) is ReceivedSigterm || log_about(wait, event) is ReceivedSigint || log_about(
            wait,
            event,
        ) is ReceivedSignal,
        log_about(wait, event) is Quiet && !(wait is Installing) ==> wait_after(wait, event)
            == wait,
{
}

/// A wait that is over stays over, and no wait is over before a signal came.
pub proof fn law_wait_ends_once(wait: ShutdownWait, events: Seq<ShutdownEvent>)
    ensures
        wait is Over ==> wait_after_all(wait, events) is Over,
        !(wait is Over) && (forall|i: int|
            0 <= i < events.len() ==> !(#[trigger] events[i] is Interrupt)
                && !(events[i] is Terminate)) ==> !(wait_after_all(wait, events) is Over),
    decreases events.len(),
{
    if events.len() > 0 {
        law_wait_ends_once(wait, events.drop_last());
    }
}

} // verus!
