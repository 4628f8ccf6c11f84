//! Daemon-side vocabulary: the liveness of a supervisor and the coarse
//! classification of the frames it receives.
use vstd::prelude::*;

use crate::command::WebCommand;

verus! {

/// Whether a supervisor still accepts commands. `Dead` is entered by the
/// global shutdown signal and never left for the lifetime of the instance.
#[derive(Clone, Copy, Debug, PartialEq, Eq, Structural)]
pub enum DaemonState {
    Alive,
    Dead,
}

/// The coarse kind of a decoded frame: a query reads state or fetches a
/// resource, a command reconfigures, and a signal drives a lifecycle
/// transition.
#[derive(Clone, Copy, Debug, PartialEq, Eq, Structural)]
pub enum DaemonFrame {
    Command,
    Query,
    Signal,
}

/// The configuration a daemon front end hands the supervisor. The protocol
/// itself needs none beyond `WebConfig`, so this carries nothing yet.
#[derive(Clone, Copy, Debug, PartialEq, Eq, Structural, Default)]
pub struct DaemonConfig;

/// A daemon front end's handle around the supervisor. The front end lives
/// outside this crate; the handle names it in signatures.
#[derive(Clone, Copy, Debug, PartialEq, Eq, Structural, Default)]
pub struct Daemon;

/// Which kind of frame a command arrived in.
pub open spec fn classify_spec(cmd: crate::command::Cmd) -> DaemonFrame {
    match cmd {
        crate::command::Cmd::List => DaemonFrame::Query,
        crate::command::Cmd::Fetch(_) => DaemonFrame::Query,
        crate::command::Cmd::Config(_) => DaemonFrame::Command,
        crate::command::Cmd::Signal(_) => DaemonFrame::Signal,
    }
}

/// Classify a decoded command by the kind of frame it came in.
pub fn classify(cmd: &WebCommand) -> (k: DaemonFrame)
    ensures
        k == classify_spec(cmd@),
{
    match cmd {
        WebCommand::List => DaemonFrame::Query,
        WebCommand::Fetch(_) => DaemonFrame::Query,
        WebCommand::Config(_) => DaemonFrame::Command,
        WebCommand::Signal(_) => DaemonFrame::Signal,
    }
}

} // verus!
