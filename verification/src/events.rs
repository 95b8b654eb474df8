//! The domain events that travel over the application's event bus, and the
//! commands the state machine hands back to the runtime for the work only
//! the outside world can do.

use vstd::prelude::*;

use crate::app::ActiveWindow;
use crate::keys::Key;

verus! {

/// A user-facing notification.
pub enum Log {
    Info(String),
    Warning(String),
    Error(String),
}

/// An event delivered to the application state machine: a key press
/// forwarded by the input task, or a domain event synthesized by a view.
pub enum AppEvent {
    /// A raw key press from the terminal.
    Key(Key),
    /// Quit was requested; the snapshot is written and the loop ends.
    Quit,
    /// A namespace was activated in a list.
    SelectNamespace(String),
    /// A port-forward was requested from the picker.
    PortForward { pod_name: String, local_port: u16, app_port: u16, namespace: String },
    /// The pods view asked to be closed.
    ClosePodsList,
    /// Something wants the user's attention; surfaced, never fatal.
    ShowNotification(Log),
    /// A focus hotkey chose a window directly.
    Focus(ActiveWindow),
}

/// Work that only the runtime around the state machine can perform; handed
/// back by the event handler together with the updated state.
pub enum AppCommand {
    /// Nothing to do outside.
    Idle,
    /// Put a synthesized event on the bus, to be handled in arrival order.
    Emit(AppEvent),
    /// Fetch the pod list of this namespace, then mount the pods view with
    /// the result.
    FetchPods(String),
    /// Spawn the forwarding process and poll it for readiness; record the
    /// entry on success.
    StartForward { pod_name: String, local_port: u16, app_port: u16, namespace: String },
    /// Terminate the process behind a deleted port-forward entry.
    Terminate(u32),
}

} // verus!
