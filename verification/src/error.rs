//! Error taxonomy: the single shared failure value every dispatch returns on
//! its error channel. Routing and codec failures have their own kinds;
//! business failures reported by a subsystem pass through as `Internal` with
//! their distinguishing kind and message intact.

use vstd::prelude::*;

verus! {

/// The failure value of a dispatch call.
///
/// `PluginNotFound`, `CommandNotFound`, `DecodeError`, `EncodeError` and
/// `StateUnavailable` are raised by the dispatch layer itself; `Internal`
/// carries a subsystem's own failure kind and human-readable message through
/// unchanged, so the caller can branch on it. `EncodeError` is reserved for
/// response-encoding failures; every payload of the supported shapes encodes,
/// so no path of this crate raises it.
#[derive(Debug, Clone, PartialEq, Eq)]
pub enum DispatchError {
    PluginNotFound,
    CommandNotFound,
    DecodeError,
    EncodeError,
    StateUnavailable,
    Internal { kind: String, msg: String },
}

/// Mathematical model of a `DispatchError`.
pub enum ErrorView {
    PluginNotFound,
    CommandNotFound,
    DecodeError,
    EncodeError,
    StateUnavailable,
    Internal { kind: Seq<char>, msg: Seq<char> },
}

impl View for DispatchError {
    type V = ErrorView;

    open spec fn view(&self) -> ErrorView {
        match self {
            DispatchError::PluginNotFound => ErrorView::PluginNotFound,
            DispatchError::CommandNotFound => ErrorView::CommandNotFound,
            DispatchError::DecodeError => ErrorView::DecodeError,
            DispatchError::EncodeError => ErrorView::EncodeError,
            DispatchError::StateUnavailable => ErrorView::StateUnavailable,
            DispatchError::Internal { kind, msg } => ErrorView::Internal {
                kind: kind@,
                msg: msg@,
            },
        }
    }
}

impl ErrorView {
    /// True of the kinds the dispatch layer itself raises; false of business
    /// failures passed through from a subsystem.
    pub open spec fn is_dispatch_error(self) -> bool {
        !(self is Internal)
    }
}

} // verus!
