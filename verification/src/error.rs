//! The ways in which a cycle request can fail.

use vstd::prelude::*;
use vstd::string::StringExecFns;

verus! {

/// A failure that the compositor client reported: the connection was refused,
/// the answer was malformed, or the command was rejected. The library hands
/// it on as it came.
#[derive(Debug)]
pub struct TransportError {
    message: String,
}

impl View for TransportError {
    type V = Seq<char>;

    closed spec fn view(&self) -> Seq<char> {
        self.message@
    }
}

impl DeepView for TransportError {
    type V = Seq<char>;

    open spec fn deep_view(&self) -> Seq<char> {
        self@
    }
}

impl TransportError {
    pub fn new(message: String) -> (e: TransportError)
        ensures
            e@ == message@,
    {
        TransportError { message }
    }

    pub fn message(&self) -> (s: String)
        ensures
            s@ == self@,
    {
        self.message.clone()
    }
}

impl Clone for TransportError {
    fn clone(&self) -> (e: TransportError)
        ensures
            e@ == self@,
    {
        TransportError { message: self.message.clone() }
    }
}

impl PartialEq for TransportError {
    fn eq(&self, other: &TransportError) -> (b: bool) {
        self.message == other.message
    }
}

impl Eq for TransportError {}

impl vstd::std_specs::cmp::PartialEqSpecImpl for TransportError {
    open spec fn obeys_eq_spec() -> bool {
        true
    }

    open spec fn eq_spec(&self, other: &TransportError) -> bool {
        self@ == other@
    }
}

/// The mathematical value of a [`CycleError`].
pub enum CycleErrorView {
    NoFocusedMonitor,
    NoWorkspacesForMonitor(Seq<char>),
    CurrentWorkspaceNotFound,
    InvalidDirection(Seq<char>),
    TransportError(Seq<char>),
}

impl CycleErrorView {
    /// The text shown to the user for this error.
    pub open spec fn message(self) -> Seq<char> {
        match self {
            CycleErrorView::NoFocusedMonitor => "No focused monitor found"@,
            CycleErrorView::NoWorkspacesForMonitor(name) => "No workspaces found for monitor: "@
                + name,
            CycleErrorView::CurrentWorkspaceNotFound => "Current workspace not found"@,
            CycleErrorView::InvalidDirection(text) => "Unrecognized direction: "@ + text,
            CycleErrorView::TransportError(message) => message,
        }
    }
}

/// Why a request failed. Every error ends the request; none is recovered
/// from, and no switch command is sent after one.
#[derive(Debug)]
pub enum CycleError {
    /// No monitor reports focus.
    NoFocusedMonitor,
    /// The named monitor has no visible workspace bound to it.
    NoWorkspacesForMonitor(String),
    /// The active workspace is not among the visible workspaces of its
    /// monitor, as happens when it is itself a hidden one.
    CurrentWorkspaceNotFound,
    /// The text is not a direction.
    InvalidDirection(String),
    /// The compositor client failed.
    TransportError(TransportError),
}

impl View for CycleError {
    type V = CycleErrorView;

    open spec fn view(&self) -> CycleErrorView {
        match self {
            CycleError::NoFocusedMonitor => CycleErrorView::NoFocusedMonitor,
            CycleError::NoWorkspacesForMonitor(name) => CycleErrorView::NoWorkspacesForMonitor(
                name@,
            ),
            CycleError::CurrentWorkspaceNotFound => CycleErrorView::CurrentWorkspaceNotFound,
            CycleError::InvalidDirection(text) => CycleErrorView::InvalidDirection(text@),
            CycleError::TransportError(e) => CycleErrorView::TransportError(e@),
        }
    }
}

impl DeepView for CycleError {
    type V = CycleErrorView;

    open spec fn deep_view(&self) -> CycleErrorView {
        self@
    }
}

impl CycleError {
    /// The text shown to the user for this error.
    pub fn message(&self) -> (s: String)
        ensures
            s@ == self@.message(),
    {
        match self {
            CycleError::NoFocusedMonitor => String::from_str("No focused monitor found"),
            CycleError::NoWorkspacesForMonitor(name) => String::from_str(
                "No workspaces found for monitor: ",
            ).concat(name.as_str()),
            CycleError::CurrentWorkspaceNotFound => String::from_str(
                "Current workspace not found",
            ),
            CycleError::InvalidDirection(text) => String::from_str(
                "Unrecognized direction: ",
            ).concat(text.as_str()),
            CycleError::TransportError(e) => e.message(),
        }
    }
}

impl Clone for CycleError {
    fn clone(&self) -> (e: CycleError)
        ensures
            e@ == self@,
    {
        match self {
            CycleError::NoFocusedMonitor => CycleError::NoFocusedMonitor,
            CycleError::NoWorkspacesForMonitor(name) => CycleError::NoWorkspacesForMonitor(
                name.clone(),
            ),
            CycleError::CurrentWorkspaceNotFound => CycleError::CurrentWorkspaceNotFound,
            CycleError::InvalidDirection(text) => CycleError::InvalidDirection(text.clone()),
            CycleError::TransportError(e) => CycleError::TransportError(e.clone()),
        }
    }
}

impl PartialEq for CycleError {
    fn eq(&self, other: &CycleError) -> (b: bool) {
        match self {
            CycleError::NoFocusedMonitor => matches!(other, CycleError::NoFocusedMonitor),
            CycleError::NoWorkspacesForMonitor(a) => match other {
                CycleError::NoWorkspacesForMonitor(b) => *a == *b,
                _ => false,
            },
            CycleError::CurrentWorkspaceNotFound => matches!(
                other,
                CycleError::CurrentWorkspaceNotFound
            ),
            CycleError::InvalidDirection(a) => match other {
                CycleError::InvalidDirection(b) => *a == *b,
                _ => false,
            },
            CycleError::TransportError(a) => match other {
                CycleError::TransportError(b) => *a == *b,
                _ => false,
            },
        }
    }
}

impl Eq for CycleError {}

impl vstd::std_specs::cmp::PartialEqSpecImpl for CycleError {
    open spec fn obeys_eq_spec() -> bool {
        true
    }

    open spec fn eq_spec(&self, other: &CycleError) -> bool {
        self@ == other@
    }
}

/// The mathematical value of a result: that of what it holds.
pub open spec fn result_view<T: DeepView, E: DeepView>(r: Result<T, E>) -> Result<T::V, E::V> {
    match r {
        Ok(t) => Ok(t.deep_view()),
        Err(e) => Err(e.deep_view()),
    }
}

} // verus!
