//! The kinds of failure of a lookup, and which of them end the process.

use vstd::prelude::*;
use vstd::string::*;

verus! {

/// The kind of a failure.
#[derive(Clone, Copy, Debug, PartialEq, Eq, Structural)]
pub enum ErrorKind {
    /// A store query or the connection to the store failed.
    Store,
    /// No selection arrived while a choice was presented.
    DisambiguationTimeout,
    /// The transport failed while a choice was presented or awaited.
    DisambiguationTransport,
    /// A script did not load or compile.
    ScriptLoad,
    /// A script's function was missing, took other arguments, or failed.
    ScriptRuntime,
    /// A script returned a recognized key with a value of the wrong kind.
    Conversion,
    /// The transport failed to send.
    Delivery,
}

impl ErrorKind {
    /// Whether a failure of this kind must stop the process: only a script
    /// that does not load does. Every other failure ends the one lookup it
    /// happened in.
    pub open spec fn fatal(self) -> bool {
        self == ErrorKind::ScriptLoad
    }

    /// Whether a failure of this kind must stop the process.
    pub fn is_fatal(self) -> (r: bool)
        ensures
            r == self.fatal(),
    {
        match self {
            ErrorKind::ScriptLoad => true,
            _ => false,
        }
    }

    /// The kind's name.
    pub open spec fn name(self) -> Seq<char> {
        match self {
            ErrorKind::Store => "StoreError"@,
            ErrorKind::DisambiguationTimeout => "DisambiguationTimeout"@,
            ErrorKind::DisambiguationTransport => "DisambiguationTransportError"@,
            ErrorKind::ScriptLoad => "ScriptLoadError"@,
            ErrorKind::ScriptRuntime => "ScriptRuntimeError"@,
            ErrorKind::Conversion => "ConversionError"@,
            ErrorKind::Delivery => "DeliveryError"@,
        }
    }

    /// The kind's name.
    pub fn as_str(self) -> (name: &'static str)
        ensures
            name@ == self.name(),
    {
        match self {
            ErrorKind::Store => "StoreError",
            ErrorKind::DisambiguationTimeout => "DisambiguationTimeout",
            ErrorKind::DisambiguationTransport => "DisambiguationTransportError",
            ErrorKind::ScriptLoad => "ScriptLoadError",
            ErrorKind::ScriptRuntime => "ScriptRuntimeError",
            ErrorKind::Conversion => "ConversionError",
            ErrorKind::Delivery => "DeliveryError",
        }
    }
}

/// A failure: its kind, and what is known of its cause.
#[derive(Clone, Debug, PartialEq, Eq)]
pub struct PipelineError {
    pub kind: ErrorKind,
    pub detail: String,
}

/// What a [`PipelineError`] holds.
pub struct PipelineErrorView {
    pub kind: ErrorKind,
    pub detail: Seq<char>,
}

impl View for PipelineError {
    type V = PipelineErrorView;

    open spec fn view(&self) -> PipelineErrorView {
        PipelineErrorView { kind: self.kind, detail: self.detail@ }
    }
}

impl PipelineErrorView {
    /// The line that reports the failure: the kind's name, a colon and a
    /// space, then the detail.
    pub open spec fn report_line(self) -> Seq<char> {
        self.kind.name() + ": "@ + self.detail
    }
}

impl PipelineError {
    /// The line that reports the failure.
    pub fn to_string(&self) -> (line: String)
        ensures
            line@ == self@.report_line(),
    {
        let mut line = String::from_str(self.kind.as_str());
        line.append(": ");
        line.append(self.detail.as_str());
        line
    }
}

} // verus!
