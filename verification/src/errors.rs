use vstd::prelude::*;
use vstd::string::StringExecFns;

use crate::events::{is_terminal, OperatorEvent};

verus! {

/// A failure of the operator locator or of the interpreter session, always
/// fatal to the host before the dispatch loop starts: it is reported once as
/// an `Error` event and never retried.
#[derive(Debug, PartialEq, Eq)]
pub enum StartupFault {
    /// Fetching a remote operator source failed.
    DownloadFailed { detail: String },
    /// The resolved source path does not exist.
    MissingFile { path: String },
    /// The source path exists but cannot be canonicalized.
    UnresolvablePath { path: String },
    /// Registering the module's directory on the interpreter search path failed.
    SearchPathSetup { detail: String },
    /// The module's directory is not representable in the expected text encoding.
    PathEncoding,
    /// The source path has no base name to derive a module name from.
    NoFileStem,
    /// The module's base name is not representable in the expected text encoding.
    StemEncoding,
    /// Importing the module failed; carries the embedded traceback text.
    ImportFailed { traceback: String },
    /// The module defines no `Operator` entry point.
    NoOperatorEntryPoint,
    /// Instantiating the entry point failed; carries the embedded traceback text.
    ConstructorFailed { traceback: String },
}

impl StartupFault {
    /// The report text of each startup fault.
    pub open spec fn text(&self) -> Seq<char> {
        match self {
            StartupFault::DownloadFailed { detail } => "failed to download Python operator: "@
                + detail@,
            StartupFault::MissingFile { path } => "No python file exists at "@ + path@,
            StartupFault::UnresolvablePath { path } => "no file found at `"@ + path@ + "`"@,
            StartupFault::SearchPathSetup { detail } =>
                "failed to append module path to python search path: "@ + detail@,
            StartupFault::PathEncoding => "module path is not valid utf8"@,
            StartupFault::NoFileStem => "module path has no file stem"@,
            StartupFault::StemEncoding => "module file stem is not valid utf8"@,
            StartupFault::ImportFailed { traceback } => traceback@,
            StartupFault::NoOperatorEntryPoint => "no `Operator` class found in module"@,
            StartupFault::ConstructorFailed { traceback } => traceback@,
        }
    }

    /// Renders the fault as report text.
    pub fn message(&self) -> (r: String)
        ensures
            r@ == self.text(),
    {
        match self {
            StartupFault::DownloadFailed { detail } => {
                let mut s = String::from_str("failed to download Python operator: ");
                s.append(detail.as_str());
                s
            },
            StartupFault::MissingFile { path } => {
                let mut s = String::from_str("No python file exists at ");
                s.append(path.as_str());
                s
            },
            StartupFault::UnresolvablePath { path } => {
                let mut s = String::from_str("no file found at `");
                s.append(path.as_str());
                s.append("`");
                proof {
                    assert(s@ =~= self.text());
                }
                s
            },
            StartupFault::SearchPathSetup { detail } => {
                let mut s = String::from_str(
                    "failed to append module path to python search path: ",
                );
                s.append(detail.as_str());
                s
            },
            StartupFault::PathEncoding => String::from_str("module path is not valid utf8"),
            StartupFault::NoFileStem => String::from_str("module path has no file stem"),
            StartupFault::StemEncoding => String::from_str("module file stem is not valid utf8"),
            StartupFault::ImportFailed { traceback } => traceback.clone(),
            StartupFault::NoOperatorEntryPoint => String::from_str(
                "no `Operator` class found in module",
            ),
            StartupFault::ConstructorFailed { traceback } => traceback.clone(),
        }
    }
}

/// Classifies a startup fault into the single `Error` event the host reports:
/// on a failed startup nothing else is ever emitted, so the host's whole
/// output is this one terminal event.
pub fn startup_error_event(fault: &StartupFault) -> (e: OperatorEvent)
    ensures
        e matches OperatorEvent::Error(m) && m@ == fault.text(),
        is_terminal(e),
{
    OperatorEvent::Error(fault.message())
}

} // verus!
