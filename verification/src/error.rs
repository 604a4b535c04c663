//! Why a build was given up. Every error is final: nothing is retried.

use vstd::prelude::*;
use vstd::string::*;
use crate::package::Package;
use crate::recipe::Step;

verus! {

/// The ways in which a build fails.
#[derive(Clone, Copy, Debug, PartialEq, Eq, Structural)]
pub enum BuildError {
    /// Neither make candidate is GNU Make.
    MissingMake,
    /// Toolchain discovery named no C compiler.
    MissingCompiler,
    /// The archive of a package lies in neither packing below the vendor
    /// directory.
    MissingArchive(Package),
    /// A step of a package's recipe could not be run or did not succeed.
    StepFailed(Package, Step),
    /// The glue object did not compile.
    GlueFailed,
    /// An event arrived that does not answer the pending request.
    UnexpectedEvent,
}

/// The kinds that errors fall into.
#[derive(Clone, Copy, Debug, PartialEq, Eq, Structural)]
pub enum ErrorKind {
    /// A tool that the build needs is not on the host.
    MissingTool,
    /// A pinned archive is absent.
    MissingInput,
    /// A child process failed.
    ToolFailure,
    /// A freshly installed package was not found at its pinned version.
    ProbeFailure,
    /// The orchestrator was driven out of turn.
    Misuse,
}

/// What is said of a failed step, before the package is named.
pub open spec fn step_message_of(step: Step) -> Seq<char> {
    match step {
        Step::Extract => "error running tar"@,
        Step::Patch => "error refreshing config.guess and config.sub"@,
        Step::Configure => "error running configure"@,
        Step::Install => "error running make"@,
        Step::Probe => "error running pkg-config"@,
    }
}

impl BuildError {
    /// The kind that the error falls into.
    pub open spec fn spec_kind(self) -> ErrorKind {
        match self {
            BuildError::MissingMake => ErrorKind::MissingTool,
            BuildError::MissingCompiler => ErrorKind::MissingTool,
            BuildError::MissingArchive(_) => ErrorKind::MissingInput,
            BuildError::StepFailed(_, Step::Probe) => ErrorKind::ProbeFailure,
            BuildError::StepFailed(_, _) => ErrorKind::ToolFailure,
            BuildError::GlueFailed => ErrorKind::ToolFailure,
            BuildError::UnexpectedEvent => ErrorKind::Misuse,
        }
    }

    /// The message of the error; it names the step and the package where
    /// there is one.
    pub open spec fn spec_message(self) -> Seq<char> {
        match self {
            BuildError::MissingMake => "GNU Make is required for building this package."@,
            BuildError::MissingCompiler => "no C compiler was found"@,
            BuildError::MissingArchive(package) => "no archive was found for "@
                + package.spec_name(),
            BuildError::StepFailed(package, step) => step_message_of(step) + " for "@
                + package.spec_name(),
            BuildError::GlueFailed => "error compiling the glue object"@,
            BuildError::UnexpectedEvent => "an event arrived that answers no request"@,
        }
    }

    /// The kind that the error falls into.
    pub fn kind(self) -> (kind: ErrorKind)
        ensures
            kind == self.spec_kind(),
    {
        match self {
            BuildError::MissingMake => ErrorKind::MissingTool,
            BuildError::MissingCompiler => ErrorKind::MissingTool,
            BuildError::MissingArchive(_) => ErrorKind::MissingInput,
            BuildError::StepFailed(_, Step::Probe) => ErrorKind::ProbeFailure,
            BuildError::StepFailed(_, _) => ErrorKind::ToolFailure,
            BuildError::GlueFailed => ErrorKind::ToolFailure,
            BuildError::UnexpectedEvent => ErrorKind::Misuse,
        }
    }

    /// The message of the error.
    pub fn message(self) -> (message: String)
        ensures
            message@ == self.spec_message(),
    {
        match self {
            BuildError::MissingMake => String::from_str(
                "GNU Make is required for building this package.",
            ),
            BuildError::MissingCompiler => String::from_str("no C compiler was found"),
            BuildError::MissingArchive(package) => {
                let mut message = String::from_str("no archive was found for ");
                message.append(package.name());
                message
            },
            BuildError::StepFailed(package, step) => {
                let mut message = String::from_str(
                    match step {
                        Step::Extract => "error running tar",
                        Step::Patch => "error refreshing config.guess and config.sub",
                        Step::Configure => "error running configure",
                        Step::Install => "error running make",
                        Step::Probe => "error running pkg-config",
                    },
                );
                message.append(" for ");
                message.append(package.name());
                message
            },
            BuildError::GlueFailed => String::from_str("error compiling the glue object"),
            BuildError::UnexpectedEvent => String::from_str(
                "an event arrived that answers no request",
            ),
        }
    }
}

} // verus!
