//! Error taxonomy of the driver.
//!
//! Configuration errors abort before any subprocess is spawned; the
//! missing-artifact errors are raised only after a successful build whose
//! side channel never reported the runtime-support library paths; the
//! wrapper errors come from a malformed compiler invocation handed to the
//! compiler substitute.

use vstd::prelude::*;
use vstd::string::StringExecFns;

verus! {

/// A fatal error of the driver; each variant carries a fixed message.
#[derive(Clone, Copy, Debug, PartialEq, Eq, Structural)]
pub enum DriverError {
    /// Neither or both of the binary / example selectors were given.
    BothOrNeitherArtifact,
    /// The build succeeded but the runtime-support archive path was never reported.
    RuntimeLibNotLinked,
    /// The build succeeded but the runtime-support intermediate-representation
    /// path was never reported.
    RuntimeLibIrUnavailable,
}

/// A fatal error of the compiler-wrapper mode; each variant carries a fixed message.
#[derive(Clone, Copy, Debug, PartialEq, Eq, Structural)]
pub enum WrapperError {
    /// `--extern` was the last argument.
    MissingExternArg,
    /// `--crate-name` was the last argument.
    MissingCrateNameArg,
    /// `--out-dir` was the last argument.
    MissingOutDirArg,
    /// A bare `-C` was the last argument.
    MissingCodegenArg,
    /// `-C extra-filename` came without a value.
    MissingExtraFilenameValue,
    /// No `--crate-name` argument occurred at all.
    MissingCrateName,
    /// The invocation compiles the runtime-support library but carries no `--out-dir`.
    MissingOutDir,
}

impl DriverError {
    /// The user-visible message of this error.
    pub fn message(&self) -> (r: String)
        ensures
            r@ == self.message_spec(),
    {
        match self {
            DriverError::BothOrNeitherArtifact => String::from_str(
                "Please specify either --example <NAME> or --bin <NAME>.",
            ),
            DriverError::RuntimeLibNotLinked => String::from_str(
                "`compiler_builtins` was not linked",
            ),
            DriverError::RuntimeLibIrUnavailable => String::from_str(
                "`compiler_builtins` LLVM IR unavailable",
            ),
        }
    }

    /// What `message` returns, per variant.
    pub open spec fn message_spec(&self) -> Seq<char> {
        match self {
            DriverError::BothOrNeitherArtifact => {
                "Please specify either --example <NAME> or --bin <NAME>."@
            },
            DriverError::RuntimeLibNotLinked => "`compiler_builtins` was not linked"@,
            DriverError::RuntimeLibIrUnavailable => "`compiler_builtins` LLVM IR unavailable"@,
        }
    }
}

impl WrapperError {
    /// The user-visible message of this error.
    pub fn message(&self) -> (r: String)
        ensures
            r@ == self.message_spec(),
    {
        match self {
            WrapperError::MissingExternArg => String::from_str("missing argument for `--extern`"),
            WrapperError::MissingCrateNameArg => String::from_str(
                "missing argument for `--crate-name`",
            ),
            WrapperError::MissingOutDirArg => String::from_str("missing argument for `--out-dir`"),
            WrapperError::MissingCodegenArg => String::from_str("missing argument for `-C`"),
            WrapperError::MissingExtraFilenameValue => String::from_str(
                "missing value for `-Cextra-filename`",
            ),
            WrapperError::MissingCrateName => String::from_str("missing `--crate-name` argument"),
            WrapperError::MissingOutDir => String::from_str("missing `--out-dir` argument"),
        }
    }

    /// What `message` returns, per variant.
    pub open spec fn message_spec(&self) -> Seq<char> {
        match self {
            WrapperError::MissingExternArg => "missing argument for `--extern`"@,
            WrapperError::MissingCrateNameArg => "missing argument for `--crate-name`"@,
            WrapperError::MissingOutDirArg => "missing argument for `--out-dir`"@,
            WrapperError::MissingCodegenArg => "missing argument for `-C`"@,
            WrapperError::MissingExtraFilenameValue => "missing value for `-Cextra-filename`"@,
            WrapperError::MissingCrateName => "missing `--crate-name` argument"@,
            WrapperError::MissingOutDir => "missing `--out-dir` argument"@,
        }
    }
}

} // verus!
