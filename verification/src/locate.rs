//! The driver locator's decision.
//!
//! The native-driver executable comes either from an explicit override path
//! or from a search of the system path for the platform's well-known binary
//! name.  The filesystem observations (does the override exist, what did
//! the search return) are made outside the library and handed in as plain
//! values; the decision over them, and the diagnostic that a fatal outcome
//! must carry, are fixed here.  A fatal outcome terminates the process with
//! a non-zero exit code: no native-driver-less operation is supported.

use vstd::prelude::*;
use crate::supervisor::{Platform, spec_driver_binary, driver_binary_name};
use crate::text::append_str;

verus! {

/// The process exit code for every fatal configuration or spawn failure.
pub const FATAL_EXIT_CODE: i32 = 1;

/// The fatal ways locating the native driver can end.
pub enum LocateError {
    /// An override path was supplied but no file exists there.
    OverrideMissing { attempted: String },
    /// No override was supplied and the system path search failed.
    NotFoundInPath { binary: String, detail: String },
}

/// Decides the native-driver executable from the supplied override and the
/// observed filesystem facts.  An existing override wins as given; a
/// missing override is fatal; without an override the search result
/// decides, and a failed search is fatal under the platform's binary name.
pub fn resolve_driver(
    override_path: Option<String>,
    override_exists: bool,
    search_result: Result<String, String>,
    platform: Platform,
) -> (r: Result<String, LocateError>)
    ensures
        override_path is Some && override_exists ==> r == Ok::<String, LocateError>(
            override_path.unwrap(),
        ),
        override_path is Some && !override_exists ==> r == Err::<String, LocateError>(
            LocateError::OverrideMissing { attempted: override_path.unwrap() },
        ),
        override_path is None && search_result is Ok ==> r == Ok::<String, LocateError>(
            search_result.unwrap(),
        ),
        override_path is None && search_result is Err ==> (r matches Err(
            LocateError::NotFoundInPath { binary, detail },
        ) && binary@ == spec_driver_binary(platform) && detail == search_result.unwrap_err()),
{
    match override_path {
        Some(p) => {
            if override_exists {
                Ok(p)
            } else {
                Err(LocateError::OverrideMissing { attempted: p })
            }
        },
        None => {
            match search_result {
                Ok(found) => Ok(found),
                Err(detail) => Err(
                    LocateError::NotFoundInPath {
                        binary: driver_binary_name(platform).to_owned(),
                        detail,
                    },
                ),
            }
        },
    }
}

impl LocateError {
    /// The diagnostic reported on standard error before the process exits:
    /// a missing override names the attempted path and the current working
    /// directory, and a failed search names the expected binary and the
    /// underlying lookup error.
    pub fn message(&self, cwd: &str) -> (r: String)
        ensures
            self matches LocateError::OverrideMissing { attempted } ==> r@
                == "can not find the supplied binary path "@ + attempted@
                + ". This is currently required. current working directory: "@ + cwd@,
            self matches LocateError::NotFoundInPath { binary, detail } ==> r@
                == "can not find binary "@ + binary@
                + " in the PATH. This is currently required. You can also pass a custom path with --native-driver: "@
                + detail@,
    {
        match self {
            LocateError::OverrideMissing { attempted } => {
                let mut r = "can not find the supplied binary path ".to_owned();
                append_str(&mut r, attempted.as_str());
                append_str(&mut r, ". This is currently required. current working directory: ");
                append_str(&mut r, cwd);
                r
            },
            LocateError::NotFoundInPath { binary, detail } => {
                let mut r = "can not find binary ".to_owned();
                append_str(&mut r, binary.as_str());
                append_str(
                    &mut r,
                    " in the PATH. This is currently required. You can also pass a custom path with --native-driver: ",
                );
                append_str(&mut r, detail.as_str());
                r
            },
        }
    }
}

} // verus!
