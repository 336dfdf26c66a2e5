//! Error taxonomy of the client.
//!
//! Three kinds of failure reach the top level: a missing credential at
//! startup, a failure of the interactive prompt layer, and a failure of a
//! remote API call. The remote kind deliberately collapses transport
//! errors, non-2xx statuses and response-shape mismatches into a single
//! variant carrying a description of the underlying cause.

use vstd::prelude::*;

verus! {

/// A failed remote API call. Transport failures, non-2xx HTTP statuses and
/// deserialization failures all land here, undifferentiated; `cause`
/// describes the underlying failure.
pub struct GitHubErr {
    pub cause: String,
}

/// The message a remote API failure renders as.
pub open spec fn github_err_text(e: GitHubErr) -> Seq<char> {
    "GitHub Error: "@ + e.cause@
}

impl GitHubErr {
    pub fn new(cause: String) -> (e: GitHubErr)
        ensures
            e.cause@ == cause@,
    {
        GitHubErr { cause }
    }

    /// The human-readable description of this failure.
    pub fn describe(&self) -> (s: String)
        ensures
            s@ == github_err_text(*self),
    {
        let mut s = String::from_str("GitHub Error: ");
        s.append(self.cause.as_str());
        s
    }
}

/// A top-level failure of the program.
pub enum AppErr {
    /// A credential variable was absent at startup; `name` is the variable.
    MissingVar { name: String },
    /// The interactive prompt layer failed (for example, an interrupt).
    InputErr { cause: String },
    /// A remote API call failed.
    GitHubErr(GitHubErr),
}

/// The message a top-level failure renders as.
pub open spec fn app_err_text(e: AppErr) -> Seq<char> {
    match e {
        AppErr::MissingVar { name } => "Missing credential variable "@ + name@,
        AppErr::InputErr { cause } => "Failed to get user input: "@ + cause@,
        AppErr::GitHubErr(g) => github_err_text(g),
    }
}

impl AppErr {
    /// The human-readable description of this failure.
    pub fn message(&self) -> (s: String)
        ensures
            s@ == app_err_text(*self),
    {
        match self {
            AppErr::MissingVar { name } => {
                let mut s = String::from_str("Missing credential variable ");
                s.append(name.as_str());
                s
            },
            AppErr::InputErr { cause } => {
                let mut s = String::from_str("Failed to get user input: ");
                s.append(cause.as_str());
                s
            },
            AppErr::GitHubErr(g) => g.describe(),
        }
    }
}

} // verus!
