//! The error taxonomy shared by every fallible operation of this library.

use vstd::prelude::*;
use vstd::string::StringExecFns;

use git2::Error as Git2Error;

verus! {

/// The category a failure belongs to.
#[derive(Clone, Copy, Debug, PartialEq, Eq, Structural)]
pub enum ErrorCategory {
    /// Unspecified error.
    Generic,
    /// Version-control backend error.
    Git,
    /// Error from the operating system.
    Os,
    /// Domain-level repository error, such as an invalid folder name.
    Repo,
}

/// An error of this library: a description together with its category.
#[derive(Debug)]
pub struct Error {
    msg: String,
    category: ErrorCategory,
}

impl Error {
    /// The description carried by this error.
    pub closed spec fn spec_msg(&self) -> Seq<char> {
        self.msg@
    }

    /// The category carried by this error.
    pub closed spec fn spec_category(&self) -> ErrorCategory {
        self.category
    }

    /// Constructs an error from a string description and a specific category.
    pub fn from_string(s: &str, category: ErrorCategory) -> (r: Error)
        ensures
            r.spec_msg() == s@,
            r.spec_category() == category,
    {
        Error { msg: s.to_owned(), category }
    }

    /// Constructs a `Generic` error from the rendered description of some
    /// other error value.
    pub fn from_error(description: &str) -> (r: Error)
        ensures
            r.spec_msg() == description@,
            r.spec_category() == ErrorCategory::Generic,
    {
        Error::from_string(description, ErrorCategory::Generic)
    }

    /// Converts an operating-system error into an `Os`-category error.
    pub fn from_io_error(err: &std::io::Error) -> (r: Error)
        ensures
            r.spec_category() == ErrorCategory::Os,
    {
        Error { msg: io_error_message(err), category: ErrorCategory::Os }
    }

    /// Converts a version-control backend error into a `Git`-category error.
    pub fn from_git_error(err: &git2::Error) -> (r: Error)
        ensures
            r.spec_category() == ErrorCategory::Git,
    {
        Error { msg: git_error_message(err), category: ErrorCategory::Git }
    }

    /// The error's description text.
    pub fn description(&self) -> (r: &str)
        ensures
            r@ == self.spec_msg(),
    {
        self.msg.as_str()
    }

    /// The error's category.
    pub fn category(&self) -> (r: ErrorCategory)
        ensures
            r == self.spec_category(),
    {
        self.category
    }

    /// Renders the error as a single line of text.
    pub fn describe(&self) -> (r: String)
        ensures
            r@ == describe_spec(self.spec_msg(), self.spec_category()),
    {
        let mut s = "Description: ".to_owned();
        s.append(self.msg.as_str());
        s.append(" (category: ");
        s.append(category_label(self.category));
        s.append(")");
        s
    }
}

/// The textual label of a category.
pub open spec fn category_label_spec(c: ErrorCategory) -> Seq<char> {
    match c {
        ErrorCategory::Generic => "Generic"@,
        ErrorCategory::Git => "Git"@,
        ErrorCategory::Os => "Os"@,
        ErrorCategory::Repo => "Repo"@,
    }
}

/// What `describe` renders: the description followed by the category label.
pub open spec fn describe_spec(msg: Seq<char>, c: ErrorCategory) -> Seq<char> {
    "Description: "@ + msg + " (category: "@ + category_label_spec(c) + ")"@
}

/// The textual label of a category.
pub fn category_label(c: ErrorCategory) -> (r: &'static str)
    ensures
        r@ == category_label_spec(c),
{
    match c {
        ErrorCategory::Generic => "Generic",
        ErrorCategory::Git => "Git",
        ErrorCategory::Os => "Os",
        ErrorCategory::Repo => "Repo",
    }
}

#[verifier::external_type_specification]
#[verifier::external_body]
pub struct ExIoError(std::io::Error);

#[verifier::external_type_specification]
#[verifier::external_body]
pub struct ExGitError(Git2Error);

/// Relies on the `Display` implementation of `std::io::Error` for the
/// description of an operating-system failure.
#[verifier::external_body]
fn io_error_message(err: &std::io::Error) -> String {
    err.to_string()
}

/// Relies on `git2::Error::message`: the text the backend attached to the
/// failure.
#[verifier::external_body]
fn git_error_message(err: &git2::Error) -> String {
    err.message().to_owned()
}

} // verus!
