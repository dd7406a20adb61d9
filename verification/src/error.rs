//! The ways in which a sync fails.

use crate::decimal::{decimal, push_decimal};
use vstd::prelude::*;
use vstd::string::StringExecFns;

verus! {

/// The timestamp fields of a pull request.
#[derive(Clone, Copy, Debug, PartialEq, Eq, Structural)]
pub enum TimestampField {
    CreatedAt,
    UpdatedAt,
    MergedAt,
}

impl TimestampField {
    /// The field's name as it is written in the output.
    pub open spec fn name_of(self) -> Seq<char> {
        match self {
            TimestampField::CreatedAt => "created_at"@,
            TimestampField::UpdatedAt => "updated_at"@,
            TimestampField::MergedAt => "merged_at"@,
        }
    }

    /// The field's name as it is written in the output.
    pub fn name(&self) -> (r: &'static str)
        ensures
            r@ == self.name_of(),
    {
        match self {
            TimestampField::CreatedAt => "created_at",
            TimestampField::UpdatedAt => "updated_at",
            TimestampField::MergedAt => "merged_at",
        }
    }
}

/// Why a sync stopped. Every one of these is fatal: nothing is retried.
#[derive(Clone, Debug, PartialEq, Eq)]
pub enum SyncError {
    /// The client could not be started.
    SubprocessLaunch,
    /// The client ran and reported a failure of its own.
    SubprocessExecution { diagnostic: String },
    /// The client's output is not a list of pull requests.
    ResponseParse,
    /// A timestamp of one pull request is no date and time.
    FieldParse { number: u64, field: TimestampField },
    /// The output directory could not be made, cleared or written.
    Filesystem { path: String },
}

impl SyncError {
    /// The one-line message for the user.
    pub open spec fn message_of(self) -> Seq<char> {
        match self {
            SyncError::SubprocessLaunch => "Failed to run gh cli. Is it installed?"@,
            SyncError::SubprocessExecution { diagnostic } => "gh pr list failed: "@ + diagnostic@,
            SyncError::ResponseParse => "Failed to parse gh output"@,
            SyncError::FieldParse { number, field } => "Invalid "@ + field.name_of()
                + " in pull request "@ + decimal(number as nat),
            SyncError::Filesystem { path } => "Filesystem error at "@ + path@,
        }
    }

    /// The one-line message for the user: it names the kind of failure and
    /// what it was about.
    pub fn message(&self) -> (text: String)
        ensures
            text@ == self.message_of(),
    {
        match self {
            SyncError::SubprocessLaunch => String::from_str(
                "Failed to run gh cli. Is it installed?",
            ),
            SyncError::SubprocessExecution { diagnostic } => {
                let mut text = String::from_str("gh pr list failed: ");
                text.append(diagnostic);
                text
            },
            SyncError::ResponseParse => String::from_str("Failed to parse gh output"),
            SyncError::FieldParse { number, field } => {
                let mut text = String::from_str("Invalid ");
                text.append(field.name());
                text.append(" in pull request ");
                push_decimal(&mut text, *number);
                text
            },
            SyncError::Filesystem { path } => {
                let mut text = String::from_str("Filesystem error at ");
                text.append(path);
                text
            },
        }
    }
}

} // verus!
