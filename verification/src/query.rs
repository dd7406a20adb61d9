//! The question put to the `gh` client, and what its exit means.

use crate::decimal::{decimal, to_decimal};
use crate::error::SyncError;
use crate::record::{optional_text, texts};
use vstd::prelude::*;
use vstd::string::StringExecFns;

verus! {

/// The state filter: every state where closed pull requests are wanted too,
/// open ones only otherwise.
pub open spec fn state_filter_of(all: bool) -> Seq<char> {
    if all {
        "all"@
    } else {
        "open"@
    }
}

/// How many pull requests are asked for where the user names no limit.
pub const DEFAULT_LIMIT: u32 = 100;

/// The fields that the client is asked to report for each pull request.
pub const REQUESTED_FIELDS: &'static str =
    "number,title,state,author,headRefName,baseRefName,labels,files,createdAt,updatedAt,mergedAt,body,additions,deletions,isDraft";

/// The client's arguments for listing at most `limit` pull requests of
/// `repo`, or of the repository of the working directory where none is given.
pub open spec fn arguments_of(repo: Option<Seq<char>>, limit: u32, all: bool) -> Seq<Seq<char>> {
    let fixed = seq![
        "pr"@,
        "list"@,
        "--state"@,
        state_filter_of(all),
        "--limit"@,
        decimal(limit as nat),
        "--json"@,
        REQUESTED_FIELDS@,
    ];
    match repo {
        Some(name) => fixed.push("--repo"@).push(name),
        None => fixed,
    }
}

/// The state filter to hand to the client.
pub fn state_filter(all: bool) -> (filter: &'static str)
    ensures
        filter@ == state_filter_of(all),
{
    if all {
        "all"
    } else {
        "open"
    }
}

/// The arguments with which the client is started. Without `all` they ask
/// for open pull requests only.
pub fn list_arguments(repo: &Option<String>, limit: u32, all: bool) -> (args: Vec<String>)
    ensures
        texts(args@) == arguments_of(optional_text(*repo), limit, all),
        args.len() == if repo is Some {
            10int
        } else {
            8int
        },
        args[2]@ == "--state"@,
        args[3]@ == state_filter_of(all),
{
    let mut args: Vec<String> = Vec::new();
    args.push(String::from_str("pr"));
    args.push(String::from_str("list"));
    args.push(String::from_str("--state"));
    args.push(String::from_str(state_filter(all)));
    args.push(String::from_str("--limit"));
    args.push(to_decimal(limit as u64));
    args.push(String::from_str("--json"));
    args.push(String::from_str(REQUESTED_FIELDS));
    match repo {
        Some(name) => {
            args.push(String::from_str("--repo"));
            args.push(name.clone());
        },
        None => {},
    }
    assert(texts(args@) =~= arguments_of(optional_text(*repo), limit, all));
    args
}

/// What the client's exit means: its output where it succeeded, and its own
/// diagnostic text as the failure where it did not.
pub fn client_output(succeeded: bool, stdout: Vec<u8>, stderr: String) -> (r: Result<
    Vec<u8>,
    SyncError,
>)
    ensures
        match r {
            Ok(bytes) => succeeded && bytes@ == stdout@,
            Err(SyncError::SubprocessExecution { diagnostic }) => !succeeded && diagnostic@
                == stderr@,
            Err(_) => false,
        },
{
    if succeeded {
        Ok(stdout)
    } else {
        Err(SyncError::SubprocessExecution { diagnostic: stderr })
    }
}

} // verus!
