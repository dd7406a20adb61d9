//! From the client's report of a pull request to the record that is written.

use crate::error::{SyncError, TimestampField};
use crate::record::{
    optional_text, FileChange, GhFile, GhLabel, GhPullRequest, GhPullRequestView, PullRequest,
    PullRequestView,
};
use crate::text::lowercase;
use crate::timestamp::{read_timestamp, reading, Timestamp};
use vstd::prelude::*;

verus! {

/// The record made of a report, its lowercased state and the readings of its
/// timestamps. A timestamp that could not be read is fatal, and the first of
/// them in the order created, updated, merged names the failure; a merge
/// time that is absent is none. Whatever else the platform left out becomes
/// empty, and a body that is empty is left out.
pub open spec fn assembled(
    raw: GhPullRequestView,
    state: Seq<char>,
    created_at: Option<Timestamp>,
    updated_at: Option<Timestamp>,
    merged_at: Option<Option<Timestamp>>,
) -> Result<PullRequestView, SyncError> {
    if created_at is None {
        Err(SyncError::FieldParse { number: raw.number, field: TimestampField::CreatedAt })
    } else if updated_at is None {
        Err(SyncError::FieldParse { number: raw.number, field: TimestampField::UpdatedAt })
    } else if merged_at == Some(None::<Timestamp>) {
        Err(SyncError::FieldParse { number: raw.number, field: TimestampField::MergedAt })
    } else {
        Ok(
            PullRequestView {
                number: raw.number,
                title: raw.title,
                state,
                author: match raw.author {
                    Some(login) => login,
                    None => Seq::empty(),
                },
                head: raw.head_ref_name,
                base: raw.base_ref_name,
                labels: match raw.labels {
                    Some(names) => names,
                    None => Seq::empty(),
                },
                created_at: created_at->0,
                updated_at: updated_at->0,
                merged_at: match merged_at {
                    Some(instant) => instant,
                    None => None,
                },
                additions: raw.additions,
                deletions: raw.deletions,
                is_draft: raw.is_draft,
                files: match raw.files {
                    Some(files) => files,
                    None => Seq::empty(),
                },
                body: match raw.body {
                    Some(text) => if text.len() > 0 {
                        Some(text)
                    } else {
                        None
                    },
                    None => None,
                },
            },
        )
    }
}

/// The record that a report normalizes to, or why it has none.
pub open spec fn normalized(raw: GhPullRequestView) -> Result<PullRequestView, SyncError> {
    assembled(
        raw,
        lowercase(raw.state),
        reading(raw.created_at),
        reading(raw.updated_at),
        match raw.merged_at {
            Some(text) => Some(reading(text)),
            None => None,
        },
    )
}

/// Whether every timestamp that the report holds is a date and time.
pub open spec fn readable(raw: GhPullRequestView) -> bool {
    &&& reading(raw.created_at) is Some
    &&& reading(raw.updated_at) is Some
    &&& raw.merged_at matches Some(text) ==> reading(text) is Some
}

/// What the record has where the report has nothing: an empty author, empty
/// lists of labels and files, and no body at all, neither for a report
/// without a body nor for one whose body is empty.
pub open spec fn fills_gaps(raw: &GhPullRequest, pr: PullRequest) -> bool {
    &&& raw.author is None ==> pr.author@.len() == 0
    &&& raw.labels is None ==> pr.labels.len() == 0
    &&& raw.files is None ==> pr.files.len() == 0
    &&& pr.body is None <==> (raw.body matches Some(text) ==> text@.len() == 0)
    &&& pr.body matches Some(text) ==> Some(text@) == optional_text(raw.body)
}

/// The names of the labels, in the order received.
fn label_names(nodes: &Vec<GhLabel>) -> (names: Vec<String>)
    ensures
        names@.map_values(|s: String| s@) == nodes@.map_values(|label: GhLabel| label.name@),
{
    let mut names: Vec<String> = Vec::new();
    let mut i: usize = 0;
    while i < nodes.len()
        invariant
            i <= nodes.len(),
            names.len() == i,
            forall|j: int| 0 <= j < i ==> names[j]@ == nodes[j].name@,
        decreases nodes.len() - i,
    {
        names.push(nodes[i].name.clone());
        i += 1;
    }
    assert(names@.map_values(|s: String| s@) =~= nodes@.map_values(
        |label: GhLabel| label.name@,
    ));
    names
}

/// The file changes, in the order received.
fn file_changes(nodes: &Vec<GhFile>) -> (files: Vec<FileChange>)
    ensures
        files@.map_values(|file: FileChange| file@) == nodes@.map_values(|file: GhFile| file@),
{
    let mut files: Vec<FileChange> = Vec::new();
    let mut i: usize = 0;
    while i < nodes.len()
        invariant
            i <= nodes.len(),
            files.len() == i,
            forall|j: int| 0 <= j < i ==> files[j]@ == nodes[j]@,
        decreases nodes.len() - i,
    {
        let node = &nodes[i];
        files.push(
            FileChange {
                path: node.path.clone(),
                additions: node.additions,
                deletions: node.deletions,
            },
        );
        i += 1;
    }
    assert(files@.map_values(|file: FileChange| file@) =~= nodes@.map_values(
        |file: GhFile| file@,
    ));
    files
}

/// Builds the record of `raw` from its lowercased state and the readings of
/// its timestamps (`None` for a text that is no date and time; for
/// `merged_at`, the outer `None` for a pull request that was not merged).
pub fn assemble(
    raw: &GhPullRequest,
    state: String,
    created_at: Option<Timestamp>,
    updated_at: Option<Timestamp>,
    merged_at: Option<Option<Timestamp>>,
) -> (r: Result<PullRequest, SyncError>)
    ensures
        match r {
            Ok(pr) => assembled(raw@, state@, created_at, updated_at, merged_at) == Ok::<
                PullRequestView,
                SyncError,
            >(pr@),
            Err(e) => assembled(raw@, state@, created_at, updated_at, merged_at) == Err::<
                PullRequestView,
                SyncError,
            >(e),
        },
        r is Ok <==> created_at is Some && updated_at is Some && merged_at != Some(
            None::<Timestamp>,
        ),
        r matches Ok(pr) ==> fills_gaps(raw, pr),
{
    let ghost expected = assembled(raw@, state@, created_at, updated_at, merged_at);
    let created = match created_at {
        Some(instant) => instant,
        None => {
            return Err(
                SyncError::FieldParse { number: raw.number, field: TimestampField::CreatedAt },
            );
        },
    };
    let updated = match updated_at {
        Some(instant) => instant,
        None => {
            return Err(
                SyncError::FieldParse { number: raw.number, field: TimestampField::UpdatedAt },
            );
        },
    };
    let merged = match merged_at {
        Some(Some(instant)) => Some(instant),
        Some(None) => {
            return Err(
                SyncError::FieldParse { number: raw.number, field: TimestampField::MergedAt },
            );
        },
        None => None,
    };
    let author = match &raw.author {
        Some(author) => author.login.clone(),
        None => String::new(),
    };
    let labels = match &raw.labels {
        Some(labels) => label_names(&labels.nodes),
        None => Vec::new(),
    };
    let files = match &raw.files {
        Some(files) => file_changes(&files.nodes),
        None => Vec::new(),
    };
    let body = match &raw.body {
        Some(text) => if text.as_str().is_empty() {
            None
        } else {
            Some(text.clone())
        },
        None => None,
    };
    let pr = PullRequest {
        number: raw.number,
        title: raw.title.clone(),
        state,
        author,
        head: raw.head_ref_name.clone(),
        base: raw.base_ref_name.clone(),
        labels,
        created_at: created,
        updated_at: updated,
        merged_at: merged,
        additions: raw.additions,
        deletions: raw.deletions,
        is_draft: raw.is_draft,
        files,
        body,
    };
    assert(pr@.labels =~= expected->Ok_0.labels);
    assert(pr@.files =~= expected->Ok_0.files);
    Ok(pr)
}

/// Normalizes one report: lowercases the state, reads the timestamps and
/// builds the record.
pub fn normalize(raw: &GhPullRequest) -> (r: Result<PullRequest, SyncError>)
    ensures
        match r {
            Ok(pr) => normalized(raw@) == Ok::<PullRequestView, SyncError>(pr@),
            Err(e) => normalized(raw@) == Err::<PullRequestView, SyncError>(e),
        },
        r is Ok <==> readable(raw@),
        r matches Ok(pr) ==> fills_gaps(raw, pr),
        reading(raw.created_at@) is None ==> r == Err::<PullRequest, SyncError>(
            SyncError::FieldParse { number: raw.number, field: TimestampField::CreatedAt },
        ),
{
    let state = raw.state.to_lowercase();
    let created_at = read_timestamp(&raw.created_at);
    let updated_at = read_timestamp(&raw.updated_at);
    let merged_at = match &raw.merged_at {
        Some(text) => Some(read_timestamp(text)),
        None => None,
    };
    assemble(raw, state, created_at, updated_at, merged_at)
}

/// A report has a record exactly where each of its timestamps can be read.
/// Where one cannot, the failure names the report by its number, and the
/// first such field in the order created, updated, merged.
pub proof fn lemma_failure_names_field(raw: GhPullRequestView)
    ensures
        normalized(raw) is Ok <==> readable(raw),
        reading(raw.created_at) is None ==> normalized(raw) == Err::<PullRequestView, _>(
            SyncError::FieldParse { number: raw.number, field: TimestampField::CreatedAt },
        ),
        reading(raw.created_at) is Some && reading(raw.updated_at) is None ==> normalized(raw)
            == Err::<PullRequestView, _>(
            SyncError::FieldParse { number: raw.number, field: TimestampField::UpdatedAt },
        ),
        reading(raw.created_at) is Some && reading(raw.updated_at) is Some && !readable(raw)
            ==> normalized(raw) == Err::<PullRequestView, _>(
            SyncError::FieldParse { number: raw.number, field: TimestampField::MergedAt },
        ),
{
}

} // verus!
