//! Pull requests as the client reports them and as they are written out.

use crate::timestamp::Timestamp;
use vstd::prelude::*;

verus! {

/// The text of an optional string.
pub open spec fn optional_text(s: Option<String>) -> Option<Seq<char>> {
    match s {
        Some(text) => Some(text@),
        None => None,
    }
}

/// The texts of a list of strings, in order.
pub open spec fn texts(list: Seq<String>) -> Seq<Seq<char>> {
    list.map_values(|s: String| s@)
}

/// Who opened a pull request, as the client reports it.
#[derive(Clone, Debug, PartialEq, Eq)]
pub struct GhAuthor {
    pub login: String,
}

/// One label of a pull request, as the client reports it.
#[derive(Clone, Debug, PartialEq, Eq)]
pub struct GhLabel {
    pub name: String,
}

/// The labels of a pull request, as the client reports them.
#[derive(Clone, Debug, PartialEq, Eq)]
pub struct GhLabels {
    pub nodes: Vec<GhLabel>,
}

/// One file that a pull request touches, as the client reports it.
#[derive(Clone, Debug, PartialEq, Eq)]
pub struct GhFile {
    pub path: String,
    pub additions: u64,
    pub deletions: u64,
}

/// The files that a pull request touches, as the client reports them.
#[derive(Clone, Debug, PartialEq, Eq)]
pub struct GhFiles {
    pub nodes: Vec<GhFile>,
}

/// A pull request as the client reports it. What the platform may leave out
/// is optional here, so that absent and empty stay apart.
#[derive(Clone, Debug, PartialEq, Eq)]
pub struct GhPullRequest {
    pub number: u64,
    pub title: String,
    pub state: String,
    pub author: Option<GhAuthor>,
    pub head_ref_name: String,
    pub base_ref_name: String,
    pub labels: Option<GhLabels>,
    pub files: Option<GhFiles>,
    pub created_at: String,
    pub updated_at: String,
    pub merged_at: Option<String>,
    pub body: Option<String>,
    pub additions: u64,
    pub deletions: u64,
    pub is_draft: bool,
}

/// One file that a pull request touches.
#[derive(Clone, Debug, PartialEq, Eq)]
pub struct FileChange {
    pub path: String,
    pub additions: u64,
    pub deletions: u64,
}

/// A pull request as it is written out.
#[derive(Clone, Debug, PartialEq, Eq)]
pub struct PullRequest {
    pub number: u64,
    pub title: String,
    pub state: String,
    pub author: String,
    pub head: String,
    pub base: String,
    pub labels: Vec<String>,
    pub created_at: Timestamp,
    pub updated_at: Timestamp,
    pub merged_at: Option<Timestamp>,
    pub additions: u64,
    pub deletions: u64,
    pub is_draft: bool,
    pub files: Vec<FileChange>,
    pub body: Option<String>,
}

/// What a `FileChange` or a `GhFile` holds.
pub struct FileChangeView {
    pub path: Seq<char>,
    pub additions: u64,
    pub deletions: u64,
}

/// What a `GhPullRequest` holds.
pub struct GhPullRequestView {
    pub number: u64,
    pub title: Seq<char>,
    pub state: Seq<char>,
    pub author: Option<Seq<char>>,
    pub head_ref_name: Seq<char>,
    pub base_ref_name: Seq<char>,
    pub labels: Option<Seq<Seq<char>>>,
    pub files: Option<Seq<FileChangeView>>,
    pub created_at: Seq<char>,
    pub updated_at: Seq<char>,
    pub merged_at: Option<Seq<char>>,
    pub body: Option<Seq<char>>,
    pub additions: u64,
    pub deletions: u64,
    pub is_draft: bool,
}

/// What a `PullRequest` holds.
pub struct PullRequestView {
    pub number: u64,
    pub title: Seq<char>,
    pub state: Seq<char>,
    pub author: Seq<char>,
    pub head: Seq<char>,
    pub base: Seq<char>,
    pub labels: Seq<Seq<char>>,
    pub created_at: Timestamp,
    pub updated_at: Timestamp,
    pub merged_at: Option<Timestamp>,
    pub additions: u64,
    pub deletions: u64,
    pub is_draft: bool,
    pub files: Seq<FileChangeView>,
    pub body: Option<Seq<char>>,
}

impl View for GhFile {
    type V = FileChangeView;

    open spec fn view(&self) -> FileChangeView {
        FileChangeView { path: self.path@, additions: self.additions, deletions: self.deletions }
    }
}

impl View for FileChange {
    type V = FileChangeView;

    open spec fn view(&self) -> FileChangeView {
        FileChangeView { path: self.path@, additions: self.additions, deletions: self.deletions }
    }
}

impl View for GhLabels {
    type V = Seq<Seq<char>>;

    open spec fn view(&self) -> Seq<Seq<char>> {
        self.nodes@.map_values(|label: GhLabel| label.name@)
    }
}

impl View for GhFiles {
    type V = Seq<FileChangeView>;

    open spec fn view(&self) -> Seq<FileChangeView> {
        self.nodes@.map_values(|file: GhFile| file@)
    }
}

impl View for GhPullRequest {
    type V = GhPullRequestView;

    open spec fn view(&self) -> GhPullRequestView {
        GhPullRequestView {
            number: self.number,
            title: self.title@,
            state: self.state@,
            author: match self.author {
                Some(author) => Some(author.login@),
                None => None,
            },
            head_ref_name: self.head_ref_name@,
            base_ref_name: self.base_ref_name@,
            labels: match self.labels {
                Some(labels) => Some(labels@),
                None => None,
            },
            files: match self.files {
                Some(files) => Some(files@),
                None => None,
            },
            created_at: self.created_at@,
            updated_at: self.updated_at@,
            merged_at: optional_text(self.merged_at),
            body: optional_text(self.body),
            additions: self.additions,
            deletions: self.deletions,
            is_draft: self.is_draft,
        }
    }
}

impl View for PullRequest {
    type V = PullRequestView;

    open spec fn view(&self) -> PullRequestView {
        PullRequestView {
            number: self.number,
            title: self.title@,
            state: self.state@,
            author: self.author@,
            head: self.head@,
            base: self.base@,
            labels: texts(self.labels@),
            created_at: self.created_at,
            updated_at: self.updated_at,
            merged_at: self.merged_at,
            additions: self.additions,
            deletions: self.deletions,
            is_draft: self.is_draft,
            files: self.files@.map_values(|file: FileChange| file@),
            body: optional_text(self.body),
        }
    }
}

} // verus!
