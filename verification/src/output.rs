//! The output directory: how its files are named, which of them a sync
//! removes, and which it writes.

use crate::decimal::{decimal, is_digit, lemma_decimal_digits, lemma_decimal_injective, to_decimal};
use crate::error::SyncError;
use crate::normalize::{lemma_failure_names_field, normalize, normalized, readable};
use crate::record::{GhPullRequest, GhPullRequestView, PullRequest, PullRequestView, texts};
use crate::slug::{lemma_slug_of_punctuation, separator, slug_of, slugify};
use crate::text::{alphanumeric, lowercase};
use vstd::prelude::*;
use vstd::string::{StrSliceExecFns, StringExecFns};

verus! {

/// The end of every output file's name: a dot and the extension.
pub open spec fn suffix() -> Seq<char> {
    seq!['.', 'y', 'a', 'm', 'l']
}

/// The name of the output file for a pull request with this number and slug.
pub open spec fn file_name_of(number: u64, slug: Seq<char>) -> Seq<char> {
    decimal(number as nat).push(separator()) + slug + suffix()
}

/// The name of the output file for a pull request with this number and title.
pub open spec fn output_name(number: u64, title: Seq<char>) -> Seq<char> {
    file_name_of(number, slug_of(title))
}

/// Whether a file of this name counts as the output of a sync: its extension
/// is the one that output files have. A name that is nothing but the suffix
/// has no extension.
pub open spec fn is_sync_output(name: Seq<char>) -> bool {
    name.len() > suffix().len() && name.subrange(name.len() - suffix().len(), name.len() as int)
        == suffix()
}

/// The directory, relative to the working directory, that holds the output.
pub const OUTPUT_DIRECTORY: &'static str = ".prs";

/// The name of the output file for a pull request with this number and slug.
pub fn file_name_for_slug(number: u64, slug: &str) -> (name: String)
    ensures
        name@ == file_name_of(number, slug@),
{
    let mut name = to_decimal(number);
    name.push('-');
    name.append(slug);
    name.append(".yaml");
    proof {
        reveal_strlit(".yaml");
        assert(".yaml"@ =~= suffix());
    }
    name
}

/// The name of the output file for a pull request with this number and title.
pub fn file_name(number: u64, title: &str) -> (name: String)
    ensures
        name@ == output_name(number, title@),
{
    let slug = slugify(title);
    file_name_for_slug(number, &slug)
}

/// Whether a file of this name is the output of an earlier sync.
pub fn has_output_extension(name: &str) -> (r: bool)
    ensures
        r == is_sync_output(name@),
{
    let n = name.unicode_len();
    if n <= 5 {
        return false;
    }
    let r = name.get_char(n - 5) == '.' && name.get_char(n - 4) == 'y' && name.get_char(n - 3)
        == 'a' && name.get_char(n - 2) == 'm' && name.get_char(n - 1) == 'l';
    proof {
        let tail = name@.subrange(n - 5, n as int);
        if r {
            assert(tail =~= suffix());
        } else {
            assert(tail[0] == name@[n - 5]);
            assert(tail[1] == name@[n - 4]);
            assert(tail[2] == name@[n - 3]);
            assert(tail[3] == name@[n - 2]);
            assert(tail[4] == name@[n - 1]);
        }
    }
    r
}

/// Whether `stale` lists, in ascending order, exactly the places in
/// `listing` that hold the name of a sync output.
pub open spec fn lists_stale(stale: Seq<usize>, listing: Seq<Seq<char>>) -> bool {
    &&& forall|k: int|
        0 <= k < stale.len() ==> #[trigger] stale[k] < listing.len() && is_sync_output(
            listing[stale[k] as int],
        )
    &&& forall|k: int, l: int|
        0 <= k < l < stale.len() ==> #[trigger] stale[k] < #[trigger] stale[l]
    &&& forall|i: int|
        0 <= i < listing.len() && is_sync_output(#[trigger] listing[i]) ==> exists|k: int|
            0 <= k < stale.len() && #[trigger] stale[k] == i
}

/// The places in `listing`, in ascending order, of the files that a sync
/// removes before it writes: every output of an earlier sync, and nothing
/// else.
pub fn stale_entries(listing: &Vec<String>) -> (stale: Vec<usize>)
    ensures
        lists_stale(stale@, texts(listing@)),
{
    let mut stale: Vec<usize> = Vec::new();
    let mut i: usize = 0;
    while i < listing.len()
        invariant
            i <= listing.len(),
            forall|k: int| 0 <= k < stale.len() ==> #[trigger] stale[k] < i && is_sync_output(
                listing[stale[k] as int]@,
            ),
            forall|k: int, l: int|
                0 <= k < l < stale.len() ==> #[trigger] stale[k] < #[trigger] stale[l],
            forall|j: int|
                0 <= j < i && is_sync_output(#[trigger] listing[j]@) ==> exists|k: int|
                    0 <= k < stale.len() && #[trigger] stale[k] == j,
        decreases listing.len() - i,
    {
        if has_output_extension(&listing[i]) {
            let ghost before = stale@;
            stale.push(i);
            assert(stale@[before.len() as int] == i);
            assert forall|j: int|
                0 <= j < i + 1 && is_sync_output(#[trigger] listing[j]@) implies exists|k: int|
                0 <= k < stale.len() && #[trigger] stale[k] == j by {
                if j < i {
                    let k = choose|k: int| 0 <= k < before.len() && #[trigger] before[k] == j;
                    assert(stale[k] == j);
                }
            }
        }
        i += 1;
    }
    stale
}

/// One file to write: its name in the output directory and the record that
/// goes into it.
#[derive(Clone, Debug, PartialEq, Eq)]
pub struct OutputFile {
    pub name: String,
    pub record: PullRequest,
}

/// What one sync does to the output directory.
#[derive(Clone, Debug, PartialEq, Eq)]
pub struct SyncPlan {
    /// The places in the listing of the files to remove first.
    pub stale: Vec<usize>,
    /// The files to write after that, in order.
    pub outputs: Vec<OutputFile>,
    /// Why the sync stops once these are written, if it does.
    pub failure: Option<SyncError>,
}

impl SyncPlan {
    /// The names of the files that the plan writes, in order.
    pub open spec fn written(self) -> Seq<Seq<char>> {
        self.outputs@.map_values(|file: OutputFile| file.name@)
    }

    /// Whether this is the plan for a directory that holds `listing` and a
    /// response that holds `records`: the stale files go, the records are
    /// taken in order, each that normalizes gives one file, and the first
    /// that does not ends the sync with its failure.
    pub open spec fn plans(self, listing: Seq<Seq<char>>, records: Seq<GhPullRequestView>) -> bool {
        &&& lists_stale(self.stale@, listing)
        &&& self.outputs.len() <= records.len()
        &&& forall|j: int|
            0 <= j < self.outputs.len() ==> normalized(records[j]) == Ok::<_, SyncError>(
                (#[trigger] self.outputs[j]).record@,
            ) && self.outputs[j].name@ == output_name(records[j].number, records[j].title)
        &&& match self.failure {
            None => self.outputs.len() == records.len(),
            Some(e) => self.outputs.len() < records.len() && normalized(
                records[self.outputs.len() as int],
            ) == Err::<PullRequestView, _>(e),
        }
    }

    /// The names in the output directory once the plan has been carried out
    /// on a directory that held `listing`.
    pub open spec fn directory_after(self, listing: Seq<Seq<char>>) -> Set<Seq<char>> {
        Set::new(
            |name: Seq<char>|
                self.written().contains(name) || (listing.contains(name) && !(exists|k: int|
                    0 <= k < self.stale.len() && 0 <= self.stale[k] < listing.len()
                        && #[trigger] listing[self.stale[k] as int] == name)),
        )
    }
}

/// The reports' views, in order.
pub open spec fn reports(records: Seq<GhPullRequest>) -> Seq<GhPullRequestView> {
    records.map_values(|raw: GhPullRequest| raw@)
}

/// Plans one sync of a directory that holds the files named in `listing`
/// with the response `records`.
pub fn plan_sync(listing: &Vec<String>, records: &Vec<GhPullRequest>) -> (plan: SyncPlan)
    ensures
        plan.plans(texts(listing@), reports(records@)),
{
    let stale = stale_entries(listing);
    let mut outputs: Vec<OutputFile> = Vec::new();
    let mut i: usize = 0;
    while i < records.len()
        invariant
            i <= records.len(),
            outputs.len() == i,
            lists_stale(stale@, texts(listing@)),
            forall|j: int|
                0 <= j < i ==> normalized(records[j]@) == Ok::<_, SyncError>(
                    (#[trigger] outputs[j]).record@,
                ) && outputs[j].name@ == output_name(records[j].number, records[j].title@),
        decreases records.len() - i,
    {
        match normalize(&records[i]) {
            Ok(record) => {
                let name = file_name(record.number, &record.title);
                outputs.push(OutputFile { name, record });
            },
            Err(e) => {
                return SyncPlan { stale, outputs, failure: Some(e) };
            },
        }
        i += 1;
    }
    SyncPlan { stale, outputs, failure: None }
}

/// Every output file's name has the extension by which a later sync finds it.
pub proof fn lemma_file_name_is_output(number: u64, slug: Seq<char>)
    ensures
        is_sync_output(file_name_of(number, slug)),
{
    let name = file_name_of(number, slug);
    lemma_decimal_digits(number as nat);
    assert(name.subrange(name.len() - suffix().len(), name.len() as int) =~= suffix());
}

/// A pull request whose title has no letter and no digit gets a file that is
/// named by the number and the separator alone.
pub proof fn lemma_file_name_without_slug(number: u64, title: Seq<char>)
    requires
        forall|i: int|
            0 <= i < lowercase(title).len() ==> !alphanumeric(#[trigger] lowercase(title)[i]),
    ensures
        output_name(number, title) == decimal(number as nat).push(separator()) + suffix(),
{
    lemma_slug_of_punctuation(title);
    assert(decimal(number as nat).push(separator()) + Seq::<char>::empty() == decimal(
        number as nat,
    ).push(separator()));
}

/// Pull requests with different numbers get files with different names,
/// whatever their titles.
pub proof fn lemma_file_names_distinct(a: u64, slug_a: Seq<char>, b: u64, slug_b: Seq<char>)
    requires
        a != b,
    ensures
        file_name_of(a, slug_a) != file_name_of(b, slug_b),
{
    let da = decimal(a as nat);
    let db = decimal(b as nat);
    let na = file_name_of(a, slug_a);
    let nb = file_name_of(b, slug_b);
    lemma_decimal_digits(a as nat);
    lemma_decimal_digits(b as nat);
    if na == nb {
        assert(forall|d: nat| d < 10 ==> crate::decimal::digit(d) != separator());
        if da.len() < db.len() {
            assert(nb[da.len() as int] == db[da.len() as int]);
            assert(is_digit(db[da.len() as int]));
        } else if db.len() < da.len() {
            assert(na[db.len() as int] == da[db.len() as int]);
            assert(is_digit(da[db.len() as int]));
        } else {
            assert forall|i: int| 0 <= i < da.len() implies da[i] == db[i] by {
                assert(na[i] == da[i]);
                assert(nb[i] == db[i]);
            }
            assert(da =~= db);
            lemma_decimal_injective(a as nat, b as nat);
        }
    }
}

/// Whether no two of the reports have the same number.
pub open spec fn distinct_numbers(records: Seq<GhPullRequestView>) -> bool {
    forall|i: int, j: int|
        0 <= i < j < records.len() ==> (#[trigger] records[i]).number != (
        #[trigger] records[j]).number
}

/// The output files that the directory holds once the plan has been carried
/// out.
pub open spec fn outputs_after(plan: SyncPlan, listing: Seq<Seq<char>>) -> Set<Seq<char>> {
    plan.directory_after(listing).filter(|name: Seq<char>| is_sync_output(name))
}

/// A sync replaces the output of earlier syncs: afterwards the directory's
/// output files are the files written for the records of this response,
/// however many output files it held before, and every other file is as it
/// was. Each record that was reached before a failure has its file under its
/// own name; where the records' numbers differ, so do the names, and a sync
/// that did not fail leaves exactly one output file per record.
pub proof fn lemma_sync_replaces_outputs(
    plan: SyncPlan,
    listing: Seq<Seq<char>>,
    records: Seq<GhPullRequestView>,
)
    requires
        plan.plans(listing, records),
    ensures
        outputs_after(plan, listing) == plan.written().to_set(),
        forall|name: Seq<char>|
            !is_sync_output(name) ==> (#[trigger] plan.directory_after(listing).contains(name)
                <==> listing.contains(name)),
        plan.written().len() == plan.outputs.len(),
        forall|j: int|
            0 <= j < plan.outputs.len() ==> #[trigger] plan.written()[j] == output_name(
                records[j].number,
                records[j].title,
            ),
        distinct_numbers(records) ==> plan.written().no_duplicates(),
        distinct_numbers(records) && plan.failure is None ==> outputs_after(plan, listing).len()
            == records.len(),
{
    let written = plan.written();
    let after = plan.directory_after(listing);
    assert forall|j: int| 0 <= j < written.len() implies is_sync_output(#[trigger] written[j]) by {
        lemma_file_name_is_output(records[j].number, slug_of(records[j].title));
    }
    assert forall|name: Seq<char>|
        outputs_after(plan, listing).contains(name) <==> written.to_set().contains(name) by {
        if written.contains(name) {
            let j = choose|j: int| 0 <= j < written.len() && written[j] == name;
            assert(is_sync_output(written[j]));
        }
        if after.contains(name) && is_sync_output(name) && !written.contains(name) {
            let i = choose|i: int| 0 <= i < listing.len() && listing[i] == name;
            let k = choose|k: int| 0 <= k < plan.stale.len() && #[trigger] plan.stale[k] == i;
            assert(listing[plan.stale[k] as int] == name);
        }
    }
    assert(outputs_after(plan, listing) =~= written.to_set());
    assert forall|name: Seq<char>| !is_sync_output(name) implies (#[trigger] after.contains(name)
        <==> listing.contains(name)) by {
        if written.contains(name) {
            let j = choose|j: int| 0 <= j < written.len() && written[j] == name;
            assert(is_sync_output(written[j]));
        }
    }
    if distinct_numbers(records) {
        assert forall|i: int, j: int| 0 <= i < written.len() && 0 <= j < written.len() && i
            != j implies written[i] != written[j] by {
            if i < j {
                assert(records[i].number != records[j].number);
            } else {
                assert(records[j].number != records[i].number);
            }
            lemma_file_names_distinct(
                records[i].number,
                slug_of(records[i].title),
                records[j].number,
                slug_of(records[j].title),
            );
        }
        written.unique_seq_to_set();
    }
}

/// A sync that fails has planned the files of the records before the first
/// one with a timestamp that cannot be read, and of no record after it; its
/// failure names that record. A sync fails only so.
pub proof fn lemma_failure_stops_sync(
    plan: SyncPlan,
    listing: Seq<Seq<char>>,
    records: Seq<GhPullRequestView>,
)
    requires
        plan.plans(listing, records),
    ensures
        forall|j: int| 0 <= j < plan.outputs.len() ==> readable(#[trigger] records[j]),
        plan.failure is None <==> forall|j: int|
            0 <= j < records.len() ==> readable(#[trigger] records[j]),
        plan.failure matches Some(e) ==> {
            let first = records[plan.outputs.len() as int];
            &&& plan.outputs.len() < records.len()
            &&& !readable(first)
            &&& e matches SyncError::FieldParse { number, .. } && number == first.number
        },
{
    assert forall|j: int| 0 <= j < plan.outputs.len() implies readable(#[trigger] records[j]) by {
        assert(normalized(records[j]) == Ok::<_, SyncError>(plan.outputs[j].record@));
        lemma_failure_names_field(records[j]);
    }
    if plan.failure is Some {
        lemma_failure_names_field(records[plan.outputs.len() as int]);
    }
}

} // verus!
