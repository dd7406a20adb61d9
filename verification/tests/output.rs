use gh_pr_sync::error::{SyncError, TimestampField};
use gh_pr_sync::output::{
    file_name, file_name_for_slug, has_output_extension, plan_sync, stale_entries,
    OUTPUT_DIRECTORY,
};
use gh_pr_sync::record::GhPullRequest;

fn report(number: u64, title: &str, created_at: &str) -> GhPullRequest {
    GhPullRequest {
        number,
        title: String::from(title),
        state: String::from("OPEN"),
        author: None,
        head_ref_name: String::from("topic"),
        base_ref_name: String::from("main"),
        labels: None,
        files: None,
        created_at: String::from(created_at),
        updated_at: String::from("2024-01-02T00:00:00Z"),
        merged_at: None,
        body: None,
        additions: 3,
        deletions: 1,
        is_draft: false,
    }
}

fn names(list: &[&str]) -> Vec<String> {
    list.iter().map(|name| String::from(*name)).collect()
}

#[test]
fn output_directory_is_fixed() {
    assert_eq!(OUTPUT_DIRECTORY, ".prs");
}

#[test]
fn file_name_joins_number_slug_and_extension() {
    assert_eq!(file_name(42, "Fix Bug!!"), "42-fix-bug.yaml");
    assert_eq!(file_name(1, "Add README"), "1-add-readme.yaml");
}

#[test]
fn file_name_of_a_title_without_letters_ends_in_the_separator() {
    assert_eq!(file_name(42, "!!!"), "42-.yaml");
    assert_eq!(file_name(0, ""), "0-.yaml");
}

#[test]
fn file_name_for_a_given_slug() {
    assert_eq!(file_name_for_slug(42, "fix-bug"), "42-fix-bug.yaml");
    assert_eq!(file_name_for_slug(18446744073709551615, "x"), "18446744073709551615-x.yaml");
    assert_eq!(file_name_for_slug(3, ""), "3-.yaml");
}

#[test]
fn file_names_differ_where_numbers_differ() {
    assert_ne!(file_name(1, "same"), file_name(2, "same"));
    assert_ne!(file_name(1, "1 x"), file_name(11, "x"));
    assert_ne!(file_name(12, "3"), file_name(1, "2 3"));
}

#[test]
fn file_names_are_sync_outputs() {
    assert!(has_output_extension(&file_name(42, "Fix Bug!!")));
    assert!(has_output_extension(&file_name(42, "")));
}

#[test]
fn extension_is_read_after_the_last_dot() {
    assert!(has_output_extension("42-fix-bug.yaml"));
    assert!(has_output_extension("a.yaml"));
    assert!(has_output_extension("archive.tar.yaml"));
    assert!(has_output_extension("..yaml"));
    assert!(has_output_extension("é.yaml"));
}

#[test]
fn other_names_are_no_sync_outputs() {
    assert!(!has_output_extension(""));
    assert!(!has_output_extension("yaml"));
    assert!(!has_output_extension(".yaml"));
    assert!(!has_output_extension("notes.txt"));
    assert!(!has_output_extension("a.yml"));
    assert!(!has_output_extension("a.yaml.bak"));
    assert!(!has_output_extension("a.YAML"));
    assert!(!has_output_extension("ayaml"));
    assert!(!has_output_extension("a.yaml "));
}

#[test]
fn extension_agrees_with_std_on_samples() {
    for name in ["a.yaml", ".yaml", "..yaml", "x.y.yaml", "yaml", "a.yml", "a.yaml.bak", "a."] {
        let expected = std::path::Path::new(name).extension().map(|e| e == "yaml").unwrap_or(false);
        assert_eq!(has_output_extension(name), expected, "{}", name);
    }
}

#[test]
fn stale_entries_are_the_earlier_outputs() {
    let listing = names(&["1-old.yaml", "notes.txt", ".yaml", "2-older.yaml", "README"]);
    assert_eq!(stale_entries(&listing), vec![0, 3]);
}

#[test]
fn stale_entries_of_an_empty_directory() {
    assert_eq!(stale_entries(&names(&[])), Vec::<usize>::new());
}

#[test]
fn stale_entries_leave_unrelated_files() {
    let listing = names(&["notes.txt", ".gitignore", "data.json"]);
    assert_eq!(stale_entries(&listing), Vec::<usize>::new());
}

#[test]
fn plan_replaces_earlier_outputs() {
    let listing = names(&["1-gone.yaml", "keep.txt", "9-also-gone.yaml"]);
    let records = vec![
        report(42, "Fix Bug!!", "2024-01-01T00:00:00Z"),
        report(43, "Second one", "2024-01-01T00:00:00Z"),
    ];
    let plan = plan_sync(&listing, &records);
    assert_eq!(plan.stale, vec![0, 2]);
    assert_eq!(plan.failure, None);
    let written: Vec<&str> = plan.outputs.iter().map(|file| file.name.as_str()).collect();
    assert_eq!(written, vec!["42-fix-bug.yaml", "43-second-one.yaml"]);
    assert_eq!(plan.outputs[0].record.number, 42);
    assert_eq!(plan.outputs[0].record.state, "open");
    assert_eq!(plan.outputs[1].record.number, 43);
}

#[test]
fn plan_of_a_rerun_leaves_one_file_per_record() {
    let records = vec![
        report(1, "One", "2024-01-01T00:00:00Z"),
        report(2, "Two", "2024-01-01T00:00:00Z"),
        report(3, "Two", "2024-01-01T00:00:00Z"),
    ];
    let first = plan_sync(&names(&[]), &records);
    let mut directory: Vec<String> = first.outputs.iter().map(|file| file.name.clone()).collect();
    directory.push(String::from("unrelated.md"));
    let second = plan_sync(&directory, &records);
    let mut after: Vec<String> = directory
        .iter()
        .enumerate()
        .filter(|(i, _)| !second.stale.contains(i))
        .map(|(_, name)| name.clone())
        .collect();
    for file in &second.outputs {
        if !after.contains(&file.name) {
            after.push(file.name.clone());
        }
    }
    after.sort();
    assert_eq!(after, vec!["1-one.yaml", "2-two.yaml", "3-two.yaml", "unrelated.md"]);
}

#[test]
fn plan_of_an_empty_response_only_clears() {
    let plan = plan_sync(&names(&["5-x.yaml"]), &vec![]);
    assert_eq!(plan.stale, vec![0]);
    assert!(plan.outputs.is_empty());
    assert_eq!(plan.failure, None);
}

#[test]
fn plan_stops_at_the_first_unreadable_record() {
    let records = vec![
        report(41, "Before", "2024-01-01T00:00:00Z"),
        report(42, "Fix Bug!!", "not-a-date"),
        report(43, "After", "2024-01-01T00:00:00Z"),
    ];
    let plan = plan_sync(&names(&["0-old.yaml"]), &records);
    assert_eq!(plan.stale, vec![0]);
    assert_eq!(plan.outputs.len(), 1);
    assert_eq!(plan.outputs[0].name, "41-before.yaml");
    assert_eq!(
        plan.failure,
        Some(SyncError::FieldParse { number: 42, field: TimestampField::CreatedAt })
    );
}

#[test]
fn plan_writes_nothing_where_the_first_record_fails() {
    let records = vec![
        report(42, "Fix Bug!!", "not-a-date"),
        report(43, "After", "2024-01-01T00:00:00Z"),
    ];
    let plan = plan_sync(&names(&[]), &records);
    assert!(plan.outputs.is_empty());
    assert_eq!(
        plan.failure,
        Some(SyncError::FieldParse { number: 42, field: TimestampField::CreatedAt })
    );
}

#[test]
fn example_record_yields_its_file() {
    let records = vec![report(42, "Fix Bug!!", "2024-01-01T00:00:00Z")];
    let plan = plan_sync(&names(&[]), &records);
    assert_eq!(plan.failure, None);
    assert_eq!(plan.outputs.len(), 1);
    let file = &plan.outputs[0];
    assert_eq!(file.name, "42-fix-bug.yaml");
    assert_eq!(file.record.number, 42);
    assert_eq!(file.record.title, "Fix Bug!!");
    assert_eq!(file.record.state, "open");
    assert_eq!(file.record.author, "");
    assert!(file.record.labels.is_empty());
    assert!(file.record.files.is_empty());
    assert_eq!(file.record.body, None);
    assert_eq!(file.record.merged_at, None);
    assert_eq!(file.record.additions, 3);
    assert_eq!(file.record.deletions, 1);
    assert_eq!(file.record.created_at.seconds, 1704067200);
    assert_eq!(file.record.updated_at.seconds, 1704153600);
}

#[test]
fn plan_takes_the_records_in_order() {
    let records = vec![
        report(3, "c", "2024-01-01T00:00:00Z"),
        report(1, "a", "2024-01-01T00:00:00Z"),
        report(2, "b", "2024-01-01T00:00:00Z"),
    ];
    let plan = plan_sync(&names(&[]), &records);
    let written: Vec<&str> = plan.outputs.iter().map(|file| file.name.as_str()).collect();
    assert_eq!(written, vec!["3-c.yaml", "1-a.yaml", "2-b.yaml"]);
}
