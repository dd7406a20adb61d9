use gh_pr_sync::slug::{collapse_separators, mask_text, slugify};

fn shape_holds(slug: &str) -> bool {
    let chars: Vec<char> = slug.chars().collect();
    let edges = chars.first() != Some(&'-') && chars.last() != Some(&'-');
    let no_run = chars.windows(2).all(|pair| !(pair[0] == '-' && pair[1] == '-'));
    let only = chars.iter().all(|c| *c == '-' || c.is_alphanumeric());
    edges && no_run && only
}

#[test]
fn slug_of_title_with_punctuation() {
    assert_eq!(slugify("Fix Bug!!"), "fix-bug");
}

#[test]
fn slug_lowercases_letters() {
    assert_eq!(slugify("ABC"), "abc");
    assert_eq!(slugify("Add README"), "add-readme");
}

#[test]
fn slug_keeps_digits() {
    assert_eq!(slugify("v1.2.3 released"), "v1-2-3-released");
    assert_eq!(slugify("2024"), "2024");
}

#[test]
fn slug_collapses_runs_of_separators() {
    assert_eq!(slugify("a  --  b"), "a-b");
    assert_eq!(slugify("C++ & Rust"), "c-rust");
}

#[test]
fn slug_trims_both_ends() {
    assert_eq!(slugify("  Hello,   World  "), "hello-world");
    assert_eq!(slugify("--x--"), "x");
    assert_eq!(slugify("!x"), "x");
    assert_eq!(slugify("x!"), "x");
}

#[test]
fn slug_of_punctuation_only_is_empty() {
    assert_eq!(slugify("!!!"), "");
    assert_eq!(slugify("---"), "");
    assert_eq!(slugify(" "), "");
}

#[test]
fn slug_of_empty_title_is_empty() {
    assert_eq!(slugify(""), "");
}

#[test]
fn slug_keeps_letters_beyond_ascii() {
    assert_eq!(slugify("Ünïcödé Title"), "ünïcödé-title");
    assert_eq!(slugify("ΣΑΣ"), "σας");
    assert_eq!(slugify("日本語 タイトル"), "日本語-タイトル");
}

#[test]
fn slug_keeps_a_letter_without_lowercase_form() {
    assert_eq!(slugify("\u{1D400}"), "\u{1D400}");
}

#[test]
fn slug_of_a_slug_is_itself() {
    assert_eq!(slugify("fix-bug"), "fix-bug");
    assert_eq!(slugify(&slugify("Fix Bug!!")), "fix-bug");
}

#[test]
fn slug_is_deterministic() {
    let first = slugify("Same Title, same slug");
    let second = slugify(&String::from("Same Title, same slug"));
    assert_eq!(first, second);
    assert_eq!(first, "same-title-same-slug");
}

#[test]
fn slug_shape_on_samples() {
    let titles = [
        "Fix Bug!!",
        "",
        "---",
        "a",
        "-a",
        "a-",
        "a--b",
        "  spaced   out  ",
        "MiXeD 123 CaSe",
        "tabs\tand\nnewlines",
        "emoji 🎉 party",
        "under_score",
        "É",
    ];
    for title in titles {
        let slug = slugify(title);
        assert!(shape_holds(&slug), "{:?} gave {:?}", title, slug);
        assert!(!slug.chars().any(|c| c.is_ascii_uppercase()));
    }
}

#[test]
fn mask_replaces_everything_but_letters_and_digits() {
    assert_eq!(mask_text("a!b"), "a-b");
    assert_eq!(mask_text("fix bug!!"), "fix-bug--");
    assert_eq!(mask_text("a-b_c"), "a-b-c");
    assert_eq!(mask_text(""), "");
    assert_eq!(mask_text("é1"), "é1");
}

#[test]
fn mask_keeps_the_length() {
    assert_eq!(mask_text("a b c").chars().count(), 5);
}

#[test]
fn collapse_drops_outer_and_repeated_separators() {
    assert_eq!(collapse_separators("-a--b-"), "a-b");
    assert_eq!(collapse_separators("fix-bug--"), "fix-bug");
    assert_eq!(collapse_separators("a"), "a");
    assert_eq!(collapse_separators("a-b"), "a-b");
}

#[test]
fn collapse_of_separators_only_is_empty() {
    assert_eq!(collapse_separators(""), "");
    assert_eq!(collapse_separators("-"), "");
    assert_eq!(collapse_separators("-----"), "");
}

#[test]
fn collapse_splits_at_the_separator_only() {
    assert_eq!(collapse_separators("a b"), "a b");
    assert_eq!(collapse_separators("A_b"), "A_b");
}
