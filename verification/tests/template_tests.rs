use worktrunk::template::{expand_commit_template, expand_tilde};
use worktrunk::text::{str_eq, trim_str};

#[test]
fn every_placeholder_occurrence_is_substituted() {
    let out = expand_commit_template(
        "diff: {git-diff}; branch: {branch}; again: {branch}; recent: {recent-commits}; repo: {repo-name}",
        "DIFF",
        "feat",
        "RECENT",
        "proj",
    );
    assert_eq!(out, "diff: DIFF; branch: feat; again: feat; recent: RECENT; repo: proj");
}

#[test]
fn unrecognized_placeholders_pass_through() {
    let out = expand_commit_template("a {unknown} b {branch} {branchy}", "d", "x", "r", "n");
    assert_eq!(out, "a {unknown} b x {branchy}");
}

#[test]
fn substituted_values_are_not_rescanned() {
    // A value containing a placeholder is inserted literally.
    let out = expand_commit_template("{git-diff}", "{branch}", "feat", "r", "n");
    assert_eq!(out, "{branch}");
}

#[test]
fn placeholders_with_a_shared_prefix_are_told_apart() {
    let out = expand_commit_template("{repo-name}{recent-commits}{re}", "d", "b", "R", "N");
    assert_eq!(out, "NR{re}");
}

#[test]
fn empty_template_expands_to_nothing() {
    assert_eq!(expand_commit_template("", "d", "b", "r", "n"), "");
}

#[test]
fn tilde_expansion_covers_the_three_shapes() {
    assert_eq!(expand_tilde("~", "/home/dev"), "/home/dev");
    assert_eq!(expand_tilde("~/templates/t.txt", "/home/dev"), "/home/dev/templates/t.txt");
    assert_eq!(expand_tilde("/etc/t.txt", "/home/dev"), "/etc/t.txt");
    assert_eq!(expand_tilde("~user/t.txt", "/home/dev"), "~user/t.txt");
}

#[test]
fn trimming_strips_both_ends_only() {
    assert_eq!(trim_str("  fix: a b \n\t"), "fix: a b");
    assert_eq!(trim_str("\r\n"), "");
    assert_eq!(trim_str("inner  space"), "inner  space");
    assert_eq!(trim_str(""), "");
}

#[test]
fn string_equality_is_by_characters() {
    assert!(str_eq("post-create", "post-create"));
    assert!(!str_eq("post-create", "post-creat"));
    assert!(!str_eq("", "a"));
    assert!(str_eq("", ""));
}
