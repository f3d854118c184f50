use mirror_cache::rewrite::{contains_pattern, replace_all, rewrite};

fn bytes(s: &str) -> Vec<u8> {
    s.as_bytes().to_vec()
}

const UPSTREAM_BASE: &str = "https://files.pythonhosted.org/packages";
const MIRROR_BASE: &str = "http://localhost:9000/pypi/packages";

#[test]
fn index_rewrite_exactness() {
    let html = format!(
        "<a href=\"{}/ab/cd/ef/pkg-1.0.tar.gz\">pkg</a>\n<a href=\"https://elsewhere.example/x\">x</a>",
        UPSTREAM_BASE
    );
    let out = rewrite(&bytes(&html), &bytes(UPSTREAM_BASE), &bytes(MIRROR_BASE));
    let out_text = String::from_utf8(out.clone()).unwrap();
    assert_eq!(
        out_text,
        format!(
            "<a href=\"{}/ab/cd/ef/pkg-1.0.tar.gz\">pkg</a>\n<a href=\"https://elsewhere.example/x\">x</a>",
            MIRROR_BASE
        )
    );
    // zero remaining occurrences of the upstream base
    assert!(!contains_pattern(&out, &bytes(UPSTREAM_BASE)));
    // the unrelated anchor is byte-identical
    assert!(out_text.contains("<a href=\"https://elsewhere.example/x\">x</a>"));
}

#[test]
fn rewrite_replaces_every_occurrence() {
    let html = format!("{0}/a {0}/b {0}/c", UPSTREAM_BASE);
    let out = rewrite(&bytes(&html), &bytes(UPSTREAM_BASE), &bytes(MIRROR_BASE));
    assert_eq!(
        String::from_utf8(out).unwrap(),
        format!("{0}/a {0}/b {0}/c", MIRROR_BASE)
    );
}

#[test]
fn rewrite_without_occurrence_is_identity() {
    let html = "<html><body>no links here</body></html>";
    let out = rewrite(&bytes(html), &bytes(UPSTREAM_BASE), &bytes(MIRROR_BASE));
    assert_eq!(out, bytes(html));
}

#[test]
fn rewriting_twice_changes_nothing_more() {
    let html = format!("href=\"{}/p.tar.gz\"", UPSTREAM_BASE);
    let once = rewrite(&bytes(&html), &bytes(UPSTREAM_BASE), &bytes(MIRROR_BASE));
    let twice = rewrite(&once, &bytes(UPSTREAM_BASE), &bytes(MIRROR_BASE));
    assert_eq!(once, twice);
}

#[test]
fn replace_at_start_and_end() {
    let out = replace_all(&bytes("abXab"), &bytes("ab"), &bytes("y"));
    assert_eq!(out, bytes("yXy"));
}

#[test]
fn replacement_is_leftmost_and_non_overlapping() {
    let out = replace_all(&bytes("aaa"), &bytes("aa"), &bytes("b"));
    assert_eq!(out, bytes("ba"));
}

#[test]
fn replaced_text_is_not_rescanned() {
    // the replacement may recreate the pattern; it is not replaced again
    let out = replace_all(&bytes("abb"), &bytes("ab"), &bytes("a"));
    assert_eq!(out, bytes("ab"));
}

#[test]
fn empty_pattern_leaves_input_unchanged() {
    let out = replace_all(&bytes("abc"), &bytes(""), &bytes("x"));
    assert_eq!(out, bytes("abc"));
}

#[test]
fn empty_replacement_deletes_occurrences() {
    let out = replace_all(&bytes("a--b--c"), &bytes("--"), &bytes(""));
    assert_eq!(out, bytes("abc"));
}

#[test]
fn contains_finds_the_pattern() {
    assert!(contains_pattern(&bytes("xxabyy"), &bytes("ab")));
    assert!(!contains_pattern(&bytes("xxayy"), &bytes("ab")));
    assert!(contains_pattern(&bytes("ab"), &bytes("ab")));
    assert!(!contains_pattern(&bytes("a"), &bytes("ab")));
    // the empty pattern occurs everywhere
    assert!(contains_pattern(&bytes(""), &bytes("")));
}
