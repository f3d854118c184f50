use mirror_cache::coordinator::{begin, ReqAction, ReqState};
use mirror_cache::errors::CacheError;
use mirror_cache::key::ArtifactKey;

#[test]
fn well_formed_key_is_accepted() {
    let key = ArtifactKey::new(
        String::from("ab"),
        String::from("cd"),
        String::from("ef0123"),
        String::from("pkg-1.0.tar.gz"),
    )
    .unwrap();
    assert_eq!(key.full_path(), "ab/cd/ef0123/pkg-1.0.tar.gz");
    assert_eq!(key.parent_path(), "ab/cd/ef0123");
}

#[test]
fn empty_first_segment_is_rejected() {
    let r = ArtifactKey::new(
        String::new(),
        String::from("cd"),
        String::from("ef"),
        String::from("f.tar.gz"),
    );
    assert_eq!(r.unwrap_err(), CacheError::MalformedKey);
}

#[test]
fn empty_middle_segment_is_rejected() {
    let r = ArtifactKey::new(
        String::from("ab"),
        String::new(),
        String::from("ef"),
        String::from("f.tar.gz"),
    );
    assert_eq!(r.unwrap_err(), CacheError::MalformedKey);
}

#[test]
fn empty_filename_segment_is_rejected() {
    let r = ArtifactKey::new(
        String::from("ab"),
        String::from("cd"),
        String::from("ef"),
        String::new(),
    );
    assert_eq!(r.unwrap_err(), CacheError::MalformedKey);
}

#[test]
fn malformed_key_is_rejected_before_any_action() {
    // A request with an empty path segment never reaches the lookup: begin
    // hands back the client error instead of a state and an action.
    let r = begin(
        String::from("ab"),
        String::from(""),
        String::from("ef"),
        String::from("f.tar.gz"),
    );
    assert_eq!(r.unwrap_err(), CacheError::MalformedKey);
}

#[test]
fn well_formed_key_starts_in_lookup() {
    let (key, state, action) = begin(
        String::from("ab"),
        String::from("cd"),
        String::from("ef"),
        String::from("f.tar.gz"),
    )
    .unwrap();
    assert_eq!(key.full_path(), "ab/cd/ef/f.tar.gz");
    assert_eq!(state, ReqState::Lookup);
    assert_eq!(action, ReqAction::GetMetadata);
}
