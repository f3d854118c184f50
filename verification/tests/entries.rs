use mirror_cache::entry::CacheEntry;

#[test]
fn new_entry_is_valid_and_points_at_its_path() {
    let e = CacheEntry::new("ab/cd/ef/f.tar.gz");
    assert!(e.valid);
    assert_eq!(e.path, "ab/cd/ef/f.tar.gz");
}

#[test]
fn to_fields_writes_valid_then_path() {
    let e = CacheEntry::new("ab/cd/ef/f.tar.gz");
    let fields = e.to_fields();
    assert_eq!(fields.len(), 2);
    assert_eq!(fields[0], (String::from("valid"), String::from("1")));
    assert_eq!(fields[1], (String::from("path"), String::from("ab/cd/ef/f.tar.gz")));
}

#[test]
fn to_fields_writes_zero_for_invalid() {
    let e = CacheEntry { valid: false, path: String::from("p") };
    let fields = e.to_fields();
    assert_eq!(fields[0], (String::from("valid"), String::from("0")));
}

#[test]
fn empty_record_decodes_to_absent() {
    let fields: Vec<(String, String)> = Vec::new();
    assert_eq!(CacheEntry::from_fields(&fields), None);
}

#[test]
fn full_record_round_trips() {
    let e = CacheEntry::new("ab/cd/ef/f.tar.gz");
    let back = CacheEntry::from_fields(&e.to_fields()).unwrap();
    assert_eq!(back, e);
}

#[test]
fn invalid_record_round_trips() {
    let e = CacheEntry { valid: false, path: String::from("some/path") };
    let back = CacheEntry::from_fields(&e.to_fields()).unwrap();
    assert_eq!(back, e);
}

#[test]
fn missing_valid_field_defaults_to_not_valid() {
    let fields = vec![(String::from("path"), String::from("p"))];
    let e = CacheEntry::from_fields(&fields).unwrap();
    assert!(!e.valid);
    assert_eq!(e.path, "p");
}

#[test]
fn missing_path_field_defaults_to_empty() {
    let fields = vec![(String::from("valid"), String::from("1"))];
    let e = CacheEntry::from_fields(&fields).unwrap();
    assert!(e.valid);
    assert_eq!(e.path, "");
}

#[test]
fn valid_is_true_for_any_text_but_zero() {
    let fields = vec![(String::from("valid"), String::from("yes"))];
    assert!(CacheEntry::from_fields(&fields).unwrap().valid);
    let fields = vec![(String::from("valid"), String::from("0"))];
    assert!(!CacheEntry::from_fields(&fields).unwrap().valid);
}

#[test]
fn unknown_fields_are_ignored_but_make_the_record_present() {
    let fields = vec![(String::from("created_at"), String::from("12345"))];
    let e = CacheEntry::from_fields(&fields).unwrap();
    assert!(!e.valid);
    assert_eq!(e.path, "");
}

#[test]
fn first_matching_field_wins() {
    let fields = vec![
        (String::from("valid"), String::from("0")),
        (String::from("valid"), String::from("1")),
    ];
    assert!(!CacheEntry::from_fields(&fields).unwrap().valid);
}
