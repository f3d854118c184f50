use mirror_cache::flight::FlightTable;

#[test]
fn first_caller_leads_later_callers_wait() {
    let mut t = FlightTable::new();
    let k = String::from("ab/cd/ef/f.tar.gz");
    assert!(t.try_begin(&k));
    // while the flight is open, nobody else leads
    assert!(!t.try_begin(&k));
    assert!(!t.try_begin(&k));
    assert!(t.in_flight(&k));
}

#[test]
fn leadership_returns_after_finish() {
    let mut t = FlightTable::new();
    let k = String::from("k1");
    assert!(t.try_begin(&k));
    t.finish(&k);
    assert!(!t.in_flight(&k));
    assert!(t.try_begin(&k));
}

#[test]
fn flights_for_different_keys_are_independent() {
    let mut t = FlightTable::new();
    let k1 = String::from("k1");
    let k2 = String::from("k2");
    assert!(t.try_begin(&k1));
    assert!(t.try_begin(&k2));
    assert!(!t.try_begin(&k1));
    t.finish(&k1);
    assert!(!t.in_flight(&k1));
    assert!(t.in_flight(&k2));
    assert!(!t.try_begin(&k2));
}

#[test]
fn finishing_an_unknown_key_changes_nothing() {
    let mut t = FlightTable::new();
    let k1 = String::from("k1");
    assert!(t.try_begin(&k1));
    t.finish(&String::from("other"));
    assert!(t.in_flight(&k1));
}
