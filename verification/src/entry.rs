use vstd::prelude::*;
use vstd::string::StringSliceAdditionalSpecFns;

verus! {

/// The mathematical value of a [`CacheEntry`].
pub struct EntryView {
    pub valid: bool,
    pub path: Seq<char>,
}

/// The metadata record kept for an artifact once a miss has been resolved.
///
/// `valid` is a soft-invalidation flag: an entry with `valid == false` must
/// be treated exactly like an absent entry. `path` is the relative blob path
/// under the cache root (normally equal to the artifact key).
#[derive(Debug, PartialEq)]
pub struct CacheEntry {
    pub valid: bool,
    pub path: String,
}

impl View for CacheEntry {
    type V = EntryView;

    open spec fn view(&self) -> EntryView {
        EntryView { valid: self.valid, path: self.path@ }
    }
}

/// First-match lookup of `name` among the `(field, value)` pairs.
pub open spec fn field_lookup(fields: Seq<(String, String)>, name: Seq<char>) -> Option<
    Seq<char>,
>
    decreases fields.len(),
{
    if fields.len() == 0 {
        None
    } else if fields[0].0@ == name {
        Some(fields[0].1@)
    } else {
        field_lookup(fields.skip(1), name)
    }
}

/// How a store record decodes: an empty record is an absent entry; otherwise
/// a missing `valid` field defaults to `"0"` (not valid) and a missing
/// `path` field defaults to the empty string. `valid` is true exactly when
/// the stored text is not `"0"`.
pub open spec fn decode_spec(fields: Seq<(String, String)>) -> Option<EntryView> {
    if fields.len() == 0 {
        None
    } else {
        let valid_text = match field_lookup(fields, "valid"@) {
            Some(v) => v,
            None => "0"@,
        };
        let path_text = match field_lookup(fields, "path"@) {
            Some(p) => p,
            None => Seq::<char>::empty(),
        };
        Some(EntryView { valid: valid_text != "0"@, path: path_text })
    }
}

impl CacheEntry {
    /// The record written when a miss for `path` has been resolved:
    /// valid, and pointing at the key's own path.
    pub fn new(path: &str) -> (r: CacheEntry)
        ensures
            r@.valid,
            r@.path == path@,
    {
        CacheEntry { valid: true, path: path.to_owned() }
    }

    /// Encodes the entry as the `(field, value)` pairs the store keeps:
    /// `valid` as `"1"`/`"0"`, then `path` verbatim.
    pub fn to_fields(&self) -> (r: Vec<(String, String)>)
        ensures
            r@.len() == 2,
            r@[0].0@ == "valid"@,
            r@[0].1@ == if self.valid { "1"@ } else { "0"@ },
            r@[1].0@ == "path"@,
            r@[1].1@ == self.path@,
    {
        let valid_text = if self.valid {
            String::from_str("1")
        } else {
            String::from_str("0")
        };
        let mut r: Vec<(String, String)> = Vec::new();
        r.push((String::from_str("valid"), valid_text));
        r.push((String::from_str("path"), self.path.clone()));
        r
    }

    /// Decodes a record read back from the store, applying the documented
    /// defaults; an empty record decodes to `None` (no entry).
    pub fn from_fields(fields: &Vec<(String, String)>) -> (r: Option<CacheEntry>)
        ensures
            r is Some <==> decode_spec(fields@) is Some,
            r matches Some(e) ==> decode_spec(fields@) == Some(e@),
    {
        if fields.len() == 0 {
            return None;
        }
        let valid_text = match lookup_field(fields, "valid") {
            Some(v) => v,
            None => String::from_str("0"),
        };
        let path_text = match lookup_field(fields, "path") {
            Some(p) => p,
            None => String::new(),
        };
        let is_zero = eq_str(valid_text.as_str(), "0");
        Some(CacheEntry { valid: !is_zero, path: path_text })
    }
}

/// Law: a record in the shape that [`CacheEntry::to_fields`] writes decodes
/// back to exactly the entry it was written from.
pub proof fn lemma_fields_round_trip(fields: Seq<(String, String)>, valid: bool, path: Seq<char>)
    requires
        fields.len() == 2,
        fields[0].0@ == "valid"@,
        fields[0].1@ == if valid {
            "1"@
        } else {
            "0"@
        },
        fields[1].0@ == "path"@,
        fields[1].1@ == path,
    ensures
        decode_spec(fields) == Some(EntryView { valid, path }),
{
    reveal_strlit("valid");
    reveal_strlit("path");
    reveal_strlit("0");
    reveal_strlit("1");
    assert("valid"@.len() == 5);
    assert("path"@.len() == 4);
    assert("1"@ != "0"@) by {
        assert("1"@[0] == '1');
        assert("0"@[0] == '0');
    }
    assert(fields.skip(1)[0] == fields[1]);
    assert(field_lookup(fields, "valid"@) == Some(fields[0].1@));
    assert(fields.skip(1).len() == 1);
    assert(field_lookup(fields.skip(1), "path"@) == Some(path));
    assert(field_lookup(fields, "path"@) == Some(path));
}

/// First-match exec lookup, returning a copy of the value.
fn lookup_field(fields: &Vec<(String, String)>, name: &str) -> (r: Option<String>)
    ensures
        r is Some <==> field_lookup(fields@, name@) is Some,
        r matches Some(v) ==> field_lookup(fields@, name@) == Some(v@),
{
    proof {
        assert(fields@.skip(0) =~= fields@);
    }
    let mut i: usize = 0;
    while i < fields.len()
        invariant
            i <= fields@.len(),
            field_lookup(fields@, name@) == field_lookup(fields@.skip(i as int), name@),
        decreases fields@.len() - i,
    {
        if eq_str(fields[i].0.as_str(), name) {
            proof {
                assert(fields@.skip(i as int)[0] == fields@[i as int]);
            }
            return Some(fields[i].1.clone());
        }
        proof {
            assert(fields@.skip(i as int)[0] == fields@[i as int]);
            assert(fields@.skip(i as int).skip(1) =~= fields@.skip(i as int + 1));
        }
        i += 1;
    }
    proof {
        assert(fields@.skip(i as int).len() == 0);
    }
    None
}

/// Byte-wise equality of two string slices, stated over their views.
fn eq_str(a: &str, b: &str) -> (r: bool)
    ensures
        r == (a@ == b@),
{
    let ab = a.as_bytes();
    let bb = b.as_bytes();
    proof {
        vstd::utf8::encode_utf8_decode_utf8(a@);
        vstd::utf8::encode_utf8_decode_utf8(b@);
    }
    if ab.len() != bb.len() {
        return false;
    }
    let mut i: usize = 0;
    while i < ab.len()
        invariant
            ab@ == a.spec_bytes(),
            bb@ == b.spec_bytes(),
            ab@.len() == bb@.len(),
            i <= ab@.len(),
            forall|j: int| 0 <= j < i ==> ab@[j] == bb@[j],
        decreases ab@.len() - i,
    {
        if ab[i] != bb[i] {
            return false;
        }
        i += 1;
    }
    proof {
        assert(a.spec_bytes() =~= b.spec_bytes());
    }
    true
}

} // verus!
