use vstd::prelude::*;
use crate::errors::CacheError;

verus! {

/// A four-segment upstream path `dir1/dir2/dir3/filename` identifying one
/// artifact. The same path is the metadata-store key and the relative blob
/// path under the cache root.
#[derive(Debug)]
pub struct ArtifactKey {
    pub seg1: String,
    pub seg2: String,
    pub seg3: String,
    pub seg4: String,
}

impl ArtifactKey {
    /// Structural validity: every segment is non-empty.
    pub open spec fn wf(self) -> bool {
        self.seg1@.len() > 0 && self.seg2@.len() > 0 && self.seg3@.len() > 0
            && self.seg4@.len() > 0
    }

    /// The full relative path `seg1/seg2/seg3/seg4`.
    pub open spec fn full_path_spec(self) -> Seq<char> {
        self.seg1@ + seq!['/'] + self.seg2@ + seq!['/'] + self.seg3@ + seq!['/'] + self.seg4@
    }

    /// The directory part `seg1/seg2/seg3` under which the blob file lives.
    pub open spec fn parent_path_spec(self) -> Seq<char> {
        self.seg1@ + seq!['/'] + self.seg2@ + seq!['/'] + self.seg3@
    }

    /// Validates the four client-supplied segments. A key with an empty
    /// segment is rejected as `MalformedKey`; nothing else is rejected.
    pub fn new(seg1: String, seg2: String, seg3: String, seg4: String) -> (r: Result<
        ArtifactKey,
        CacheError,
    >)
        ensures
            r is Ok <==> (seg1@.len() > 0 && seg2@.len() > 0 && seg3@.len() > 0
                && seg4@.len() > 0),
            r matches Ok(k) ==> k == (ArtifactKey { seg1, seg2, seg3, seg4 }) && k.wf(),
            r matches Err(e) ==> e == CacheError::MalformedKey,
    {
        if seg1.as_str().is_empty() || seg2.as_str().is_empty() || seg3.as_str().is_empty()
            || seg4.as_str().is_empty() {
            Err(CacheError::MalformedKey)
        } else {
            Ok(ArtifactKey { seg1, seg2, seg3, seg4 })
        }
    }

    /// Renders the full path `seg1/seg2/seg3/seg4`.
    pub fn full_path(&self) -> (r: String)
        ensures
            r@ == self.full_path_spec(),
    {
        proof {
            reveal_strlit("/");
        }
        let mut r = String::new();
        r.append(self.seg1.as_str());
        r.append("/");
        r.append(self.seg2.as_str());
        r.append("/");
        r.append(self.seg3.as_str());
        r.append("/");
        r.append(self.seg4.as_str());
        proof {
            assert(r@ =~= self.full_path_spec());
        }
        r
    }

    /// Renders the parent directory path `seg1/seg2/seg3`.
    pub fn parent_path(&self) -> (r: String)
        ensures
            r@ == self.parent_path_spec(),
    {
        proof {
            reveal_strlit("/");
        }
        let mut r = String::new();
        r.append(self.seg1.as_str());
        r.append("/");
        r.append(self.seg2.as_str());
        r.append("/");
        r.append(self.seg3.as_str());
        proof {
            assert(r@ =~= self.parent_path_spec());
        }
        r
    }
}

} // verus!
