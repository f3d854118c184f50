use vstd::prelude::*;
use crate::errors::CacheError;

verus! {

/// How an upstream HTTP answer classifies: any 2xx status with a known
/// content length is usable; 404 means the artifact does not exist
/// upstream; any other status, and a 2xx answer without a content length,
/// is a protocol error. (A transport failure never reaches this point: the
/// driver reports it as `UpstreamUnavailable` directly.)
pub open spec fn classify_spec(status: u16, has_content_length: bool) -> Result<(), CacheError> {
    if status == 404 {
        Err(CacheError::UpstreamNotFound)
    } else if !(200 <= status < 300) {
        Err(CacheError::UpstreamProtocolError)
    } else if !has_content_length {
        Err(CacheError::UpstreamProtocolError)
    } else {
        Ok(())
    }
}

/// Classifies an upstream HTTP answer by its status code and whether it
/// carried a content length.
pub fn classify_response(status: u16, has_content_length: bool) -> (r: Result<(), CacheError>)
    ensures
        r == classify_spec(status, has_content_length),
{
    if status == 404 {
        Err(CacheError::UpstreamNotFound)
    } else if status < 200 || status >= 300 {
        Err(CacheError::UpstreamProtocolError)
    } else if !has_content_length {
        Err(CacheError::UpstreamProtocolError)
    } else {
        Ok(())
    }
}

/// The URL of a package's index page: the index base (ending in `/`)
/// followed by the package name.
pub fn index_url(index_base: &str, package: &str) -> (r: String)
    ensures
        r@ == index_base@ + package@,
{
    let mut r = String::new();
    r.append(index_base);
    r.append(package);
    r
}

/// The URL of an artifact: the artifact base, a `/`, and the artifact's
/// full four-segment path.
pub fn artifact_url(artifact_base: &str, full_path: &str) -> (r: String)
    ensures
        r@ == artifact_base@ + seq!['/'] + full_path@,
{
    proof {
        reveal_strlit("/");
    }
    let mut r = String::new();
    r.append(artifact_base);
    r.append("/");
    r.append(full_path);
    proof {
        assert(r@ =~= artifact_base@ + seq!['/'] + full_path@);
    }
    r
}

} // verus!
