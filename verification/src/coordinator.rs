use vstd::prelude::*;
use crate::entry::{CacheEntry, EntryView};
use crate::errors::CacheError;
use crate::key::ArtifactKey;

verus! {

// ---------------------------------------------------------------------------
// The abstract request machine.
//
// One artifact request is a run of this machine: the driver performs the
// action the machine asks for, hands the outcome back as an event, and the
// machine decides the next step. The machine itself never touches a store
// or the network, which is what makes every decision provable.
// ---------------------------------------------------------------------------

/// Abstract state of one artifact request.
pub enum ProtoState {
    /// Waiting for the metadata record of the key.
    Lookup,
    /// A valid record was found; waiting for the blob at its path.
    CheckBlob { entry_path: Seq<char> },
    /// Cache miss; waiting for the upstream fetch.
    Fetch,
    /// Bytes fetched; waiting for the blob write.
    Store { bytes: Seq<u8> },
    /// Blob written; waiting for the metadata record write.
    Record { bytes: Seq<u8> },
    /// Terminal: respond with exactly these bytes.
    Done { bytes: Seq<u8> },
    /// Terminal: the request failed.
    Failed { err: CacheError },
}

/// Abstract outcome of the last action, handed back by the driver.
pub enum ProtoEvent {
    /// The metadata store answered (`None`: no record for the key).
    MetadataValue { entry: Option<EntryView> },
    /// The metadata store could not be reached.
    MetadataFailed,
    /// The blob store answered (`None`: no blob at the path).
    BlobValue { bytes: Option<Seq<u8>> },
    /// The upstream fetch succeeded with these bytes.
    FetchOk { bytes: Seq<u8> },
    /// The upstream fetch failed.
    FetchFailed { err: CacheError },
    /// The blob write completed durably.
    WriteOk,
    /// The blob write failed.
    WriteFailed,
    /// The metadata record write succeeded.
    RecordOk,
    /// The metadata record write failed.
    RecordFailed,
}

/// Abstract action the driver must perform next.
pub enum ProtoAction {
    /// Read the metadata record for the key.
    GetMetadata,
    /// Read the blob at this path.
    ReadBlob { path: Seq<char> },
    /// Perform one upstream fetch for the key.
    FetchUpstream,
    /// Durably (atomically) write these bytes at the key's path.
    WriteBlob { bytes: Seq<u8> },
    /// Record this metadata entry for the key.
    PutMetadata { entry: EntryView },
    /// Answer the client with exactly these bytes.
    Respond { bytes: Seq<u8> },
    /// Reject the request with this error.
    Fail { err: CacheError },
    /// Nothing left to do (terminal state, or an event that does not fit).
    Idle,
}

/// The transition function of the cache-aside protocol.
///
/// `key` is the full artifact path; it names both the blob path written on a
/// miss and the path recorded in the metadata entry. An event that does not
/// belong to the current state leaves the state unchanged and asks nothing.
pub open spec fn proto_step(key: Seq<char>, s: ProtoState, e: ProtoEvent) -> (ProtoState,
    ProtoAction,
) {
    match (s, e) {
        (ProtoState::Lookup, ProtoEvent::MetadataFailed) => (
            ProtoState::Failed { err: CacheError::CacheUnavailable },
            ProtoAction::Fail { err: CacheError::CacheUnavailable },
        ),
        (ProtoState::Lookup, ProtoEvent::MetadataValue { entry }) => match entry {
            Some(en) => if en.valid {
                (
                    ProtoState::CheckBlob { entry_path: en.path },
                    ProtoAction::ReadBlob { path: en.path },
                )
            } else {
                (ProtoState::Fetch, ProtoAction::FetchUpstream)
            },
            None => (ProtoState::Fetch, ProtoAction::FetchUpstream),
        },
        (ProtoState::CheckBlob { entry_path }, ProtoEvent::BlobValue { bytes }) => match bytes {
            Some(b) => if b.len() > 0 {
                (ProtoState::Done { bytes: b }, ProtoAction::Respond { bytes: b })
            } else {
                (ProtoState::Fetch, ProtoAction::FetchUpstream)
            },
            None => (ProtoState::Fetch, ProtoAction::FetchUpstream),
        },
        (ProtoState::Fetch, ProtoEvent::FetchOk { bytes }) => (
            ProtoState::Store { bytes },
            ProtoAction::WriteBlob { bytes },
        ),
        (ProtoState::Fetch, ProtoEvent::FetchFailed { err }) => (
            ProtoState::Failed { err },
            ProtoAction::Fail { err },
        ),
        (ProtoState::Store { bytes }, ProtoEvent::WriteOk) => (
            ProtoState::Record { bytes },
            ProtoAction::PutMetadata { entry: EntryView { valid: true, path: key } },
        ),
        (ProtoState::Store { bytes }, ProtoEvent::WriteFailed) => (
            ProtoState::Failed { err: CacheError::StorageFailure },
            ProtoAction::Fail { err: CacheError::StorageFailure },
        ),
        (ProtoState::Record { bytes }, ProtoEvent::RecordOk) => (
            ProtoState::Done { bytes },
            ProtoAction::Respond { bytes },
        ),
        (ProtoState::Record { bytes }, ProtoEvent::RecordFailed) => (
            ProtoState::Done { bytes },
            ProtoAction::Respond { bytes },
        ),
        (s2, _) => (s2, ProtoAction::Idle),
    }
}

// ---------------------------------------------------------------------------
// Laws of the protocol.
// ---------------------------------------------------------------------------

/// Hit consistency: when the lookup finds a valid entry and the blob at its
/// path holds non-empty bytes `b`, the request answers exactly `b`, and
/// neither step asks for an upstream fetch.
pub proof fn lemma_hit_consistency(key: Seq<char>, en: EntryView, b: Seq<u8>)
    requires
        en.valid,
        b.len() > 0,
    ensures
        ({
            let (s1, a1) = proto_step(
                key,
                ProtoState::Lookup,
                ProtoEvent::MetadataValue { entry: Some(en) },
            );
            let (s2, a2) = proto_step(key, s1, ProtoEvent::BlobValue { bytes: Some(b) });
            a1 == (ProtoAction::ReadBlob { path: en.path }) && a2 == (ProtoAction::Respond {
                bytes: b,
            }) && s2 == (ProtoState::Done { bytes: b }) && !(a1 is FetchUpstream) && !(a2
                is FetchUpstream)
        }),
{
}

/// Miss, then hit: a first request for an unrecorded key fetches exactly
/// once, writes the blob before it records the metadata entry
/// `{valid: true, path: key}`, and answers the fetched bytes; a later
/// request that finds that record and that blob answers the same bytes
/// without any further fetch.
///
/// The later request is a hit only for non-empty bytes: an empty blob is
/// indistinguishable from an absent one and is re-fetched.
pub proof fn lemma_miss_then_hit(key: Seq<char>, b: Seq<u8>)
    requires
        b.len() > 0,
    ensures
        ({
            let (s1, a1) = proto_step(
                key,
                ProtoState::Lookup,
                ProtoEvent::MetadataValue { entry: None },
            );
            let (s2, a2) = proto_step(key, s1, ProtoEvent::FetchOk { bytes: b });
            let (s3, a3) = proto_step(key, s2, ProtoEvent::WriteOk);
            let (s4, a4) = proto_step(key, s3, ProtoEvent::RecordOk);
            a1 == ProtoAction::FetchUpstream && a2 == (ProtoAction::WriteBlob { bytes: b }) && a3
                == (ProtoAction::PutMetadata {
                entry: EntryView { valid: true, path: key },
            }) && a4 == (ProtoAction::Respond { bytes: b }) && s4 == (ProtoState::Done { bytes: b })
                && !(a2 is FetchUpstream) && !(a3 is FetchUpstream) && !(a4 is FetchUpstream)
        }),
        ({
            let (t1, c1) = proto_step(
                key,
                ProtoState::Lookup,
                ProtoEvent::MetadataValue { entry: Some(EntryView { valid: true, path: key }) },
            );
            let (t2, c2) = proto_step(key, t1, ProtoEvent::BlobValue { bytes: Some(b) });
            c1 == (ProtoAction::ReadBlob { path: key }) && c2 == (ProtoAction::Respond { bytes: b })
                && !(c1 is FetchUpstream) && !(c2 is FetchUpstream)
        }),
{
}

/// Self-healing: a valid entry whose blob is missing (or empty) is not an
/// error; the request falls through to exactly one fetch and then succeeds
/// like any other miss.
pub proof fn lemma_self_healing_dangling(
    key: Seq<char>,
    en: EntryView,
    missing: Option<Seq<u8>>,
    b: Seq<u8>,
)
    requires
        en.valid,
        missing matches Some(bb) ==> bb.len() == 0,
    ensures
        ({
            let (s1, a1) = proto_step(
                key,
                ProtoState::Lookup,
                ProtoEvent::MetadataValue { entry: Some(en) },
            );
            let (s2, a2) = proto_step(key, s1, ProtoEvent::BlobValue { bytes: missing });
            let (s3, a3) = proto_step(key, s2, ProtoEvent::FetchOk { bytes: b });
            let (s4, a4) = proto_step(key, s3, ProtoEvent::WriteOk);
            let (s5, a5) = proto_step(key, s4, ProtoEvent::RecordOk);
            a1 == (ProtoAction::ReadBlob { path: en.path }) && a2 == ProtoAction::FetchUpstream
                && a3 == (ProtoAction::WriteBlob { bytes: b }) && a4 == (ProtoAction::PutMetadata {
                entry: EntryView { valid: true, path: key },
            }) && a5 == (ProtoAction::Respond { bytes: b }) && s5 == (ProtoState::Done { bytes: b })
                && !(a1 is FetchUpstream) && !(a3 is FetchUpstream) && !(a4 is FetchUpstream) && !(
            a5 is FetchUpstream)
        }),
{
}

/// Failure isolation: an unreachable metadata store fails the request with
/// `CacheUnavailable` at once, and from the failed state no event can ever
/// make the machine ask for anything again — in particular, the upstream is
/// never contacted.
pub proof fn lemma_failure_isolation(key: Seq<char>, err: CacheError)
    ensures
        proto_step(key, ProtoState::Lookup, ProtoEvent::MetadataFailed) == (
            ProtoState::Failed { err: CacheError::CacheUnavailable },
            ProtoAction::Fail { err: CacheError::CacheUnavailable },
        ),
        forall|e: ProtoEvent|
            (#[trigger] proto_step(key, ProtoState::Failed { err }, e)) == (
                ProtoState::Failed { err },
                ProtoAction::Idle,
            ),
{
}

/// Write-before-record: the machine asks for a metadata record only right
/// after a durable blob write succeeded, and the entry it records is always
/// `{valid: true, path: key}`. A record is never written for bytes that are
/// not already stored.
pub proof fn lemma_record_only_after_write(key: Seq<char>, s: ProtoState, e: ProtoEvent)
    ensures
        proto_step(key, s, e).1 matches ProtoAction::PutMetadata { entry } ==> s is Store && e
            is WriteOk && entry == (EntryView { valid: true, path: key }),
{
}

/// The machine fetches only from the miss state: an upstream fetch is asked
/// for only when the lookup found nothing servable (no entry, an invalid
/// entry, or a missing/empty blob behind a valid entry).
pub proof fn lemma_fetch_only_on_miss(key: Seq<char>, s: ProtoState, e: ProtoEvent)
    ensures
        proto_step(key, s, e).1 is FetchUpstream ==> (s is Lookup || s is CheckBlob),
        proto_step(key, s, e).1 is FetchUpstream ==> proto_step(key, s, e).0 is Fetch,
{
}

/// The response is given exactly once and verbatim: a `Respond` action
/// always carries the bytes of the `Done` state it enters, and the done
/// state asks for nothing further, whatever arrives.
pub proof fn lemma_respond_once_and_exact(key: Seq<char>, s: ProtoState, e: ProtoEvent)
    ensures
        proto_step(key, s, e).1 matches ProtoAction::Respond { bytes } ==> proto_step(key, s, e).0
            == (ProtoState::Done { bytes }),
        s is Done ==> proto_step(key, s, e) == (s, ProtoAction::Idle),
{
}

// ---------------------------------------------------------------------------
// The executable machine. Each value is the abstract one seen through `view`,
// and `step` is proved to follow `proto_step` exactly.
// ---------------------------------------------------------------------------

/// Executable state of one artifact request.
#[derive(Debug, PartialEq)]
pub enum ReqState {
    Lookup,
    CheckBlob { entry_path: String },
    Fetch,
    Store { bytes: Vec<u8> },
    Record { bytes: Vec<u8> },
    Done { bytes: Vec<u8> },
    Failed { err: CacheError },
}

/// Executable outcome of the last action.
#[derive(Debug, PartialEq)]
pub enum ReqEvent {
    MetadataValue { entry: Option<CacheEntry> },
    MetadataFailed,
    BlobValue { bytes: Option<Vec<u8>> },
    FetchOk { bytes: Vec<u8> },
    FetchFailed { err: CacheError },
    WriteOk,
    WriteFailed,
    RecordOk,
    RecordFailed,
}

/// Executable action the driver must perform next.
#[derive(Debug, PartialEq)]
pub enum ReqAction {
    GetMetadata,
    ReadBlob { path: String },
    FetchUpstream,
    WriteBlob { bytes: Vec<u8> },
    PutMetadata { entry: CacheEntry },
    Respond { bytes: Vec<u8> },
    Fail { err: CacheError },
    Idle,
}

impl View for ReqState {
    type V = ProtoState;

    open spec fn view(&self) -> ProtoState {
        match self {
            ReqState::Lookup => ProtoState::Lookup,
            ReqState::CheckBlob { entry_path } => ProtoState::CheckBlob {
                entry_path: entry_path@,
            },
            ReqState::Fetch => ProtoState::Fetch,
            ReqState::Store { bytes } => ProtoState::Store { bytes: bytes@ },
            ReqState::Record { bytes } => ProtoState::Record { bytes: bytes@ },
            ReqState::Done { bytes } => ProtoState::Done { bytes: bytes@ },
            ReqState::Failed { err } => ProtoState::Failed { err: *err },
        }
    }
}

impl View for ReqEvent {
    type V = ProtoEvent;

    open spec fn view(&self) -> ProtoEvent {
        match self {
            ReqEvent::MetadataValue { entry } => ProtoEvent::MetadataValue {
                entry: match entry {
                    Some(en) => Some(en@),
                    None => None,
                },
            },
            ReqEvent::MetadataFailed => ProtoEvent::MetadataFailed,
            ReqEvent::BlobValue { bytes } => ProtoEvent::BlobValue {
                bytes: match bytes {
                    Some(b) => Some(b@),
                    None => None,
                },
            },
            ReqEvent::FetchOk { bytes } => ProtoEvent::FetchOk { bytes: bytes@ },
            ReqEvent::FetchFailed { err } => ProtoEvent::FetchFailed { err: *err },
            ReqEvent::WriteOk => ProtoEvent::WriteOk,
            ReqEvent::WriteFailed => ProtoEvent::WriteFailed,
            ReqEvent::RecordOk => ProtoEvent::RecordOk,
            ReqEvent::RecordFailed => ProtoEvent::RecordFailed,
        }
    }
}

impl View for ReqAction {
    type V = ProtoAction;

    open spec fn view(&self) -> ProtoAction {
        match self {
            ReqAction::GetMetadata => ProtoAction::GetMetadata,
            ReqAction::ReadBlob { path } => ProtoAction::ReadBlob { path: path@ },
            ReqAction::FetchUpstream => ProtoAction::FetchUpstream,
            ReqAction::WriteBlob { bytes } => ProtoAction::WriteBlob { bytes: bytes@ },
            ReqAction::PutMetadata { entry } => ProtoAction::PutMetadata { entry: entry@ },
            ReqAction::Respond { bytes } => ProtoAction::Respond { bytes: bytes@ },
            ReqAction::Fail { err } => ProtoAction::Fail { err: *err },
            ReqAction::Idle => ProtoAction::Idle,
        }
    }
}

/// Validates the four client-supplied segments and opens a request run.
///
/// A key with an empty segment is rejected as `MalformedKey` before any
/// store or network action is asked for; a well-formed key starts in
/// `Lookup` with the metadata read as the one action.
pub fn begin(seg1: String, seg2: String, seg3: String, seg4: String) -> (r: Result<
    (ArtifactKey, ReqState, ReqAction),
    CacheError,
>)
    ensures
        r is Ok <==> (seg1@.len() > 0 && seg2@.len() > 0 && seg3@.len() > 0 && seg4@.len() > 0),
        r matches Ok(t) ==> t.0 == (ArtifactKey { seg1, seg2, seg3, seg4 }) && t.0.wf()
            && t.1@ == ProtoState::Lookup && t.2@ == ProtoAction::GetMetadata,
        r matches Err(e) ==> e == CacheError::MalformedKey,
{
    let key = ArtifactKey::new(seg1, seg2, seg3, seg4)?;
    Ok((key, ReqState::Lookup, ReqAction::GetMetadata))
}

/// Performs one transition of the request machine, exactly as
/// [`proto_step`] describes it for the key's full path.
pub fn step(key: &ArtifactKey, state: ReqState, event: ReqEvent) -> (r: (ReqState, ReqAction))
    ensures
        r.0@ == proto_step(key.full_path_spec(), state@, event@).0,
        r.1@ == proto_step(key.full_path_spec(), state@, event@).1,
{
    match (state, event) {
        (ReqState::Lookup, ReqEvent::MetadataFailed) => (
            ReqState::Failed { err: CacheError::CacheUnavailable },
            ReqAction::Fail { err: CacheError::CacheUnavailable },
        ),
        (ReqState::Lookup, ReqEvent::MetadataValue { entry }) => match entry {
            Some(en) => if en.valid {
                let path_copy = en.path.clone();
                (
                    ReqState::CheckBlob { entry_path: en.path },
                    ReqAction::ReadBlob { path: path_copy },
                )
            } else {
                (ReqState::Fetch, ReqAction::FetchUpstream)
            },
            None => (ReqState::Fetch, ReqAction::FetchUpstream),
        },
        (ReqState::CheckBlob { entry_path: _ }, ReqEvent::BlobValue { bytes }) => match bytes {
            Some(b) => if b.len() > 0 {
                let bytes_copy = clone_bytes(&b);
                (ReqState::Done { bytes: b }, ReqAction::Respond { bytes: bytes_copy })
            } else {
                (ReqState::Fetch, ReqAction::FetchUpstream)
            },
            None => (ReqState::Fetch, ReqAction::FetchUpstream),
        },
        (ReqState::Fetch, ReqEvent::FetchOk { bytes }) => {
            let bytes_copy = clone_bytes(&bytes);
            (ReqState::Store { bytes }, ReqAction::WriteBlob { bytes: bytes_copy })
        },
        (ReqState::Fetch, ReqEvent::FetchFailed { err }) => (
            ReqState::Failed { err },
            ReqAction::Fail { err },
        ),
        (ReqState::Store { bytes }, ReqEvent::WriteOk) => {
            let entry = CacheEntry::new(key.full_path().as_str());
            (ReqState::Record { bytes }, ReqAction::PutMetadata { entry })
        },
        (ReqState::Store { bytes: _ }, ReqEvent::WriteFailed) => (
            ReqState::Failed { err: CacheError::StorageFailure },
            ReqAction::Fail { err: CacheError::StorageFailure },
        ),
        (ReqState::Record { bytes }, ReqEvent::RecordOk) => {
            let bytes_copy = clone_bytes(&bytes);
            (ReqState::Done { bytes }, ReqAction::Respond { bytes: bytes_copy })
        },
        (ReqState::Record { bytes }, ReqEvent::RecordFailed) => {
            let bytes_copy = clone_bytes(&bytes);
            (ReqState::Done { bytes }, ReqAction::Respond { bytes: bytes_copy })
        },
        (s2, _) => (s2, ReqAction::Idle),
    }
}

/// Copies a byte vector, element by element.
fn clone_bytes(b: &Vec<u8>) -> (r: Vec<u8>)
    ensures
        r@ == b@,
{
    let mut r: Vec<u8> = Vec::new();
    let mut i: usize = 0;
    while i < b.len()
        invariant
            i <= b@.len(),
            r@ == b@.take(i as int),
        decreases b@.len() - i,
    {
        r.push(b[i]);
        proof {
            assert(b@.take(i as int).push(b@[i as int]) =~= b@.take(i as int + 1));
        }
        i += 1;
    }
    proof {
        assert(b@.take(b@.len() as int) =~= b@);
    }
    r
}

} // verus!
