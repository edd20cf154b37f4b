use vstd::prelude::*;

use crate::errors::{ErrorModel, ServiceError};
use crate::record::{fresh_at, ProfileRecord, RecordModel, FRESHNESS_WINDOW_SECS};
use crate::store::{fresh_lookup, lookup, stamped, ProfileStore};
use crate::text::str_eq;
use crate::upstream::{assemble_record, assembled_model, json_document_ok, FetchError};

verus! {

/// Model of the cache-aside decision.
#[verifier::ext_equal]
pub ghost enum DecisionModel {
    /// The identifier is a known invalid path artifact: no store or upstream
    /// access is made.
    Invalid,
    /// A fresh stored record answers the request: no upstream call is made.
    Cached(RecordModel),
    /// The record is absent or stale: one upstream fetch is required.
    NeedsFetch,
}

/// The outcome of consulting the store for an identifier.
pub enum Decision {
    Invalid,
    Cached(ProfileRecord),
    NeedsFetch,
}

impl View for Decision {
    type V = DecisionModel;

    open spec fn view(&self) -> DecisionModel {
        match self {
            Decision::Invalid => DecisionModel::Invalid,
            Decision::Cached(rec) => DecisionModel::Cached(rec@),
            Decision::NeedsFetch => DecisionModel::NeedsFetch,
        }
    }
}

/// The cache-aside decision: a synthetic favicon probe is invalid, a fresh
/// stored record is returned as is, anything else requires a fetch.
pub open spec fn decision_model(s: Seq<RecordModel>, id: Seq<char>, now: int) -> DecisionModel {
    if id == "favicon.ico"@ {
        DecisionModel::Invalid
    } else {
        match fresh_lookup(s, id, now) {
            Some(m) => DecisionModel::Cached(m),
            None => DecisionModel::NeedsFetch,
        }
    }
}

/// Consults the store and decides how the identifier resolves at `now`.
/// Read-only: the dominant fast path issues no upstream call.
pub fn decide(store: &ProfileStore, id: &str, now: i64) -> (d: Decision)
    ensures
        d@ == decision_model(store@, id@, now as int),
{
    if str_eq(id, "favicon.ico") {
        return Decision::Invalid;
    }
    match store.get_if_fresh(id, now) {
        Some(rec) => Decision::Cached(rec),
        None => Decision::NeedsFetch,
    }
}

/// Relies on chrono::Utc::now for the current wall-clock time as Unix
/// seconds; nothing is promised of the value.
#[verifier::external_body]
fn now_unix() -> i64 {
    chrono::Utc::now().timestamp()
}

/// Consults the store at the current wall-clock time: returns the decision
/// together with the timestamp it was made at, so that a subsequent write
/// uses the very same instant.
pub fn decide_now(store: &ProfileStore, id: &str) -> (r: (Decision, i64))
    ensures
        r.0@ == decision_model(store@, id@, r.1 as int),
{
    let now = now_unix();
    (decide(store, id, now), now)
}

/// Persists a successfully fetched record and hands it back: the caller
/// always sees data consistent with what was just persisted, stamped with
/// the write time `now`.
pub fn commit_fetched(store: &mut ProfileStore, fetched: ProfileRecord, now: i64) -> (r:
    ProfileRecord)
    requires
        old(store).wf(),
    ensures
        final(store).wf(),
        r@ == stamped(fetched@, now as int),
        lookup(final(store)@, fetched@.id) == Some(r@),
        forall|x: Seq<char>| x != fetched@.id ==> lookup(final(store)@, x) == lookup(
            old(store)@,
            x,
        ),
{
    let mut rec = fetched;
    rec.captured_at = now;
    proof {
        assert(rec@ =~= stamped(rec@, now as int));
    }
    let out = rec.clone();
    store.put(rec, now);
    out
}

/// Completes a cold resolution from the two fetched payload bodies: decode,
/// persist on success, and return the assembled record; a decode fault fails
/// the whole resolution and leaves the store unchanged.
pub fn resolve_after_fetch(
    store: &mut ProfileStore,
    id: &str,
    detail_body: &str,
    summary_body: &str,
    now: i64,
) -> (r: Result<ProfileRecord, ServiceError>)
    requires
        old(store).wf(),
    ensures
        final(store).wf(),
        r is Ok <==> json_document_ok(detail_body@) && json_document_ok(summary_body@),
        r matches Ok(rec) ==> {
            &&& rec@ == assembled_model(id@, detail_body@, summary_body@, now as int)
            &&& lookup(final(store)@, id@) == Some(rec@)
            &&& forall|x: Seq<char>|
                x != id@ ==> lookup(final(store)@, x) == lookup(old(store)@, x)
        },
        r matches Err(e) ==> e@ is Payload && final(store)@ == old(store)@,
{
    match assemble_record(id, detail_body, summary_body, now) {
        Ok(fetched) => {
            let rec = commit_fetched(store, fetched, now);
            proof {
                assert(rec@ =~= assembled_model(id@, detail_body@, summary_body@, now as int));
            }
            Ok(rec)
        },
        Err(e) => Err(fetch_to_service(e)),
    }
}

/// Maps a fetch fault onto the service taxonomy, keeping its classification.
pub fn fetch_to_service(e: FetchError) -> (r: ServiceError)
    ensures
        e@ matches crate::upstream::FetchFaultModel::Transport(d) ==> r@ == ErrorModel::Upstream(
            d,
        ),
        e@ matches crate::upstream::FetchFaultModel::Payload(d) ==> r@ == ErrorModel::Payload(d),
{
    match e {
        FetchError::Transport(d) => ServiceError::Upstream(d),
        FetchError::Payload(d) => ServiceError::Payload(d),
    }
}

/// The provider credential is required before any request is served:
/// absence refuses service, presence hands the credential through unchanged.
pub fn require_credential(token: Option<String>) -> (r: Result<String, ServiceError>)
    ensures
        r is Ok <==> token is Some,
        r matches Ok(t) ==> token matches Some(g) && t@ == g@,
        r matches Err(e) ==> e@ == ErrorModel::MissingCredential,
{
    match token {
        Some(t) => Ok(t),
        None => Err(ServiceError::MissingCredential),
    }
}

/// For every identifier with a fresh stored record, resolution returns that
/// exact record and decides against any upstream call.
pub proof fn lemma_fresh_hit_returns_stored(
    s: Seq<RecordModel>,
    id: Seq<char>,
    now: int,
    m: RecordModel,
)
    requires
        id != "favicon.ico"@,
        fresh_lookup(s, id, now) == Some(m),
    ensures
        decision_model(s, id, now) == DecisionModel::Cached(m),
{
}

/// For every identifier whose record is absent or stale, resolution decides
/// on exactly one upstream fetch.
pub proof fn lemma_miss_requires_fetch(s: Seq<RecordModel>, id: Seq<char>, now: int)
    requires
        id != "favicon.ico"@,
        fresh_lookup(s, id, now) is None,
    ensures
        decision_model(s, id, now) == DecisionModel::NeedsFetch,
{
}

/// A record stored at `now` answers every freshness-aware read made while
/// its age stays below the freshness window: in particular, right after a
/// successful fetch was persisted, the store returns the fetched record.
pub proof fn lemma_committed_record_is_fresh(
    s: Seq<RecordModel>,
    m: RecordModel,
    now: int,
    later: int,
)
    requires
        lookup(s, m.id) == Some(stamped(m, now)),
        now <= later < now + FRESHNESS_WINDOW_SECS as int,
    ensures
        fresh_lookup(s, m.id, later) == Some(stamped(m, now)),
{
}

/// Idempotence: when a first resolution has populated the store at `now`,
/// an immediately following resolution of the same identifier yields the
/// identical record from the store, with no further fetch decision.
pub proof fn lemma_resolve_idempotent(s: Seq<RecordModel>, m: RecordModel, now: int)
    requires
        m.id != "favicon.ico"@,
        lookup(s, m.id) == Some(stamped(m, now)),
    ensures
        decision_model(s, m.id, now) == DecisionModel::Cached(stamped(m, now)),
{
}

/// Staleness boundary: a record captured one second before the window is
/// stale, one captured one second inside the window is fresh.
pub proof fn lemma_staleness_boundary(now: int)
    ensures
        !fresh_at(now - FRESHNESS_WINDOW_SECS as int - 1, now),
        fresh_at(now - FRESHNESS_WINDOW_SECS as int + 1, now),
{
}

} // verus!
