use vstd::prelude::*;

verus! {

/// The base58 text of a 32-byte digest, as sui-sdk-types renders it.
pub uninterp spec fn base58_of(bytes: Seq<u8>) -> Seq<char>;

/// Relies on `sui_sdk_types::Digest::new` and its `Display`: the digest's
/// base58 text, a function of its bytes alone.
#[verifier::external_body]
fn digest_text(bytes: [u8; 32]) -> (r: String)
    ensures
        r@ == base58_of(bytes@),
{
    sui_sdk_types::Digest::new(bytes).to_string()
}

/// A point in time as whole seconds and the nanoseconds past them.
#[derive(Clone, Copy, Debug, PartialEq, Eq, Structural)]
pub struct Timestamp {
    pub seconds: i64,
    pub nanos: i32,
}

/// Relies on `sui_rpc::proto::timestamp_ms_to_proto`, which splits the
/// milliseconds through `Duration::from_millis` into seconds and sub-second
/// nanoseconds.
#[verifier::external_body]
fn timestamp_from_ms(ms: u64) -> (r: Timestamp)
    ensures
        r.seconds == ms / 1000,
        r.nanos == (ms % 1000) * 1_000_000,
{
    let t = sui_rpc::proto::timestamp_ms_to_proto(ms);
    Timestamp { seconds: t.seconds, nanos: t.nanos }
}

/// What the ledger store reports, read at one moment.
pub struct LedgerSnapshot {
    pub chain_id: [u8; 32],
    pub chain: String,
    pub epoch: u64,
    pub checkpoint_height: u64,
    pub timestamp_ms: u64,
    pub lowest_available_checkpoint: u64,
    pub lowest_available_checkpoint_objects: u64,
    pub server_version: Option<String>,
}

/// The service-info response.
pub struct ServiceInfo {
    pub chain_id: Option<String>,
    pub chain: Option<String>,
    pub epoch: Option<u64>,
    pub checkpoint_height: Option<u64>,
    pub timestamp: Option<Timestamp>,
    pub lowest_available_checkpoint: Option<u64>,
    pub lowest_available_checkpoint_objects: Option<u64>,
    pub server: Option<String>,
}

/// Builds the service-info response from a ledger snapshot: the chain id as
/// base58 text, the latest checkpoint's epoch, height and time, the lowest
/// available checkpoints and the server version.
pub fn get_service_info(snapshot: LedgerSnapshot) -> (r: ServiceInfo)
    ensures
        r.chain_id matches Some(id) && id@ == base58_of(snapshot.chain_id@),
        r.chain == Some(snapshot.chain),
        r.epoch == Some(snapshot.epoch),
        r.checkpoint_height == Some(snapshot.checkpoint_height),
        r.timestamp matches Some(t) && t.seconds == snapshot.timestamp_ms / 1000 && t.nanos == (
        snapshot.timestamp_ms % 1000) * 1_000_000,
        r.lowest_available_checkpoint == Some(snapshot.lowest_available_checkpoint),
        r.lowest_available_checkpoint_objects == Some(
            snapshot.lowest_available_checkpoint_objects,
        ),
        r.server == snapshot.server_version,
{
    let chain_id = digest_text(snapshot.chain_id);
    let timestamp = timestamp_from_ms(snapshot.timestamp_ms);
    ServiceInfo {
        chain_id: Some(chain_id),
        chain: Some(snapshot.chain),
        epoch: Some(snapshot.epoch),
        checkpoint_height: Some(snapshot.checkpoint_height),
        timestamp: Some(timestamp),
        lowest_available_checkpoint: Some(snapshot.lowest_available_checkpoint),
        lowest_available_checkpoint_objects: Some(snapshot.lowest_available_checkpoint_objects),
        server: snapshot.server_version,
    }
}

} // verus!
