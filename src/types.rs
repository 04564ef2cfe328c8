use vstd::prelude::*;

verus! {

/// A 32-byte identifier of one bridge transfer.
#[derive(Clone, Copy, Debug)]
pub struct BridgeTransferId(pub [u8; 32]);

/// A 32-byte commitment: the hash of the secret that completes a transfer.
#[derive(Clone, Copy, Debug)]
pub struct HashLock(pub [u8; 32]);

/// The secret whose hash must equal a transfer's hash lock.
#[derive(Clone, Debug)]
pub struct HashLockPreImage(pub Vec<u8>);

/// An expiry, counted in clock ticks from the moment a record is created.
#[derive(Clone, Copy, Debug)]
pub struct TimeLock(pub u64);

/// An unsigned quantity of funds.
#[derive(Clone, Copy, Debug)]
pub struct Amount(pub u64);

/// A chain-native address of the party that starts a transfer.
#[derive(Clone, Copy, Debug)]
pub struct InitiatorAddress(pub [u8; 32]);

/// A chain-native address of the party that receives a transfer.
#[derive(Clone, Copy, Debug)]
pub struct RecipientAddress(pub [u8; 32]);

/// Initiator-side record of one transfer.
#[derive(Clone, Copy, Debug)]
pub struct BridgeTransferDetails {
    pub bridge_transfer_id: BridgeTransferId,
    pub initiator_address: InitiatorAddress,
    pub recipient_address: RecipientAddress,
    pub hash_lock: HashLock,
    pub time_lock: TimeLock,
    pub amount: Amount,
}

/// Counterparty-side record of one transfer.
#[derive(Clone, Copy, Debug)]
pub struct LockDetails {
    pub bridge_transfer_id: BridgeTransferId,
    pub recipient_address: RecipientAddress,
    pub hash_lock: HashLock,
    pub time_lock: TimeLock,
    pub amount: Amount,
}

/// Terminal counterparty record: the lock together with the secret that released it.
#[derive(Clone, Debug)]
pub struct CompletedDetails {
    pub bridge_transfer_id: BridgeTransferId,
    pub recipient_address: RecipientAddress,
    pub hash_lock: HashLock,
    pub secret: HashLockPreImage,
    pub amount: Amount,
}

/// Where a record stands in its lifecycle; the last two are terminal.
#[derive(Clone, Copy, Debug, PartialEq, Eq, Structural)]
pub enum TransferState {
    Pending,
    Completed,
    Cancelled,
}

/// Whether two 32-byte values are equal.
pub fn bytes32_eq(a: &[u8; 32], b: &[u8; 32]) -> (r: bool)
    ensures
        r == (a@ == b@),
{
    let mut i: usize = 0;
    while i < 32
        invariant
            i <= 32,
            a@.len() == 32,
            b@.len() == 32,
            forall|j: int| 0 <= j < i ==> a@[j] == b@[j],
        decreases 32 - i,
    {
        if a[i] != b[i] {
            return false;
        }
        i = i + 1;
    }
    assert(a@ =~= b@);
    true
}

/// Whether the clock reading `now` lies at or beyond `time_lock` ticks after `created_at`.
pub open spec fn expired(created_at: u64, time_lock: u64, now: u64) -> bool {
    now as int >= created_at as int + time_lock as int
}

/// Decides `expired` without overflow.
pub fn time_lock_elapsed(created_at: u64, time_lock: TimeLock, now: u64) -> (r: bool)
    ensures
        r == expired(created_at, time_lock.0, now),
{
    now >= created_at && now - created_at >= time_lock.0
}

/// No identifier occurs twice in `ids`.
pub open spec fn ids_unique(ids: Seq<Seq<u8>>) -> bool {
    forall|i: int, j: int| 0 <= i < ids.len() && 0 <= j < ids.len() && i != j ==> ids[i] != ids[j]
}

/// The position of `id` in `ids`, where it occurs.
pub open spec fn index_of(ids: Seq<Seq<u8>>, id: Seq<u8>) -> int {
    choose|i: int| 0 <= i < ids.len() && ids[i] == id
}

/// In a sequence without repeats, the position of the identifier at `i` is `i`.
pub proof fn lemma_index_of(ids: Seq<Seq<u8>>, i: int)
    requires
        ids_unique(ids),
        0 <= i < ids.len(),
    ensures
        index_of(ids, ids[i]) == i,
{
    let id = ids[i];
    assert(0 <= i < ids.len() && ids[i] == id);
    let j = index_of(ids, id);
    assert(0 <= j < ids.len() && ids[j] == id);
}

/// The sequence number carried big-endian in the last eight bytes of `id`.
pub open spec fn id_sequence(id: Seq<u8>) -> u64 {
    ((id[24] as u64) << 56u64) | ((id[25] as u64) << 48u64) | ((id[26] as u64) << 40u64) | ((
    id[27] as u64) << 32u64) | ((id[28] as u64) << 24u64) | ((id[29] as u64) << 16u64) | ((
    id[30] as u64) << 8u64) | (id[31] as u64)
}

proof fn lemma_u64_bytes(n: u64)
    ensures
        (((((n >> 56u64) & 0xff) as u8) as u64) << 56u64) | (((((n >> 48u64) & 0xff) as u8) as u64)
            << 48u64) | (((((n >> 40u64) & 0xff) as u8) as u64) << 40u64) | (((((n >> 32u64)
            & 0xff) as u8) as u64) << 32u64) | (((((n >> 24u64) & 0xff) as u8) as u64) << 24u64)
            | (((((n >> 16u64) & 0xff) as u8) as u64) << 16u64) | (((((n >> 8u64) & 0xff) as u8)
            as u64) << 8u64) | (((n & 0xff) as u8) as u64) == n,
{
    assert((((((n >> 56u64) & 0xff) as u8) as u64) << 56u64) | (((((n >> 48u64) & 0xff) as u8)
        as u64) << 48u64) | (((((n >> 40u64) & 0xff) as u8) as u64) << 40u64) | (((((n >> 32u64)
        & 0xff) as u8) as u64) << 32u64) | (((((n >> 24u64) & 0xff) as u8) as u64) << 24u64) | (((((
    n >> 16u64) & 0xff) as u8) as u64) << 16u64) | (((((n >> 8u64) & 0xff) as u8) as u64) << 8u64)
        | (((n & 0xff) as u8) as u64) == n) by (bit_vector);
}

/// `entropy` with its last eight bytes replaced by `n`, big-endian.
pub fn with_sequence(entropy: &[u8; 32], n: u64) -> (r: [u8; 32])
    ensures
        r@.subrange(0, 24) == entropy@.subrange(0, 24),
        id_sequence(r@) == n,
{
    let e = entropy;
    let r: [u8; 32] = [
        e[0], e[1], e[2], e[3], e[4], e[5], e[6], e[7], e[8], e[9], e[10], e[11], e[12], e[13],
        e[14], e[15], e[16], e[17], e[18], e[19], e[20], e[21], e[22], e[23],
        ((n >> 56u64) & 0xff) as u8, ((n >> 48u64) & 0xff) as u8, ((n >> 40u64) & 0xff) as u8,
        ((n >> 32u64) & 0xff) as u8, ((n >> 24u64) & 0xff) as u8, ((n >> 16u64) & 0xff) as u8,
        ((n >> 8u64) & 0xff) as u8, (n & 0xff) as u8,
    ];
    proof {
        lemma_u64_bytes(n);
        assert(r@.subrange(0, 24) =~= entropy@.subrange(0, 24));
    }
    r
}

} // verus!
