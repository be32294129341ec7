//! Identifiers and wall-clock time.
use vstd::prelude::*;

verus! {

/// A point in time as seconds since the Unix epoch and the nanoseconds
/// within that second.
#[derive(Clone, Copy, Debug, PartialEq, Eq, Structural)]
pub struct Timestamp {
    pub seconds: i64,
    pub nanos: u32,
}

/// The identifier of an agent, checkpoint, mission or shared context: the
/// 128 bits of a UUID.
pub type Id = u128;

/// The bits of a UUID that carry its version and variant.
pub open spec fn uuid_layout_mask() -> u128 {
    0xF000_C000_0000_0000_0000u128
}

/// The value those bits take in a random (version 4, RFC 9562 variant) UUID.
pub open spec fn uuid_v4_layout() -> u128 {
    0x4000_8000_0000_0000_0000u128
}

/// A fresh random identifier.
///
/// Calls `uuid::Uuid::new_v4` and returns its 128 bits (`Uuid::as_u128`).
/// The contract claims only what the crate's source shows of every outcome:
/// the version nibble is 4 and the two variant bits are `10`. Which random
/// bits fill the rest is left unsaid.
#[verifier::external_body]
pub fn new_id() -> (id: Id)
    ensures
        id & uuid_layout_mask() == uuid_v4_layout(),
{
    uuid::Uuid::new_v4().as_u128()
}

/// A random identifier is never the nil identifier.
pub proof fn lemma_random_id_nonzero(id: Id)
    requires
        id & uuid_layout_mask() == uuid_v4_layout(),
    ensures
        id != 0,
{
    assert(id & 0xF000_C000_0000_0000_0000u128 == 0x4000_8000_0000_0000_0000u128 ==> id != 0)
        by (bit_vector);
}

/// The current time.
///
/// Calls `chrono::Utc::now` and returns `timestamp()` and
/// `timestamp_subsec_nanos()` of the result. The contract claims only what
/// holds of every reading on the platforms this crate runs on: the source
/// builds the value from the system clock's duration since the epoch, so
/// the seconds are not negative and the nanoseconds are below one second.
/// Which instant comes back is left unsaid; chrono panics when the system
/// clock reads a time before 1970.
#[verifier::external_body]
pub fn now() -> (t: Timestamp)
    ensures
        t.seconds >= 0,
        t.nanos < 1_000_000_000,
{
    let t = chrono::Utc::now();
    Timestamp { seconds: t.timestamp(), nanos: t.timestamp_subsec_nanos() }
}

} // verus!
