//! Timestamps.
use vstd::prelude::*;
use crate::error::Error;
use crate::zenoh_id::id_bytes_nonzero;

verus! {

/// A timestamp of zenoh's hybrid logical clock, as a plain value: the NTP64
/// time and the identifier of the clock that produced it.
#[derive(Debug, PartialEq, Eq)]
pub struct Timestamp {
    /// NTP64 time.
    pub ntp64: u64,
    /// Identifier of the producing clock: its significant little-endian bytes.
    pub id: Vec<u8>,
}

/// What a [`Timestamp`] holds.
pub ghost struct TimestampView {
    pub ntp64: u64,
    pub id: Seq<u8>,
}

impl View for Timestamp {
    type V = TimestampView;

    open spec fn view(&self) -> TimestampView {
        TimestampView { ntp64: self.ntp64, id: self.id@ }
    }
}

impl Clone for Timestamp {
    fn clone(&self) -> (r: Self)
        ensures
            r@ == self@,
    {
        Timestamp { ntp64: self.ntp64, id: vstd::slice::slice_to_vec(self.id.as_slice()) }
    }
}

/// Whether zenoh accepts `id` as a clock identifier (`TimestampId::try_from`,
/// i.e. `uhlc::ID::try_from(&[u8])`): at most 16 bytes, not all zero.
pub open spec fn timestamp_id_valid(id: Seq<u8>) -> bool {
    id.len() <= 16 && id_bytes_nonzero(id)
}

/// `id` without its trailing zero bytes: the significant little-endian bytes
/// an identifier is read back as (`to_le_bytes()[..size()]`).
pub open spec fn trim_trailing_zeros(id: Seq<u8>) -> Seq<u8>
    decreases id.len(),
{
    if id.len() > 0 && id.last() == 0 {
        trim_trailing_zeros(id.drop_last())
    } else {
        id
    }
}

/// The timestamp zenoh stores for a timestamp value it accepts.
pub open spec fn timestamp_normalized(t: TimestampView) -> TimestampView {
    TimestampView { ntp64: t.ntp64, id: trim_trailing_zeros(t.id) }
}

/// `uhlc::ID::try_from(&[u8])` (zenoh's `TimestampId`), read back as its
/// significant bytes. Per uhlc's source it fails exactly for more than 16
/// bytes or all-zero bytes, and `size()` counts the bytes up to the last
/// non-zero one.
#[verifier::external_body]
fn base_timestamp_id(id: &[u8]) -> (r: Result<Vec<u8>, Error>)
    ensures
        r is Ok <==> timestamp_id_valid(id@),
        r matches Ok(v) ==> v@ == trim_trailing_zeros(id@),
{
    match zenoh::time::TimestampId::try_from(id) {
        Ok(i) => Ok(i.to_le_bytes()[..i.size()].to_vec()),
        Err(e) => Err(Error { message: e.to_string() }),
    }
}

/// A fresh random clock identifier (`TimestampId::rand()`), read back as its
/// significant bytes. Only its validity is known.
#[verifier::external_body]
pub(crate) fn base_timestamp_id_rand() -> (r: Vec<u8>)
    ensures
        timestamp_id_valid(r@),
        trim_trailing_zeros(r@) == r@,
{
    let i = zenoh::time::TimestampId::rand();
    i.to_le_bytes()[..i.size()].to_vec()
}

/// Check a timestamp value the way zenoh converts it into its own timestamp,
/// and return it as zenoh holds it.
pub(crate) fn timestamp_validate(t: Timestamp) -> (r: Result<Timestamp, Error>)
    ensures
        r is Ok <==> timestamp_id_valid(t.id@),
        r matches Ok(v) ==> v@ == timestamp_normalized(t@),
{
    match base_timestamp_id(t.id.as_slice()) {
        Ok(id) => Ok(Timestamp { ntp64: t.ntp64, id }),
        Err(e) => Err(e),
    }
}

} // verus!
