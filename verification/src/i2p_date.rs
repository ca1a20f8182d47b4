//! The wire timestamp.
//!
//! An [`I2pDate`] counts the milliseconds since January 1, 1970 (UNIX time)
//! in the GMT timezone as an eight-byte big-endian integer.  Zero is reserved
//! to mean an undefined date, so every constructed timestamp is positive: the
//! strict constructor refuses zero by precondition, the checked constructor
//! and the decoder report it as an error.

use vstd::prelude::*;

use crate::i2p_integer::{be_bytes_of, be_value_of, byte_bound, lemma_byte_bound_values, I2pInt64};
use crate::serialize::{Cause, Deserialize, Error, Serialize};

verus! {

/// The byte width of a timestamp's wire form.
pub const I2P_DATE_LENGTH_BYTES: usize = 8;

/// An error raised while building a timestamp.
#[derive(Clone, Copy, Debug, PartialEq, Eq, Structural)]
pub enum I2pDateError {
    /// Zero milliseconds stand for an undefined date and are refused.
    GotZeroMilliseconds,
}

/// A millisecond timestamp, always positive.
///
/// The field is exposed so that specifications can speak about it; construct
/// values through the constructors, which establish [`I2pDate::wf`].
#[derive(Clone, Copy, Debug, PartialEq, Eq, PartialOrd, Ord, Hash)]
pub struct I2pDate {
    /// The milliseconds since the epoch, never zero.
    pub milliseconds: I2pInt64,
}

/// A calendar time of the calendar library, opaque to this layer: it is
/// produced from a timestamp and only handed back for formatting.
#[verifier::external_body]
pub struct UtcDateTime {
    inner: chrono::DateTime<chrono::Utc>,
}

/// Whether the calendar library accepts a seconds-and-nanoseconds split as a
/// calendar time; it depends on the two values alone.
pub uninterp spec fn chrono_timestamp_in_range(secs: i64, nanos: u32) -> bool;

/// Relies on chrono's DateTime::from_timestamp: the result depends on the
/// seconds and nanoseconds alone, and is absent exactly for out-of-range
/// input.
#[verifier::external_body]
fn datetime_from_timestamp(secs: i64, nanos: u32) -> (r: Option<UtcDateTime>)
    ensures
        r is Some <==> chrono_timestamp_in_range(secs, nanos),
{
    match chrono::DateTime::from_timestamp(secs, nanos) {
        Some(inner) => Some(UtcDateTime { inner }),
        None => None,
    }
}

/// Relies on chrono's DateTime::to_rfc3339 to format a calendar time.
#[verifier::external_body]
fn datetime_to_rfc3339(datetime: &UtcDateTime) -> String {
    datetime.inner.to_rfc3339()
}

impl I2pDate {
    /// Invariant: the millisecond count fits its width and is positive.
    pub open spec fn wf(self) -> bool {
        self.milliseconds.wf() && self.milliseconds.value() >= 1
    }

    /// Builds a timestamp; zero milliseconds are refused by precondition.
    pub fn new(milliseconds: I2pInt64) -> (r: I2pDate)
        requires
            milliseconds.value() > 0,
        ensures
            r.milliseconds == milliseconds,
            r.wf(),
    {
        proof {
            lemma_byte_bound_values();
        }
        I2pDate { milliseconds }
    }

    /// Builds a timestamp, reporting zero milliseconds as an error instead
    /// of refusing them outright.
    pub fn checked_new(milliseconds: I2pInt64) -> (r: Result<I2pDate, I2pDateError>)
        ensures
            match r {
                Ok(d) => milliseconds.value() > 0 && d.milliseconds == milliseconds && d.wf(),
                Err(e) => milliseconds.value() == 0 && e == I2pDateError::GotZeroMilliseconds,
            },
    {
        if milliseconds.to_u64() > 0 {
            Ok(I2pDate::new(milliseconds))
        } else {
            Err(I2pDateError::GotZeroMilliseconds)
        }
    }

    /// The millisecond count, positive for every constructed timestamp.
    pub fn milliseconds(&self) -> (r: I2pInt64)
        requires
            self.wf(),
        ensures
            r == self.milliseconds,
            r.value() >= 1,
    {
        self.milliseconds
    }

    /// The byte width of the timestamp's wire form.
    pub fn len(&self) -> (r: usize)
        ensures
            r == 8,
    {
        I2P_DATE_LENGTH_BYTES
    }

    /// Writes the millisecond count as exactly eight big-endian bytes.
    pub fn to_bytes_be(&self) -> (r: Vec<u8>)
        requires
            self.wf(),
        ensures
            r@ == be_bytes_of(self.milliseconds.value() as nat, 8),
            r@.len() == 8,
    {
        self.milliseconds.to_bytes_be()
    }

    /// Splits the milliseconds into whole seconds and nanoseconds and asks
    /// the calendar library for the matching calendar time; absent when the
    /// timestamp lies outside the calendar library's range.
    pub fn to_datetime(&self) -> (r: Option<UtcDateTime>)
        requires
            self.wf(),
        ensures
            r is Some <==> chrono_timestamp_in_range(
                (self.milliseconds.value() / 1000) as i64,
                ((self.milliseconds.value() % 1000) * 1_000_000) as u32,
            ),
    {
        let msec = self.milliseconds.to_u64();
        let seconds = msec / 1000;
        let remainder = msec % 1000;
        let nanoseconds = remainder * 1_000_000;
        datetime_from_timestamp(seconds as i64, nanoseconds as u32)
    }

    /// Formats the timestamp in RFC 3339 form; absent when the timestamp
    /// lies outside the calendar library's range.
    pub fn to_rfc3339(&self) -> (r: Option<String>)
        requires
            self.wf(),
        ensures
            r is Some <==> chrono_timestamp_in_range(
                (self.milliseconds.value() / 1000) as i64,
                ((self.milliseconds.value() % 1000) * 1_000_000) as u32,
            ),
    {
        match self.to_datetime() {
            Some(datetime) => Some(datetime_to_rfc3339(&datetime)),
            None => None,
        }
    }

    /// The earliest legal timestamp: one millisecond.
    pub fn min_value() -> (r: I2pDate)
        ensures
            r.wf(),
            r.milliseconds.value() == 1,
    {
        proof {
            lemma_byte_bound_values();
            vstd::arithmetic::div_mod::lemma_small_mod(1, byte_bound(8));
        }
        I2pDate::new(I2pInt64::new(1))
    }

    /// The latest legal timestamp: the all-ones millisecond count.
    pub fn max_value() -> (r: I2pDate)
        ensures
            r.wf(),
            r.milliseconds.value() == u64::MAX,
    {
        proof {
            lemma_byte_bound_values();
            vstd::arithmetic::div_mod::lemma_small_mod(u64::MAX as nat, byte_bound(8));
        }
        I2pDate::new(I2pInt64::new(u64::MAX))
    }
}

impl Default for I2pDate {
    /// The default timestamp is the earliest legal one.
    fn default() -> (r: I2pDate)
        ensures
            r.wf(),
            r.milliseconds.value() == 1,
    {
        I2pDate::min_value()
    }
}

impl Serialize for I2pDate {
    open spec fn wf(&self) -> bool {
        I2pDate::wf(*self)
    }

    open spec fn wire(&self) -> Seq<u8> {
        be_bytes_of(self.milliseconds.value() as nat, 8)
    }

    proof fn lemma_wire_len(&self) {
        crate::i2p_integer::lemma_be_bytes_len(self.milliseconds.value() as nat, 8);
    }

    fn serialize(&self, buf: &mut [u8]) -> (r: Result<usize, Error>) {
        self.milliseconds.serialize(buf)
    }
}

impl Deserialize for I2pDate {
    type Output = I2pDate;

    open spec fn deserialize_post(buf: Seq<u8>, r: Result<I2pDate, Error>) -> bool {
        if buf.len() >= 8 {
            let v = be_value_of(buf.take(8));
            if v > 0 {
                match r {
                    Ok(d) => d.wf() && d.milliseconds.value() == v,
                    Err(_) => false,
                }
            } else {
                r == Err::<I2pDate, Error>(
                    Error::Decoding(Cause::Time(I2pDateError::GotZeroMilliseconds)),
                )
            }
        } else {
            r == Err::<I2pDate, Error>(Error::BufferTooSmall(8, buf.len() as usize))
        }
    }

    fn deserialize(buf: &[u8]) -> (r: Result<I2pDate, Error>) {
        let milliseconds = match I2pInt64::deserialize(buf) {
            Ok(integer) => integer,
            Err(err) => {
                return Err(err);
            },
        };
        match I2pDate::checked_new(milliseconds) {
            Ok(date) => Ok(date),
            Err(err) => Err(Error::Decoding(Cause::Time(err))),
        }
    }
}

/// Re-serialization stability: whatever timestamp a buffer decodes to
/// serializes back to exactly the bytes that were consumed.
pub proof fn lemma_i2p_date_reserialize(buf: Seq<u8>, r: Result<I2pDate, Error>)
    requires
        buf.len() >= 8,
        be_value_of(buf.take(8)) > 0,
        <I2pDate as Deserialize>::deserialize_post(buf, r),
    ensures
        match r {
            Ok(w) => w.wf() && Serialize::wire(&w) == buf.take(8),
            Err(_) => false,
        },
{
    crate::i2p_integer::lemma_be_bytes_of_be_value(buf.take(8));
    match r {
        Ok(w) => {
            assert(w.milliseconds.value() == be_value_of(buf.take(8)));
        },
        Err(_) => {
            assert(false);
        },
    }
}

/// Round trip: decoding the serialized bytes of a well-formed timestamp,
/// whatever bytes follow them, yields exactly the timestamp back; its
/// renewed serialization is therefore byte-identical.
pub proof fn lemma_i2p_date_round_trip(v: I2pDate, rest: Seq<u8>, r: Result<I2pDate, Error>)
    requires
        v.wf(),
        <I2pDate as Deserialize>::deserialize_post(Serialize::wire(&v) + rest, r),
    ensures
        r == Ok::<I2pDate, Error>(v),
        match r {
            Ok(w) => Serialize::wire(&w) == Serialize::wire(&v),
            Err(_) => false,
        },
{
    let wire = be_bytes_of(v.milliseconds.value() as nat, 8);
    crate::i2p_integer::lemma_be_bytes_len(v.milliseconds.value() as nat, 8);
    assert((wire + rest).take(8) =~= wire);
    crate::i2p_integer::lemma_be_value_of_be_bytes(v.milliseconds.value() as nat, 8);
    lemma_byte_bound_values();
    vstd::arithmetic::div_mod::lemma_small_mod(v.milliseconds.value() as nat, byte_bound(8));
    match r {
        Ok(w) => {
            assert(w.milliseconds.data == v.milliseconds.data);
        },
        Err(_) => {
            assert(false);
        },
    }
}

} // verus!
