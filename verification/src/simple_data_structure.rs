//! The fixed-length byte blob pattern.
//!
//! A [`SimpleDataStructure`] holds exactly `L` raw bytes.  Construction from
//! a shorter slice left-pads with zero bytes, treating the input as the
//! low-order bytes; an oversized slice is refused.  The wire form is the `L`
//! bytes themselves.  The nominal wrapper types (hashes, keys, session
//! material) each embed this pattern so that equal lengths do not make the
//! types interchangeable.

use rustc_serialize::base64::ToBase64;
use vstd::prelude::*;

use crate::serialize::{serialize_post, Deserialize, Error, Serialize};

verus! {

/// The base64 form of a byte sequence in the standard alphabet, without
/// padding and without line breaks.
pub uninterp spec fn base64_of(b: Seq<u8>) -> Seq<char>;

/// Relies on rustc-serialize's ToBase64 for byte slices, configured with the
/// standard alphabet, no padding and no line wrap: the result depends on the
/// bytes alone, and no bytes give no text.
#[verifier::external_body]
pub(crate) fn bytes_to_base64(bytes: &[u8]) -> (r: String)
    ensures
        r@ == base64_of(bytes@),
        bytes@.len() == 0 ==> r@.len() == 0,
{
    let config = rustc_serialize::base64::Config {
        char_set: rustc_serialize::base64::CharacterSet::Standard,
        newline: rustc_serialize::base64::Newline::LF,
        pad: false,
        line_length: None,
    };
    bytes.to_base64(config)
}

/// The character of a hexadecimal digit, in lower case.
pub open spec fn lower_hex_digit(v: u8) -> char
    recommends
        v < 16,
{
    if v < 10 {
        (0x30 + v) as char
    } else {
        (0x57 + v) as char
    }
}

/// The character of a hexadecimal digit, in upper case.
pub open spec fn upper_hex_digit(v: u8) -> char
    recommends
        v < 16,
{
    if v < 10 {
        (0x30 + v) as char
    } else {
        (0x37 + v) as char
    }
}

/// The lower-case hexadecimal form of a byte sequence: two digits for each
/// byte.
pub open spec fn lower_hex_of(b: Seq<u8>) -> Seq<char>
    decreases b.len(),
{
    if b.len() == 0 {
        Seq::empty()
    } else {
        lower_hex_of(b.drop_last()).push(lower_hex_digit(b.last() >> 4)).push(
            lower_hex_digit(b.last() & 0xF),
        )
    }
}

/// The upper-case hexadecimal form of a byte sequence: two digits for each
/// byte.
pub open spec fn upper_hex_of(b: Seq<u8>) -> Seq<char>
    decreases b.len(),
{
    if b.len() == 0 {
        Seq::empty()
    } else {
        upper_hex_of(b.drop_last()).push(upper_hex_digit(b.last() >> 4)).push(
            upper_hex_digit(b.last() & 0xF),
        )
    }
}

/// The eight binary digit characters of one byte, most significant first.
pub open spec fn binary_of_byte(b: u8) -> Seq<char> {
    Seq::new(
        8,
        |i: int|
            if (b >> (7 - i) as u8) & 1 == 1 {
                '1'
            } else {
                '0'
            },
    )
}

/// The binary form of a byte sequence: eight digits for each byte.
pub open spec fn binary_of(b: Seq<u8>) -> Seq<char>
    decreases b.len(),
{
    if b.len() == 0 {
        Seq::empty()
    } else {
        binary_of(b.drop_last()) + binary_of_byte(b.last())
    }
}

/// Shifting a byte right by a small amount does not depend on the type of
/// the shift amount.
proof fn lemma_shr_amount_type(b: u8, s: u32)
    by (bit_vector)
    requires
        s < 8,
    ensures
        b >> (s as u8) == b >> s,
{
}

/// The two nibbles of a byte are hexadecimal digits.
proof fn lemma_nibbles(b: u8)
    by (bit_vector)
    ensures
        b >> 4 < 16,
        b & 0xF < 16,
{
}

/// Writes a byte slice at offset 0 of a buffer under the shared
/// serialization contract: all of it, or nothing.
pub(crate) fn serialize_bytes(bytes: &[u8], buf: &mut [u8]) -> (r: Result<usize, Error>)
    ensures
        serialize_post(bytes@, old(buf)@, final(buf)@, r),
{
    let n = bytes.len();
    if n <= buf.len() {
        let mut i: usize = 0;
        while i < n
            invariant
                i <= n,
                n == bytes@.len(),
                n <= buf@.len(),
                buf@.len() == old(buf)@.len(),
                forall|j: int| 0 <= j < i ==> buf@[j] == bytes@[j],
                forall|j: int| i <= j < buf@.len() ==> buf@[j] == old(buf)@[j],
            decreases n - i,
        {
            let byte = bytes[i];
            buf[i] = byte;
            i = i + 1;
        }
        proof {
            assert(buf@ =~= bytes@ + old(buf)@.skip(n as int));
        }
        Ok(n)
    } else {
        Err(Error::buffer_too_small(n, buf.len()))
    }
}

/// Builds the lower-case hexadecimal text of a byte slice.
pub(crate) fn to_lower_hex_str(bytes: &[u8]) -> (r: String)
    ensures
        r@ == lower_hex_of(bytes@),
{
    let mut out = String::new();
    let mut i: usize = 0;
    while i < bytes.len()
        invariant
            i <= bytes@.len(),
            out@ == lower_hex_of(bytes@.take(i as int)),
        decreases bytes@.len() - i,
    {
        let b = bytes[i];
        proof {
            lemma_nibbles(b);
            let taken = bytes@.take(i as int + 1);
            assert(taken.drop_last() =~= bytes@.take(i as int));
            assert(taken.last() == bytes@[i as int]);
        }
        let hi = b >> 4;
        let lo = b & 0xF;
        crate::i2p_string::string_push_char(
            &mut out,
            (if hi < 10 {
                0x30 + hi
            } else {
                0x57 + hi
            }) as char,
        );
        crate::i2p_string::string_push_char(
            &mut out,
            (if lo < 10 {
                0x30 + lo
            } else {
                0x57 + lo
            }) as char,
        );
        i = i + 1;
        proof {
            assert(out@ =~= lower_hex_of(bytes@.take(i as int)));
        }
    }
    proof {
        assert(bytes@.take(bytes@.len() as int) =~= bytes@);
    }
    out
}

/// Builds the upper-case hexadecimal text of a byte slice.
pub(crate) fn to_upper_hex_str(bytes: &[u8]) -> (r: String)
    ensures
        r@ == upper_hex_of(bytes@),
{
    let mut out = String::new();
    let mut i: usize = 0;
    while i < bytes.len()
        invariant
            i <= bytes@.len(),
            out@ == upper_hex_of(bytes@.take(i as int)),
        decreases bytes@.len() - i,
    {
        let b = bytes[i];
        proof {
            lemma_nibbles(b);
            let taken = bytes@.take(i as int + 1);
            assert(taken.drop_last() =~= bytes@.take(i as int));
            assert(taken.last() == bytes@[i as int]);
        }
        let hi = b >> 4;
        let lo = b & 0xF;
        crate::i2p_string::string_push_char(
            &mut out,
            (if hi < 10 {
                0x30 + hi
            } else {
                0x37 + hi
            }) as char,
        );
        crate::i2p_string::string_push_char(
            &mut out,
            (if lo < 10 {
                0x30 + lo
            } else {
                0x37 + lo
            }) as char,
        );
        i = i + 1;
        proof {
            assert(out@ =~= upper_hex_of(bytes@.take(i as int)));
        }
    }
    proof {
        assert(bytes@.take(bytes@.len() as int) =~= bytes@);
    }
    out
}

/// Builds the binary text of a byte slice.
pub(crate) fn to_binary_str(bytes: &[u8]) -> (r: String)
    ensures
        r@ == binary_of(bytes@),
{
    let mut out = String::new();
    let mut i: usize = 0;
    while i < bytes.len()
        invariant
            i <= bytes@.len(),
            out@ == binary_of(bytes@.take(i as int)),
        decreases bytes@.len() - i,
    {
        let b = bytes[i];
        let mut k: usize = 0;
        while k < 8
            invariant
                k <= 8,
                b == bytes@[i as int],
                i < bytes@.len(),
                out@ == binary_of(bytes@.take(i as int)) + binary_of_byte(b).take(k as int),
            decreases 8 - k,
        {
            let shift = (7 - k) as u32;
            let bit = (b >> shift) & 1;
            crate::i2p_string::string_push_char(
                &mut out,
                if bit == 1 {
                    '1'
                } else {
                    '0'
                },
            );
            k = k + 1;
            proof {
                assert(binary_of_byte(b)[k - 1] == (if (b >> (7 - (k - 1)) as u8) & 1 == 1 {
                    '1'
                } else {
                    '0'
                }));
                lemma_shr_amount_type(b, (7 - (k - 1)) as u32);
                assert(binary_of_byte(b).take(k as int) =~= binary_of_byte(b).take(
                    k - 1,
                ).push(binary_of_byte(b)[k - 1]));
                assert(out@ =~= binary_of(bytes@.take(i as int)) + binary_of_byte(b).take(k as int));
            }
        }
        i = i + 1;
        proof {
            let taken = bytes@.take(i as int);
            assert(taken.drop_last() =~= bytes@.take(i as int - 1));
            assert(taken.last() == b);
            assert(binary_of_byte(b).take(8) =~= binary_of_byte(b));
            assert(out@ =~= binary_of(bytes@.take(i as int)));
        }
    }
    proof {
        assert(bytes@.take(bytes@.len() as int) =~= bytes@);
    }
    out
}

/// A sequence of `n` zero bytes.
pub open spec fn zero_bytes(n: nat) -> Seq<u8> {
    Seq::new(n, |i: int| 0u8)
}

/// A fixed-length array of exactly `L` raw bytes.
///
/// The field is exposed so that specifications can speak about it; construct
/// values through the constructors, which establish
/// [`SimpleDataStructure::wf`].
#[derive(Clone, Debug, PartialEq, Eq)]
pub struct SimpleDataStructure<const L: usize> {
    /// The stored bytes, always exactly `L` of them.
    pub data: Vec<u8>,
}

impl<const L: usize> View for SimpleDataStructure<L> {
    type V = Seq<u8>;

    open spec fn view(&self) -> Seq<u8> {
        self.data@
    }
}

impl<const L: usize> SimpleDataStructure<L> {
    /// Invariant: the blob holds exactly `L` bytes.
    pub open spec fn wf(self) -> bool {
        self.data@.len() == L
    }

    /// Builds a blob from exactly `L` moved bytes.
    pub fn new(data: Vec<u8>) -> (r: Self)
        requires
            data@.len() == L,
        ensures
            r@ == data@,
            r.wf(),
    {
        SimpleDataStructure { data }
    }

    /// The length of the blob in bytes.
    pub fn len(&self) -> (r: usize)
        ensures
            r == L,
    {
        L
    }

    /// Builds a blob from at most `L` bytes, read as the low-order bytes:
    /// the front is padded with zeros.  A longer slice is refused.
    pub fn from_bytes(bytes: &[u8]) -> (r: Option<Self>)
        ensures
            match r {
                Some(b) => bytes@.len() <= L && b.wf() && b@ == zero_bytes((L - bytes@.len()) as nat)
                    + bytes@,
                None => bytes@.len() > L,
            },
    {
        if bytes.len() <= L {
            let offset = L - bytes.len();
            let mut data: Vec<u8> = Vec::new();
            let mut i: usize = 0;
            while i < offset
                invariant
                    i <= offset,
                    data@ =~= zero_bytes(i as nat),
                decreases offset - i,
            {
                data.push(0x00);
                i = i + 1;
                proof {
                    assert(data@ =~= zero_bytes(i as nat));
                }
            }
            let mut j: usize = 0;
            while j < bytes.len()
                invariant
                    j <= bytes@.len(),
                    bytes@.len() + offset == L,
                    data@ =~= zero_bytes(offset as nat) + bytes@.take(j as int),
                decreases bytes@.len() - j,
            {
                let byte = bytes[j];
                data.push(byte);
                j = j + 1;
                proof {
                    assert(data@ =~= zero_bytes(offset as nat) + bytes@.take(j as int));
                }
            }
            proof {
                assert(bytes@.take(bytes@.len() as int) =~= bytes@);
            }
            Some(SimpleDataStructure::new(data))
        } else {
            None
        }
    }

    /// The stored bytes.
    pub fn as_slice(&self) -> (r: &[u8])
        ensures
            r@ == self@,
    {
        self.data.as_slice()
    }

    /// The blob's base64 text, standard alphabet, unpadded.
    pub fn to_base64(&self) -> (r: String)
        ensures
            r@ == base64_of(self@),
    {
        bytes_to_base64(self.data.as_slice())
    }

    /// The blob's lower-case hexadecimal text.
    pub fn to_lower_hex(&self) -> (r: String)
        ensures
            r@ == lower_hex_of(self@),
    {
        to_lower_hex_str(self.data.as_slice())
    }

    /// The blob's upper-case hexadecimal text.
    pub fn to_upper_hex(&self) -> (r: String)
        ensures
            r@ == upper_hex_of(self@),
    {
        to_upper_hex_str(self.data.as_slice())
    }

    /// The blob's binary text.
    pub fn to_binary(&self) -> (r: String)
        ensures
            r@ == binary_of(self@),
    {
        to_binary_str(self.data.as_slice())
    }

    /// The all-zero blob.
    pub fn zeroed() -> (r: Self)
        ensures
            r.wf(),
            r@ == zero_bytes(L as nat),
    {
        let mut data: Vec<u8> = Vec::new();
        let mut i: usize = 0;
        while i < L
            invariant
                i <= L,
                data@ =~= zero_bytes(i as nat),
            decreases L - i,
        {
            data.push(0x00);
            i = i + 1;
            proof {
                assert(data@ =~= zero_bytes(i as nat));
            }
        }
        SimpleDataStructure::new(data)
    }
}

impl<const L: usize> Default for SimpleDataStructure<L> {
    /// The default blob is all zero bytes.
    fn default() -> (r: Self)
        ensures
            r.wf(),
            r@ == zero_bytes(L as nat),
    {
        SimpleDataStructure::zeroed()
    }
}

impl<const L: usize> Serialize for SimpleDataStructure<L> {
    open spec fn wf(&self) -> bool {
        SimpleDataStructure::wf(*self)
    }

    open spec fn wire(&self) -> Seq<u8> {
        self.data@
    }

    proof fn lemma_wire_len(&self) {
    }

    fn serialize(&self, buf: &mut [u8]) -> (r: Result<usize, Error>) {
        serialize_bytes(self.data.as_slice(), buf)
    }
}

impl<const L: usize> Deserialize for SimpleDataStructure<L> {
    type Output = SimpleDataStructure<L>;

    open spec fn deserialize_post(buf: Seq<u8>, r: Result<SimpleDataStructure<L>, Error>) -> bool {
        if buf.len() >= L {
            match r {
                Ok(b) => b.wf() && b@ == buf.take(L as int),
                Err(_) => false,
            }
        } else {
            r == Err::<SimpleDataStructure<L>, Error>(Error::BufferTooSmall(L, buf.len() as usize))
        }
    }

    fn deserialize(buf: &[u8]) -> (r: Result<SimpleDataStructure<L>, Error>) {
        if buf.len() >= L {
            let mut data: Vec<u8> = Vec::new();
            let mut i: usize = 0;
            while i < L
                invariant
                    i <= L,
                    L <= buf@.len(),
                    data@ =~= buf@.take(i as int),
                decreases L - i,
            {
                let byte = buf[i];
                data.push(byte);
                i = i + 1;
                proof {
                    assert(data@ =~= buf@.take(i as int));
                }
            }
            Ok(SimpleDataStructure::new(data))
        } else {
            Err(Error::buffer_too_small(L, buf.len()))
        }
    }
}

/// Re-serialization stability: whatever blob a buffer decodes to serializes
/// back to exactly the bytes that were consumed.
pub proof fn lemma_simple_data_structure_reserialize<const L: usize>(
    buf: Seq<u8>,
    r: Result<SimpleDataStructure<L>, Error>,
)
    requires
        buf.len() >= L,
        <SimpleDataStructure<L> as Deserialize>::deserialize_post(buf, r),
    ensures
        match r {
            Ok(w) => w.wf() && Serialize::wire(&w) == buf.take(L as int),
            Err(_) => false,
        },
{
}

/// Round trip: decoding the serialized bytes of a well-formed blob, whatever
/// bytes follow them, yields a blob with the same bytes; its renewed
/// serialization is therefore byte-identical.
pub proof fn lemma_simple_data_structure_round_trip<const L: usize>(
    v: SimpleDataStructure<L>,
    rest: Seq<u8>,
    r: Result<SimpleDataStructure<L>, Error>,
)
    requires
        v.wf(),
        <SimpleDataStructure<L> as Deserialize>::deserialize_post(Serialize::wire(&v) + rest, r),
    ensures
        match r {
            Ok(w) => w@ == v@ && w.wf() && Serialize::wire(&w) == Serialize::wire(&v),
            Err(_) => false,
        },
{
    assert((v.data@ + rest).take(L as int) =~= v.data@);
}

} // verus!
