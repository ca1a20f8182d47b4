//! The bounded wire string.
//!
//! An [`I2pString`] is a UTF-8 string of at most 255 bytes.  Its wire form is
//! one length byte followed by that many raw UTF-8 bytes.  The tracked length
//! is always the byte length of the text, not the number of characters, and
//! every mutation re-checks the capacity so that a failed mutation leaves the
//! string unchanged.

use vstd::prelude::*;
use vstd::string::{StrSliceExecFns, StringExecFns, StringSliceAdditionalSpecFns};
use vstd::utf8::{
    char_is_scalar, decode_utf8, decode_utf8_encode_utf8, encode_scalar, encode_utf8,
    encode_utf8_decode_utf8, encode_utf8_valid_utf8, valid_utf8,
};

use crate::serialize::{Cause, Deserialize, Error, Serialize};

verus! {

/// The largest number of text bytes a wire string can hold.
pub const I2P_MAX_STRING_LENGTH: usize = 255;

/// An error raised while building or growing a bounded string.
#[derive(Clone, Copy, Debug, PartialEq, Eq, Structural)]
pub enum I2pStringError {
    /// The text does not fit.  The first field is the number of bytes
    /// needed, the second field is the capacity.
    NotEnoughCapacity(usize, usize),
    /// The bytes are not valid UTF-8.
    InvalidUtf8,
}

/// A UTF-8 string of at most 255 bytes.
///
/// The fields are exposed so that specifications can speak about them;
/// construct values through the constructors, which establish
/// [`I2pString::wf`].
#[derive(Clone, Debug, PartialEq, Eq)]
pub struct I2pString {
    /// The byte length of the stored text.
    pub length: usize,
    /// The stored text.
    pub data: String,
}

impl View for I2pString {
    type V = Seq<char>;

    open spec fn view(&self) -> Seq<char> {
        self.data@
    }
}

/// The UTF-8 encoding of a character sequence splits over concatenation.
pub proof fn lemma_encode_utf8_append(s1: Seq<char>, s2: Seq<char>)
    ensures
        encode_utf8(s1 + s2) == encode_utf8(s1) + encode_utf8(s2),
    decreases s1.len(),
{
    if s1.len() == 0 {
        assert(s1 + s2 =~= s2);
        assert(encode_utf8(s1) + encode_utf8(s2) =~= encode_utf8(s2));
    } else {
        assert((s1 + s2).drop_first() =~= s1.drop_first() + s2);
        lemma_encode_utf8_append(s1.drop_first(), s2);
        assert(encode_utf8(s1 + s2) =~= encode_utf8(s1) + encode_utf8(s2));
    }
}

/// Appending one character appends its UTF-8 encoding.
pub proof fn lemma_encode_utf8_push(s: Seq<char>, c: char)
    ensures
        encode_utf8(s.push(c)) == encode_utf8(s) + encode_scalar(c as u32),
{
    assert(s.push(c) =~= s + seq![c]);
    lemma_encode_utf8_append(s, seq![c]);
    assert(seq![c][0] == c);
    assert(seq![c].drop_first() =~= Seq::<char>::empty());
    assert(encode_utf8(Seq::<char>::empty()) =~= Seq::<u8>::empty());
    assert(encode_utf8(seq![c]) =~= encode_scalar(c as u32) + Seq::<u8>::empty());
    assert(encode_scalar(c as u32) + Seq::<u8>::empty() =~= encode_scalar(c as u32));
}

/// A character encodes to at least one byte, so only the empty text has an
/// empty encoding.
pub proof fn lemma_encode_utf8_empty(s: Seq<char>)
    ensures
        encode_utf8(s).len() == 0 <==> s.len() == 0,
{
    if s.len() > 0 {
        char_is_scalar(s[0]);
        assert(encode_scalar(s[0] as u32).len() >= 1);
    }
}

/// Returns the number of bytes in the UTF-8 encoding of one character.
fn char_utf8_len(c: char) -> (r: usize)
    ensures
        r == encode_scalar(c as u32).len(),
        1 <= r <= 4,
{
    proof {
        char_is_scalar(c);
    }
    let u = c as u32;
    if u < 0x80 {
        1
    } else if u < 0x800 {
        2
    } else if u < 0x10000 {
        3
    } else {
        4
    }
}

/// Relies on std's String::from_utf8: it returns the string of the given
/// bytes exactly when they are valid UTF-8, and fails otherwise.
#[verifier::external_body]
fn string_from_utf8(bytes: Vec<u8>) -> (r: Option<String>)
    ensures
        match r {
            Some(s) => valid_utf8(bytes@) && s@ == decode_utf8(bytes@),
            None => !valid_utf8(bytes@),
        },
{
    String::from_utf8(bytes).ok()
}

/// Relies on std's String::push: it appends the character.
#[verifier::external_body]
pub(crate) fn string_push_char(s: &mut String, ch: char)
    ensures
        final(s)@ == old(s)@ + seq![ch],
{
    s.push(ch);
}

impl I2pString {
    /// The byte length of the stored text.
    pub open spec fn spec_byte_len(self) -> nat {
        encode_utf8(self.data@).len()
    }

    /// Invariant: the tracked length is the byte length of the text and the
    /// text fits the capacity.
    pub open spec fn wf(self) -> bool {
        self.length == self.spec_byte_len() && self.length <= 255
    }

    /// Builds an empty bounded string.
    pub fn new() -> (r: I2pString)
        ensures
            r.wf(),
            r@ == Seq::<char>::empty(),
            r.spec_byte_len() == 0,
    {
        I2pString { length: 0, data: String::new() }
    }

    /// The length of the text, in bytes.
    pub fn len(&self) -> (r: usize)
        requires
            self.wf(),
        ensures
            r == self.spec_byte_len(),
            r <= 255,
    {
        self.length
    }

    /// Whether the string holds no text.
    pub fn is_empty(&self) -> (r: bool)
        requires
            self.wf(),
        ensures
            r == (self@.len() == 0),
            r == (self.spec_byte_len() == 0),
    {
        proof {
            lemma_encode_utf8_empty(self.data@);
        }
        self.length == 0
    }

    /// The largest number of text bytes any bounded string can hold.
    pub fn capacity(&self) -> (r: usize)
        ensures
            r == 255,
    {
        I2P_MAX_STRING_LENGTH
    }

    /// Builds a bounded string from a moved byte vector: the bytes must fit
    /// the capacity and be valid UTF-8.
    fn from_vec(vec: Vec<u8>) -> (r: Result<I2pString, I2pStringError>)
        ensures
            match r {
                Ok(s) => vec@.len() <= 255 && valid_utf8(vec@) && s.wf() && s@ == decode_utf8(vec@)
                    && encode_utf8(s@) == vec@,
                Err(I2pStringError::NotEnoughCapacity(need, have)) => vec@.len() > 255 && need
                    == vec@.len() && have == 255,
                Err(I2pStringError::InvalidUtf8) => vec@.len() <= 255 && !valid_utf8(vec@),
            },
    {
        let n = vec.len();
        let ghost bs = vec@;
        if n <= I2P_MAX_STRING_LENGTH {
            match string_from_utf8(vec) {
                Some(data) => {
                    proof {
                        decode_utf8_encode_utf8(bs);
                    }
                    Ok(I2pString { length: n, data })
                },
                None => Err(I2pStringError::InvalidUtf8),
            }
        } else {
            Err(I2pStringError::NotEnoughCapacity(n, I2P_MAX_STRING_LENGTH))
        }
    }

    /// Builds a bounded string from a byte slice: the bytes must fit the
    /// capacity and be valid UTF-8.
    pub fn from_utf8(slice: &[u8]) -> (r: Result<I2pString, I2pStringError>)
        ensures
            match r {
                Ok(s) => slice@.len() <= 255 && valid_utf8(slice@) && s.wf() && s@ == decode_utf8(
                    slice@,
                ) && encode_utf8(s@) == slice@,
                Err(I2pStringError::NotEnoughCapacity(need, have)) => slice@.len() > 255 && need
                    == slice@.len() && have == 255,
                Err(I2pStringError::InvalidUtf8) => slice@.len() <= 255 && !valid_utf8(slice@),
            },
    {
        let vec = vstd::slice::slice_to_vec(slice);
        I2pString::from_vec(vec)
    }

    /// Builds a bounded string from a native string slice: its UTF-8 form
    /// must fit the capacity.
    pub fn from_str(slice: &str) -> (r: Result<I2pString, I2pStringError>)
        ensures
            match r {
                Ok(s) => slice.spec_bytes().len() <= 255 && s.wf() && s@ == slice@,
                Err(I2pStringError::NotEnoughCapacity(need, have)) => slice.spec_bytes().len() > 255
                    && need == slice.spec_bytes().len() && have == 255,
                Err(I2pStringError::InvalidUtf8) => false,
            },
    {
        let n = slice.as_bytes().len();
        if n <= I2P_MAX_STRING_LENGTH {
            let data = slice.to_owned();
            Ok(I2pString { length: n, data })
        } else {
            Err(I2pStringError::NotEnoughCapacity(n, I2P_MAX_STRING_LENGTH))
        }
    }

    /// The text as a native string slice.
    pub fn as_str(&self) -> (r: &str)
        ensures
            r@ == self@,
    {
        self.data.as_str()
    }

    /// The UTF-8 bytes of the text.
    pub fn as_bytes(&self) -> (r: &[u8])
        ensures
            r@ == encode_utf8(self@),
    {
        self.data.as_str().as_bytes()
    }

    /// Appends one byte, read as a character; fails, changing nothing, when
    /// its encoding does not fit the capacity.
    pub fn push_u8(&mut self, ch: u8) -> (r: Result<(), I2pStringError>)
        requires
            old(self).wf(),
        ensures
            final(self).wf(),
            ({
                let cost = encode_scalar((ch as char) as u32).len();
                match r {
                    Ok(()) => old(self).spec_byte_len() + cost <= 255 && final(self)@ == old(
                        self,
                    )@.push(ch as char) && final(self).spec_byte_len() == old(self).spec_byte_len()
                        + cost,
                    Err(e) => e == I2pStringError::NotEnoughCapacity(
                        (old(self).length + cost) as usize,
                        255,
                    ) && old(self).spec_byte_len() + cost > 255 && *final(self) == *old(self),
                }
            }),
    {
        self.push(ch as char)
    }

    /// Appends one character; fails, changing nothing, when its encoding
    /// does not fit the capacity.
    pub fn push(&mut self, ch: char) -> (r: Result<(), I2pStringError>)
        requires
            old(self).wf(),
        ensures
            final(self).wf(),
            ({
                let cost = encode_scalar(ch as u32).len();
                match r {
                    Ok(()) => old(self).spec_byte_len() + cost <= 255 && final(self)@ == old(
                        self,
                    )@.push(ch) && final(self).spec_byte_len() == old(self).spec_byte_len() + cost,
                    Err(e) => e == I2pStringError::NotEnoughCapacity(
                        (old(self).length + cost) as usize,
                        255,
                    ) && old(self).spec_byte_len() + cost > 255 && *final(self) == *old(self),
                }
            }),
    {
        let cost = char_utf8_len(ch);
        if cost <= I2P_MAX_STRING_LENGTH - self.length {
            proof {
                lemma_encode_utf8_push(self.data@, ch);
            }
            string_push_char(&mut self.data, ch);
            self.length = self.length + cost;
            proof {
                assert(self.data@ =~= old(self).data@.push(ch));
            }
            Ok(())
        } else {
            Err(I2pStringError::NotEnoughCapacity(self.length + cost, I2P_MAX_STRING_LENGTH))
        }
    }

    /// Appends a native string slice; fails, changing nothing, when its
    /// UTF-8 form does not fit the remaining capacity.
    pub fn push_str(&mut self, string: &str) -> (r: Result<(), I2pStringError>)
        requires
            old(self).wf(),
        ensures
            final(self).wf(),
            ({
                let cost = string.spec_bytes().len();
                match r {
                    Ok(()) => old(self).spec_byte_len() + cost <= 255 && final(self)@ == old(
                        self,
                    )@ + string@ && final(self).spec_byte_len() == old(self).spec_byte_len() + cost,
                    Err(e) => old(self).spec_byte_len() + cost > 255 && *final(self) == *old(self)
                        && e == I2pStringError::NotEnoughCapacity(
                        if old(self).length + cost <= usize::MAX {
                            (old(self).length + cost) as usize
                        } else {
                            usize::MAX
                        },
                        255,
                    ),
                }
            }),
    {
        let cost = string.as_bytes().len();
        if cost <= I2P_MAX_STRING_LENGTH - self.length {
            proof {
                lemma_encode_utf8_append(self.data@, string@);
            }
            self.data.append(string);
            self.length = self.length + cost;
            Ok(())
        } else {
            match self.length.checked_add(cost) {
                Some(need) => Err(
                    I2pStringError::NotEnoughCapacity(need, I2P_MAX_STRING_LENGTH),
                ),
                None => Err(I2pStringError::NotEnoughCapacity(usize::MAX, I2P_MAX_STRING_LENGTH)),
            }
        }
    }

    /// Empties the string.
    pub fn clear(&mut self)
        ensures
            final(self).wf(),
            final(self)@ == Seq::<char>::empty(),
            final(self).spec_byte_len() == 0,
    {
        self.data = String::new();
        self.length = 0;
    }
}

impl Default for I2pString {
    /// The default bounded string is empty.
    fn default() -> (r: I2pString)
        ensures
            r.wf(),
            r@ == Seq::<char>::empty(),
    {
        I2pString::new()
    }
}

impl Serialize for I2pString {
    open spec fn wf(&self) -> bool {
        I2pString::wf(*self)
    }

    open spec fn wire(&self) -> Seq<u8> {
        seq![self.length as u8] + encode_utf8(self.data@)
    }

    proof fn lemma_wire_len(&self) {
    }

    fn serialize(&self, buf: &mut [u8]) -> (r: Result<usize, Error>) {
        if self.length < buf.len() {
            let text = self.data.as_str().as_bytes();
            buf[0] = self.length as u8;
            let mut i: usize = 0;
            while i < self.length
                invariant
                    i <= self.length,
                    self.wf(),
                    text@ == encode_utf8(self.data@),
                    text@.len() == self.length,
                    self.length < buf@.len(),
                    buf@.len() == old(buf)@.len(),
                    buf@[0] == self.length as u8,
                    forall|j: int| 0 <= j < i ==> buf@[j + 1] == text@[j],
                    forall|j: int| i + 1 <= j < buf@.len() ==> buf@[j] == old(buf)@[j],
                decreases self.length - i,
            {
                buf[i + 1] = text[i];
                i = i + 1;
            }
            proof {
                assert(buf@ =~= Serialize::wire(self) + old(buf)@.skip(
                    Serialize::wire(self).len() as int,
                ));
            }
            Ok(self.length + 1)
        } else {
            Err(Error::buffer_too_small(self.length + 1, buf.len()))
        }
    }
}

impl Deserialize for I2pString {
    type Output = I2pString;

    open spec fn deserialize_post(buf: Seq<u8>, r: Result<I2pString, Error>) -> bool {
        if buf.len() == 0 {
            r == Err::<I2pString, Error>(Error::BufferTooSmall(1, 0))
        } else {
            let n = buf[0] as int;
            if buf.len() < n + 1 {
                r == Err::<I2pString, Error>(
                    Error::BufferTooSmall((n + 1) as usize, buf.len() as usize),
                )
            } else {
                let payload = buf.subrange(1, n + 1);
                if valid_utf8(payload) {
                    match r {
                        Ok(s) => s.wf() && s@ == decode_utf8(payload) && s.spec_byte_len() == n,
                        Err(_) => false,
                    }
                } else {
                    r == Err::<I2pString, Error>(
                        Error::Decoding(Cause::Text(I2pStringError::InvalidUtf8)),
                    )
                }
            }
        }
    }

    fn deserialize(buf: &[u8]) -> (r: Result<I2pString, Error>) {
        if buf.len() == 0 {
            return Err(Error::buffer_too_small(1, 0));
        }
        let nbytes = buf[0] as usize;
        if buf.len() > nbytes {
            let mut data: Vec<u8> = Vec::new();
            let mut i: usize = 0;
            while i < nbytes
                invariant
                    i <= nbytes,
                    nbytes + 1 <= buf@.len(),
                    nbytes == buf@[0],
                    data@ =~= buf@.subrange(1, i + 1),
                decreases nbytes - i,
            {
                let byte = buf[i + 1];
                data.push(byte);
                i = i + 1;
                proof {
                    assert(data@ =~= buf@.subrange(1, i as int + 1));
                }
            }
            match I2pString::from_vec(data) {
                Ok(s) => Ok(s),
                Err(_) => Err(Error::Decoding(Cause::Text(I2pStringError::InvalidUtf8))),
            }
        } else {
            Err(Error::buffer_too_small(nbytes + 1, buf.len()))
        }
    }
}

/// Re-serialization stability: whatever bounded string a buffer decodes to
/// serializes back to exactly the bytes that were consumed.
pub proof fn lemma_i2p_string_reserialize(buf: Seq<u8>, r: Result<I2pString, Error>)
    requires
        buf.len() >= 1,
        buf.len() >= buf[0] + 1,
        valid_utf8(buf.subrange(1, buf[0] + 1)),
        <I2pString as Deserialize>::deserialize_post(buf, r),
    ensures
        match r {
            Ok(w) => w.wf() && Serialize::wire(&w) == buf.take(buf[0] + 1),
            Err(_) => false,
        },
{
    let payload = buf.subrange(1, buf[0] + 1);
    decode_utf8_encode_utf8(payload);
    match r {
        Ok(w) => {
            assert(encode_utf8(w@) == payload);
            assert(Serialize::wire(&w) =~= buf.take(buf[0] + 1));
        },
        Err(_) => {
            assert(false);
        },
    }
}

/// Round trip: decoding the serialized bytes of a well-formed bounded
/// string, whatever bytes follow them, yields a string with the same text;
/// its renewed serialization is therefore byte-identical.
pub proof fn lemma_i2p_string_round_trip(v: I2pString, rest: Seq<u8>, r: Result<I2pString, Error>)
    requires
        v.wf(),
        <I2pString as Deserialize>::deserialize_post(Serialize::wire(&v) + rest, r),
    ensures
        match r {
            Ok(w) => w@ == v@ && w.wf() && Serialize::wire(&w) == Serialize::wire(&v),
            Err(_) => false,
        },
{
    let text = encode_utf8(v.data@);
    let buf = Serialize::wire(&v) + rest;
    assert(buf[0] == v.length as u8);
    assert(buf[0] as int == v.length);
    assert(buf.subrange(1, v.length + 1) =~= text);
    encode_utf8_valid_utf8(v.data@);
    encode_utf8_decode_utf8(v.data@);
    match r {
        Ok(w) => {
            assert(w@ == v@);
            assert(Serialize::wire(&w) =~= Serialize::wire(&v));
        },
        Err(_) => {
            assert(false);
        },
    }
}

} // verus!
