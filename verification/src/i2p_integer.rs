//! Variable-width wire integers.
//!
//! An [`I2pInteger`] holds an unsigned value whose byte width (1 to 8) is
//! fixed at the type level by a marker type implementing [`I2pIntSize`] and
//! [`I2pIntMask`].  Every value is masked to the low `8 * N` bits; arithmetic
//! wraps silently to the width instead of overflowing.  The wire form is
//! exactly `N` bytes in network (big-endian) byte order, padded with leading
//! zeros.

use core::marker::PhantomData;
use vstd::arithmetic::div_mod::{
    lemma_breakdown, lemma_fundamental_div_mod_converse, lemma_mod_mod, lemma_small_mod,
};
use vstd::arithmetic::power2::{lemma_pow2_adds, lemma2_to64};
use vstd::bits::lemma_u64_low_bits_mask_is_mod;
use vstd::prelude::*;

use crate::serialize::{Deserialize, Error, Serialize};

verus! {

/// The number of bytes in the widest wire integer.
pub const I2P_INTEGER_SIZE: usize = 8;

/// 256 raised to `n`: the number of distinct values of an `n`-byte field.
pub open spec fn byte_bound(n: nat) -> nat
    decreases n,
{
    if n == 0 {
        1
    } else {
        256 * byte_bound((n - 1) as nat)
    }
}

/// The big-endian bytes of `v % byte_bound(n)`: exactly `n` bytes, leading
/// zeros kept.
pub open spec fn be_bytes_of(v: nat, n: nat) -> Seq<u8>
    decreases n,
{
    if n == 0 {
        Seq::empty()
    } else {
        be_bytes_of(v / 256, (n - 1) as nat).push((v % 256) as u8)
    }
}

/// The value that a big-endian byte sequence encodes.
pub open spec fn be_value_of(s: Seq<u8>) -> nat
    decreases s.len(),
{
    if s.len() == 0 {
        0
    } else {
        (be_value_of(s.drop_last()) * 256 + s.last()) as nat
    }
}

/// `byte_bound` is positive.
pub proof fn lemma_byte_bound_pos(n: nat)
    ensures
        byte_bound(n) >= 1,
    decreases n,
{
    if n > 0 {
        lemma_byte_bound_pos((n - 1) as nat);
    }
}

/// `byte_bound` grows with the width.
pub proof fn lemma_byte_bound_mono(m: nat, n: nat)
    requires
        m <= n,
    ensures
        byte_bound(m) <= byte_bound(n),
    decreases n,
{
    if m < n {
        lemma_byte_bound_mono(m, (n - 1) as nat);
        lemma_byte_bound_pos((n - 1) as nat);
    }
}

/// The concrete bounds of the eight widths.
pub proof fn lemma_byte_bound_values()
    ensures
        byte_bound(0) == 1,
        byte_bound(1) == 0x100,
        byte_bound(2) == 0x1_0000,
        byte_bound(3) == 0x100_0000,
        byte_bound(4) == 0x1_0000_0000,
        byte_bound(5) == 0x100_0000_0000,
        byte_bound(6) == 0x1_0000_0000_0000,
        byte_bound(7) == 0x100_0000_0000_0000,
        byte_bound(8) == 0x1_0000_0000_0000_0000,
{
    assert(byte_bound(0) == 1);
    assert(byte_bound(1) == 0x100);
    assert(byte_bound(2) == 0x1_0000);
    assert(byte_bound(3) == 0x100_0000);
    assert(byte_bound(4) == 0x1_0000_0000);
    assert(byte_bound(5) == 0x100_0000_0000);
    assert(byte_bound(6) == 0x1_0000_0000_0000);
    assert(byte_bound(7) == 0x100_0000_0000_0000);
    assert(byte_bound(8) == 0x1_0000_0000_0000_0000);
}

/// A field of `m + n` bytes holds `byte_bound(m) * byte_bound(n)` values.
pub proof fn lemma_byte_bound_adds(m: nat, n: nat)
    ensures
        byte_bound(m + n) == byte_bound(m) * byte_bound(n),
    decreases m,
{
    if m == 0 {
        assert(byte_bound(0) == 1);
    } else {
        lemma_byte_bound_adds((m - 1) as nat, n);
        assert(byte_bound(m + n) == 256 * byte_bound((m + n - 1) as nat));
        assert((m + n - 1) as nat == (m - 1) as nat + n);
        assert(byte_bound(m) == 256 * byte_bound((m - 1) as nat));
        assert(256 * ((byte_bound((m - 1) as nat)) * byte_bound(n)) == (256 * byte_bound(
            (m - 1) as nat,
        )) * byte_bound(n)) by (nonlinear_arith);
    }
}

/// `byte_bound(n)` is two to the `8 * n`.
pub proof fn lemma_byte_bound_pow2(n: nat)
    ensures
        byte_bound(n) == vstd::arithmetic::power2::pow2(8 * n),
    decreases n,
{
    lemma2_to64();
    if n > 0 {
        lemma_byte_bound_pow2((n - 1) as nat);
        lemma_pow2_adds(8, 8 * (n - 1) as nat);
        assert(8 * n == 8 + 8 * (n - 1) as nat);
    }
}

/// Masking a value with the all-ones mask of a width is taking it modulo the
/// width's bound.
pub proof fn lemma_mask_is_mod(x: u64, n: nat)
    requires
        1 <= n <= 8,
    ensures
        x & ((byte_bound(n) - 1) as u64) == (x as nat) % byte_bound(n),
{
    lemma_byte_bound_values();
    if n == 8 {
        assert(x & 0xFFFF_FFFF_FFFF_FFFFu64 == x) by (bit_vector);
        lemma_small_mod(x as nat, byte_bound(8));
    } else {
        lemma_byte_bound_pow2(n);
        vstd::arithmetic::power2::lemma_pow2_strictly_increases(8 * n, 64);
        lemma2_to64();
        lemma_u64_low_bits_mask_is_mod(x, 8 * n);
    }
}

/// The encoding of a width-`n` value is `n` bytes long.
pub proof fn lemma_be_bytes_len(v: nat, n: nat)
    ensures
        be_bytes_of(v, n).len() == n,
    decreases n,
{
    if n > 0 {
        lemma_be_bytes_len(v / 256, (n - 1) as nat);
    }
}

/// Decoding an encoding recovers the value modulo the width's bound.
pub proof fn lemma_be_value_of_be_bytes(v: nat, n: nat)
    ensures
        be_value_of(be_bytes_of(v, n)) == v % byte_bound(n),
    decreases n,
{
    if n == 0 {
        assert(v % 1 == 0) by (nonlinear_arith);
    } else {
        let prefix = be_bytes_of(v / 256, (n - 1) as nat);
        let bytes = be_bytes_of(v, n);
        lemma_be_bytes_len(v / 256, (n - 1) as nat);
        assert(bytes.drop_last() =~= prefix);
        lemma_be_value_of_be_bytes(v / 256, (n - 1) as nat);
        let b = byte_bound((n - 1) as nat);
        lemma_byte_bound_pos((n - 1) as nat);
        lemma_breakdown(v as int, 256, b as int);
        assert(byte_bound(n) == 256 * b);
        assert(be_value_of(bytes) == ((v as int / 256) % (b as int)) * 256 + (v as int) % 256);
        assert(256 * ((v as int / 256) % (b as int)) == ((v as int / 256) % (b as int)) * 256)
            by (nonlinear_arith);
    }
}

/// Encoding the value of a byte sequence at its own length gives the sequence
/// back.
pub proof fn lemma_be_bytes_of_be_value(s: Seq<u8>)
    ensures
        be_bytes_of(be_value_of(s), s.len()) == s,
    decreases s.len(),
{
    if s.len() == 0 {
        assert(be_bytes_of(be_value_of(s), s.len()) =~= s);
    } else {
        let a = be_value_of(s.drop_last());
        let b = s.last();
        let v = be_value_of(s);
        lemma_fundamental_div_mod_converse(v as int, 256, a as int, b as int);
        lemma_be_bytes_of_be_value(s.drop_last());
        assert(be_bytes_of(v, s.len()) =~= s);
    }
}

/// The width marker of a wire integer: its byte length.
pub trait I2pIntSize: Clone + Copy + PartialEq + Eq + Sized {
    /// The byte width, as a specification-level constant.
    spec fn spec_len() -> nat;

    /// The byte width is between 1 and 8.
    proof fn lemma_len()
        ensures
            1 <= Self::spec_len() <= 8,
    ;

    /// Returns the byte width.
    fn len() -> (r: usize)
        ensures
            r == Self::spec_len(),
    ;
}

/// The width marker's mask: the all-ones value of the width.
pub trait I2pIntMask: I2pIntSize {
    /// The mask keeping the low `8 * Self::spec_len()` bits.
    spec fn spec_mask() -> u64;

    /// The mask is the largest value of the width.
    proof fn lemma_mask()
        ensures
            Self::spec_mask() == byte_bound(Self::spec_len()) - 1,
    ;

    /// Returns the mask.
    fn mask() -> (r: u64)
        ensures
            r == Self::spec_mask(),
    ;
}

/// The one-byte width marker.
#[derive(Clone, Copy, Debug, PartialEq, Eq, PartialOrd, Ord, Hash)]
pub struct _1;

impl I2pIntSize for _1 {
    open spec fn spec_len() -> nat {
        1
    }

    proof fn lemma_len() {
    }

    fn len() -> (r: usize) {
        1
    }
}

impl I2pIntMask for _1 {
    open spec fn spec_mask() -> u64 {
        0xFF
    }

    proof fn lemma_mask() {
        lemma_byte_bound_values();
    }

    fn mask() -> (r: u64) {
        0xFF
    }
}

/// The two-byte width marker.
#[derive(Clone, Copy, Debug, PartialEq, Eq, PartialOrd, Ord, Hash)]
pub struct _2;

impl I2pIntSize for _2 {
    open spec fn spec_len() -> nat {
        2
    }

    proof fn lemma_len() {
    }

    fn len() -> (r: usize) {
        2
    }
}

impl I2pIntMask for _2 {
    open spec fn spec_mask() -> u64 {
        0xFFFF
    }

    proof fn lemma_mask() {
        lemma_byte_bound_values();
    }

    fn mask() -> (r: u64) {
        0xFFFF
    }
}

/// The three-byte width marker.
#[derive(Clone, Copy, Debug, PartialEq, Eq, PartialOrd, Ord, Hash)]
pub struct _3;

impl I2pIntSize for _3 {
    open spec fn spec_len() -> nat {
        3
    }

    proof fn lemma_len() {
    }

    fn len() -> (r: usize) {
        3
    }
}

impl I2pIntMask for _3 {
    open spec fn spec_mask() -> u64 {
        0xFF_FFFF
    }

    proof fn lemma_mask() {
        lemma_byte_bound_values();
    }

    fn mask() -> (r: u64) {
        0xFF_FFFF
    }
}

/// The four-byte width marker.
#[derive(Clone, Copy, Debug, PartialEq, Eq, PartialOrd, Ord, Hash)]
pub struct _4;

impl I2pIntSize for _4 {
    open spec fn spec_len() -> nat {
        4
    }

    proof fn lemma_len() {
    }

    fn len() -> (r: usize) {
        4
    }
}

impl I2pIntMask for _4 {
    open spec fn spec_mask() -> u64 {
        0xFFFF_FFFF
    }

    proof fn lemma_mask() {
        lemma_byte_bound_values();
    }

    fn mask() -> (r: u64) {
        0xFFFF_FFFF
    }
}

/// The five-byte width marker.
#[derive(Clone, Copy, Debug, PartialEq, Eq, PartialOrd, Ord, Hash)]
pub struct _5;

impl I2pIntSize for _5 {
    open spec fn spec_len() -> nat {
        5
    }

    proof fn lemma_len() {
    }

    fn len() -> (r: usize) {
        5
    }
}

impl I2pIntMask for _5 {
    open spec fn spec_mask() -> u64 {
        0xFF_FFFF_FFFF
    }

    proof fn lemma_mask() {
        lemma_byte_bound_values();
    }

    fn mask() -> (r: u64) {
        0xFF_FFFF_FFFF
    }
}

/// The six-byte width marker.
#[derive(Clone, Copy, Debug, PartialEq, Eq, PartialOrd, Ord, Hash)]
pub struct _6;

impl I2pIntSize for _6 {
    open spec fn spec_len() -> nat {
        6
    }

    proof fn lemma_len() {
    }

    fn len() -> (r: usize) {
        6
    }
}

impl I2pIntMask for _6 {
    open spec fn spec_mask() -> u64 {
        0xFFFF_FFFF_FFFF
    }

    proof fn lemma_mask() {
        lemma_byte_bound_values();
    }

    fn mask() -> (r: u64) {
        0xFFFF_FFFF_FFFF
    }
}

/// The seven-byte width marker.
#[derive(Clone, Copy, Debug, PartialEq, Eq, PartialOrd, Ord, Hash)]
pub struct _7;

impl I2pIntSize for _7 {
    open spec fn spec_len() -> nat {
        7
    }

    proof fn lemma_len() {
    }

    fn len() -> (r: usize) {
        7
    }
}

impl I2pIntMask for _7 {
    open spec fn spec_mask() -> u64 {
        0xFF_FFFF_FFFF_FFFF
    }

    proof fn lemma_mask() {
        lemma_byte_bound_values();
    }

    fn mask() -> (r: u64) {
        0xFF_FFFF_FFFF_FFFF
    }
}

/// The eight-byte width marker.
#[derive(Clone, Copy, Debug, PartialEq, Eq, PartialOrd, Ord, Hash)]
pub struct _8;

impl I2pIntSize for _8 {
    open spec fn spec_len() -> nat {
        8
    }

    proof fn lemma_len() {
    }

    fn len() -> (r: usize) {
        8
    }
}

impl I2pIntMask for _8 {
    open spec fn spec_mask() -> u64 {
        0xFFFF_FFFF_FFFF_FFFF
    }

    proof fn lemma_mask() {
        lemma_byte_bound_values();
    }

    fn mask() -> (r: u64) {
        0xFFFF_FFFF_FFFF_FFFF
    }
}

/// A wire integer of 1 to 8 bytes, in network (big-endian) byte order.
///
/// The fields are exposed so that specifications can speak about them;
/// construct values through [`I2pInteger::new`] and the decoding functions,
/// which establish [`I2pInteger::wf`].
#[derive(Copy, Debug, PartialEq, Eq, PartialOrd, Ord, Hash)]
pub struct I2pInteger<I> {
    /// The stored value, always below the width's bound.
    pub data: u64,
    /// The width marker.
    pub _marker: PhantomData<I>,
}

impl<I: Copy> Clone for I2pInteger<I> {
    /// A wire integer is copied field by field.
    fn clone(&self) -> (r: Self)
        ensures
            r == *self,
    {
        *self
    }
}

impl<I: I2pIntSize + I2pIntMask> I2pInteger<I> {
    /// The numeric value.
    pub open spec fn value(self) -> u64 {
        self.data
    }

    /// The value fits the byte width.
    pub open spec fn wf(self) -> bool {
        (self.data as nat) < byte_bound(I::spec_len())
    }

    /// Builds a wire integer, masking the input to the width: silent
    /// truncation, never an error.
    pub fn new(data: u64) -> (r: Self)
        ensures
            r.value() == data & I::spec_mask(),
            r.value() == (data as nat) % byte_bound(I::spec_len()),
            r.wf(),
    {
        let mask = I::mask();
        proof {
            I::lemma_mask();
            I::lemma_len();
            lemma_mask_is_mod(data, I::spec_len());
            lemma_byte_bound_pos(I::spec_len());
            vstd::arithmetic::div_mod::lemma_mod_bound(
                data as int,
                byte_bound(I::spec_len()) as int,
            );
        }
        I2pInteger { data: data & mask, _marker: PhantomData }
    }

    /// Reads a wire integer from a big-endian byte slice.  An empty slice
    /// decodes to zero; a slice longer than the width is refused.
    pub fn from_bytes_be(bytes: &[u8]) -> (r: Option<Self>)
        ensures
            match r {
                Some(i) => bytes@.len() <= I::spec_len() && i.wf() && i.value() == be_value_of(
                    bytes@,
                ),
                None => bytes@.len() > I::spec_len(),
            },
    {
        proof {
            I::lemma_len();
        }
        if bytes.len() > I::len() {
            return None;
        }
        let mut result: u64 = 0;
        let mut idx: usize = 0;
        while idx < bytes.len()
            invariant
                idx <= bytes@.len(),
                bytes@.len() <= I::spec_len() <= 8,
                result == be_value_of(bytes@.take(idx as int)),
                (result as nat) < byte_bound(idx as nat),
            decreases bytes@.len() - idx,
        {
            proof {
                lemma_byte_bound_values();
                lemma_byte_bound_mono(idx as nat, 7);
                let taken = bytes@.take(idx as int + 1);
                assert(taken.drop_last() =~= bytes@.take(idx as int));
                assert(taken.last() == bytes@[idx as int]);
                assert((result as nat) * 256 + 255 < byte_bound((idx + 1) as nat)) by {
                    let b = byte_bound(idx as nat);
                    let v = result as nat;
                    assert(v * 256 <= (b - 1) * 256) by (nonlinear_arith)
                        requires
                            v <= b - 1,
                    ;
                    assert((b - 1) * 256 + 255 < 256 * b) by (nonlinear_arith);
                }
            }
            result = result * 256 + (bytes[idx] as u64);
            idx = idx + 1;
        }
        proof {
            assert(bytes@.take(idx as int) =~= bytes@);
            lemma_byte_bound_mono(idx as nat, I::spec_len());
        }
        Some(I2pInteger { data: result, _marker: PhantomData })
    }

    /// Writes the value as exactly `N` big-endian bytes, leading zeros kept.
    pub fn to_bytes_be(&self) -> (r: Vec<u8>)
        requires
            self.wf(),
        ensures
            r@ == be_bytes_of(self.value() as nat, I::spec_len()),
            r@.len() == I::spec_len(),
    {
        proof {
            I::lemma_len();
            lemma_be_bytes_len(self.data as nat, I::spec_len());
        }
        be_bytes_rec(self.data, I::len())
    }

    /// The numeric value as a machine word.
    pub fn to_u64(&self) -> (r: u64)
        ensures
            r == self.value(),
    {
        self.data
    }

    /// The byte width of the integer's wire form.
    pub fn len(&self) -> (r: usize)
        ensures
            r == I::spec_len(),
    {
        I::len()
    }
}

/// Builds the big-endian byte vector of `v % byte_bound(n)`.
fn be_bytes_rec(v: u64, n: usize) -> (r: Vec<u8>)
    requires
        n <= 8,
    ensures
        r@ == be_bytes_of(v as nat, n as nat),
    decreases n,
{
    if n == 0 {
        proof {
            assert(be_bytes_of(v as nat, 0) =~= Seq::<u8>::empty());
        }
        Vec::new()
    } else {
        let mut r = be_bytes_rec(v / 256, n - 1);
        r.push((v % 256) as u8);
        r
    }
}

/// An integer reduced to a width's bound, as stored by that width.
pub open spec fn masked_int(v: int, n: nat) -> u64 {
    (v % (byte_bound(n) as int)) as u64
}

impl<I: I2pIntSize + I2pIntMask> I2pInteger<I> {
    /// The wire integer holding `v` reduced to the width's bound.
    pub open spec fn from_int(v: int) -> Self {
        I2pInteger { data: masked_int(v, I::spec_len()), _marker: PhantomData }
    }
}

/// Reducing modulo the full machine-word bound first does not change a
/// reduction to a smaller width's bound.
pub proof fn lemma_wrap_vanishes(x: int, n: nat)
    requires
        1 <= n <= 8,
    ensures
        (x % (byte_bound(8) as int)) % (byte_bound(n) as int) == x % (byte_bound(n) as int),
{
    lemma_byte_bound_adds(n, (8 - n) as nat);
    lemma_byte_bound_pos(n);
    lemma_byte_bound_pos((8 - n) as nat);
    lemma_mod_mod(x, byte_bound(n) as int, byte_bound((8 - n) as nat) as int);
}

/// The wrapping machine-word sum is the exact sum reduced modulo the word
/// bound.
proof fn lemma_wrapping_add_is_mod(a: u64, b: u64)
    ensures
        vstd::wrapping::u64_specs::wrapping_add(a, b) as int == (a + b) % (byte_bound(8) as int),
{
    lemma_byte_bound_values();
    if a + b > u64::MAX {
        lemma_fundamental_div_mod_converse(
            a + b,
            byte_bound(8) as int,
            1,
            a + b - byte_bound(8),
        );
    } else {
        lemma_small_mod((a + b) as nat, byte_bound(8));
    }
}

/// The wrapping machine-word difference is the exact difference reduced
/// modulo the word bound.
proof fn lemma_wrapping_sub_is_mod(a: u64, b: u64)
    ensures
        vstd::wrapping::u64_specs::wrapping_sub(a, b) as int == (a - b) % (byte_bound(8) as int),
{
    lemma_byte_bound_values();
    if a - b < 0 {
        lemma_fundamental_div_mod_converse(
            a - b,
            byte_bound(8) as int,
            -1,
            a - b + byte_bound(8),
        );
    } else {
        lemma_small_mod((a - b) as nat, byte_bound(8));
    }
}

impl<I: I2pIntSize + I2pIntMask> std::ops::Add<I2pInteger<I>> for I2pInteger<I> {
    type Output = I2pInteger<I>;

    /// Wrapping addition: the machine-word sum masked to the width.
    fn add(self, other: I2pInteger<I>) -> (r: I2pInteger<I>) {
        let r = I2pInteger::<I>::new(self.data.wrapping_add(other.data));
        proof {
            I::lemma_len();
            lemma_wrapping_add_is_mod(self.data, other.data);
            lemma_wrap_vanishes(self.data + other.data, I::spec_len());
        }
        r
    }
}

impl<I: I2pIntSize + I2pIntMask> vstd::std_specs::ops::AddSpecImpl<I2pInteger<I>> for I2pInteger<I> {
    open spec fn obeys_add_spec() -> bool {
        true
    }

    open spec fn add_req(self, rhs: I2pInteger<I>) -> bool {
        true
    }

    open spec fn add_spec(self, rhs: I2pInteger<I>) -> I2pInteger<I> {
        Self::from_int(self.data + rhs.data)
    }
}

impl<I: I2pIntSize + I2pIntMask> std::ops::Sub<I2pInteger<I>> for I2pInteger<I> {
    type Output = I2pInteger<I>;

    /// Wrapping subtraction: the machine-word difference masked to the width.
    fn sub(self, other: I2pInteger<I>) -> (r: I2pInteger<I>) {
        let r = I2pInteger::<I>::new(self.data.wrapping_sub(other.data));
        proof {
            I::lemma_len();
            lemma_wrapping_sub_is_mod(self.data, other.data);
            lemma_wrap_vanishes(self.data - other.data, I::spec_len());
        }
        r
    }
}

impl<I: I2pIntSize + I2pIntMask> vstd::std_specs::ops::SubSpecImpl<I2pInteger<I>> for I2pInteger<I> {
    open spec fn obeys_sub_spec() -> bool {
        true
    }

    open spec fn sub_req(self, rhs: I2pInteger<I>) -> bool {
        true
    }

    open spec fn sub_spec(self, rhs: I2pInteger<I>) -> I2pInteger<I> {
        Self::from_int(self.data - rhs.data)
    }
}

impl<I: I2pIntSize + I2pIntMask> std::ops::Mul<I2pInteger<I>> for I2pInteger<I> {
    type Output = I2pInteger<I>;

    /// Wrapping multiplication: the machine-word product masked to the width.
    fn mul(self, other: I2pInteger<I>) -> (r: I2pInteger<I>) {
        let r = I2pInteger::<I>::new(self.data.wrapping_mul(other.data));
        proof {
            I::lemma_len();
            lemma_byte_bound_values();
            lemma_wrap_vanishes(self.data * other.data, I::spec_len());
            vstd::arithmetic::mul::lemma_mul_nonnegative(self.data as int, other.data as int);
        }
        r
    }
}

impl<I: I2pIntSize + I2pIntMask> vstd::std_specs::ops::MulSpecImpl<I2pInteger<I>> for I2pInteger<I> {
    open spec fn obeys_mul_spec() -> bool {
        true
    }

    open spec fn mul_req(self, rhs: I2pInteger<I>) -> bool {
        true
    }

    open spec fn mul_spec(self, rhs: I2pInteger<I>) -> I2pInteger<I> {
        Self::from_int(self.data * rhs.data)
    }
}

impl<I: I2pIntSize + I2pIntMask> std::ops::Div<I2pInteger<I>> for I2pInteger<I> {
    type Output = I2pInteger<I>;

    /// Integer division; the divisor must not be zero.
    fn div(self, other: I2pInteger<I>) -> (r: I2pInteger<I>) {
        let r = I2pInteger::<I>::new(self.data / other.data);
        proof {
            I::lemma_len();
        }
        r
    }
}

impl<I: I2pIntSize + I2pIntMask> vstd::std_specs::ops::DivSpecImpl<I2pInteger<I>> for I2pInteger<I> {
    open spec fn obeys_div_spec() -> bool {
        true
    }

    open spec fn div_req(self, rhs: I2pInteger<I>) -> bool {
        rhs.data != 0
    }

    open spec fn div_spec(self, rhs: I2pInteger<I>) -> I2pInteger<I> {
        Self::from_int(self.data as int / rhs.data as int)
    }
}

impl<I: I2pIntSize + I2pIntMask> std::ops::Rem<I2pInteger<I>> for I2pInteger<I> {
    type Output = I2pInteger<I>;

    /// Integer remainder; the divisor must not be zero.
    fn rem(self, other: I2pInteger<I>) -> (r: I2pInteger<I>) {
        let r = I2pInteger::<I>::new(self.data % other.data);
        proof {
            I::lemma_len();
        }
        r
    }
}

impl<I: I2pIntSize + I2pIntMask> vstd::std_specs::ops::RemSpecImpl<I2pInteger<I>> for I2pInteger<I> {
    open spec fn obeys_rem_spec() -> bool {
        true
    }

    open spec fn rem_req(self, rhs: I2pInteger<I>) -> bool {
        rhs.data != 0
    }

    open spec fn rem_spec(self, rhs: I2pInteger<I>) -> I2pInteger<I> {
        Self::from_int(self.data as int % rhs.data as int)
    }
}

impl<I: I2pIntSize + I2pIntMask> std::ops::Not for I2pInteger<I> {
    type Output = I2pInteger<I>;

    /// Bitwise complement, masked to the width.
    fn not(self) -> (r: I2pInteger<I>) {
        let r = I2pInteger::<I>::new(!self.data);
        proof {
            I::lemma_len();
        }
        r
    }
}

impl<I: I2pIntSize + I2pIntMask> vstd::std_specs::ops::NotSpecImpl for I2pInteger<I> {
    open spec fn obeys_not_spec() -> bool {
        true
    }

    open spec fn not_req(self) -> bool {
        true
    }

    open spec fn not_spec(self) -> I2pInteger<I> {
        Self::from_int((!self.data) as int)
    }
}

impl<I: I2pIntSize + I2pIntMask> std::ops::BitAnd<I2pInteger<I>> for I2pInteger<I> {
    type Output = I2pInteger<I>;

    /// Bitwise and, masked to the width.
    fn bitand(self, other: I2pInteger<I>) -> (r: I2pInteger<I>) {
        let r = I2pInteger::<I>::new(self.data & other.data);
        proof {
            I::lemma_len();
        }
        r
    }
}

impl<I: I2pIntSize + I2pIntMask> vstd::std_specs::ops::BitAndSpecImpl<I2pInteger<I>> for I2pInteger<I> {
    open spec fn obeys_bitand_spec() -> bool {
        true
    }

    open spec fn bitand_req(self, rhs: I2pInteger<I>) -> bool {
        true
    }

    open spec fn bitand_spec(self, rhs: I2pInteger<I>) -> I2pInteger<I> {
        Self::from_int((self.data & rhs.data) as int)
    }
}

impl<I: I2pIntSize + I2pIntMask> std::ops::BitOr<I2pInteger<I>> for I2pInteger<I> {
    type Output = I2pInteger<I>;

    /// Bitwise or, masked to the width.
    fn bitor(self, other: I2pInteger<I>) -> (r: I2pInteger<I>) {
        let r = I2pInteger::<I>::new(self.data | other.data);
        proof {
            I::lemma_len();
        }
        r
    }
}

impl<I: I2pIntSize + I2pIntMask> vstd::std_specs::ops::BitOrSpecImpl<I2pInteger<I>> for I2pInteger<I> {
    open spec fn obeys_bitor_spec() -> bool {
        true
    }

    open spec fn bitor_req(self, rhs: I2pInteger<I>) -> bool {
        true
    }

    open spec fn bitor_spec(self, rhs: I2pInteger<I>) -> I2pInteger<I> {
        Self::from_int((self.data | rhs.data) as int)
    }
}

impl<I: I2pIntSize + I2pIntMask> std::ops::BitXor<I2pInteger<I>> for I2pInteger<I> {
    type Output = I2pInteger<I>;

    /// Bitwise exclusive or, masked to the width.
    fn bitxor(self, other: I2pInteger<I>) -> (r: I2pInteger<I>) {
        let r = I2pInteger::<I>::new(self.data ^ other.data);
        proof {
            I::lemma_len();
        }
        r
    }
}

impl<I: I2pIntSize + I2pIntMask> vstd::std_specs::ops::BitXorSpecImpl<I2pInteger<I>> for I2pInteger<I> {
    open spec fn obeys_bitxor_spec() -> bool {
        true
    }

    open spec fn bitxor_req(self, rhs: I2pInteger<I>) -> bool {
        true
    }

    open spec fn bitxor_spec(self, rhs: I2pInteger<I>) -> I2pInteger<I> {
        Self::from_int((self.data ^ rhs.data) as int)
    }
}

impl<I: I2pIntSize + I2pIntMask> std::ops::Shl<u32> for I2pInteger<I> {
    type Output = I2pInteger<I>;

    /// Left shift by fewer than 64 bits, masked to the width.
    fn shl(self, other: u32) -> (r: I2pInteger<I>) {
        let r = I2pInteger::<I>::new(self.data << other);
        proof {
            I::lemma_len();
        }
        r
    }
}

impl<I: I2pIntSize + I2pIntMask> vstd::std_specs::ops::ShlSpecImpl<u32> for I2pInteger<I> {
    open spec fn obeys_shl_spec() -> bool {
        true
    }

    open spec fn shl_req(self, rhs: u32) -> bool {
        rhs < 64
    }

    open spec fn shl_spec(self, rhs: u32) -> I2pInteger<I> {
        Self::from_int((self.data << rhs) as int)
    }
}

impl<I: I2pIntSize + I2pIntMask> std::ops::Shr<u32> for I2pInteger<I> {
    type Output = I2pInteger<I>;

    /// Right shift by fewer than 64 bits, masked to the width.
    fn shr(self, other: u32) -> (r: I2pInteger<I>) {
        let r = I2pInteger::<I>::new(self.data >> other);
        proof {
            I::lemma_len();
        }
        r
    }
}

impl<I: I2pIntSize + I2pIntMask> vstd::std_specs::ops::ShrSpecImpl<u32> for I2pInteger<I> {
    open spec fn obeys_shr_spec() -> bool {
        true
    }

    open spec fn shr_req(self, rhs: u32) -> bool {
        rhs < 64
    }

    open spec fn shr_spec(self, rhs: u32) -> I2pInteger<I> {
        Self::from_int((self.data >> rhs) as int)
    }
}

impl<I: I2pIntSize + I2pIntMask> std::convert::From<u64> for I2pInteger<I> {
    /// Builds a wire integer from a machine word, masking to the width.
    fn from(val: u64) -> (r: I2pInteger<I>) {
        let r = I2pInteger::<I>::new(val);
        proof {
            I::lemma_len();
        }
        r
    }
}

impl<I: I2pIntSize + I2pIntMask> vstd::std_specs::convert::FromSpecImpl<u64> for I2pInteger<I> {
    open spec fn obeys_from_spec() -> bool {
        true
    }

    open spec fn from_spec(val: u64) -> I2pInteger<I> {
        Self::from_int(val as int)
    }
}

impl<I: I2pIntSize + I2pIntMask> Default for I2pInteger<I> {
    /// The default wire integer is zero.
    fn default() -> (r: I2pInteger<I>)
        ensures
            r.value() == 0,
            r.wf(),
    {
        proof {
            lemma_byte_bound_pos(I::spec_len());
        }
        I2pInteger { data: 0, _marker: PhantomData }
    }
}

// Type synonyms for the eight wire-integer widths.
pub type I2pInt8 = I2pInteger<_1>;

pub type I2pInt16 = I2pInteger<_2>;

pub type I2pInt24 = I2pInteger<_3>;

pub type I2pInt32 = I2pInteger<_4>;

pub type I2pInt40 = I2pInteger<_5>;

pub type I2pInt48 = I2pInteger<_6>;

pub type I2pInt56 = I2pInteger<_7>;

pub type I2pInt64 = I2pInteger<_8>;

impl<I: I2pIntSize + I2pIntMask> Serialize for I2pInteger<I> {
    open spec fn wf(&self) -> bool {
        I2pInteger::<I>::wf(*self)
    }

    open spec fn wire(&self) -> Seq<u8> {
        be_bytes_of(self.data as nat, I::spec_len())
    }

    proof fn lemma_wire_len(&self) {
        I::lemma_len();
        lemma_be_bytes_len(self.data as nat, I::spec_len());
    }

    fn serialize(&self, buf: &mut [u8]) -> (r: Result<usize, Error>) {
        proof {
            I::lemma_len();
            lemma_be_bytes_len(self.data as nat, I::spec_len());
        }
        let n = I::len();
        if n <= buf.len() {
            let bytes = self.to_bytes_be();
            let mut i: usize = 0;
            while i < n
                invariant
                    i <= n,
                    n == I::spec_len(),
                    n <= buf@.len(),
                    buf@.len() == old(buf)@.len(),
                    bytes@ == be_bytes_of(self.data as nat, I::spec_len()),
                    bytes@.len() == n,
                    forall|j: int| 0 <= j < i ==> buf@[j] == bytes@[j],
                    forall|j: int| i <= j < buf@.len() ==> buf@[j] == old(buf)@[j],
                decreases n - i,
            {
                buf[i] = bytes[i];
                i = i + 1;
            }
            proof {
                assert(buf@ =~= Serialize::wire(self) + old(buf)@.skip(n as int));
            }
            Ok(n)
        } else {
            Err(Error::buffer_too_small(n, buf.len()))
        }
    }
}

impl<I: I2pIntSize + I2pIntMask> Deserialize for I2pInteger<I> {
    type Output = I2pInteger<I>;

    open spec fn deserialize_post(buf: Seq<u8>, r: Result<I2pInteger<I>, Error>) -> bool {
        if buf.len() >= I::spec_len() {
            match r {
                Ok(i) => I2pInteger::<I>::wf(i) && i.value() == be_value_of(
                    buf.take(I::spec_len() as int),
                ),
                Err(_) => false,
            }
        } else {
            r == Err::<I2pInteger<I>, Error>(
                Error::BufferTooSmall(I::spec_len() as usize, buf.len() as usize),
            )
        }
    }

    fn deserialize(buf: &[u8]) -> (r: Result<I2pInteger<I>, Error>) {
        proof {
            I::lemma_len();
        }
        let n = I::len();
        if buf.len() >= n {
            let mut result: u64 = 0;
            let mut idx: usize = 0;
            while idx < n
                invariant
                    idx <= n,
                    n == I::spec_len() <= 8,
                    n <= buf@.len(),
                    result == be_value_of(buf@.take(idx as int)),
                    (result as nat) < byte_bound(idx as nat),
                decreases n - idx,
            {
                proof {
                    lemma_byte_bound_values();
                    lemma_byte_bound_mono(idx as nat, 7);
                    let taken = buf@.take(idx as int + 1);
                    assert(taken.drop_last() =~= buf@.take(idx as int));
                    assert(taken.last() == buf@[idx as int]);
                    assert((result as nat) * 256 + 255 < byte_bound((idx + 1) as nat)) by {
                        let b = byte_bound(idx as nat);
                        let v = result as nat;
                        assert(v * 256 <= (b - 1) * 256) by (nonlinear_arith)
                            requires
                                v <= b - 1,
                        ;
                        assert((b - 1) * 256 + 255 < 256 * b) by (nonlinear_arith);
                    }
                }
                result = result * 256 + (buf[idx] as u64);
                idx = idx + 1;
            }
            Ok(I2pInteger { data: result, _marker: PhantomData })
        } else {
            Err(Error::buffer_too_small(n, buf.len()))
        }
    }
}

/// Round trip: decoding the serialized bytes of a well-formed wire integer,
/// whatever bytes follow them, yields exactly the integer back; its renewed
/// serialization is therefore byte-identical.
pub proof fn lemma_i2p_integer_round_trip<I: I2pIntSize + I2pIntMask>(
    v: I2pInteger<I>,
    rest: Seq<u8>,
    r: Result<I2pInteger<I>, Error>,
)
    requires
        v.wf(),
        <I2pInteger<I> as Deserialize>::deserialize_post(Serialize::wire(&v) + rest, r),
    ensures
        r == Ok::<I2pInteger<I>, Error>(v),
        match r {
            Ok(w) => Serialize::wire(&w) == Serialize::wire(&v),
            Err(_) => false,
        },
{
    I::lemma_len();
    let wire = be_bytes_of(v.data as nat, I::spec_len());
    lemma_be_bytes_len(v.data as nat, I::spec_len());
    assert((wire + rest).take(I::spec_len() as int) =~= wire);
    lemma_be_value_of_be_bytes(v.data as nat, I::spec_len());
    lemma_small_mod(v.data as nat, byte_bound(I::spec_len()));
    match r {
        Ok(i) => {
            assert(i.data == v.data);
        },
        Err(_) => {
            assert(false);
        },
    }
}

/// Re-serialization stability: whatever integer a buffer decodes to
/// serializes back to exactly the bytes that were consumed.
pub proof fn lemma_i2p_integer_reserialize<I: I2pIntSize + I2pIntMask>(
    buf: Seq<u8>,
    r: Result<I2pInteger<I>, Error>,
)
    requires
        buf.len() >= I::spec_len(),
        <I2pInteger<I> as Deserialize>::deserialize_post(buf, r),
    ensures
        match r {
            Ok(w) => w.wf() && Serialize::wire(&w) == buf.take(I::spec_len() as int),
            Err(_) => false,
        },
{
    I::lemma_len();
    let s = buf.take(I::spec_len() as int);
    lemma_be_bytes_of_be_value(s);
    match r {
        Ok(w) => {
            assert(w.data == be_value_of(s));
        },
        Err(_) => {
            assert(false);
        },
    }
}

/// Dropping the first `m` bytes of an `(m + n)`-byte encoding leaves the
/// encoding of the value reduced to `n` bytes.
pub proof fn lemma_be_bytes_skip(v: nat, m: nat, n: nat)
    ensures
        be_bytes_of(v, m + n).skip(m as int) == be_bytes_of(v % byte_bound(n), n),
    decreases n,
{
    if n == 0 {
        lemma_be_bytes_len(v, m);
        assert(v % byte_bound(0) == v % 1);
        assert(be_bytes_of(v, m + 0).skip(m as int) =~= be_bytes_of(v % byte_bound(0), 0));
    } else {
        let b = byte_bound((n - 1) as nat);
        lemma_byte_bound_pos((n - 1) as nat);
        lemma_breakdown(v as int, 256, b as int);
        assert(byte_bound(n) == 256 * b);
        lemma_fundamental_div_mod_converse(
            (v % byte_bound(n)) as int,
            256,
            ((v / 256) % b) as int,
            (v % 256) as int,
        );
        lemma_be_bytes_skip(v / 256, m, (n - 1) as nat);
        lemma_be_bytes_len(v / 256, (m + n - 1) as nat);
        lemma_be_bytes_len(v / 256, (m + (n - 1) as nat) as nat);
        assert(be_bytes_of(v, (m + n)) == be_bytes_of(v / 256, (m + n - 1) as nat).push(
            (v % 256) as u8,
        ));
        assert(be_bytes_of(v, (m + n)).skip(m as int) =~= be_bytes_of(
            v / 256,
            (m + (n - 1) as nat) as nat,
        ).skip(m as int).push((v % 256) as u8));
        assert(be_bytes_of(v % byte_bound(n), n) == be_bytes_of((v / 256) % b, (n - 1) as nat).push(
            (v % 256) as u8,
        ));
    }
}

/// Masking law: the wire bytes of a freshly built integer are the low `N`
/// bytes of the input's eight-byte big-endian representation.
pub proof fn lemma_masking_law<I: I2pIntSize + I2pIntMask>(x: u64)
    ensures
        be_bytes_of((x as nat) % byte_bound(I::spec_len()), I::spec_len()) == be_bytes_of(
            x as nat,
            8,
        ).skip(8 - I::spec_len() as int),
{
    I::lemma_len();
    let n = I::spec_len();
    let m = (8 - n) as nat;
    lemma_be_bytes_skip(x as nat, m, n);
    assert(m + n == 8);
}

/// Arithmetic wrapping law: each arithmetic operator agrees with masking the
/// exact result of the operation on the numeric values, the same reduction
/// the constructor applies.
pub proof fn lemma_arithmetic_wraps<I: I2pIntSize + I2pIntMask>(a: I2pInteger<I>, b: I2pInteger<I>)
    ensures
        vstd::std_specs::ops::AddSpec::add_spec(a, b) == I2pInteger::<I>::from_int(
            a.value() + b.value(),
        ),
        vstd::std_specs::ops::SubSpec::sub_spec(a, b) == I2pInteger::<I>::from_int(
            a.value() - b.value(),
        ),
        vstd::std_specs::ops::MulSpec::mul_spec(a, b) == I2pInteger::<I>::from_int(
            a.value() * b.value(),
        ),
        b.value() != 0 ==> vstd::std_specs::ops::DivSpec::div_spec(a, b) == I2pInteger::<
            I,
        >::from_int(a.value() as int / b.value() as int),
        b.value() != 0 ==> vstd::std_specs::ops::RemSpec::rem_spec(a, b) == I2pInteger::<
            I,
        >::from_int(a.value() as int % b.value() as int),
{
}

} // verus!
