//! Fixed-width fields on the wire: big-endian integers, one-byte booleans
//! and counted runs, as specification functions on byte sequences and as
//! the executable readers and writers that meet them.

use crate::primitive::{DiceBool, DiceString};
use vstd::prelude::*;

verus! {

/// Why a read could not produce a value.
#[derive(Clone, Copy, Debug, PartialEq, Eq, Structural)]
pub enum Fault {
    /// The bytes end before the field does.
    Incomplete,
    /// The bytes cannot be a field of this kind, however many follow.
    Malformed,
}

/// Where a decoder stands: before the bytes still unread, or failed.
pub enum Cursor {
    At(Seq<u8>),
    Incomplete,
    Malformed,
}

/// Steps over `n` bytes, or runs out of them.
pub open spec fn advance(c: Cursor, n: nat) -> Cursor {
    match c {
        Cursor::At(s) => if s.len() >= n {
            Cursor::At(s.skip(n as int))
        } else {
            Cursor::Incomplete
        },
        _ => c,
    }
}

/// The byte `i` places ahead of the cursor.
pub open spec fn byte_at(c: Cursor, i: int) -> u8 {
    match c {
        Cursor::At(s) => s[i],
        _ => 0u8,
    }
}

// ---- two's complement ----------------------------------------------------

pub open spec fn spec_i8_of(b: u8) -> i8 {
    if b < 128 { b as i8 } else { (b - 256) as i8 }
}

pub open spec fn spec_u8_of(v: i8) -> u8 {
    if v >= 0 { v as u8 } else { (v + 256) as u8 }
}

pub open spec fn spec_i16_of(b: u16) -> i16 {
    if b < 32768 { b as i16 } else { (b - 65536) as i16 }
}

pub open spec fn spec_u16_of(v: i16) -> u16 {
    if v >= 0 { v as u16 } else { (v + 65536) as u16 }
}

pub open spec fn spec_i32_of(b: u32) -> i32 {
    if b < 2147483648 { b as i32 } else { (b - 4294967296) as i32 }
}

pub open spec fn spec_u32_of(v: i32) -> u32 {
    if v >= 0 { v as u32 } else { (v + 4294967296) as u32 }
}

pub open spec fn spec_i64_of(b: u64) -> i64 {
    if b < 9223372036854775808 { b as i64 } else { (b - 18446744073709551616) as i64 }
}

pub open spec fn spec_u64_of(v: i64) -> u64 {
    if v >= 0 { v as u64 } else { (v + 18446744073709551616) as u64 }
}

#[verifier::when_used_as_spec(spec_i8_of)]
pub fn i8_of(b: u8) -> (r: i8)
    ensures
        r == spec_i8_of(b),
{
    if b < 128 { b as i8 } else { (b as i16 - 256) as i8 }
}

#[verifier::when_used_as_spec(spec_u8_of)]
pub fn u8_of(v: i8) -> (r: u8)
    ensures
        r == spec_u8_of(v),
{
    if v >= 0 { v as u8 } else { (v as i16 + 256) as u8 }
}

#[verifier::when_used_as_spec(spec_i16_of)]
pub fn i16_of(b: u16) -> (r: i16)
    ensures
        r == spec_i16_of(b),
{
    if b < 32768 { b as i16 } else { (b as i32 - 65536) as i16 }
}

#[verifier::when_used_as_spec(spec_u16_of)]
pub fn u16_of(v: i16) -> (r: u16)
    ensures
        r == spec_u16_of(v),
{
    if v >= 0 { v as u16 } else { (v as i32 + 65536) as u16 }
}

#[verifier::when_used_as_spec(spec_i32_of)]
pub fn i32_of(b: u32) -> (r: i32)
    ensures
        r == spec_i32_of(b),
{
    if b < 2147483648 { b as i32 } else { (b as i64 - 4294967296) as i32 }
}

#[verifier::when_used_as_spec(spec_u32_of)]
pub fn u32_of(v: i32) -> (r: u32)
    ensures
        r == spec_u32_of(v),
{
    if v >= 0 { v as u32 } else { (v as i64 + 4294967296) as u32 }
}

#[verifier::when_used_as_spec(spec_i64_of)]
pub fn i64_of(b: u64) -> (r: i64)
    ensures
        r == spec_i64_of(b),
{
    if b < 9223372036854775808 { b as i64 } else { (b as i128 - 18446744073709551616) as i64 }
}

#[verifier::when_used_as_spec(spec_u64_of)]
pub fn u64_of(v: i64) -> (r: u64)
    ensures
        r == spec_u64_of(v),
{
    if v >= 0 { v as u64 } else { (v as i128 + 18446744073709551616) as u64 }
}

// ---- what a field is on the wire -----------------------------------------

pub open spec fn be_u8(v: u8) -> Seq<u8> {
    seq![v]
}

pub open spec fn be_u16(v: u16) -> Seq<u8> {
    seq![(v / 256) as u8, (v % 256) as u8]
}

pub open spec fn be_u32(v: u32) -> Seq<u8> {
    seq![
        (v / 16777216) as u8,
        (v / 65536 % 256) as u8,
        (v / 256 % 256) as u8,
        (v % 256) as u8,
    ]
}

pub open spec fn be_u64(v: u64) -> Seq<u8> {
    be_u32((v / 4294967296) as u32) + be_u32((v % 4294967296) as u32)
}

pub open spec fn be_i8(v: i8) -> Seq<u8> {
    be_u8(u8_of(v))
}

pub open spec fn be_i16(v: i16) -> Seq<u8> {
    be_u16(u16_of(v))
}

pub open spec fn be_i32(v: i32) -> Seq<u8> {
    be_u32(u32_of(v))
}

pub open spec fn be_i64(v: i64) -> Seq<u8> {
    be_u64(u64_of(v))
}

/// A run of 16-bit units, each big-endian, with no count before it.
pub open spec fn be_units(units: Seq<u16>) -> Seq<u8> {
    Seq::new(
        2 * units.len(),
        |j: int| if j % 2 == 0 { (units[j / 2] / 256) as u8 } else { (units[j / 2] % 256) as u8 },
    )
}

/// A run of signed 16-bit values, each big-endian, with no count before it.
pub open spec fn be_shorts(values: Seq<i16>) -> Seq<u8> {
    be_units(Seq::new(values.len(), |i: int| u16_of(values[i])))
}

/// A run of signed byte triples, with no count before it.
pub open spec fn be_triples(triples: Seq<(i8, i8, i8)>) -> Seq<u8> {
    Seq::new(
        3 * triples.len(),
        |j: int| if j % 3 == 0 {
            u8_of(triples[j / 3].0)
        } else if j % 3 == 1 {
            u8_of(triples[j / 3].1)
        } else {
            u8_of(triples[j / 3].2)
        },
    )
}

// ---- what a reader finds at a cursor -------------------------------------

pub open spec fn val_u8(c: Cursor) -> u8 {
    byte_at(c, 0)
}

#[verifier::opaque]
pub open spec fn val_u16(c: Cursor) -> u16 {
    (byte_at(c, 0) * 256 + byte_at(c, 1)) as u16
}

#[verifier::opaque]
pub open spec fn val_u32(c: Cursor) -> u32 {
    (byte_at(c, 0) * 16777216 + byte_at(c, 1) * 65536 + byte_at(c, 2) * 256 + byte_at(c, 3)) as u32
}

#[verifier::opaque]
pub open spec fn val_u64(c: Cursor) -> u64 {
    (val_u32(c) * 4294967296 + val_u32(advance(c, 4))) as u64
}

pub open spec fn val_i8(c: Cursor) -> i8 {
    i8_of(val_u8(c))
}

pub open spec fn val_i16(c: Cursor) -> i16 {
    i16_of(val_u16(c))
}

pub open spec fn val_i32(c: Cursor) -> i32 {
    i32_of(val_u32(c))
}

pub open spec fn val_i64(c: Cursor) -> i64 {
    i64_of(val_u64(c))
}

pub open spec fn val_bytes(c: Cursor, count: int) -> Seq<u8> {
    Seq::new(count as nat, |i: int| byte_at(c, i))
}

pub open spec fn val_units(c: Cursor, count: int) -> Seq<u16> {
    Seq::new(count as nat, |i: int| (byte_at(c, 2 * i) * 256 + byte_at(c, 2 * i + 1)) as u16)
}

pub open spec fn val_shorts(c: Cursor, count: int) -> Seq<i16> {
    Seq::new(count as nat, |i: int| i16_of((byte_at(c, 2 * i) * 256 + byte_at(c, 2 * i + 1)) as u16))
}

pub open spec fn val_triples(c: Cursor, count: int) -> Seq<(i8, i8, i8)> {
    Seq::new(
        count as nat,
        |i: int| (i8_of(byte_at(c, 3 * i)), i8_of(byte_at(c, 3 * i + 1)), i8_of(byte_at(c, 3 * i + 2))),
    )
}

// ---- how far a reader moves ----------------------------------------------

pub open spec fn next_u8(c: Cursor) -> Cursor {
    advance(c, 1)
}

pub open spec fn next_u16(c: Cursor) -> Cursor {
    advance(c, 2)
}

pub open spec fn next_u32(c: Cursor) -> Cursor {
    advance(c, 4)
}

pub open spec fn next_u64(c: Cursor) -> Cursor {
    advance(c, 8)
}

/// A count must not be negative: past one that is, the frame is malformed.
pub open spec fn next_count16(c: Cursor) -> Cursor {
    match next_u16(c) {
        Cursor::At(s) => if val_i16(c) < 0 { Cursor::Malformed } else { Cursor::At(s) },
        failed => failed,
    }
}

pub open spec fn next_count32(c: Cursor) -> Cursor {
    match next_u32(c) {
        Cursor::At(s) => if val_i32(c) < 0 { Cursor::Malformed } else { Cursor::At(s) },
        failed => failed,
    }
}

pub open spec fn next_bytes(c: Cursor, count: int) -> Cursor {
    advance(c, count as nat)
}

pub open spec fn next_units(c: Cursor, count: int) -> Cursor {
    advance(c, (2 * count) as nat)
}

pub open spec fn next_triples(c: Cursor, count: int) -> Cursor {
    advance(c, (3 * count) as nat)
}

// ---- the two primitive codecs --------------------------------------------

pub open spec fn be_bool(v: DiceBool) -> Seq<u8> {
    match v {
        DiceBool::False => seq![0u8],
        DiceBool::True => seq![1u8],
    }
}

pub open spec fn val_bool(c: Cursor) -> DiceBool {
    if byte_at(c, 0) == 1 { DiceBool::True } else { DiceBool::False }
}

/// Only the bytes 0 and 1 are booleans.
pub open spec fn next_bool(c: Cursor) -> Cursor {
    match next_u8(c) {
        Cursor::At(s) => if byte_at(c, 0) > 1 { Cursor::Malformed } else { Cursor::At(s) },
        failed => failed,
    }
}

/// A string is its count of code units as a signed 16-bit integer, then the
/// units.
pub open spec fn be_string(units: Seq<u16>) -> Seq<u8> {
    be_i16(units.len() as i16) + be_units(units)
}

pub open spec fn val_string(c: Cursor) -> Seq<u16> {
    val_units(next_u16(c), val_i16(c) as int)
}

pub open spec fn next_string(c: Cursor) -> Cursor {
    next_units(next_count16(c), val_i16(c) as int)
}

// ---- reading back what was written ---------------------------------------

pub proof fn lemma_skip_skip(s: Seq<u8>, a: int, b: int)
    requires
        0 <= a,
        0 <= b,
        a + b <= s.len(),
    ensures
        s.skip(a).skip(b) == s.skip(a + b),
{
    assert(s.skip(a).skip(b) =~= s.skip(a + b));
}

/// Concatenation may be regrouped to the right.
pub broadcast proof fn lemma_concat_assoc(a: Seq<u8>, b: Seq<u8>, c: Seq<u8>)
    ensures
        #[trigger] ((a + b) + c) == a + (b + c),
{
    assert((a + b) + c =~= a + (b + c));
}

/// A prefix that reaches past the first part keeps that part whole.
pub broadcast proof fn lemma_take_concat(head: Seq<u8>, tail: Seq<u8>, k: int)
    requires
        head.len() <= k <= head.len() + tail.len(),
    ensures
        #[trigger] (head + tail).take(k) == head + tail.take(k - head.len()),
{
    assert((head + tail).take(k) =~= head + tail.take(k - head.len()));
}

/// Stepping over the first part of a concatenation leaves the second.
pub broadcast proof fn lemma_advance_concat(head: Seq<u8>, tail: Seq<u8>, n: nat)
    requires
        n == head.len(),
    ensures
        #[trigger] advance(Cursor::At(head + tail), n) == Cursor::At(tail),
{
    assert((head + tail).skip(head.len() as int) =~= tail);
}

pub broadcast proof fn lemma_back_u8(v: u8, tail: Seq<u8>)
    ensures
        val_u8(Cursor::At(#[trigger] (be_u8(v) + tail))) == v,
        be_u8(v).len() == 1,
{
}

pub broadcast proof fn lemma_back_i8(v: i8, tail: Seq<u8>)
    ensures
        val_i8(Cursor::At(#[trigger] (be_i8(v) + tail))) == v,
        be_i8(v).len() == 1,
{
}

pub broadcast proof fn lemma_back_u16(v: u16, tail: Seq<u8>)
    ensures
        val_u16(Cursor::At(#[trigger] (be_u16(v) + tail))) == v,
        be_u16(v).len() == 2,
{
    reveal(val_u16);
}

pub broadcast proof fn lemma_back_i16(v: i16, tail: Seq<u8>)
    ensures
        val_i16(Cursor::At(#[trigger] (be_i16(v) + tail))) == v,
        be_i16(v).len() == 2,
{
    lemma_back_u16(u16_of(v), tail);
}

pub broadcast proof fn lemma_back_u32(v: u32, tail: Seq<u8>)
    ensures
        val_u32(Cursor::At(#[trigger] (be_u32(v) + tail))) == v,
        be_u32(v).len() == 4,
{
    reveal(val_u32);
}

pub broadcast proof fn lemma_back_i32(v: i32, tail: Seq<u8>)
    ensures
        val_i32(Cursor::At(#[trigger] (be_i32(v) + tail))) == v,
        be_i32(v).len() == 4,
{
    lemma_back_u32(u32_of(v), tail);
}

pub broadcast proof fn lemma_back_u64(v: u64, tail: Seq<u8>)
    ensures
        val_u64(Cursor::At(#[trigger] (be_u64(v) + tail))) == v,
        be_u64(v).len() == 8,
{
    reveal(val_u64);
    let hi = (v / 4294967296) as u32;
    let lo = (v % 4294967296) as u32;
    assert(be_u64(v) + tail =~= be_u32(hi) + (be_u32(lo) + tail));
    lemma_back_u32(hi, be_u32(lo) + tail);
    lemma_back_u32(lo, tail);
    lemma_advance_concat(be_u32(hi), be_u32(lo) + tail, 4);
}

pub broadcast proof fn lemma_back_i64(v: i64, tail: Seq<u8>)
    ensures
        val_i64(Cursor::At(#[trigger] (be_i64(v) + tail))) == v,
        be_i64(v).len() == 8,
{
    lemma_back_u64(u64_of(v), tail);
}

pub broadcast proof fn lemma_back_bool(v: DiceBool, tail: Seq<u8>)
    ensures
        val_bool(Cursor::At(#[trigger] (be_bool(v) + tail))) == v,
        next_bool(Cursor::At(be_bool(v) + tail)) == Cursor::At(tail),
        be_bool(v).len() == 1,
{
    lemma_advance_concat(be_bool(v), tail, 1);
}

pub broadcast proof fn lemma_back_bytes(v: Seq<u8>, tail: Seq<u8>)
    ensures
        val_bytes(Cursor::At(#[trigger] (v + tail)), v.len() as int) == v,
{
    assert(val_bytes(Cursor::At(v + tail), v.len() as int) =~= v);
}

pub broadcast proof fn lemma_back_units(v: Seq<u16>, tail: Seq<u8>)
    ensures
        val_units(Cursor::At(#[trigger] (be_units(v) + tail)), v.len() as int) == v,
        be_units(v).len() == 2 * v.len(),
{
    let c = Cursor::At(be_units(v) + tail);
    assert forall|i: int| 0 <= i < v.len() implies #[trigger] val_units(c, v.len() as int)[i]
        == v[i] by {
        assert(be_units(v)[2 * i] == (v[i] / 256) as u8);
        assert(be_units(v)[2 * i + 1] == (v[i] % 256) as u8);
    }
    assert(val_units(c, v.len() as int) =~= v);
}

pub broadcast proof fn lemma_back_shorts(v: Seq<i16>, tail: Seq<u8>)
    ensures
        val_shorts(Cursor::At(#[trigger] (be_shorts(v) + tail)), v.len() as int) == v,
        be_shorts(v).len() == 2 * v.len(),
{
    let u = Seq::new(v.len(), |i: int| u16_of(v[i]));
    let c = Cursor::At(be_shorts(v) + tail);
    lemma_back_units(u, tail);
    assert forall|i: int| 0 <= i < v.len() implies #[trigger] val_shorts(c, v.len() as int)[i]
        == v[i] by {
        assert(val_units(c, v.len() as int)[i] == u[i]);
    }
    assert(val_shorts(c, v.len() as int) =~= v);
}

pub broadcast proof fn lemma_back_triples(v: Seq<(i8, i8, i8)>, tail: Seq<u8>)
    ensures
        val_triples(Cursor::At(#[trigger] (be_triples(v) + tail)), v.len() as int) == v,
        be_triples(v).len() == 3 * v.len(),
{
    let c = Cursor::At(be_triples(v) + tail);
    assert forall|i: int| 0 <= i < v.len() implies #[trigger] val_triples(c, v.len() as int)[i]
        == v[i] by {
        assert(be_triples(v)[3 * i] == u8_of(v[i].0));
        assert(be_triples(v)[3 * i + 1] == u8_of(v[i].1));
        assert(be_triples(v)[3 * i + 2] == u8_of(v[i].2));
    }
    assert(val_triples(c, v.len() as int) =~= v);
}

pub broadcast proof fn lemma_back_string(v: Seq<u16>, tail: Seq<u8>)
    requires
        v.len() <= 32767,
    ensures
        val_string(Cursor::At(#[trigger] (be_string(v) + tail))) == v,
        next_string(Cursor::At(be_string(v) + tail)) == Cursor::At(tail),
        be_string(v).len() == 2 + 2 * v.len(),
{
    let n = v.len() as i16;
    assert(be_string(v) + tail =~= be_i16(n) + (be_units(v) + tail));
    lemma_back_i16(n, be_units(v) + tail);
    lemma_advance_concat(be_i16(n), be_units(v) + tail, 2);
    lemma_back_units(v, tail);
    lemma_advance_concat(be_units(v), tail, (2 * v.len()) as nat);
}

/// A prefix that ends inside a string, or covers it whole.
pub broadcast proof fn lemma_take_string(v: Seq<u16>, tail: Seq<u8>, k: int)
    requires
        v.len() <= 32767,
        0 <= k < be_string(v).len(),
    ensures
        next_string(Cursor::At(#[trigger] (be_string(v) + tail).take(k))) == Cursor::Incomplete,
{
    let n = v.len() as i16;
    let s = (be_string(v) + tail).take(k);
    lemma_back_units(v, tail);
    assert(be_string(v) + tail =~= be_i16(n) + (be_units(v) + tail));
    if k >= 2 {
        lemma_take_concat(be_i16(n), be_units(v) + tail, k);
        lemma_back_i16(n, (be_units(v) + tail).take(k - 2));
        lemma_advance_concat(be_i16(n), (be_units(v) + tail).take(k - 2), 2);
    }
}

// ---- writing back what was read ------------------------------------------

/// Four digits to the base 256 are found again in the number they make.
proof fn lemma_digits(a: int, b: int, c: int, d: int)
    requires
        0 <= a < 256,
        0 <= b < 256,
        0 <= c < 256,
        0 <= d < 256,
    ensures
        ({
            let v = a * 16777216 + b * 65536 + c * 256 + d;
            &&& 0 <= v < 4294967296
            &&& v / 16777216 == a
            &&& v / 65536 % 256 == b
            &&& v / 256 % 256 == c
            &&& v % 256 == d
        }),
{
    let v = a * 16777216 + b * 65536 + c * 256 + d;
    assert(v / 256 == a * 65536 + b * 256 + c);
    assert(v / 65536 == a * 256 + b);
}

pub broadcast proof fn lemma_forth_u8(c: Cursor)
    requires
        next_u8(c) is At,
    ensures
        c is At,
        c->At_0 == be_u8(#[trigger] val_u8(c)) + next_u8(c)->At_0,
{
    assert(c->At_0 =~= be_u8(val_u8(c)) + next_u8(c)->At_0);
}

pub broadcast proof fn lemma_forth_u16(c: Cursor)
    requires
        next_u16(c) is At,
    ensures
        c is At,
        c->At_0 == be_u16(#[trigger] val_u16(c)) + next_u16(c)->At_0,
{
    reveal(val_u16);
    assert(c->At_0 =~= be_u16(val_u16(c)) + next_u16(c)->At_0);
}

pub broadcast proof fn lemma_forth_u32(c: Cursor)
    requires
        next_u32(c) is At,
    ensures
        c is At,
        c->At_0 == be_u32(#[trigger] val_u32(c)) + next_u32(c)->At_0,
{
    reveal(val_u32);
    let s = c->At_0;
    lemma_digits(s[0] as int, s[1] as int, s[2] as int, s[3] as int);
    assert(s =~= be_u32(val_u32(c)) + next_u32(c)->At_0);
}

pub broadcast proof fn lemma_forth_u64(c: Cursor)
    requires
        next_u64(c) is At,
    ensures
        c is At,
        c->At_0 == be_u64(#[trigger] val_u64(c)) + next_u64(c)->At_0,
{
    reveal(val_u64);
    let s = c->At_0;
    let mid = advance(c, 4);
    lemma_forth_u32(c);
    lemma_forth_u32(mid);
    lemma_skip_skip(s, 4, 4);
    let hi = val_u32(c);
    let lo = val_u32(mid);
    assert((val_u64(c) / 4294967296) as u32 == hi);
    assert((val_u64(c) % 4294967296) as u32 == lo);
    assert(s =~= (be_u32(hi) + be_u32(lo)) + s.skip(8));
}

pub broadcast proof fn lemma_forth_bool(c: Cursor)
    requires
        next_bool(c) is At,
    ensures
        c is At,
        c->At_0 == be_bool(#[trigger] val_bool(c)) + next_bool(c)->At_0,
{
    assert(c->At_0 =~= be_bool(val_bool(c)) + next_bool(c)->At_0);
}

pub broadcast proof fn lemma_forth_bytes(c: Cursor, count: int)
    requires
        count >= 0,
        next_bytes(c, count) is At,
    ensures
        c is At,
        c->At_0 == #[trigger] val_bytes(c, count) + next_bytes(c, count)->At_0,
{
    assert(c->At_0 =~= val_bytes(c, count) + next_bytes(c, count)->At_0);
}

pub broadcast proof fn lemma_forth_units(c: Cursor, count: int)
    requires
        count >= 0,
        next_units(c, count) is At,
    ensures
        c is At,
        c->At_0 == be_units(#[trigger] val_units(c, count)) + next_units(c, count)->At_0,
{
    let s = c->At_0;
    let units = val_units(c, count);
    assert forall|j: int| 0 <= j < 2 * count implies be_units(units)[j] == s[j] by {
        let i = j / 2;
        assert(units[i] == (s[2 * i] * 256 + s[2 * i + 1]) as u16);
    }
    assert(s =~= be_units(units) + s.skip(2 * count));
}

pub broadcast proof fn lemma_forth_shorts(c: Cursor, count: int)
    requires
        count >= 0,
        next_units(c, count) is At,
    ensures
        c is At,
        c->At_0 == be_shorts(#[trigger] val_shorts(c, count)) + next_units(c, count)->At_0,
{
    let shorts = val_shorts(c, count);
    lemma_forth_units(c, count);
    assert(Seq::new(shorts.len(), |i: int| u16_of(shorts[i])) =~= val_units(c, count));
}

pub broadcast proof fn lemma_forth_triples(c: Cursor, count: int)
    requires
        count >= 0,
        next_triples(c, count) is At,
    ensures
        c is At,
        c->At_0 == be_triples(#[trigger] val_triples(c, count)) + next_triples(c, count)->At_0,
{
    let s = c->At_0;
    let triples = val_triples(c, count);
    assert forall|j: int| 0 <= j < 3 * count implies be_triples(triples)[j] == s[j] by {
        let i = j / 3;
        assert(triples[i] == (i8_of(s[3 * i]), i8_of(s[3 * i + 1]), i8_of(s[3 * i + 2])));
    }
    assert(s =~= be_triples(triples) + s.skip(3 * count));
}

pub broadcast proof fn lemma_forth_string(c: Cursor)
    requires
        next_string(c) is At,
    ensures
        c is At,
        c->At_0 == be_string(#[trigger] val_string(c)) + next_string(c)->At_0,
{
    let count = val_i16(c) as int;
    let mid = next_u16(c);
    lemma_forth_u16(c);
    lemma_forth_units(mid, count);
    lemma_skip_skip(c->At_0, 2, 2 * count);
    assert(val_string(c).len() as i16 == val_i16(c));
    assert(c->At_0 =~= (be_i16(val_i16(c)) + be_units(val_string(c))) + next_string(c)->At_0);
}

pub broadcast group group_forth {
    lemma_forth_u8,
    lemma_forth_u16,
    lemma_forth_u32,
    lemma_forth_u64,
    lemma_forth_bool,
    lemma_forth_bytes,
    lemma_forth_units,
    lemma_forth_shorts,
    lemma_forth_triples,
    lemma_forth_string,
}

pub broadcast group group_wire {
    lemma_take_concat,
    lemma_advance_concat,
    lemma_back_u8,
    lemma_back_i8,
    lemma_back_u16,
    lemma_back_i16,
    lemma_back_u32,
    lemma_back_i32,
    lemma_back_u64,
    lemma_back_i64,
    lemma_back_bool,
    lemma_back_bytes,
    lemma_back_units,
    lemma_back_shorts,
    lemma_back_triples,
    lemma_back_string,
    lemma_take_string,
}

// ---- executable readers ---------------------------------------------------

/// A position in a borrowed run of bytes. Reading moves it forward; a read
/// that fails says why and is not to be followed by another.
pub struct Reader<'a> {
    data: &'a [u8],
    pos: usize,
}

impl<'a> Reader<'a> {
    /// All the bytes, read or not.
    pub closed spec fn bytes(&self) -> Seq<u8> {
        self.data@
    }

    /// How many bytes have been read.
    pub closed spec fn offset(&self) -> int {
        self.pos as int
    }

    pub open spec fn wf(&self) -> bool {
        0 <= self.offset() <= self.bytes().len()
    }

    /// The bytes not yet read.
    pub open spec fn cursor(&self) -> Cursor {
        Cursor::At(self.bytes().skip(self.offset()))
    }

    /// What a read reports, held against what the wire says.
    pub open spec fn agrees<T>(&self, r: Result<T, Fault>, value: T, next: Cursor) -> bool {
        match r {
            Ok(v) => v == value && next == self.cursor(),
            Err(Fault::Incomplete) => next == Cursor::Incomplete,
            Err(Fault::Malformed) => next == Cursor::Malformed,
        }
    }

    /// As `agrees`, for a read that tells only how far it moved.
    pub open spec fn moved(&self, r: Result<(), Fault>, next: Cursor) -> bool {
        self.agrees(r, (), next)
    }

    pub fn new(data: &'a [u8]) -> (r: Self)
        ensures
            r.wf(),
            r.bytes() == data@,
            r.offset() == 0,
            r.cursor() == Cursor::At(data@),
    {
        assert(data@.skip(0) =~= data@);
        Reader { data, pos: 0 }
    }

    /// How many bytes have been read.
    pub fn position(&self) -> (r: usize)
        ensures
            r == self.offset(),
    {
        self.pos
    }

    /// Steps over `n` bytes and tells where they start.
    fn claim(&mut self, n: u64) -> (r: Result<usize, Fault>)
        requires
            old(self).wf(),
        ensures
            final(self).wf(),
            final(self).bytes() == old(self).bytes(),
            old(self).offset() <= final(self).offset(),
            match r {
                Ok(start) => {
                    &&& start == old(self).offset()
                    &&& final(self).offset() == start + n
                    &&& advance(old(self).cursor(), n as nat) == final(self).cursor()
                    &&& forall|i: int|
                        0 <= i < n ==> #[trigger] byte_at(old(self).cursor(), i) == old(
                            self,
                        ).bytes().index(start + i)
                },
                Err(e) => {
                    &&& e == Fault::Incomplete
                    &&& advance(old(self).cursor(), n as nat) == Cursor::Incomplete
                },
            },
    {
        let left: usize = self.data.len() - self.pos;
        if (left as u64) < n {
            return Err(Fault::Incomplete);
        }
        let start: usize = self.pos;
        proof {
            lemma_skip_skip(self.data@, start as int, n as int);
        }
        self.pos = start + n as usize;
        Ok(start)
    }

    pub fn read_u8(&mut self) -> (r: Result<u8, Fault>)
        requires
            old(self).wf(),
        ensures
            final(self).wf(),
            final(self).bytes() == old(self).bytes(),
            old(self).offset() <= final(self).offset(),
            final(self).agrees(r, val_u8(old(self).cursor()), next_u8(old(self).cursor())),
    {
        let i: usize = self.claim(1)?;
        Ok(self.data[i])
    }

    pub fn read_i8(&mut self) -> (r: Result<i8, Fault>)
        requires
            old(self).wf(),
        ensures
            final(self).wf(),
            final(self).bytes() == old(self).bytes(),
            old(self).offset() <= final(self).offset(),
            final(self).agrees(r, val_i8(old(self).cursor()), next_u8(old(self).cursor())),
    {
        let i: usize = self.claim(1)?;
        Ok(i8_of(self.data[i]))
    }

    pub fn read_u16(&mut self) -> (r: Result<u16, Fault>)
        requires
            old(self).wf(),
        ensures
            final(self).wf(),
            final(self).bytes() == old(self).bytes(),
            old(self).offset() <= final(self).offset(),
            final(self).agrees(r, val_u16(old(self).cursor()), next_u16(old(self).cursor())),
    {
        reveal(val_u16);
        let i: usize = self.claim(2)?;
        proof {
            let c = old(self).cursor();
            assert(byte_at(c, 0) == self.data@[i + 0]);
            assert(byte_at(c, 1) == self.data@[i + 1]);
        }
        Ok(self.data[i] as u16 * 256 + self.data[i + 1] as u16)
    }

    pub fn read_i16(&mut self) -> (r: Result<i16, Fault>)
        requires
            old(self).wf(),
        ensures
            final(self).wf(),
            final(self).bytes() == old(self).bytes(),
            old(self).offset() <= final(self).offset(),
            final(self).agrees(r, val_i16(old(self).cursor()), next_u16(old(self).cursor())),
    {
        let v: u16 = self.read_u16()?;
        Ok(i16_of(v))
    }

    pub fn read_u32(&mut self) -> (r: Result<u32, Fault>)
        requires
            old(self).wf(),
        ensures
            final(self).wf(),
            final(self).bytes() == old(self).bytes(),
            old(self).offset() <= final(self).offset(),
            final(self).agrees(r, val_u32(old(self).cursor()), next_u32(old(self).cursor())),
    {
        reveal(val_u32);
        let i: usize = self.claim(4)?;
        proof {
            let c = old(self).cursor();
            assert(byte_at(c, 0) == self.data@[i + 0]);
            assert(byte_at(c, 1) == self.data@[i + 1]);
            assert(byte_at(c, 2) == self.data@[i + 2]);
            assert(byte_at(c, 3) == self.data@[i + 3]);
        }
        Ok(
            self.data[i] as u32 * 16777216 + self.data[i + 1] as u32 * 65536 + self.data[i
                + 2] as u32 * 256 + self.data[i + 3] as u32,
        )
    }

    pub fn read_i32(&mut self) -> (r: Result<i32, Fault>)
        requires
            old(self).wf(),
        ensures
            final(self).wf(),
            final(self).bytes() == old(self).bytes(),
            old(self).offset() <= final(self).offset(),
            final(self).agrees(r, val_i32(old(self).cursor()), next_u32(old(self).cursor())),
    {
        let v: u32 = self.read_u32()?;
        Ok(i32_of(v))
    }

    pub fn read_u64(&mut self) -> (r: Result<u64, Fault>)
        requires
            old(self).wf(),
        ensures
            final(self).wf(),
            final(self).bytes() == old(self).bytes(),
            old(self).offset() <= final(self).offset(),
            final(self).agrees(r, val_u64(old(self).cursor()), next_u64(old(self).cursor())),
    {
        reveal(val_u32);
        reveal(val_u64);
        let i: usize = self.claim(8)?;
        proof {
            let c = old(self).cursor();
            assert(byte_at(c, 0) == self.data@[i + 0]);
            assert(byte_at(c, 1) == self.data@[i + 1]);
            assert(byte_at(c, 2) == self.data@[i + 2]);
            assert(byte_at(c, 3) == self.data@[i + 3]);
            assert(byte_at(advance(c, 4), 0) == self.data@[i + 4]);
            assert(byte_at(advance(c, 4), 1) == self.data@[i + 5]);
            assert(byte_at(advance(c, 4), 2) == self.data@[i + 6]);
            assert(byte_at(advance(c, 4), 3) == self.data@[i + 7]);
        }
        let hi: u64 = self.data[i] as u64 * 16777216 + self.data[i + 1] as u64 * 65536
            + self.data[i + 2] as u64 * 256 + self.data[i + 3] as u64;
        let lo: u64 = self.data[i + 4] as u64 * 16777216 + self.data[i + 5] as u64 * 65536
            + self.data[i + 6] as u64 * 256 + self.data[i + 7] as u64;
        Ok(hi * 4294967296 + lo)
    }

    pub fn read_i64(&mut self) -> (r: Result<i64, Fault>)
        requires
            old(self).wf(),
        ensures
            final(self).wf(),
            final(self).bytes() == old(self).bytes(),
            old(self).offset() <= final(self).offset(),
            final(self).agrees(r, val_i64(old(self).cursor()), next_u64(old(self).cursor())),
    {
        let v: u64 = self.read_u64()?;
        Ok(i64_of(v))
    }

    pub fn read_bool(&mut self) -> (r: Result<DiceBool, Fault>)
        requires
            old(self).wf(),
        ensures
            final(self).wf(),
            final(self).bytes() == old(self).bytes(),
            old(self).offset() <= final(self).offset(),
            final(self).agrees(r, val_bool(old(self).cursor()), next_bool(old(self).cursor())),
    {
        let b: u8 = self.read_u8()?;
        if b == 0 {
            Ok(DiceBool::False)
        } else if b == 1 {
            Ok(DiceBool::True)
        } else {
            Err(Fault::Malformed)
        }
    }

    /// Reads a 16-bit count, which must not be negative.
    pub fn read_count16(&mut self) -> (r: Result<i16, Fault>)
        requires
            old(self).wf(),
        ensures
            final(self).wf(),
            final(self).bytes() == old(self).bytes(),
            old(self).offset() <= final(self).offset(),
            final(self).agrees(r, val_i16(old(self).cursor()), next_count16(old(self).cursor())),
            r is Ok ==> r->Ok_0 >= 0,
    {
        let n: i16 = self.read_i16()?;
        if n < 0 {
            return Err(Fault::Malformed);
        }
        Ok(n)
    }

    /// Reads a 32-bit count, which must not be negative.
    pub fn read_count32(&mut self) -> (r: Result<i32, Fault>)
        requires
            old(self).wf(),
        ensures
            final(self).wf(),
            final(self).bytes() == old(self).bytes(),
            old(self).offset() <= final(self).offset(),
            final(self).agrees(r, val_i32(old(self).cursor()), next_count32(old(self).cursor())),
            r is Ok ==> r->Ok_0 >= 0,
    {
        let n: i32 = self.read_i32()?;
        if n < 0 {
            return Err(Fault::Malformed);
        }
        Ok(n)
    }

    /// Reads `count` bytes.
    pub fn read_bytes(&mut self, count: u32) -> (r: Result<Vec<u8>, Fault>)
        requires
            old(self).wf(),
        ensures
            final(self).wf(),
            final(self).bytes() == old(self).bytes(),
            old(self).offset() <= final(self).offset(),
            final(self).moved(
                if r is Ok { Ok(()) } else { Err(r->Err_0) },
                next_bytes(old(self).cursor(), count as int),
            ),
            r is Ok ==> r->Ok_0@ == val_bytes(old(self).cursor(), count as int),
    {
        let start: usize = self.claim(count as u64)?;
        let n: usize = count as usize;
        let total: usize = self.data.len();
        let mut out: Vec<u8> = Vec::new();
        let mut i: usize = 0;
        while i < n
            invariant
                i <= n,
                start + n <= self.data@.len(),
                total == self.data@.len(),
                out@.len() == i,
                forall|j: int| 0 <= j < i ==> out@[j] == self.data@[start + j],
            decreases n - i,
        {
            out.push(self.data[start + i]);
            i = i + 1;
        }
        assert(out@ =~= val_bytes(old(self).cursor(), count as int));
        Ok(out)
    }

    /// Reads `count` big-endian 16-bit units.
    pub fn read_units(&mut self, count: u16) -> (r: Result<Vec<u16>, Fault>)
        requires
            old(self).wf(),
        ensures
            final(self).wf(),
            final(self).bytes() == old(self).bytes(),
            old(self).offset() <= final(self).offset(),
            final(self).moved(
                if r is Ok { Ok(()) } else { Err(r->Err_0) },
                next_units(old(self).cursor(), count as int),
            ),
            r is Ok ==> r->Ok_0@ == val_units(old(self).cursor(), count as int),
    {
        let start: usize = self.claim(2 * (count as u64))?;
        let n: usize = count as usize;
        let total: usize = self.data.len();
        let mut out: Vec<u16> = Vec::new();
        let mut i: usize = 0;
        while i < n
            invariant
                i <= n,
                start + 2 * n <= self.data@.len(),
                total == self.data@.len(),
                out@.len() == i,
                forall|j: int|
                    0 <= j < i ==> out@[j] == (self.data@[start + 2 * j] * 256 + self.data@[start
                        + 2 * j + 1]) as u16,
            decreases n - i,
        {
            let hi: u16 = self.data[start + 2 * i] as u16;
            let lo: u16 = self.data[start + 2 * i + 1] as u16;
            out.push(hi * 256 + lo);
            i = i + 1;
        }
        proof {
            let c = old(self).cursor();
            assert forall|j: int| 0 <= j < n implies out@[j] == #[trigger] val_units(
                c,
                count as int,
            )[j] by {
                assert(byte_at(c, 2 * j) == self.data@[start + 2 * j]);
                assert(byte_at(c, 2 * j + 1) == self.data@[start + (2 * j + 1)]);
            }
            assert(out@ =~= val_units(c, count as int));
        }
        Ok(out)
    }

    /// Reads `count` big-endian signed 16-bit values.
    pub fn read_shorts(&mut self, count: u16) -> (r: Result<Vec<i16>, Fault>)
        requires
            old(self).wf(),
        ensures
            final(self).wf(),
            final(self).bytes() == old(self).bytes(),
            old(self).offset() <= final(self).offset(),
            final(self).moved(
                if r is Ok { Ok(()) } else { Err(r->Err_0) },
                next_units(old(self).cursor(), count as int),
            ),
            r is Ok ==> r->Ok_0@ == val_shorts(old(self).cursor(), count as int),
    {
        let units: Vec<u16> = self.read_units(count)?;
        let n: usize = units.len();
        let mut out: Vec<i16> = Vec::new();
        let mut i: usize = 0;
        while i < n
            invariant
                i <= n,
                n == units@.len(),
                out@.len() == i,
                forall|j: int| 0 <= j < i ==> out@[j] == i16_of(units@[j]),
            decreases n - i,
        {
            out.push(i16_of(units[i]));
            i = i + 1;
        }
        assert(out@ =~= val_shorts(old(self).cursor(), count as int));
        Ok(out)
    }

    /// Reads `count` triples of signed bytes.
    pub fn read_triples(&mut self, count: u32) -> (r: Result<Vec<[i8; 3]>, Fault>)
        requires
            old(self).wf(),
        ensures
            final(self).wf(),
            final(self).bytes() == old(self).bytes(),
            old(self).offset() <= final(self).offset(),
            final(self).moved(
                if r is Ok { Ok(()) } else { Err(r->Err_0) },
                next_triples(old(self).cursor(), count as int),
            ),
            r is Ok ==> triples_of(r->Ok_0@) == val_triples(old(self).cursor(), count as int),
    {
        let start: usize = self.claim(3 * (count as u64))?;
        let n: usize = count as usize;
        let total: usize = self.data.len();
        let mut out: Vec<[i8; 3]> = Vec::new();
        let mut i: usize = 0;
        while i < n
            invariant
                i <= n,
                start + 3 * n <= self.data@.len(),
                total == self.data@.len(),
                out@.len() == i,
                forall|j: int|
                    0 <= j < i ==> {
                        &&& (#[trigger] out@[j])[0] == i8_of(self.data@[start + 3 * j])
                        &&& out@[j][1] == i8_of(self.data@[start + 3 * j + 1])
                        &&& out@[j][2] == i8_of(self.data@[start + 3 * j + 2])
                    },
            decreases n - i,
        {
            let x: i8 = i8_of(self.data[start + 3 * i]);
            let y: i8 = i8_of(self.data[start + 3 * i + 1]);
            let z: i8 = i8_of(self.data[start + 3 * i + 2]);
            out.push([x, y, z]);
            i = i + 1;
        }
        proof {
            let c = old(self).cursor();
            assert forall|j: int| 0 <= j < n implies triples_of(out@)[j] == #[trigger] val_triples(
                c,
                count as int,
            )[j] by {
                assert(byte_at(c, 3 * j) == self.data@[start + 3 * j]);
                assert(byte_at(c, 3 * j + 1) == self.data@[start + (3 * j + 1)]);
                assert(byte_at(c, 3 * j + 2) == self.data@[start + (3 * j + 2)]);
            }
            assert(triples_of(out@) =~= val_triples(c, count as int));
        }
        Ok(out)
    }

    /// Reads a string: its count, then that many units.
    pub fn read_string(&mut self) -> (r: Result<DiceString, Fault>)
        requires
            old(self).wf(),
        ensures
            final(self).wf(),
            final(self).bytes() == old(self).bytes(),
            old(self).offset() <= final(self).offset(),
            final(self).moved(
                if r is Ok { Ok(()) } else { Err(r->Err_0) },
                next_string(old(self).cursor()),
            ),
            r is Ok ==> r->Ok_0.wf() && r->Ok_0@ == val_string(old(self).cursor()),
    {
        let n: i16 = self.read_count16()?;
        let units: Vec<u16> = self.read_units(n as u16)?;
        Ok(DiceString::from_units(units))
    }
}

/// A run of three-element arrays as a sequence of triples.
pub open spec fn triples_of(blocks: Seq<[i8; 3]>) -> Seq<(i8, i8, i8)> {
    Seq::new(blocks.len(), |i: int| (blocks[i][0], blocks[i][1], blocks[i][2]))
}

// ---- executable writers ---------------------------------------------------

pub fn write_u8(out: &mut Vec<u8>, v: u8)
    ensures
        final(out)@ == old(out)@ + be_u8(v),
        forall|tail: Seq<u8>| #[trigger] (final(out)@ + tail) == old(out)@ + (be_u8(v) + tail),
{
    out.push(v);
    assert(out@ =~= old(out)@ + be_u8(v));    assert forall|tail: Seq<u8>| #[trigger] (out@ + tail) == old(out)@ + (be_u8(v) + tail) by {
        lemma_concat_assoc(old(out)@, be_u8(v), tail);
    }
}

pub fn write_i8(out: &mut Vec<u8>, v: i8)
    ensures
        final(out)@ == old(out)@ + be_i8(v),
        forall|tail: Seq<u8>| #[trigger] (final(out)@ + tail) == old(out)@ + (be_i8(v) + tail),
{
    write_u8(out, u8_of(v));    assert forall|tail: Seq<u8>| #[trigger] (out@ + tail) == old(out)@ + (be_i8(v) + tail) by {
        lemma_concat_assoc(old(out)@, be_i8(v), tail);
    }
}

pub fn write_u16(out: &mut Vec<u8>, v: u16)
    ensures
        final(out)@ == old(out)@ + be_u16(v),
        forall|tail: Seq<u8>| #[trigger] (final(out)@ + tail) == old(out)@ + (be_u16(v) + tail),
{
    out.push((v / 256) as u8);
    out.push((v % 256) as u8);
    assert(out@ =~= old(out)@ + be_u16(v));    assert forall|tail: Seq<u8>| #[trigger] (out@ + tail) == old(out)@ + (be_u16(v) + tail) by {
        lemma_concat_assoc(old(out)@, be_u16(v), tail);
    }
}

pub fn write_i16(out: &mut Vec<u8>, v: i16)
    ensures
        final(out)@ == old(out)@ + be_i16(v),
        forall|tail: Seq<u8>| #[trigger] (final(out)@ + tail) == old(out)@ + (be_i16(v) + tail),
{
    write_u16(out, u16_of(v));    assert forall|tail: Seq<u8>| #[trigger] (out@ + tail) == old(out)@ + (be_i16(v) + tail) by {
        lemma_concat_assoc(old(out)@, be_i16(v), tail);
    }
}

pub fn write_u32(out: &mut Vec<u8>, v: u32)
    ensures
        final(out)@ == old(out)@ + be_u32(v),
        forall|tail: Seq<u8>| #[trigger] (final(out)@ + tail) == old(out)@ + (be_u32(v) + tail),
{
    out.push((v / 16777216) as u8);
    out.push((v / 65536 % 256) as u8);
    out.push((v / 256 % 256) as u8);
    out.push((v % 256) as u8);
    assert(out@ =~= old(out)@ + be_u32(v));    assert forall|tail: Seq<u8>| #[trigger] (out@ + tail) == old(out)@ + (be_u32(v) + tail) by {
        lemma_concat_assoc(old(out)@, be_u32(v), tail);
    }
}

pub fn write_i32(out: &mut Vec<u8>, v: i32)
    ensures
        final(out)@ == old(out)@ + be_i32(v),
        forall|tail: Seq<u8>| #[trigger] (final(out)@ + tail) == old(out)@ + (be_i32(v) + tail),
{
    write_u32(out, u32_of(v));    assert forall|tail: Seq<u8>| #[trigger] (out@ + tail) == old(out)@ + (be_i32(v) + tail) by {
        lemma_concat_assoc(old(out)@, be_i32(v), tail);
    }
}

pub fn write_u64(out: &mut Vec<u8>, v: u64)
    ensures
        final(out)@ == old(out)@ + be_u64(v),
        forall|tail: Seq<u8>| #[trigger] (final(out)@ + tail) == old(out)@ + (be_u64(v) + tail),
{
    write_u32(out, (v / 4294967296) as u32);
    write_u32(out, (v % 4294967296) as u32);
    assert(out@ =~= old(out)@ + be_u64(v));    assert forall|tail: Seq<u8>| #[trigger] (out@ + tail) == old(out)@ + (be_u64(v) + tail) by {
        lemma_concat_assoc(old(out)@, be_u64(v), tail);
    }
}

pub fn write_i64(out: &mut Vec<u8>, v: i64)
    ensures
        final(out)@ == old(out)@ + be_i64(v),
        forall|tail: Seq<u8>| #[trigger] (final(out)@ + tail) == old(out)@ + (be_i64(v) + tail),
{
    write_u64(out, u64_of(v));    assert forall|tail: Seq<u8>| #[trigger] (out@ + tail) == old(out)@ + (be_i64(v) + tail) by {
        lemma_concat_assoc(old(out)@, be_i64(v), tail);
    }
}

pub fn write_bool(out: &mut Vec<u8>, v: DiceBool)
    ensures
        final(out)@ == old(out)@ + be_bool(v),
        forall|tail: Seq<u8>| #[trigger] (final(out)@ + tail) == old(out)@ + (be_bool(v) + tail),
{
    match v {
        DiceBool::False => out.push(0),
        DiceBool::True => out.push(1),
    }
    assert(out@ =~= old(out)@ + be_bool(v));    assert forall|tail: Seq<u8>| #[trigger] (out@ + tail) == old(out)@ + (be_bool(v) + tail) by {
        lemma_concat_assoc(old(out)@, be_bool(v), tail);
    }
}

pub fn write_bytes(out: &mut Vec<u8>, v: &Vec<u8>)
    ensures
        final(out)@ == old(out)@ + v@,
        forall|tail: Seq<u8>| #[trigger] (final(out)@ + tail) == old(out)@ + (v@ + tail),
{
    let n: usize = v.len();
    let mut i: usize = 0;
    while i < n
        invariant
            i <= n,
            n == v@.len(),
            out@ == old(out)@ + v@.take(i as int),
        decreases n - i,
    {
        out.push(v[i]);
        i = i + 1;
        assert(out@ =~= old(out)@ + v@.take(i as int));
    }
    assert(v@.take(n as int) =~= v@);    assert forall|tail: Seq<u8>| #[trigger] (out@ + tail) == old(out)@ + (v@ + tail) by {
        lemma_concat_assoc(old(out)@, v@, tail);
    }
}

pub fn write_units(out: &mut Vec<u8>, v: &Vec<u16>)
    ensures
        final(out)@ == old(out)@ + be_units(v@),
        forall|tail: Seq<u8>| #[trigger] (final(out)@ + tail) == old(out)@ + (be_units(v@) + tail),
{
    let n: usize = v.len();
    let mut i: usize = 0;
    while i < n
        invariant
            i <= n,
            n == v@.len(),
            out@ == old(out)@ + be_units(v@.take(i as int)),
        decreases n - i,
    {
        out.push((v[i] / 256) as u8);
        out.push((v[i] % 256) as u8);
        i = i + 1;
        assert(out@ =~= old(out)@ + be_units(v@.take(i as int)));
    }
    assert(v@.take(n as int) =~= v@);    assert forall|tail: Seq<u8>| #[trigger] (out@ + tail) == old(out)@ + (be_units(v@) + tail) by {
        lemma_concat_assoc(old(out)@, be_units(v@), tail);
    }
}

pub fn write_shorts(out: &mut Vec<u8>, v: &Vec<i16>)
    ensures
        final(out)@ == old(out)@ + be_shorts(v@),
        forall|tail: Seq<u8>| #[trigger] (final(out)@ + tail) == old(out)@ + (be_shorts(v@) + tail),
{
    let n: usize = v.len();
    let mut i: usize = 0;
    while i < n
        invariant
            i <= n,
            n == v@.len(),
            out@ == old(out)@ + be_shorts(v@.take(i as int)),
        decreases n - i,
    {
        let u: u16 = u16_of(v[i]);
        out.push((u / 256) as u8);
        out.push((u % 256) as u8);
        i = i + 1;
        assert(out@ =~= old(out)@ + be_shorts(v@.take(i as int)));
    }
    assert(v@.take(n as int) =~= v@);    assert forall|tail: Seq<u8>| #[trigger] (out@ + tail) == old(out)@ + (be_shorts(v@) + tail) by {
        lemma_concat_assoc(old(out)@, be_shorts(v@), tail);
    }
}

pub fn write_triples(out: &mut Vec<u8>, v: &Vec<[i8; 3]>)
    ensures
        final(out)@ == old(out)@ + be_triples(triples_of(v@)),
        forall|tail: Seq<u8>| #[trigger] (final(out)@ + tail) == old(out)@ + (be_triples(triples_of(v@)) + tail),
{
    let n: usize = v.len();
    let mut i: usize = 0;
    while i < n
        invariant
            i <= n,
            n == v@.len(),
            out@ == old(out)@ + be_triples(triples_of(v@.take(i as int))),
        decreases n - i,
    {
        out.push(u8_of(v[i][0]));
        out.push(u8_of(v[i][1]));
        out.push(u8_of(v[i][2]));
        i = i + 1;
        assert(out@ =~= old(out)@ + be_triples(triples_of(v@.take(i as int))));
    }
    assert(v@.take(n as int) =~= v@);    assert forall|tail: Seq<u8>| #[trigger] (out@ + tail) == old(out)@ + (be_triples(triples_of(v@)) + tail) by {
        lemma_concat_assoc(old(out)@, be_triples(triples_of(v@)), tail);
    }
}

pub fn write_string(out: &mut Vec<u8>, v: &DiceString)
    requires
        v.wf(),
    ensures
        final(out)@ == old(out)@ + be_string(v@),
        forall|tail: Seq<u8>| #[trigger] (final(out)@ + tail) == old(out)@ + (be_string(v@) + tail),
{
    proof {
        v.lemma_wf_bounds();
    }
    let units: &Vec<u16> = v.units();
    write_i16(out, units.len() as i16);
    write_units(out, units);
    assert(out@ =~= old(out)@ + be_string(v@));    assert forall|tail: Seq<u8>| #[trigger] (out@ + tail) == old(out)@ + (be_string(v@) + tail) by {
        lemma_concat_assoc(old(out)@, be_string(v@), tail);
    }
}

} // verus!
