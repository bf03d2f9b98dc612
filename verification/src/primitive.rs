//! The two primitive field types: a one-byte boolean and a counted string
//! of UTF-16 code units.

use vstd::prelude::*;

verus! {

/// A boolean field: the byte 0 or the byte 1.
#[derive(Clone, Copy, Debug, PartialEq, Eq, Structural)]
pub enum DiceBool {
    False,
    True,
}

/// The UTF-16 code units of one character: itself below 0x10000, else a
/// high and a low surrogate.
pub open spec fn utf16_of_char(c: char) -> Seq<u16> {
    let n = c as u32 as int;
    if n < 0x10000 {
        seq![n as u16]
    } else {
        seq![(0xD800 + (n - 0x10000) / 0x400) as u16, (0xDC00 + (n - 0x10000) % 0x400) as u16]
    }
}

/// The UTF-16 encoding of a text.
pub open spec fn utf16_of(text: Seq<char>) -> Seq<u16>
    decreases text.len(),
{
    if text.len() == 0 {
        Seq::empty()
    } else {
        utf16_of(text.drop_last()) + utf16_of_char(text.last())
    }
}

/// A text has at least as many code units as characters, and at most twice
/// as many.
pub proof fn lemma_utf16_len(text: Seq<char>)
    ensures
        text.len() <= utf16_of(text).len() <= 2 * text.len(),
    decreases text.len(),
{
    if text.len() > 0 {
        lemma_utf16_len(text.drop_last());
    }
}

/// What `String::from_utf16_lossy` makes of a run of code units: the text
/// they encode, with U+FFFD for each unpaired surrogate.
pub uninterp spec fn utf16_lossy(units: Seq<u16>) -> Seq<char>;

/// `str::encode_utf16`, collected into a vector: the UTF-16 encoding of the
/// text, character by character.
#[verifier::external_body]
fn encode_utf16(text: &str) -> (r: Vec<u16>)
    ensures
        r@ == utf16_of(text@),
{
    text.encode_utf16().collect()
}

/// `String::from_utf16_lossy`: the result is named, not described.
#[verifier::external_body]
fn decode_utf16_lossy(units: &Vec<u16>) -> (r: String)
    ensures
        r@ == utf16_lossy(units@),
{
    String::from_utf16_lossy(units)
}

/// The text is longer than a string field can hold.
#[derive(Clone, Copy, Debug, PartialEq, Eq, Structural)]
pub struct DiceStringError;

/// A string field: at most 32767 UTF-16 code units and their count.
#[derive(Clone, Debug, PartialEq, Eq)]
pub struct DiceString {
    len: i16,
    data: Vec<u16>,
}

impl View for DiceString {
    type V = Seq<u16>;

    closed spec fn view(&self) -> Seq<u16> {
        self.data@
    }
}

impl DiceString {
    /// The longest string the wire can carry, in UTF-16 code units.
    pub const MAX_LEN: usize = 32767;

    /// The count held beside the units is their number.
    pub closed spec fn wf(&self) -> bool {
        &&& self.len >= 0
        &&& self.len == self.data@.len()
    }

    pub proof fn lemma_wf_bounds(&self)
        requires
            self.wf(),
        ensures
            self@.len() <= 32767,
    {
    }

    /// A string of the given units.
    pub fn from_units(units: Vec<u16>) -> (r: DiceString)
        requires
            units@.len() <= 32767,
        ensures
            r.wf(),
            r@ == units@,
    {
        DiceString { len: units.len() as i16, data: units }
    }

    /// The string of a text, unless its UTF-16 encoding has more than 32767
    /// code units.
    pub fn from_str(string: &str) -> (r: Result<DiceString, DiceStringError>)
        ensures
            r is Ok <==> utf16_of(string@).len() <= 32767,
            r is Ok ==> r->Ok_0.wf() && r->Ok_0@ == utf16_of(string@),
    {
        let data: Vec<u16> = encode_utf16(string);
        if data.len() <= Self::MAX_LEN {
            Ok(DiceString::from_units(data))
        } else {
            Err(DiceStringError)
        }
    }

    /// The text the units encode, with U+FFFD where they encode none.
    pub fn to_string_lossy(&self) -> (r: String)
        ensures
            r@ == utf16_lossy(self@),
    {
        decode_utf16_lossy(&self.data)
    }

    /// How many code units the string has.
    pub fn len(&self) -> (r: usize)
        ensures
            r == self@.len(),
    {
        self.data.len()
    }

    /// The code units, in order.
    pub fn units(&self) -> (r: &Vec<u16>)
        ensures
            r@ == self@,
    {
        &self.data
    }

    /// Whether the count held agrees with the units.
    pub fn is_valid(&self) -> (r: bool)
        ensures
            r == self.wf(),
            r ==> self@.len() <= 32767,
    {
        self.len >= 0 && self.len as usize == self.data.len()
    }
}

impl core::str::FromStr for DiceString {
    type Err = DiceStringError;

    /// The string of a text, unless its UTF-16 encoding has more than 32767
    /// code units: what the method of the same name on `DiceString` returns.
    fn from_str(string: &str) -> (r: Result<DiceString, DiceStringError>)
        ensures
            r is Ok <==> utf16_of(string@).len() <= 32767,
            r is Ok ==> r->Ok_0.wf() && r->Ok_0@ == utf16_of(string@),
    {
        DiceString::from_str(string)
    }
}

} // verus!
