use vstd::prelude::*;
use vstd::slice::slice_subrange;
use vstd::slice::slice_to_vec;

verus! {

/// Level reported for a value that carries no level header.
pub const DEFAULT_LEVEL: u8 = 3;

/// Sentinel byte on both sides of the level in a header (ASCII newline).
pub const SEG: u8 = 10;

/// Number of bytes the level header occupies in front of the payload.
pub const HEADER_LEN: usize = 3;

/// A stored value starts with a level header when it is at least three
/// bytes long and bytes 0 and 2 are the sentinel.
pub open spec fn has_header(d: Seq<u8>) -> bool {
    d.len() >= 3 && d[0] == SEG && d[2] == SEG
}

/// The level a stored value carries: the byte between the sentinels, or
/// the default level when there is no header.
pub open spec fn level_of(d: Seq<u8>) -> u8 {
    if has_header(d) {
        d[1]
    } else {
        DEFAULT_LEVEL
    }
}

/// The stored form of a payload written at level `lv`.
pub open spec fn with_level(d: Seq<u8>, lv: u8) -> Seq<u8> {
    seq![SEG, lv, SEG] + d
}

/// The payload of a stored value: everything after the header, or the
/// whole value when there is no header.
pub open spec fn without_level(d: Seq<u8>) -> Seq<u8> {
    if has_header(d) {
        d.subrange(3, d.len() as int)
    } else {
        d
    }
}

/// Encoding always produces a header, whatever the payload holds.
pub proof fn lemma_with_level_has_header(d: Seq<u8>, lv: u8)
    ensures
        has_header(with_level(d, lv)),
        with_level(d, lv).len() == d.len() + 3,
{
}

/// Decoding an encoded value gives back the payload and the level it was
/// encoded with, for every payload and every level.
pub proof fn lemma_level_round_trip(d: Seq<u8>, lv: u8)
    ensures
        without_level(with_level(d, lv)) == d,
        level_of(with_level(d, lv)) == lv,
{
    let e = with_level(d, lv);
    assert(e.subrange(3, e.len() as int) =~= d);
}

/// A value shorter than three bytes, or one whose bytes 0 and 2 are not
/// both the sentinel, reports the default level and is its own payload.
pub proof fn lemma_default_level(d: Seq<u8>)
    requires
        d.len() < 3 || d[0] != SEG || d[2] != SEG,
    ensures
        level_of(d) == DEFAULT_LEVEL,
        without_level(d) == d,
{
}

/// Reads the level out of a stored value.
pub fn level(d: &[u8]) -> (lv: u8)
    ensures
        lv == level_of(d@),
{
    if d.len() < HEADER_LEN {
        DEFAULT_LEVEL
    } else if d[0] == SEG && d[2] == SEG {
        d[1]
    } else {
        DEFAULT_LEVEL
    }
}

/// Builds the stored form of `d` at level `lv`: header first, payload after.
pub fn encode(d: &[u8], lv: u8) -> (out: Vec<u8>)
    ensures
        out@ == with_level(d@, lv),
{
    let mut out: Vec<u8> = Vec::new();
    out.push(SEG);
    out.push(lv);
    out.push(SEG);
    let mut i: usize = 0;
    while i < d.len()
        invariant
            i <= d.len(),
            out@ == seq![SEG, lv, SEG] + d@.subrange(0, i as int),
        decreases d.len() - i,
    {
        out.push(d[i]);
        i += 1;
    }
    assert(d@.subrange(0, i as int) == d@);
    out
}

/// Copies the payload out of a stored value.
pub fn decode(d: &[u8]) -> (out: Vec<u8>)
    ensures
        out@ == without_level(d@),
{
    if d.len() < HEADER_LEN {
        slice_to_vec(d)
    } else if d[0] == SEG && d[2] == SEG {
        slice_to_vec(slice_subrange(d, HEADER_LEN, d.len()))
    } else {
        slice_to_vec(d)
    }
}

/// Byte strings that can carry a write level in a three-byte header.
///
/// An implementor says which bytes it holds; the three operations are then
/// fixed by [`level_of`], [`with_level`] and [`without_level`].
pub trait DataLevel {
    /// The bytes this value holds.
    spec fn bytes(&self) -> Seq<u8>;

    /// Borrows the bytes this value holds.
    fn raw(&self) -> (d: &[u8])
        ensures
            d@ == self.bytes(),
    ;

    /// The level embedded in this value, or the default level.
    fn data_lv(&self) -> (lv: u8)
        ensures
            lv == level_of(self.bytes()),
    {
        level(self.raw())
    }

    /// This value behind a header for level `lv`.
    fn data_with_lv(&self, lv: u8) -> (out: Vec<u8>)
        ensures
            out@ == with_level(self.bytes(), lv),
    {
        encode(self.raw(), lv)
    }

    /// This value with its header, if it has one, taken off.
    fn data_without_lv(&self) -> (out: Vec<u8>)
        ensures
            out@ == without_level(self.bytes()),
    {
        decode(self.raw())
    }
}

impl DataLevel for &[u8] {
    open spec fn bytes(&self) -> Seq<u8> {
        self@
    }

    fn raw(&self) -> (d: &[u8]) {
        *self
    }
}

impl DataLevel for Vec<u8> {
    open spec fn bytes(&self) -> Seq<u8> {
        self@
    }

    fn raw(&self) -> (d: &[u8]) {
        self.as_slice()
    }
}

impl DataLevel for &Vec<u8> {
    open spec fn bytes(&self) -> Seq<u8> {
        self@
    }

    fn raw(&self) -> (d: &[u8]) {
        self.as_slice()
    }
}

} // verus!
