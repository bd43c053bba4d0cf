//! Buffer formats and layout modifiers of the screencopy buffers.

use std::collections::HashMap;

use vstd::prelude::*;

use drm_fourcc::{DrmFourcc, DrmModifier, UnrecognizedFourcc};

verus! {

broadcast use vstd::std_specs::hash::group_hash_axioms;

/// The modifier that stands for an unknown buffer layout.
pub const INVALID_MODIFIER: u64 = 0x00ff_ffff_ffff_ffff;

/// `DrmFourcc` has a variant for this format code.
pub uninterp spec fn fourcc_recognized(code: u32) -> bool;

/// One of the four bytes of a code, the least significant first.
pub open spec fn byte_of(code: u32, index: int) -> int {
    if index == 0 {
        code as int % 0x100
    } else if index == 1 {
        code as int / 0x100 % 0x100
    } else if index == 2 {
        code as int / 0x1_0000 % 0x100
    } else {
        code as int / 0x100_0000
    }
}

/// The byte is an ASCII letter or digit.
pub open spec fn is_alphanumeric(byte: int) -> bool {
    0x30 <= byte <= 0x39 || 0x41 <= byte <= 0x5a || 0x61 <= byte <= 0x7a
}

/// The character of an ASCII byte; a zero byte reads as a space.
pub open spec fn padded(byte: int) -> char {
    if byte == 0 { ' ' } else { byte as char }
}

/// The last two bytes of a code as UTF-8 text, if they are: two ASCII characters,
/// or one character of two bytes.
pub open spec fn tail_form(code: u32) -> Option<Seq<char>> {
    let third = byte_of(code, 2);
    let fourth = byte_of(code, 3);
    if third < 0x80 && fourth < 0x80 {
        Some(seq![padded(third), padded(fourth)])
    } else if 0xc2 <= third <= 0xdf && 0x80 <= fourth <= 0xbf {
        Some(seq![((third - 0xc0) * 0x40 + (fourth - 0x80)) as char])
    } else {
        None
    }
}

/// How an unknown format code reads: as text, where it starts with two letters or
/// digits and is UTF-8, and as a number.
pub open spec fn unknown_fourcc_form(code: u32) -> Seq<char> {
    let number = crate::text::decimal(code as nat) + ")"@;
    if is_alphanumeric(byte_of(code, 0)) && is_alphanumeric(byte_of(code, 1)) && tail_form(code) is Some {
        "UnrecognizedFourcc("@ + seq![byte_of(code, 0) as char, byte_of(code, 1) as char] + tail_form(code)->0 + ", "@
            + number
    } else {
        "UnrecognizedFourcc("@ + number
    }
}

/// The four bytes of the code, least significant first, are the UTF-8 encoding
/// of a single character.
pub open spec fn is_lone_character(code: u32) -> bool {
    let first = byte_of(code, 0);
    let second = byte_of(code, 1);
    let third = byte_of(code, 2);
    let fourth = byte_of(code, 3);
    &&& 0xf0 <= first <= 0xf4
    &&& 0x80 <= second <= 0xbf
    &&& 0x80 <= third <= 0xbf
    &&& 0x80 <= fourth <= 0xbf
    &&& first == 0xf0 ==> second >= 0x90
    &&& first == 0xf4 ==> second <= 0x8f
}

/// Calls `DrmFourcc::try_from`. The formats it knows are a table of that crate:
/// which they are has a name here.
#[verifier::external_body]
pub(crate) fn is_fourcc(code: u32) -> (recognized: bool)
    ensures
        recognized == fourcc_recognized(code),
{
    DrmFourcc::try_from(code).is_ok()
}

/// Whether the four bytes of the code are the encoding of a single character.
pub fn lone_character(code: u32) -> (r: bool)
    ensures
        r == is_lone_character(code),
{
    let first: u32 = code % 0x100;
    let second: u32 = code / 0x100 % 0x100;
    let third: u32 = code / 0x1_0000 % 0x100;
    let fourth: u32 = code / 0x100_0000;
    0xf0 <= first && first <= 0xf4 && 0x80 <= second && second <= 0xbf && 0x80 <= third && third <= 0xbf && 0x80
        <= fourth && fourth <= 0xbf && (first != 0xf0 || second >= 0x90) && (first != 0xf4 || second <= 0x8f)
}

/// Formats `UnrecognizedFourcc` with `Debug`: the name of the type, and in
/// brackets the four bytes as text, where they can be read so, and the number.
/// The formatting panics on a code whose bytes are a single four-byte character.
#[verifier::external_body]
pub(crate) fn unrecognized_fourcc_text(code: u32) -> (text: String)
    requires
        !is_lone_character(code),
    ensures
        text@ == unknown_fourcc_form(code),
{
    format!("{:?}", UnrecognizedFourcc(code))
}

/// Converts `DrmModifier::Invalid` to its number, that of the kernel's
/// `DRM_FORMAT_MOD_INVALID`.
#[verifier::external_body]
fn invalid_modifier() -> (code: u64)
    ensures
        code == INVALID_MODIFIER,
{
    u64::from(DrmModifier::Invalid)
}

/// The modifier with the given upper and lower halves.
pub open spec fn modifier_of(modifier_hi: u32, modifier_lo: u32) -> u64 {
    (modifier_hi * 0x1_0000_0000 + modifier_lo) as u64
}

/// Puts a modifier together from its halves.
pub fn join_modifier(modifier_hi: u32, modifier_lo: u32) -> (modifier: u64)
    ensures
        modifier == modifier_of(modifier_hi, modifier_lo),
        modifier == modifier_hi * 0x1_0000_0000 + modifier_lo,
{
    let modifier: u64 = ((modifier_hi as u64) << 32) | (modifier_lo as u64);
    assert(modifier == modifier_hi * 0x1_0000_0000 + modifier_lo) by (bit_vector)
        requires
            modifier == ((modifier_hi as u64) << 32) | (modifier_lo as u64),
    ;
    modifier
}

/// Takes a modifier apart into its upper and lower halves.
pub fn split_modifier(modifier: u64) -> (halves: (u32, u32))
    ensures
        halves.0 == modifier / 0x1_0000_0000,
        halves.1 == modifier % 0x1_0000_0000,
{
    let modifier_hi: u32 = (modifier >> 32) as u32;
    let modifier_lo: u32 = modifier as u32;
    assert(modifier_hi == modifier / 0x1_0000_0000u64) by (bit_vector)
        requires
            modifier_hi == (modifier >> 32) as u32,
    ;
    assert(modifier_lo == modifier % 0x1_0000_0000u64) by (bit_vector)
        requires
            modifier_lo == modifier as u32,
    ;
    (modifier_hi, modifier_lo)
}

/// The halves of a modifier put together give the modifier back, and a modifier
/// put together comes apart into the same halves.
pub proof fn law_modifier_halves(modifier: u64, modifier_hi: u32, modifier_lo: u32)
    ensures
        modifier_of((modifier / 0x1_0000_0000) as u32, (modifier % 0x1_0000_0000) as u32) == modifier,
        modifier_of(modifier_hi, modifier_lo) / 0x1_0000_0000 == modifier_hi,
        modifier_of(modifier_hi, modifier_lo) % 0x1_0000_0000 == modifier_lo,
{
}

/// The layout modifiers that the compositor accepts, by format.
pub struct ModifierTable {
    pub lists: HashMap<u32, Vec<u64>>,
}

impl View for ModifierTable {
    type V = Map<u32, Seq<u64>>;

    open spec fn view(&self) -> Map<u32, Seq<u64>> {
        self.lists@.map_values(|list: Vec<u64>| list@)
    }
}

/// The modifiers announced for a format, in the order of announcement.
pub open spec fn announced(table: Map<u32, Seq<u64>>, format: u32) -> Seq<u64> {
    if table.dom().contains(format) { table[format] } else { seq![] }
}

/// The modifiers to allocate buffers of a format with: those announced, or the
/// unknown layout where none was.
pub open spec fn usable(table: Map<u32, Seq<u64>>, format: u32) -> Seq<u64> {
    if announced(table, format).len() == 0 {
        seq![INVALID_MODIFIER]
    } else {
        announced(table, format)
    }
}

/// The table after a format was announced without modifiers.
pub open spec fn with_format(table: Map<u32, Seq<u64>>, format: u32) -> Map<u32, Seq<u64>> {
    table.insert(format, announced(table, format).push(INVALID_MODIFIER))
}

/// The table after a modifier was announced for a format.
pub open spec fn with_modifier(
    table: Map<u32, Seq<u64>>,
    format: u32,
    modifier_hi: u32,
    modifier_lo: u32,
) -> Map<u32, Seq<u64>> {
    let modifier = modifier_of(modifier_hi, modifier_lo);
    let before = announced(table, format);
    table.insert(format, if before.contains(modifier) { before } else { before.push(modifier) })
}

impl ModifierTable {
    /// A table without formats.
    pub fn new() -> (table: ModifierTable)
        ensures
            table@ == Map::<u32, Seq<u64>>::empty(),
    {
        let table = ModifierTable { lists: HashMap::new() };
        assert(table@ =~= Map::<u32, Seq<u64>>::empty());
        table
    }

    /// The modifiers announced for a format.
    pub fn list(&self, format: u32) -> (list: Vec<u64>)
        ensures
            list@ == announced(self@, format),
    {
        match self.lists.get(&format) {
            Some(list) => {
                let copy: Vec<u64> = list.clone();
                assert(copy@ =~= list@);
                copy
            },
            None => Vec::new(),
        }
    }

    /// The compositor announced a format without modifiers: buffers of unknown
    /// layout are accepted.
    pub fn add_format(&mut self, format: u32)
        ensures
            final(self)@ == with_format(old(self)@, format),
    {
        let mut list: Vec<u64> = self.list(format);
        list.push(invalid_modifier());
        self.lists.insert(format, list);
        assert(self@ =~= old(self)@.insert(format, announced(old(self)@, format).push(INVALID_MODIFIER)));
    }

    /// The compositor announced a modifier for a format. One that was announced
    /// before is not added again.
    pub fn add_modifier(&mut self, format: u32, modifier_hi: u32, modifier_lo: u32)
        ensures
            final(self)@ == with_modifier(old(self)@, format, modifier_hi, modifier_lo),
    {
        let modifier: u64 = join_modifier(modifier_hi, modifier_lo);
        let mut list: Vec<u64> = self.list(format);
        if !contains(&list, modifier) {
            list.push(modifier);
        }
        let ghost after = list@;
        self.lists.insert(format, list);
        assert(self@ =~= old(self)@.insert(format, after));
    }

    /// The modifiers to allocate buffers of a format with.
    pub fn usable_modifiers(&self, format: u32) -> (list: Vec<u64>)
        ensures
            list@ == usable(self@, format),
    {
        let mut list: Vec<u64> = self.list(format);
        if list.len() == 0 {
            list.push(invalid_modifier());
            assert(list@ =~= seq![INVALID_MODIFIER]);
        }
        list
    }
}

fn contains(list: &Vec<u64>, modifier: u64) -> (found: bool)
    ensures
        found == list@.contains(modifier),
{
    let mut i: usize = 0;
    while i < list.len()
        invariant
            i <= list.len(),
            forall|j: int| 0 <= j < i ==> list@[j] != modifier,
        decreases list.len() - i,
    {
        if list[i] == modifier {
            return true;
        }
        i = i + 1;
    }
    false
}

/// There is always a modifier to allocate with.
pub proof fn law_usable_modifiers_exist(table: Map<u32, Seq<u64>>, format: u32)
    ensures
        usable(table, format).len() > 0,
{
}

/// Where a plane of a buffer lies in its memory.
#[derive(Debug, Clone, Copy, PartialEq, Eq, Structural)]
pub struct PlaneLayout {
    pub offset: u32,
    pub stride: u32,
}

/// One plane as it is handed to the compositor.
#[derive(Debug, Clone, Copy, PartialEq, Eq, Structural)]
pub struct PlaneParams {
    pub plane_idx: u32,
    pub offset: u32,
    pub stride: u32,
    pub modifier_hi: u32,
    pub modifier_lo: u32,
}

/// A buffer as it is handed to the compositor.
#[derive(Debug)]
pub struct BufferParams {
    pub planes: Vec<PlaneParams>,
    pub width: i32,
    pub height: i32,
    pub format: u32,
}

impl BufferParams {
    /// These describe a buffer with the given planes.
    pub open spec fn describe(
        self,
        planes: Seq<PlaneLayout>,
        modifier: u64,
        format: u32,
        width: u32,
        height: u32,
    ) -> bool {
        &&& self.planes@.len() == planes.len()
        &&& forall|i: int|
            0 <= i < planes.len() ==> #[trigger] self.planes@[i] == (PlaneParams {
                plane_idx: i as u32,
                offset: planes[i].offset,
                stride: planes[i].stride,
                modifier_hi: (modifier / 0x1_0000_0000) as u32,
                modifier_lo: (modifier % 0x1_0000_0000) as u32,
            })
        &&& self.width == crate::geometry::wrapped(width)
        &&& self.height == crate::geometry::wrapped(height)
        &&& self.format == format
    }
}

/// How to describe a buffer to the compositor: every plane in order, each with
/// both halves of the modifier, and the extent as signed numbers.
pub fn buffer_params(planes: &Vec<PlaneLayout>, modifier: u64, format: u32, width: u32, height: u32) -> (params:
    BufferParams)
    ensures
        params.describe(planes@, modifier, format, width, height),
{
    let (modifier_hi, modifier_lo): (u32, u32) = split_modifier(modifier);
    let mut list: Vec<PlaneParams> = Vec::new();
    let mut i: usize = 0;
    while i < planes.len()
        invariant
            i <= planes.len(),
            list@.len() == i,
            modifier_hi == modifier / 0x1_0000_0000,
            modifier_lo == modifier % 0x1_0000_0000,
            forall|j: int|
                0 <= j < i ==> #[trigger] list@[j] == (PlaneParams {
                    plane_idx: j as u32,
                    offset: planes@[j].offset,
                    stride: planes@[j].stride,
                    modifier_hi: (modifier / 0x1_0000_0000) as u32,
                    modifier_lo: (modifier % 0x1_0000_0000) as u32,
                }),
        decreases planes.len() - i,
    {
        list.push(
            PlaneParams {
                plane_idx: i as u32,
                offset: planes[i].offset,
                stride: planes[i].stride,
                modifier_hi,
                modifier_lo,
            },
        );
        i = i + 1;
    }
    BufferParams {
        planes: list,
        width: crate::geometry::to_signed(width),
        height: crate::geometry::to_signed(height),
        format,
    }
}

/// Buffers are allocated with exactly the layouts that were announced for their
/// format, in that order. Only where none was, the unknown layout stands in.
pub proof fn law_announced_modifiers_are_used(table: Map<u32, Seq<u64>>, format: u32, modifier: u64)
    ensures
        ({
            let known = table.contains_key(format) && table[format].len() > 0;
            &&& known ==> usable(table, format) == table[format]
            &&& known && table[format].contains(modifier) ==> usable(table, format).contains(modifier)
            &&& known && usable(table, format).contains(modifier) ==> table[format].contains(modifier)
            &&& !known ==> usable(table, format) == seq![0x00ff_ffff_ffff_ffffu64]
        }),
{
}

/// A layout that is announced for a format can be used for it from then on, and
/// all layouts that could be before still can, each in its place. No other layout
/// and no other format gains or loses, and no layout is listed twice for it.
pub proof fn law_announcing_a_modifier(
    table: Map<u32, Seq<u64>>,
    format: u32,
    modifier_hi: u32,
    modifier_lo: u32,
    other: u32,
    i: int,
)
    ensures
        ({
            let after = with_modifier(table, format, modifier_hi, modifier_lo);
            let before = if table.contains_key(format) { table[format] } else { Seq::<u64>::empty() };
            let modifier = (modifier_hi * 0x1_0000_0000 + modifier_lo) as u64;
            &&& after.contains_key(format) && after[format].len() > 0
            &&& usable(after, format).contains(modifier)
            &&& 0 <= i < before.len() ==> i < usable(after, format).len() && usable(after, format)[i] == before[i]
            &&& 0 <= i < usable(after, format).len() ==> i < before.len() || usable(after, format)[i] == modifier
            &&& before.contains(modifier) ==> after[format].len() == before.len()
            &&& !before.contains(modifier) ==> after[format].len() == before.len() + 1
            &&& other != format ==> usable(after, other) == usable(table, other)
        }),
{
    let after = with_modifier(table, format, modifier_hi, modifier_lo);
    let before = announced(table, format);
    let modifier = modifier_of(modifier_hi, modifier_lo);
    assert(before =~= (if table.contains_key(format) { table[format] } else { Seq::<u64>::empty() }));
    if before.contains(modifier) {
        assert(after[format] == before);
    } else {
        assert(after[format] == before.push(modifier));
        assert(after[format][before.len() as int] == modifier);
    }
}

/// A format that is announced without layouts can be used with the unknown one,
/// and with all those that were announced for it before. No other format gains or
/// loses.
pub proof fn law_announcing_a_format(table: Map<u32, Seq<u64>>, format: u32, other: u32, i: int)
    ensures
        ({
            let after = with_format(table, format);
            let before = if table.contains_key(format) { table[format] } else { Seq::<u64>::empty() };
            &&& after.contains_key(format)
            &&& usable(after, format).len() == before.len() + 1
            &&& usable(after, format).last() == 0x00ff_ffff_ffff_ffff
            &&& 0 <= i < before.len() ==> usable(after, format)[i] == before[i]
            &&& other != format ==> usable(after, other) == usable(table, other)
        }),
{
    assert(announced(table, format) =~= (if table.contains_key(format) { table[format] } else { Seq::<u64>::empty() }));
}

/// A buffer is described plane by plane: the numbers, offsets and strides of the
/// planes, the modifier and the extent can all be read back.
pub proof fn law_buffers_can_be_read_back(
    params: BufferParams,
    planes: Seq<PlaneLayout>,
    modifier: u64,
    format: u32,
    width: u32,
    height: u32,
    i: int,
)
    requires
        params.describe(planes, modifier, format, width, height),
        0 <= i < planes.len() <= u32::MAX,
    ensures
        params.planes@.len() == planes.len(),
        params.planes@[i].plane_idx == i,
        params.planes@[i].offset == planes[i].offset,
        params.planes@[i].stride == planes[i].stride,
        params.planes@[i].modifier_hi * 0x1_0000_0000 + params.planes@[i].modifier_lo == modifier,
        params.format == format,
        params.width == width || params.width + 0x1_0000_0000 == width,
        params.height == height || params.height + 0x1_0000_0000 == height,
{
    crate::geometry::law_wrapping_loses_nothing(width);
    crate::geometry::law_wrapping_loses_nothing(height);
}

/// A format code has no message exactly if its bytes are the encoding of one
/// character in four bytes: three bits of the character in the first, six in each
/// of the others, and a value that needs four bytes.
pub proof fn law_lone_characters_are_four_bytes_long(code: u32, b0: u8, b1: u8, b2: u8, b3: u8)
    requires
        code == b0 + 0x100 * b1 + 0x1_0000 * b2 + 0x100_0000 * b3,
    ensures
        is_lone_character(code) <==> ({
            let value = (b0 - 0xf0) * 0x4_0000 + (b1 - 0x80) * 0x1000 + (b2 - 0x80) * 0x40 + (b3 - 0x80);
            &&& 0xf0 <= b0 < 0xf8
            &&& 0x80 <= b1 < 0xc0
            &&& 0x80 <= b2 < 0xc0
            &&& 0x80 <= b3 < 0xc0
            &&& 0x1_0000 <= value <= 0x10_ffff
        }),
{
    assert(byte_of(code, 0) == b0);
    assert(byte_of(code, 1) == b1);
    assert(byte_of(code, 2) == b2);
    assert(byte_of(code, 3) == b3);
}

} // verus!
