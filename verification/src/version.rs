//! The display form of a packed build number.
//!
//! How the service packs a version into 32 bits is its own affair. A
//! `VersionCodec` describes one such packing as data: which bits make up each
//! number of the version, and the character that stands between two numbers.

use vstd::prelude::*;
use crate::text::{decimal_text, push_decimal};

verus! {

/// One number of a packed version: `width` bits, the lowest of them at bit
/// `shift` of the packed value.
#[derive(Clone, Copy, Debug, PartialEq, Eq, Structural)]
pub struct VersionField {
    pub shift: u8,
    pub width: u8,
}

/// A packing of a version: its numbers in the order in which they are shown,
/// and the character between two of them.
#[derive(Debug, PartialEq, Eq)]
pub struct VersionCodec {
    pub fields: Vec<VersionField>,
    pub separator: char,
}

/// What a `VersionCodec` holds.
pub struct CodecView {
    pub fields: Seq<VersionField>,
    pub separator: char,
}

impl View for VersionCodec {
    type V = CodecView;

    open spec fn view(&self) -> CodecView {
        CodecView { fields: self.fields@, separator: self.separator }
    }
}

/// The value with the lowest `width` bits set; all 32 where `width` is 32 or
/// more.
pub open spec fn low_mask(width: u8) -> u32 {
    if width >= 32 {
        0xffff_ffffu32
    } else {
        ((1u32 << (width as u32)) - 1) as u32
    }
}

/// The number that `field` picks out of `packed`. A field that starts beyond
/// bit 31 holds no bit of the value and reads as zero.
pub open spec fn field_value(packed: u32, field: VersionField) -> u32 {
    if field.shift >= 32 {
        0
    } else {
        (packed >> (field.shift as u32)) & low_mask(field.width)
    }
}

/// The numbers of `fields` in decimal, in order, with `separator` between two
/// neighbours.
pub open spec fn joined_text(fields: Seq<VersionField>, separator: char, packed: u32) -> Seq<char>
    decreases fields.len(),
{
    if fields.len() == 0 {
        Seq::empty()
    } else if fields.len() == 1 {
        decimal_text(field_value(packed, fields[0]) as nat)
    } else {
        joined_text(fields.drop_last(), separator, packed).push(separator) + decimal_text(
            field_value(packed, fields.last()) as nat,
        )
    }
}

/// The display form of `packed` under `codec`.
pub open spec fn version_text(codec: CodecView, packed: u32) -> Seq<char> {
    joined_text(codec.fields, codec.separator, packed)
}

impl VersionField {
    /// Reads this field's number out of a packed version.
    pub fn extract(&self, packed: u32) -> (value: u32)
        ensures
            value == field_value(packed, *self),
    {
        if self.shift >= 32 {
            0
        } else {
            let shift: u32 = self.shift as u32;
            let mask: u32 = if self.width >= 32 {
                0xffff_ffffu32
            } else {
                let width: u32 = self.width as u32;
                assert((1u32 << width) >= 1) by (bit_vector)
                    requires
                        width < 32,
                ;
                (1u32 << width) - 1
            };
            (packed >> shift) & mask
        }
    }
}

impl VersionCodec {
    /// A codec of the given fields, shown in that order.
    pub fn new(fields: Vec<VersionField>, separator: char) -> (codec: VersionCodec)
        ensures
            codec@ == (CodecView { fields: fields@, separator }),
    {
        VersionCodec { fields, separator }
    }
}

/// Renders a packed build number for display: each field of the codec in
/// decimal, joined by the codec's separator.
pub fn decode_version(codec: &VersionCodec, packed: u32) -> (text: String)
    ensures
        text@ == version_text(codec@, packed),
{
    let mut text = String::new();
    let mut i: usize = 0;
    while i < codec.fields.len()
        invariant
            i <= codec.fields@.len(),
            text@ == joined_text(codec.fields@.take(i as int), codec.separator, packed),
        decreases codec.fields@.len() - i,
    {
        if i > 0 {
            text.push(codec.separator);
        }
        let value: u32 = codec.fields[i].extract(packed);
        push_decimal(&mut text, value);
        proof {
            let before = codec.fields@.take(i as int);
            let after = codec.fields@.take(i + 1);
            assert(after.drop_last() =~= before);
            assert(after.last() == codec.fields@[i as int]);
            if i == 0 {
                assert(Seq::<char>::empty() + decimal_text(value as nat) =~= decimal_text(
                    value as nat,
                ));
            }
        }
        i += 1;
    }
    assert(codec.fields@.take(i as int) =~= codec.fields@);
    text
}

} // verus!
