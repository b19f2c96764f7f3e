//! The appliance record as the service hands it over, and its decoding.

use vstd::prelude::*;
use vstd::slice::slice_subrange;
use vstd::utf8::{decode_utf8, valid_utf8};
use crate::text::{
    all_ascii, ascii_text, hex_char, hex_digit, lemma_ascii_reads_as_itself, lossy_text,
    utf8_lossy,
};

verus! {

/// The kind of appliance that a record describes.
#[derive(Clone, Copy, Debug, PartialEq, Eq, Structural)]
pub enum ApplianceType {
    X2Server,
    X2ProServer,
    Unknown,
}

/// The type code of an X2 server.
pub const APPLIANCE_TYPE_X2_SERVER: u32 = 0;

/// The type code of an X2 Pro server.
pub const APPLIANCE_TYPE_X2_PRO_SERVER: u32 = 1;

/// The number of octets in a MAC address.
pub const MAC_LEN: usize = 6;

/// The record of one appliance in its wire shape. The three text buffers have
/// a fixed capacity each and need not hold a terminator.
#[derive(Debug, PartialEq, Eq)]
pub struct ApplianceDescriptor {
    pub mac: [u8; 6],
    pub build_number: u32,
    pub release_name: Vec<u8>,
    pub system_setup: Vec<u8>,
    pub timezone_id: Vec<u8>,
    pub appliance_type: u32,
}

/// What an `ApplianceDescriptor` holds.
pub struct DescriptorView {
    pub mac: Seq<u8>,
    pub build_number: u32,
    pub release_name: Seq<u8>,
    pub system_setup: Seq<u8>,
    pub timezone_id: Seq<u8>,
    pub appliance_type: u32,
}

impl View for ApplianceDescriptor {
    type V = DescriptorView;

    open spec fn view(&self) -> DescriptorView {
        DescriptorView {
            mac: self.mac@,
            build_number: self.build_number,
            release_name: self.release_name@,
            system_setup: self.system_setup@,
            timezone_id: self.timezone_id@,
            appliance_type: self.appliance_type,
        }
    }
}

/// The identity of a verified appliance.
#[derive(Debug, PartialEq, Eq)]
pub struct ApplianceInfo {
    pub mac: [u8; 6],
    pub build_number: u32,
    pub release_name: String,
    pub system_setup: String,
    pub timezone_id: String,
    pub appliance_type: ApplianceType,
}

/// What an `ApplianceInfo` holds.
pub struct ApplianceInfoView {
    pub mac: Seq<u8>,
    pub build_number: u32,
    pub release_name: Seq<char>,
    pub system_setup: Seq<char>,
    pub timezone_id: Seq<char>,
    pub appliance_type: ApplianceType,
}

impl View for ApplianceInfo {
    type V = ApplianceInfoView;

    open spec fn view(&self) -> ApplianceInfoView {
        ApplianceInfoView {
            mac: self.mac@,
            build_number: self.build_number,
            release_name: self.release_name@,
            system_setup: self.system_setup@,
            timezone_id: self.timezone_id@,
            appliance_type: self.appliance_type,
        }
    }
}

impl Clone for ApplianceInfo {
    fn clone(&self) -> (copy: Self)
        ensures
            copy == *self,
    {
        ApplianceInfo {
            mac: self.mac,
            build_number: self.build_number,
            release_name: self.release_name.clone(),
            system_setup: self.system_setup.clone(),
            timezone_id: self.timezone_id.clone(),
            appliance_type: self.appliance_type,
        }
    }
}

/// The length of `octets` written as two-digit groups with a colon between
/// neighbours.
pub open spec fn mac_text_len(octets: Seq<u8>) -> nat {
    if octets.len() == 0 {
        0
    } else {
        (3 * octets.len() - 1) as nat
    }
}

/// The character at place `i` of the text of `octets`: every third place is a
/// colon, the two before it are the high and the low digit of one octet.
pub open spec fn mac_text_char(octets: Seq<u8>, i: int) -> char {
    if i % 3 == 2 {
        ':'
    } else if i % 3 == 0 {
        hex_char(octets[i / 3] as int / 16)
    } else {
        hex_char(octets[i / 3] as int % 16)
    }
}

/// `octets` in lowercase hexadecimal, two digits each, joined by colons.
pub open spec fn mac_text(octets: Seq<u8>) -> Seq<char> {
    Seq::new(mac_text_len(octets), |i: int| mac_text_char(octets, i))
}

/// The number of bytes of `buffer` before its first zero byte, where only the
/// first `max_len` bytes count; all of them where none of those is zero.
pub open spec fn text_len(buffer: Seq<u8>, max_len: nat) -> nat
    decreases buffer.len(),
{
    if buffer.len() == 0 || max_len == 0 || buffer[0] == 0 {
        0
    } else {
        1 + text_len(buffer.drop_first(), (max_len - 1) as nat)
    }
}

/// The bytes of `buffer` that make up its text.
pub open spec fn text_bytes(buffer: Seq<u8>, max_len: nat) -> Seq<u8> {
    buffer.take(text_len(buffer, max_len) as int)
}

/// The text held in a fixed-capacity buffer.
pub open spec fn fixed_text(buffer: Seq<u8>, max_len: nat) -> Seq<char> {
    lossy_text(text_bytes(buffer, max_len))
}

/// The appliance type that a type code stands for.
pub open spec fn appliance_type_of(code: u32) -> ApplianceType {
    if code == APPLIANCE_TYPE_X2_SERVER {
        ApplianceType::X2Server
    } else if code == APPLIANCE_TYPE_X2_PRO_SERVER {
        ApplianceType::X2ProServer
    } else {
        ApplianceType::Unknown
    }
}

/// The identity that a record decodes to. The address and the build number are
/// carried over; each text buffer is read up to its terminator or its end.
pub open spec fn decoded(d: DescriptorView) -> ApplianceInfoView {
    ApplianceInfoView {
        mac: d.mac,
        build_number: d.build_number,
        release_name: fixed_text(d.release_name, d.release_name.len()),
        system_setup: fixed_text(d.system_setup, d.system_setup.len()),
        timezone_id: fixed_text(d.timezone_id, d.timezone_id.len()),
        appliance_type: appliance_type_of(d.appliance_type),
    }
}

/// The text of a buffer stops at the first terminator within the bound: it is
/// no longer than the buffer or the bound, holds no zero byte, and where it is
/// shorter than both, a zero byte follows it.
pub proof fn lemma_text_len_stops_at_terminator(buffer: Seq<u8>, max_len: nat)
    ensures
        text_len(buffer, max_len) <= buffer.len(),
        text_len(buffer, max_len) <= max_len,
        forall|i: int| 0 <= i < text_len(buffer, max_len) ==> buffer[i] != 0,
        text_len(buffer, max_len) < buffer.len() && text_len(buffer, max_len) < max_len
            ==> buffer[text_len(buffer, max_len) as int] == 0,
    decreases buffer.len(),
{
    if buffer.len() > 0 && max_len > 0 && buffer[0] != 0 {
        let rest = buffer.drop_first();
        lemma_text_len_stops_at_terminator(rest, (max_len - 1) as nat);
        assert forall|i: int| 0 <= i < text_len(buffer, max_len) implies buffer[i] != 0 by {
            if i > 0 {
                assert(buffer[i] == rest[i - 1]);
            }
        }
    }
}

/// A length with the three properties of the text length is the text length.
pub proof fn lemma_text_len_unique(buffer: Seq<u8>, max_len: nat, n: nat)
    requires
        n <= buffer.len(),
        n <= max_len,
        forall|i: int| 0 <= i < n ==> buffer[i] != 0,
        n < buffer.len() && n < max_len ==> buffer[n as int] == 0,
    ensures
        text_len(buffer, max_len) == n,
    decreases buffer.len(),
{
    if buffer.len() > 0 && max_len > 0 && buffer[0] != 0 {
        let rest = buffer.drop_first();
        assert forall|i: int| 0 <= i < n - 1 implies rest[i] != 0 by {
            assert(rest[i] == buffer[i + 1]);
        }
        lemma_text_len_unique(rest, (max_len - 1) as nat, (n - 1) as nat);
    }
}

/// Renders a MAC address as lowercase hexadecimal octets joined by colons.
pub fn decode_mac(bytes: &[u8; 6]) -> (text: String)
    ensures
        text@ == mac_text(bytes@),
        text@.len() == 17,
{
    let mut text = String::new();
    let mut i: usize = 0;
    while i < MAC_LEN
        invariant
            i <= MAC_LEN,
            bytes@.len() == MAC_LEN,
            text@.len() == mac_text_len(bytes@.take(i as int)),
            forall|k: int| 0 <= k < text@.len() ==> text@[k] == mac_text_char(bytes@, k),
        decreases MAC_LEN - i,
    {
        if i > 0 {
            text.push(':');
        }
        let octet: u8 = bytes[i];
        text.push(hex_digit(octet / 16));
        text.push(hex_digit(octet % 16));
        i += 1;
    }
    assert(bytes@.take(MAC_LEN as int) =~= bytes@);
    assert(text@ =~= mac_text(bytes@));
    text
}

/// The length of the text in `buffer`: the place of the first zero byte among
/// its first `max_len` bytes, or the number of those bytes where none is zero.
pub fn terminated_len(buffer: &[u8], max_len: usize) -> (n: usize)
    ensures
        n == text_len(buffer@, max_len as nat),
        n <= buffer@.len(),
        n <= max_len,
{
    let bound: usize = if max_len < buffer.len() {
        max_len
    } else {
        buffer.len()
    };
    let mut n: usize = 0;
    while n < bound && buffer[n] != 0
        invariant
            n <= bound,
            bound <= buffer@.len(),
            bound <= max_len,
            forall|i: int| 0 <= i < n ==> buffer@[i] != 0,
        decreases bound - n,
    {
        n += 1;
    }
    proof {
        lemma_text_len_unique(buffer@, max_len as nat, n as nat);
    }
    n
}

/// Reads the text in a fixed-capacity buffer: the bytes before the first zero
/// byte among the first `max_len`, or all of those bytes where none is zero.
/// Bytes that are valid UTF-8 are decoded as they are, so ASCII reads byte for
/// character; any others are decoded with replacement characters, so every
/// buffer has a text.
pub fn decode_fixed_text(buffer: &[u8], max_len: usize) -> (text: String)
    ensures
        text@ == fixed_text(buffer@, max_len as nat),
        valid_utf8(text_bytes(buffer@, max_len as nat)) ==> text@ == decode_utf8(
            text_bytes(buffer@, max_len as nat),
        ),
        all_ascii(text_bytes(buffer@, max_len as nat)) ==> text@ == ascii_text(
            text_bytes(buffer@, max_len as nat),
        ),
{
    let n: usize = terminated_len(buffer, max_len);
    let bytes = slice_subrange(buffer, 0, n);
    proof {
        if all_ascii(bytes@) {
            lemma_ascii_reads_as_itself(bytes@);
        }
    }
    utf8_lossy(bytes)
}

/// Maps a type code to the appliance type. A code that is not known is no
/// error: it gives `Unknown`.
pub fn decode_appliance_type(code: u32) -> (kind: ApplianceType)
    ensures
        kind == appliance_type_of(code),
        code != APPLIANCE_TYPE_X2_SERVER && code != APPLIANCE_TYPE_X2_PRO_SERVER
            ==> kind == ApplianceType::Unknown,
{
    if code == APPLIANCE_TYPE_X2_SERVER {
        ApplianceType::X2Server
    } else if code == APPLIANCE_TYPE_X2_PRO_SERVER {
        ApplianceType::X2ProServer
    } else {
        ApplianceType::Unknown
    }
}

/// Decodes a record into the identity it describes.
pub fn decode(descriptor: &ApplianceDescriptor) -> (info: ApplianceInfo)
    ensures
        info@ == decoded(descriptor@),
{
    ApplianceInfo {
        mac: descriptor.mac,
        build_number: descriptor.build_number,
        release_name: decode_fixed_text(
            descriptor.release_name.as_slice(),
            descriptor.release_name.len(),
        ),
        system_setup: decode_fixed_text(
            descriptor.system_setup.as_slice(),
            descriptor.system_setup.len(),
        ),
        timezone_id: decode_fixed_text(
            descriptor.timezone_id.as_slice(),
            descriptor.timezone_id.len(),
        ),
        appliance_type: decode_appliance_type(descriptor.appliance_type),
    }
}

impl ApplianceType {
    /// The name of the type as it stands in a report.
    pub open spec fn name_text(self) -> Seq<char> {
        match self {
            ApplianceType::X2Server => "X2Server"@,
            ApplianceType::X2ProServer => "X2ProServer"@,
            ApplianceType::Unknown => "Unknown"@,
        }
    }

    /// The name of the type as it stands in a report.
    pub fn name(&self) -> (name: &'static str)
        ensures
            name@ == self.name_text(),
    {
        match self {
            ApplianceType::X2Server => "X2Server",
            ApplianceType::X2ProServer => "X2ProServer",
            ApplianceType::Unknown => "Unknown",
        }
    }
}

} // verus!
