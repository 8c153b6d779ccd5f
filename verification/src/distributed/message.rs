//! The message that one datagram carries, and its checksum.

use vstd::prelude::*;
use vstd::bytes::{
    spec_u16_from_le_bytes, spec_u16_to_le_bytes, spec_u32_from_le_bytes, spec_u32_to_le_bytes,
    u16_to_le_bytes, u32_to_le_bytes,
};
use vstd::utf8::encode_utf8;
use crate::clock::Timestamp;
use crate::distributed::error::DistributedStorageError;

verus! {

/// The CRC-32 (IEEE) of a byte string, as `crc32fast` computes it.
pub uninterp spec fn crc32_of(data: Seq<u8>) -> u32;

/// `crc32fast::hash`: the CRC-32 of `data`, which depends on the bytes alone.
#[verifier::external_body]
fn crc32(data: &[u8]) -> (sum: u32)
    ensures
        sum == crc32_of(data@),
{
    crc32fast::hash(data)
}

/// The tag byte of `Content::Whitelist` on the wire.
pub const WHITELIST_TAG: u8 = 0;

/// Bytes that the fields of a `WhitelistContent` take on the wire.
pub const WHITELIST_LEN: usize = 20;

/// The version that this build stamps its messages with.
pub open spec fn version_text() -> Seq<char> {
    "0.2.0"@
}

/// The version on the wire: the length of its UTF-8 bytes in four bytes, low
/// byte first, then those bytes. A length beyond four bytes is cut to them.
pub open spec fn version_bytes(version: Seq<char>) -> Seq<u8> {
    spec_u32_to_le_bytes(encode_utf8(version).len() as u32) + encode_utf8(version)
}

/// The byte that stands for a signed byte on the wire (two's complement).
pub open spec fn i8_to_byte(x: i8) -> u8 {
    if x >= 0 {
        x as u8
    } else {
        (x + 256) as u8
    }
}

/// The signed byte that a byte on the wire stands for.
pub open spec fn i8_from_byte(b: u8) -> i8 {
    if b < 128 {
        b as i8
    } else {
        (b - 256) as i8
    }
}

/// The unsigned word that stands for a signed word on the wire (two's
/// complement).
pub open spec fn i32_to_word(x: i32) -> u32 {
    if x >= 0 {
        x as u32
    } else {
        (x + 0x1_0000_0000) as u32
    }
}

/// The signed word that an unsigned word on the wire stands for.
pub open spec fn i32_from_word(w: u32) -> i32 {
    if w < 0x8000_0000 {
        w as i32
    } else {
        (w - 0x1_0000_0000) as i32
    }
}

#[derive(Debug, Copy, Clone, Eq, PartialEq)]
pub enum ContentKind {
    Whitelist,
    /// Content of a kind that this build does not know.
    Unknown,
}

#[derive(Debug, Clone, Copy, Eq, PartialEq, Hash)]
pub struct WhitelistContent {
    pub sent_ts: Timestamp,
    pub permits: u32,
}

#[derive(Debug, Clone, Eq, PartialEq, Hash)]
pub enum Content {
    Whitelist(WhitelistContent),
    /// Content under a tag that this build does not know, kept as it came.
    Unknown { tag: u8, payload: Vec<u8> },
}

/// What a `Content` holds.
pub enum ContentView {
    Whitelist(WhitelistContent),
    Unknown { tag: u8, payload: Seq<u8> },
}

#[derive(Debug, Clone, Eq, PartialEq)]
pub struct Message {
    pub version: String,
    pub content: Content,
    pub checksum: u32,
}

/// What a `Message` holds.
pub struct MessageView {
    pub version: Seq<char>,
    pub content: ContentView,
    pub checksum: u32,
}

impl WhitelistContent {
    /// The fields on the wire: year, day of the year, hour, minute, second,
    /// nanosecond, the offset's hours, minutes and seconds, and the permits;
    /// integers of more than one byte with the low byte first.
    pub open spec fn bytes(self) -> Seq<u8> {
        spec_u32_to_le_bytes(i32_to_word(self.sent_ts.year)) + spec_u16_to_le_bytes(
            self.sent_ts.ordinal,
        ) + seq![self.sent_ts.hour, self.sent_ts.minute, self.sent_ts.second]
            + spec_u32_to_le_bytes(self.sent_ts.nanosecond) + seq![
            i8_to_byte(self.sent_ts.offset_hours),
            i8_to_byte(self.sent_ts.offset_minutes),
            i8_to_byte(self.sent_ts.offset_seconds),
        ] + spec_u32_to_le_bytes(self.permits)
    }

    /// The content whose fields are the twenty bytes `b`.
    pub open spec fn from_bytes(b: Seq<u8>) -> WhitelistContent
        recommends
            b.len() == WHITELIST_LEN,
    {
        WhitelistContent {
            sent_ts: Timestamp {
                year: i32_from_word(spec_u32_from_le_bytes(b.subrange(0, 4))),
                ordinal: spec_u16_from_le_bytes(b.subrange(4, 6)),
                hour: b[6],
                minute: b[7],
                second: b[8],
                nanosecond: spec_u32_from_le_bytes(b.subrange(9, 13)),
                offset_hours: i8_from_byte(b[13]),
                offset_minutes: i8_from_byte(b[14]),
                offset_seconds: i8_from_byte(b[15]),
            },
            permits: spec_u32_from_le_bytes(b.subrange(16, 20)),
        }
    }
}

impl ContentView {
    pub open spec fn kind(self) -> ContentKind {
        match self {
            ContentView::Whitelist(_) => ContentKind::Whitelist,
            ContentView::Unknown { .. } => ContentKind::Unknown,
        }
    }

    /// Known content carries a moment that the calendar accepts; unknown
    /// content stands under a tag that is not a known one.
    pub open spec fn wf(self) -> bool {
        match self {
            ContentView::Whitelist(w) => w.sent_ts.instant() is Some,
            ContentView::Unknown { tag, payload } => tag != WHITELIST_TAG,
        }
    }

    /// The content on the wire: its tag, then its fields.
    pub open spec fn bytes(self) -> Seq<u8> {
        match self {
            ContentView::Whitelist(w) => seq![WHITELIST_TAG] + w.bytes(),
            ContentView::Unknown { tag, payload } => seq![tag] + payload,
        }
    }
}

impl View for Content {
    type V = ContentView;

    open spec fn view(&self) -> ContentView {
        match self {
            Content::Whitelist(w) => ContentView::Whitelist(*w),
            Content::Unknown { tag, payload } => ContentView::Unknown {
                tag: *tag,
                payload: payload@,
            },
        }
    }
}

impl MessageView {
    /// The checksum that goes with this version and content: the CRC-32 of
    /// the version's bytes followed by the content's bytes, both as they
    /// stand on the wire.
    pub open spec fn checksum_due(self) -> u32 {
        crc32_of(version_bytes(self.version) + self.content.bytes())
    }

    /// The result of checking the checksum that the message carries.
    pub open spec fn checked(self) -> Result<(), DistributedStorageError> {
        if self.checksum == self.checksum_due() {
            Ok(())
        } else {
            Err(
                DistributedStorageError::ChecksumMismatch {
                    act: self.checksum,
                    exp: self.checksum_due(),
                },
            )
        }
    }

    /// The content is well formed and the version's length can be written
    /// in the four bytes that the wire has for it.
    pub open spec fn wf(self) -> bool {
        &&& self.content.wf()
        &&& encode_utf8(self.version).len() <= u32::MAX
    }
}

impl View for Message {
    type V = MessageView;

    open spec fn view(&self) -> MessageView {
        MessageView { version: self.version@, content: self.content@, checksum: self.checksum }
    }
}

/// The byte for `x` on the wire.
pub fn byte_of_i8(x: i8) -> (b: u8)
    ensures
        b == i8_to_byte(x),
{
    if x >= 0 {
        x as u8
    } else {
        (x as i16 + 256) as u8
    }
}

/// The word for `x` on the wire.
pub fn word_of_i32(x: i32) -> (w: u32)
    ensures
        w == i32_to_word(x),
{
    if x >= 0 {
        x as u32
    } else {
        (x as i64 + 0x1_0000_0000) as u32
    }
}

impl WhitelistContent {
    /// Appends the fields to `out` as they go on the wire.
    pub fn write_to(&self, out: &mut Vec<u8>)
        ensures
            final(out)@ == old(out)@ + self.bytes(),
    {
        let ghost before = out@;
        let mut year = u32_to_le_bytes(word_of_i32(self.sent_ts.year));
        out.append(&mut year);
        let mut ordinal = u16_to_le_bytes(self.sent_ts.ordinal);
        out.append(&mut ordinal);
        out.push(self.sent_ts.hour);
        out.push(self.sent_ts.minute);
        out.push(self.sent_ts.second);
        let mut nanosecond = u32_to_le_bytes(self.sent_ts.nanosecond);
        out.append(&mut nanosecond);
        out.push(byte_of_i8(self.sent_ts.offset_hours));
        out.push(byte_of_i8(self.sent_ts.offset_minutes));
        out.push(byte_of_i8(self.sent_ts.offset_seconds));
        let mut permits = u32_to_le_bytes(self.permits);
        out.append(&mut permits);
        assert(out@ =~= before + self.bytes());
    }
}

impl Content {
    pub fn kind(&self) -> (k: ContentKind)
        ensures
            k == self@.kind(),
    {
        match self {
            Content::Whitelist(_) => ContentKind::Whitelist,
            Content::Unknown { .. } => ContentKind::Unknown,
        }
    }

    /// Appends the tag and the fields to `out` as they go on the wire.
    pub fn write_to(&self, out: &mut Vec<u8>)
        ensures
            final(out)@ == old(out)@ + self@.bytes(),
    {
        let ghost before = out@;
        match self {
            Content::Whitelist(w) => {
                out.push(WHITELIST_TAG);
                w.write_to(out);
            },
            Content::Unknown { tag, payload } => {
                out.push(*tag);
                out.extend_from_slice(payload.as_slice());
            },
        }
        assert(out@ =~= before + self@.bytes());
    }
}

/// Appends the version to `out` as it goes on the wire.
pub fn write_version(version: &str, out: &mut Vec<u8>)
    ensures
        final(out)@ == old(out)@ + version_bytes(version@),
{
    let ghost before = out@;
    let bytes = version.as_bytes();
    let mut len = u32_to_le_bytes(#[verifier::truncate] (bytes.len() as u32));
    out.append(&mut len);
    out.extend_from_slice(bytes);
    assert(out@ =~= before + version_bytes(version@));
}

/// The checksum of a message with this version and content.
pub fn calculate_checksum(version: &str, content: &Content) -> (sum: u32)
    ensures
        sum == crc32_of(version_bytes(version@) + content@.bytes()),
{
    let mut data: Vec<u8> = Vec::new();
    write_version(version, &mut data);
    content.write_to(&mut data);
    assert(data@ =~= version_bytes(version@) + content@.bytes());
    crc32(data.as_slice())
}

impl Message {
    /// A message of this build with `content` and the checksum that goes
    /// with it.
    pub fn new(content: Content) -> (m: Self)
        ensures
            m@.version == version_text(),
            m@.content == content@,
            m@.checksum == m@.checksum_due(),
    {
        let version = "0.2.0".to_string();
        let checksum = calculate_checksum(version.as_str(), &content);
        Self { version, content, checksum }
    }

    /// Compares the checksum that the message carries with the one that its
    /// version and content give.
    pub fn check_checksum(&self) -> (r: Result<(), DistributedStorageError>)
        ensures
            r == self@.checked(),
    {
        let calc_checksum = calculate_checksum(self.version.as_str(), &self.content);
        if calc_checksum != self.checksum {
            return Err(
                DistributedStorageError::ChecksumMismatch { act: self.checksum, exp: calc_checksum },
            );
        }
        Ok(())
    }
}

} // verus!
