//! One message per datagram: the wire format, written and read.

use vstd::prelude::*;
use vstd::bytes::{
    lemma_auto_spec_u16_to_from_le_bytes, lemma_auto_spec_u32_to_from_le_bytes,
    spec_u16_from_le_bytes, spec_u16_to_le_bytes, spec_u32_from_le_bytes, spec_u32_to_le_bytes,
    u16_from_le_bytes, u32_from_le_bytes, u32_to_le_bytes,
};
use vstd::slice::{slice_subrange, slice_to_vec};
use vstd::utf8::{decode_utf8, encode_utf8, valid_utf8};
use crate::clock::Timestamp;
use crate::distributed::error::DistributedStorageError;
use crate::distributed::message::{
    i32_from_word, i32_to_word, i8_from_byte, i8_to_byte, version_bytes, write_version, Content,
    ContentView, Message, MessageView, WhitelistContent, WHITELIST_LEN, WHITELIST_TAG,
};

verus! {

#[verifier::external_type_specification]
#[verifier::external_body]
pub struct ExBytesMut(bytes::BytesMut);

/// The bytes that a buffer holds, first to last.
pub uninterp spec fn buffered(buf: bytes::BytesMut) -> Seq<u8>;

/// `BytesMut::is_empty`: whether the buffer holds no byte.
#[verifier::external_body]
fn buf_is_empty(buf: &bytes::BytesMut) -> (r: bool)
    ensures
        r == (buffered(*buf).len() == 0),
{
    buf.is_empty()
}

/// `BytesMut::split_to` at the buffer's `len`: hands out all the bytes that
/// the buffer holds, in order, and leaves it empty.
#[verifier::external_body]
fn buf_take(buf: &mut bytes::BytesMut) -> (taken: Vec<u8>)
    ensures
        taken@ == buffered(*old(buf)),
        buffered(*final(buf)) == Seq::<u8>::empty(),
{
    let len = buf.len();
    buf.split_to(len).to_vec()
}

/// `BytesMut::reserve` and `BufMut::put_slice`: appends `data` to what the
/// buffer holds. Like a `Vec`, the buffer grows as needed and gives up only
/// where the allocation cannot be had.
#[verifier::external_body]
fn buf_put(buf: &mut bytes::BytesMut, data: &[u8])
    ensures
        buffered(*final(buf)) == buffered(*old(buf)) + data@,
{
    buf.reserve(data.len());
    bytes::BufMut::put_slice(buf, data);
}

/// `String::from_utf8`: the string whose UTF-8 encoding `bytes` is, if it is
/// one.
#[verifier::external_body]
fn string_from_utf8(bytes: Vec<u8>) -> (r: Option<String>)
    ensures
        r is Some <==> valid_utf8(bytes@),
        r matches Some(s) ==> s@ == decode_utf8(bytes@),
{
    match String::from_utf8(bytes) {
        Ok(s) => Some(s),
        Err(_) => None,
    }
}

impl MessageView {
    /// The message on the wire: the version, the content, and the checksum
    /// in four bytes, low byte first.
    pub open spec fn bytes(self) -> Seq<u8> {
        version_bytes(self.version) + self.content.bytes() + spec_u32_to_le_bytes(self.checksum)
    }
}

/// The message that `b` is the encoding of, whatever its checksum; `None`
/// where `b` is too short for its parts, the version is not UTF-8, a known
/// content has not exactly its fields, or its moment is none that the
/// calendar accepts. Content under an unknown tag is kept as it is.
pub open spec fn parsed(b: Seq<u8>) -> Option<MessageView> {
    if b.len() < 4 {
        None
    } else {
        let n = spec_u32_from_le_bytes(b.subrange(0, 4)) as int;
        if b.len() < 4 + n + 1 + 4 {
            None
        } else {
            let version = b.subrange(4, 4 + n);
            let tag = b[4 + n];
            let fields = b.subrange(4 + n + 1, b.len() - 4);
            let checksum = spec_u32_from_le_bytes(b.subrange(b.len() - 4, b.len() as int));
            if !valid_utf8(version) {
                None
            } else if tag == WHITELIST_TAG {
                let w = WhitelistContent::from_bytes(fields);
                if fields.len() != WHITELIST_LEN || w.sent_ts.instant() is None {
                    None
                } else {
                    Some(
                        MessageView {
                            version: decode_utf8(version),
                            content: ContentView::Whitelist(w),
                            checksum,
                        },
                    )
                }
            } else {
                Some(
                    MessageView {
                        version: decode_utf8(version),
                        content: ContentView::Unknown { tag, payload: fields },
                        checksum,
                    },
                )
            }
        }
    }
}

/// What decoding the payload `b` of a datagram gives: no message for an
/// empty payload, else the message that `b` encodes if its checksum holds.
pub open spec fn decoded(b: Seq<u8>) -> Result<Option<MessageView>, DistributedStorageError> {
    if b.len() == 0 {
        Ok(None)
    } else {
        match parsed(b) {
            None => Err(DistributedStorageError::Malformed),
            Some(m) => match m.checked() {
                Ok(_) => Ok(Some(m)),
                Err(e) => Err(e),
            },
        }
    }
}

/// Whether `r` is what `decoded` says of `b`, the message taken by its view.
pub open spec fn decodes_as(
    b: Seq<u8>,
    r: Result<Option<Message>, DistributedStorageError>,
) -> bool {
    match decoded(b) {
        Ok(None) => r matches Ok(None),
        Ok(Some(mv)) => r matches Ok(Some(m)) && m@ == mv,
        Err(e) => r matches Err(got) && got == e,
    }
}

/// The signed byte for `b` on the wire.
pub fn i8_of_byte(b: u8) -> (x: i8)
    ensures
        x == i8_from_byte(b),
{
    if b < 128 {
        b as i8
    } else {
        (b as i16 - 256) as i8
    }
}

/// The signed word for `w` on the wire.
pub fn i32_of_word(w: u32) -> (x: i32)
    ensures
        x == i32_from_word(w),
{
    if w < 0x8000_0000 {
        w as i32
    } else {
        (w as i64 - 0x1_0000_0000) as i32
    }
}

/// Reads the twenty bytes of a `WhitelistContent`.
fn parse_whitelist(fields: &[u8]) -> (w: WhitelistContent)
    requires
        fields@.len() == WHITELIST_LEN,
    ensures
        w == WhitelistContent::from_bytes(fields@),
{
    WhitelistContent {
        sent_ts: Timestamp {
            year: i32_of_word(u32_from_le_bytes(slice_subrange(fields, 0, 4))),
            ordinal: u16_from_le_bytes(slice_subrange(fields, 4, 6)),
            hour: fields[6],
            minute: fields[7],
            second: fields[8],
            nanosecond: u32_from_le_bytes(slice_subrange(fields, 9, 13)),
            offset_hours: i8_of_byte(fields[13]),
            offset_minutes: i8_of_byte(fields[14]),
            offset_seconds: i8_of_byte(fields[15]),
        },
        permits: u32_from_le_bytes(slice_subrange(fields, 16, 20)),
    }
}

/// Reads a message from the payload of a datagram without checking its
/// checksum.
pub fn parse_message(bytes: &[u8]) -> (r: Option<Message>)
    ensures
        match parsed(bytes@) {
            None => r is None,
            Some(mv) => r matches Some(m) && m@ == mv,
        },
{
    let len = bytes.len();
    if len < 4 {
        return None;
    }
    let n: u32 = u32_from_le_bytes(slice_subrange(bytes, 0, 4));
    if (len as u64) < 9 + (n as u64) {
        return None;
    }
    let n: usize = n as usize;
    let version = match string_from_utf8(slice_to_vec(slice_subrange(bytes, 4, 4 + n))) {
        Some(version) => version,
        None => {
            return None;
        },
    };
    let tag = bytes[4 + n];
    let fields = slice_subrange(bytes, 4 + n + 1, len - 4);
    let checksum = u32_from_le_bytes(slice_subrange(bytes, len - 4, len));
    if tag == WHITELIST_TAG {
        if fields.len() != WHITELIST_LEN {
            return None;
        }
        let w = parse_whitelist(fields);
        if w.sent_ts.unix_nanos().is_none() {
            return None;
        }
        Some(Message { version, content: Content::Whitelist(w), checksum })
    } else {
        Some(
            Message { version, content: Content::Unknown { tag, payload: slice_to_vec(fields) }, checksum },
        )
    }
}

/// Decodes the payload of one datagram.
pub fn decode_datagram(bytes: &[u8]) -> (r: Result<Option<Message>, DistributedStorageError>)
    ensures
        decodes_as(bytes@, r),
{
    if bytes.len() == 0 {
        return Ok(None);
    }
    match parse_message(bytes) {
        None => Err(DistributedStorageError::Malformed),
        Some(m) => match m.check_checksum() {
            Ok(_) => Ok(Some(m)),
            Err(e) => Err(e),
        },
    }
}

/// The payload of the datagram that carries `item`; `None` where the
/// version is too long for the wire.
pub fn encode_message(item: &Message) -> (r: Option<Vec<u8>>)
    ensures
        r is Some <==> encode_utf8(item@.version).len() <= u32::MAX,
        r matches Some(enc) ==> enc@ == item@.bytes(),
{
    if item.version.as_str().as_bytes().len() > u32::MAX as usize {
        return None;
    }
    let mut enc: Vec<u8> = Vec::new();
    write_version(item.version.as_str(), &mut enc);
    item.content.write_to(&mut enc);
    let mut checksum = u32_to_le_bytes(item.checksum);
    enc.append(&mut checksum);
    assert(enc@ =~= item@.bytes());
    Some(enc)
}

#[derive(Debug)]
pub struct Codec(());

impl Default for Codec {
    fn default() -> (c: Codec) {
        Codec(())
    }
}

impl Codec {
    /// Appends the encoding of `item` to `dst`. A message whose version is
    /// too long for the wire is refused and `dst` left as it was.
    pub fn encode(&mut self, item: Message, dst: &mut bytes::BytesMut) -> (r: Result<
        (),
        DistributedStorageError,
    >)
        ensures
            r is Ok <==> encode_utf8(item@.version).len() <= u32::MAX,
            r is Ok ==> buffered(*final(dst)) == buffered(*old(dst)) + item@.bytes(),
            r is Err ==> r == Err::<(), _>(DistributedStorageError::Malformed) && buffered(
                *final(dst),
            ) == buffered(*old(dst)),
    {
        match encode_message(&item) {
            Some(enc) => {
                buf_put(dst, enc.as_slice());
                Ok(())
            },
            None => Err(DistributedStorageError::Malformed),
        }
    }

    /// Takes all that `src` holds as the payload of one datagram and decodes
    /// it. Nothing is left in `src`, whatever the outcome.
    pub fn decode(&mut self, src: &mut bytes::BytesMut) -> (r: Result<
        Option<Message>,
        DistributedStorageError,
    >)
        ensures
            decodes_as(buffered(*old(src)), r),
            buffered(*final(src)) == Seq::<u8>::empty(),
    {
        if !buf_is_empty(src) {
            let buf = buf_take(src);
            decode_datagram(buf.as_slice())
        } else {
            proof {
                assert(buffered(*src) =~= Seq::<u8>::empty());
            }
            Ok(None)
        }
    }
}

/// The fields of a `WhitelistContent` are twenty bytes, and reading them
/// gives the content back.
pub proof fn lemma_whitelist_round_trip(w: WhitelistContent)
    ensures
        w.bytes().len() == WHITELIST_LEN,
        WhitelistContent::from_bytes(w.bytes()) == w,
{
    lemma_auto_spec_u32_to_from_le_bytes();
    lemma_auto_spec_u16_to_from_le_bytes();
    let b = w.bytes();
    let year = spec_u32_to_le_bytes(i32_to_word(w.sent_ts.year));
    let ordinal = spec_u16_to_le_bytes(w.sent_ts.ordinal);
    let nanosecond = spec_u32_to_le_bytes(w.sent_ts.nanosecond);
    let permits = spec_u32_to_le_bytes(w.permits);
    assert(year.len() == 4 && ordinal.len() == 2 && nanosecond.len() == 4 && permits.len() == 4);
    assert(b.len() == 20);
    assert(b.subrange(0, 4) =~= year);
    assert(b.subrange(4, 6) =~= ordinal);
    assert(b.subrange(9, 13) =~= nanosecond);
    assert(b.subrange(16, 20) =~= permits);
    assert(b[6] == w.sent_ts.hour && b[7] == w.sent_ts.minute && b[8] == w.sent_ts.second);
    assert(b[13] == i8_to_byte(w.sent_ts.offset_hours));
    assert(b[14] == i8_to_byte(w.sent_ts.offset_minutes));
    assert(b[15] == i8_to_byte(w.sent_ts.offset_seconds));
}

/// Reading the encoding of a well-formed message gives the message back.
pub proof fn lemma_parse_round_trip(m: MessageView)
    ensures
        m.wf() ==> parsed(m.bytes()) == Some(m),
        m.bytes().len() >= 9,
{
    lemma_auto_spec_u32_to_from_le_bytes();
    vstd::utf8::encode_utf8_valid_utf8(m.version);
    vstd::utf8::encode_utf8_decode_utf8(m.version);
    let version = encode_utf8(m.version);
    let n = version.len() as int;
    let head = spec_u32_to_le_bytes(n as u32);
    let content = m.content.bytes();
    let tail = spec_u32_to_le_bytes(m.checksum);
    let b = m.bytes();
    assert(head.len() == 4 && tail.len() == 4);
    match m.content {
        ContentView::Whitelist(w) => {
            lemma_whitelist_round_trip(w);
        },
        ContentView::Unknown { tag, payload } => {},
    }
    assert(content.len() >= 1);
    assert(b.len() == 4 + n + content.len() + 4);
    if m.wf() {
        assert(b.subrange(0, 4) =~= head);
        assert(b.subrange(4, 4 + n) =~= version);
        assert(b.subrange(b.len() - 4, b.len() as int) =~= tail);
        assert(b[4 + n] == content[0]);
        assert(b.subrange(4 + n + 1, b.len() - 4) =~= content.subrange(1, content.len() as int));
        match m.content {
            ContentView::Whitelist(w) => {
                assert(content.subrange(1, content.len() as int) =~= w.bytes());
            },
            ContentView::Unknown { tag, payload } => {
                assert(content.subrange(1, content.len() as int) =~= payload);
            },
        }
    }
}

/// Twenty bytes are the fields of the content that is read from them.
pub proof fn lemma_whitelist_bytes_round_trip(fields: Seq<u8>)
    requires
        fields.len() == WHITELIST_LEN,
    ensures
        WhitelistContent::from_bytes(fields).bytes() == fields,
{
    lemma_auto_spec_u32_to_from_le_bytes();
    lemma_auto_spec_u16_to_from_le_bytes();
    let w = WhitelistContent::from_bytes(fields);
    let year = fields.subrange(0, 4);
    let ordinal = fields.subrange(4, 6);
    let nanosecond = fields.subrange(9, 13);
    let permits = fields.subrange(16, 20);
    assert(spec_u32_to_le_bytes(spec_u32_from_le_bytes(year)) == year);
    assert(spec_u16_to_le_bytes(spec_u16_from_le_bytes(ordinal)) == ordinal);
    assert(spec_u32_to_le_bytes(spec_u32_from_le_bytes(nanosecond)) == nanosecond);
    assert(spec_u32_to_le_bytes(spec_u32_from_le_bytes(permits)) == permits);
    assert(i32_to_word(w.sent_ts.year) == spec_u32_from_le_bytes(year));
    assert(w.bytes() =~= fields);
}

/// Only encodings are read: a payload that is read as a message is the
/// encoding of that message, and the message is well formed.
pub proof fn lemma_parsed_is_encoding(b: Seq<u8>)
    ensures
        parsed(b) matches Some(m) ==> m.wf() && m.bytes() == b,
{
    if let Some(m) = parsed(b) {
        lemma_auto_spec_u32_to_from_le_bytes();
        let head = b.subrange(0, 4);
        let n = spec_u32_from_le_bytes(head) as int;
        let version = b.subrange(4, 4 + n);
        let fields = b.subrange(4 + n + 1, b.len() - 4);
        let tail = b.subrange(b.len() - 4, b.len() as int);
        vstd::utf8::decode_utf8_encode_utf8(version);
        assert(encode_utf8(m.version) == version);
        assert(spec_u32_to_le_bytes(spec_u32_from_le_bytes(head)) == head);
        assert(version_bytes(m.version) =~= head + version);
        assert(spec_u32_to_le_bytes(spec_u32_from_le_bytes(tail)) == tail);
        match m.content {
            ContentView::Whitelist(w) => {
                lemma_whitelist_bytes_round_trip(fields);
            },
            ContentView::Unknown { tag, payload } => {},
        }
        assert(m.content.bytes() =~= seq![b[4 + n]] + fields);
        assert(m.bytes() =~= b);
    }
}

/// A payload that is read as a message whose checksum is not the one of
/// its version and content is refused, and the error names both sums.
pub proof fn lemma_mismatch_is_reported(b: Seq<u8>)
    ensures
        parsed(b) matches Some(m) ==> (m.checksum != m.checksum_due() ==> decoded(b) == Err::<
            Option<MessageView>,
            _,
        >(DistributedStorageError::ChecksumMismatch { act: m.checksum, exp: m.checksum_due() })),
{
}

/// Damage to the checksum field is always found: the encoding of a
/// well-formed message with its last four bytes replaced by any others is
/// refused, and the error names the sum that came and the one that is due.
pub proof fn lemma_damaged_checksum_is_refused(m: MessageView, tail: Seq<u8>)
    requires
        m.wf(),
        m.checksum == m.checksum_due(),
        tail.len() == 4,
        tail != spec_u32_to_le_bytes(m.checksum),
    ensures
        decoded(version_bytes(m.version) + m.content.bytes() + tail) == Err::<
            Option<MessageView>,
            _,
        >(
            DistributedStorageError::ChecksumMismatch {
                act: spec_u32_from_le_bytes(tail),
                exp: m.checksum,
            },
        ),
{
    lemma_auto_spec_u32_to_from_le_bytes();
    let came = spec_u32_from_le_bytes(tail);
    assert(spec_u32_to_le_bytes(came) == tail);
    let damaged = MessageView { checksum: came, ..m };
    assert(damaged.bytes() == version_bytes(m.version) + m.content.bytes() + tail);
    lemma_decode_encode(damaged);
}

/// Decoding what was encoded gives the message back: a well-formed message
/// that carries the checksum of its version and content is decoded from its
/// own encoding, and one that carries another checksum is refused for it.
/// No other payload is decoded to that message.
pub proof fn lemma_decode_encode(m: MessageView)
    ensures
        forall|b: Seq<u8>| #[trigger] decoded(b) == Ok::<_, DistributedStorageError>(Some(m)) ==> b == m.bytes(),
        m.wf() && m.checksum == m.checksum_due() ==> decoded(m.bytes()) == Ok::<
            _,
            DistributedStorageError,
        >(Some(m)),
        m.wf() && m.checksum != m.checksum_due() ==> decoded(m.bytes()) == Err::<
            Option<MessageView>,
            _,
        >(DistributedStorageError::ChecksumMismatch { act: m.checksum, exp: m.checksum_due() }),
{
    lemma_parse_round_trip(m);
    assert forall|b: Seq<u8>| #[trigger]
        decoded(b) == Ok::<_, DistributedStorageError>(Some(m)) implies b == m.bytes() by {
        lemma_parsed_is_encoding(b);
    }
}

} // verus!
