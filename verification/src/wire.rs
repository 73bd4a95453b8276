use vstd::prelude::*;
use vstd::slice::slice_subrange;
use vstd::string::*;
use vstd::utf8::*;

use crate::clock::{current_time_stamp, is_stamp_shaped, time_stamp_text, MAX_UTC_SECS};
use crate::text::{
    is_blank, is_blank_text, is_white_space, lemma_blank_iff_all_white_space, lemma_trim_end_at, lemma_trim_keeps_absent,
    lemma_trim_start_at, lemma_trimmed_ends_in_non_space, trim, trim_text,
};

verus! {

broadcast use vstd::string::group_string_axioms;

/// The size in bytes of every frame that goes over the connection.
pub const MSG_SIZE: usize = 4096;

/// The frame that carries `payload`: its bytes, cut or padded with zero bytes to
/// exactly `MSG_SIZE` bytes.
pub open spec fn frame_of(payload: Seq<u8>) -> Seq<u8> {
    Seq::new(MSG_SIZE as nat, |i: int| if i < payload.len() { payload[i] } else { 0u8 })
}

/// The bytes of a frame before its first zero byte (all of them where it has none).
pub open spec fn frame_payload(frame: Seq<u8>) -> Seq<u8>
    decreases frame.len(),
{
    if frame.len() == 0 || frame[0] == 0 {
        Seq::empty()
    } else {
        seq![frame[0]] + frame_payload(frame.drop_first())
    }
}

/// Whether the payload of a frame is well-formed UTF-8 text.
pub open spec fn frame_holds_text(frame: Seq<u8>) -> bool {
    valid_utf8(frame_payload(frame))
}

/// The message that a frame carries: its payload read as UTF-8, trimmed.
pub open spec fn frame_text(frame: Seq<u8>) -> Seq<char>
    recommends
        frame_holds_text(frame),
{
    trim(decode_utf8(frame_payload(frame)))
}

/// The line that a chat client sends: the time stamp, the author and the trimmed message.
pub open spec fn chat_line(stamp: Seq<char>, author: Seq<char>, message: Seq<char>) -> Seq<char> {
    stamp + "   -   "@ + author + " : "@ + trim(message)
}

/// Whether a message is sent at all: the client is connected and the message is not blank.
pub open spec fn is_sent(is_connected: bool, message: Seq<char>) -> bool {
    is_connected && !is_blank(message)
}

/// A client sends a message exactly when it is connected and the message holds some
/// character that is not whitespace, whatever else the message holds: newlines, several
/// lines, or whitespace around it.
pub proof fn lemma_sent_iff_visible_character(is_connected: bool, message: Seq<char>)
    ensures
        is_sent(is_connected, message) <==> (is_connected && exists|i: int|
            0 <= i < message.len() && !is_white_space(#[trigger] message[i])),
{
    lemma_blank_iff_all_white_space(message);
}

proof fn lemma_payload_at(frame: Seq<u8>, k: int)
    requires
        0 <= k <= frame.len(),
        forall|i: int| 0 <= i < k ==> #[trigger] frame[i] != 0,
        k == frame.len() || frame[k] == 0,
    ensures
        frame_payload(frame) == frame.subrange(0, k),
    decreases k,
{
    if k == 0 {
        assert(frame.subrange(0, 0) =~= Seq::<u8>::empty());
    } else {
        let t = frame.drop_first();
        assert(frame[0] != 0);
        assert forall|i: int| 0 <= i < k - 1 implies #[trigger] t[i] != 0 by {
            assert(t[i] == frame[i + 1]);
        }
        lemma_payload_at(t, k - 1);
        assert(seq![frame[0]] + t.subrange(0, k - 1) =~= frame.subrange(0, k));
    }
}

proof fn lemma_scalar_bytes_nonzero(u: u32)
    requires
        is_scalar(u),
        u != 0,
    ensures
        forall|j: int| 0 <= j < encode_scalar(u).len() ==> #[trigger] encode_scalar(u)[j] != 0,
{
    assert(u <= 0x7F && u != 0 ==> (u & 0x7F) as u8 != 0) by (bit_vector);
    assert(0xC0u8 | ((u >> 6) & 0x1F) as u8 != 0) by (bit_vector);
    assert(0xE0u8 | ((u >> 12) & 0x0F) as u8 != 0) by (bit_vector);
    assert(0xF0u8 | ((u >> 18) & 0x7) as u8 != 0) by (bit_vector);
    assert(0x80u8 | (u & 0x3F) as u8 != 0) by (bit_vector);
    assert(0x80u8 | ((u >> 6) & 0x3F) as u8 != 0) by (bit_vector);
    assert(0x80u8 | ((u >> 12) & 0x3F) as u8 != 0) by (bit_vector);
}

proof fn lemma_encoding_nonzero(chars: Seq<char>)
    requires
        !chars.contains('\0'),
    ensures
        forall|j: int| 0 <= j < encode_utf8(chars).len() ==> #[trigger] encode_utf8(chars)[j] != 0,
    decreases chars.len(),
{
    if chars.len() > 0 {
        let c = chars[0];
        let rest = chars.drop_first();
        assert(!rest.contains('\0')) by {
            if rest.contains('\0') {
                let i = choose|i: int| 0 <= i < rest.len() && rest[i] == '\0';
                assert(chars[i + 1] == '\0');
            }
        }
        assert(chars[0] != '\0');
        vstd::utf8::char_is_scalar(c);
        if (c as u32) == 0 {
            vstd::utf8::char_u32_cast(c, 0u32);
            assert(false);
        }
        lemma_scalar_bytes_nonzero(c as u32);
        lemma_encoding_nonzero(rest);
        let a = encode_scalar(c as u32);
        let b = encode_utf8(rest);
        assert(encode_utf8(chars) == a + b);
        assert forall|j: int| 0 <= j < (a + b).len() implies #[trigger] (a + b)[j] != 0 by {
            if j < a.len() {
                assert((a + b)[j] == a[j]);
            } else {
                assert((a + b)[j] == b[j - a.len()]);
            }
        }
    }
}

/// Any text whose UTF-8 encoding fits in a frame and that holds no NUL character comes
/// back whole from the frame that carries it: the frame's payload is the text's encoding,
/// it is well-formed UTF-8, and it decodes to the text.
pub proof fn lemma_frame_round_trip(chars: Seq<char>)
    requires
        encode_utf8(chars).len() <= MSG_SIZE,
        !chars.contains('\0'),
    ensures
        frame_payload(frame_of(encode_utf8(chars))) == encode_utf8(chars),
        frame_holds_text(frame_of(encode_utf8(chars))),
        decode_utf8(frame_payload(frame_of(encode_utf8(chars)))) == chars,
        frame_text(frame_of(encode_utf8(chars))) == trim(chars),
{
    let bytes = encode_utf8(chars);
    let frame = frame_of(bytes);
    lemma_encoding_nonzero(chars);
    let k = bytes.len() as int;
    assert forall|i: int| 0 <= i < k implies #[trigger] frame[i] != 0 by {
        assert(frame[i] == bytes[i]);
    }
    lemma_payload_at(frame, k);
    assert(frame.subrange(0, k) =~= bytes);
    vstd::utf8::encode_utf8_valid_utf8(chars);
    vstd::utf8::encode_utf8_decode_utf8(chars);
}

proof fn lemma_concat_keeps_absent(a: Seq<char>, b: Seq<char>, c: char)
    requires
        !a.contains(c),
        !b.contains(c),
    ensures
        !(a + b).contains(c),
{
    if (a + b).contains(c) {
        let i = choose|i: int| 0 <= i < (a + b).len() && (a + b)[i] == c;
        if i < a.len() {
            assert(a[i] == c);
        } else {
            assert(b[i - a.len()] == c);
        }
    }
}

/// A chat line holds no NUL character where its stamp, its author and its message hold none.
pub proof fn lemma_chat_line_has_no_nul(stamp: Seq<char>, author: Seq<char>, message: Seq<char>)
    requires
        !stamp.contains('\0'),
        !author.contains('\0'),
        !message.contains('\0'),
    ensures
        !chat_line(stamp, author, message).contains('\0'),
{
    reveal_strlit("   -   ");
    reveal_strlit(" : ");
    let dash = "   -   "@;
    let colon = " : "@;
    if dash.contains('\0') {
        let i = choose|i: int| 0 <= i < dash.len() && dash[i] == '\0';
        assert(false);
    }
    if colon.contains('\0') {
        let i = choose|i: int| 0 <= i < colon.len() && colon[i] == '\0';
        assert(false);
    }
    lemma_trim_keeps_absent(message, '\0');
    lemma_concat_keeps_absent(stamp, dash, '\0');
    lemma_concat_keeps_absent(stamp + dash, author, '\0');
    lemma_concat_keeps_absent(stamp + dash + author, colon, '\0');
    lemma_concat_keeps_absent(stamp + dash + author + colon, trim(message), '\0');
}

/// A message sent by a client comes back to a reader of the frame as the chat line,
/// trimmed, wherever the encoded line fits in a frame and its stamp, author and message
/// hold no NUL character.
pub proof fn lemma_sent_line_read_back(stamp: Seq<char>, author: Seq<char>, message: Seq<char>)
    requires
        encode_utf8(chat_line(stamp, author, message)).len() <= MSG_SIZE,
        !stamp.contains('\0'),
        !author.contains('\0'),
        !message.contains('\0'),
    ensures
        frame_holds_text(frame_of(encode_utf8(chat_line(stamp, author, message)))),
        frame_text(frame_of(encode_utf8(chat_line(stamp, author, message)))) == trim(
            chat_line(stamp, author, message),
        ),
{
    lemma_chat_line_has_no_nul(stamp, author, message);
    lemma_frame_round_trip(chat_line(stamp, author, message));
}

/// What a reader gets back of a frame that a client sent with the current time: its
/// payload is well-formed UTF-8, and it reads as the chat line with that time stamp
/// without its leading space, wherever the message is not blank, the encoded line fits in
/// a frame and the author and message hold no NUL character. (`outgoing_frame` ensures the
/// facts that this asks of the stamp.)
pub proof fn lemma_stamped_frame_read_back(
    secs: i64,
    nanos: u32,
    author: Seq<char>,
    message: Seq<char>,
)
    requires
        !time_stamp_text(secs, nanos).contains('\0'),
        is_stamp_shaped(time_stamp_text(secs, nanos)),
        !is_blank(message),
        encode_utf8(chat_line(time_stamp_text(secs, nanos), author, message)).len() <= MSG_SIZE,
        !author.contains('\0'),
        !message.contains('\0'),
    ensures
        frame_holds_text(frame_of(encode_utf8(chat_line(time_stamp_text(secs, nanos), author, message)))),
        frame_text(frame_of(encode_utf8(chat_line(time_stamp_text(secs, nanos), author, message))))
            == chat_line(time_stamp_text(secs, nanos), author, message).drop_first(),
{
    lemma_sent_line_read_back_exact(time_stamp_text(secs, nanos), author, message);
}

/// A sent message comes back to a reader of the frame as exactly the chat line without
/// its leading space, wherever the stamp has the shape of a time stamp, the message is not
/// blank, the encoded line fits in a frame and nothing in it is a NUL character.
pub proof fn lemma_sent_line_read_back_exact(stamp: Seq<char>, author: Seq<char>, message: Seq<char>)
    requires
        is_stamp_shaped(stamp),
        !is_blank(message),
        encode_utf8(chat_line(stamp, author, message)).len() <= MSG_SIZE,
        !stamp.contains('\0'),
        !author.contains('\0'),
        !message.contains('\0'),
    ensures
        frame_holds_text(frame_of(encode_utf8(chat_line(stamp, author, message)))),
        frame_text(frame_of(encode_utf8(chat_line(stamp, author, message)))) == chat_line(
            stamp,
            author,
            message,
        ).drop_first(),
{
    lemma_sent_line_read_back(stamp, author, message);
    let c = chat_line(stamp, author, message);
    let head = stamp + "   -   "@ + author + " : "@;
    let t = trim(message);
    assert(c == head + t);
    lemma_trimmed_ends_in_non_space(message);
    assert(c[0] == stamp[0]);
    assert(c[1] == stamp[1]);
    assert(c.last() == t.last());
    assert(is_white_space(c[0]));
    assert(!is_white_space(c[1]));
    lemma_trim_start_at(c, 1);
    let d = c.subrange(1, c.len() as int);
    assert(d.last() == c.last());
    lemma_trim_end_at(d, d.len() as int);
    assert(d.subrange(0, d.len() as int) =~= c.drop_first());
}

/// Every frame is exactly `MSG_SIZE` bytes long, and it starts with the bytes of its
/// payload as far as they fit.
pub proof fn lemma_frame_shape(payload: Seq<u8>)
    ensures
        frame_of(payload).len() == MSG_SIZE,
        forall|i: int| 0 <= i < payload.len() && i < MSG_SIZE ==> #[trigger] frame_of(payload)[i] == payload[i],
        forall|i: int| payload.len() <= i < MSG_SIZE ==> #[trigger] frame_of(payload)[i] == 0,
{
}

/// The UTF-8 text that `bytes` hold, where they are well-formed UTF-8.
///
/// Calls `std::str::from_utf8`, whose documentation says that it returns the string slice
/// of the bytes exactly when they are valid UTF-8, and an error otherwise. The contract
/// claims this over vstd's own definitions of UTF-8 validity and decoding.
#[verifier::external_body]
fn utf8_text(bytes: &[u8]) -> (text: Option<&str>)
    ensures
        text is Some <==> valid_utf8(bytes@),
        text matches Some(t) ==> t@ == decode_utf8(bytes@),
{
    std::str::from_utf8(bytes).ok()
}

/// The frame that carries `text`: the UTF-8 bytes of `text`, cut or padded with zero bytes
/// to `MSG_SIZE` bytes.
pub fn encode_frame(text: &str) -> (frame: Vec<u8>)
    ensures
        frame@ == frame_of(text.spec_bytes()),
{
    let bytes = text.as_bytes();
    let mut frame: Vec<u8> = Vec::new();
    let mut i: usize = 0;
    while i < MSG_SIZE
        invariant
            bytes@ == text.spec_bytes(),
            i <= MSG_SIZE,
            frame@.len() == i,
            forall|j: int| 0 <= j < i ==> #[trigger] frame@[j] == frame_of(bytes@)[j],
        decreases MSG_SIZE - i,
    {
        if i < bytes.len() {
            frame.push(bytes[i]);
        } else {
            frame.push(0u8);
        }
        i = i + 1;
    }
    assert(frame@ =~= frame_of(bytes@));
    frame
}

/// Where the payload of `frame` ends: the index of its first zero byte, or its length.
fn payload_end(frame: &[u8]) -> (k: usize)
    ensures
        k <= frame@.len(),
        frame_payload(frame@) == frame@.subrange(0, k as int),
{
    let mut k: usize = 0;
    while k < frame.len()
        invariant
            k <= frame@.len(),
            forall|i: int| 0 <= i < k ==> #[trigger] frame@[i] != 0,
        ensures
            k <= frame@.len(),
            forall|i: int| 0 <= i < k ==> #[trigger] frame@[i] != 0,
            k == frame@.len() || frame@[k as int] == 0,
        decreases frame@.len() - k,
    {
        if frame[k] == 0 {
            break;
        }
        k = k + 1;
    }
    proof {
        lemma_payload_at(frame@, k as int);
    }
    k
}

/// Whether the payload of `frame` is well-formed UTF-8, so that it can be decoded.
pub fn frame_is_text(frame: &[u8]) -> (ok: bool)
    ensures
        ok == frame_holds_text(frame@),
{
    let k = payload_end(frame);
    let payload = slice_subrange(frame, 0, k);
    utf8_text(payload).is_some()
}

/// The message that a received frame carries: the bytes before its first zero byte,
/// read as UTF-8 and trimmed.
pub fn decode_frame(frame: &[u8]) -> (text: String)
    requires
        frame_holds_text(frame@),
    ensures
        text@ == frame_text(frame@),
{
    let k = payload_end(frame);
    let payload = slice_subrange(frame, 0, k);
    match utf8_text(payload) {
        Some(t) => trim_text(t),
        None => String::new(),
    }
}

/// The line that a chat client sends for `message` by `author` at time `stamp`.
pub fn format_chat_line(stamp: &str, author: &str, message: &str) -> (line: String)
    ensures
        line@ == chat_line(stamp@, author@, message@),
{
    let trimmed = trim_text(message);
    let line = String::from_str(stamp).concat("   -   ").concat(author).concat(" : ").concat(
        trimmed.as_str(),
    );
    line
}

/// The frame that a client sends for `message` by `author`, stamped with `stamp`: none
/// where the client is not connected or the message is blank.
pub fn build_outgoing_frame(is_connected: bool, message: &str, author: &str, stamp: &str) -> (frame:
    Option<Vec<u8>>)
    ensures
        frame is Some <==> is_sent(is_connected, message@),
        frame matches Some(f) ==> f@ == frame_of(encode_utf8(chat_line(stamp@, author@, message@))),
{
    if is_connected && !is_blank_text(message) {
        let line = format_chat_line(stamp, author, message);
        Some(encode_frame(line.as_str()))
    } else {
        None
    }
}

/// The frame that a client sends for `message` by `author`, stamped with the current time:
/// none where the client is not connected or the message is blank.
pub fn outgoing_frame(is_connected: bool, message: &str, author: &str) -> (frame: Option<Vec<u8>>)
    ensures
        frame is Some <==> is_sent(is_connected, message@),
        frame matches Some(f) ==> exists|secs: i64, nanos: u32|
            {
                &&& 0 <= secs <= MAX_UTC_SECS
                &&& nanos < 1_000_000_000
                &&& !(#[trigger] time_stamp_text(secs, nanos)).contains('\0')
                &&& is_stamp_shaped(time_stamp_text(secs, nanos))
                &&& f@ == frame_of(
                    encode_utf8(chat_line(time_stamp_text(secs, nanos), author@, message@)),
                )
            },
{
    if is_connected && !is_blank_text(message) {
        let (secs, nanos, stamp) = current_time_stamp();
        let frame = build_outgoing_frame(is_connected, message, author, stamp.as_str());
        assert(!time_stamp_text(secs, nanos).contains('\0'));
        frame
    } else {
        None
    }
}

} // verus!
