//! The wire format: the two shapes that a datagram may have, how each is
//! written and how a received datagram is read.
//!
//! | shape        | bytes                                              |
//! |--------------|----------------------------------------------------|
//! | query        | ASCII `get-name`                                   |
//! | notification | ASCII `boop `, the sender, then `->` and the recipient where one is named |
//!
//! A reply to a query is the daemon's name as UTF-8 and has no shape of its
//! own. Names are text; on the wire they are their UTF-8 encoding.

use crate::text::{
    lemma_ascii_char, lemma_ascii_is_utf8, lemma_boundary_after_ascii, lemma_encode_scalar_bytes,
};
use vstd::prelude::*;
use vstd::string::*;
use vstd::utf8::*;

verus! {

/// The shortest datagram that is looked at: the notification tag and one byte.
pub const MIN_DATAGRAM: usize = 6;

/// The capacity of one datagram.
pub const MAX_DATAGRAM: usize = 512;

/// The well-known UDP port that every daemon listens on.
pub const PORT: u16 = 0xCC24;

/// The length of the notification tag.
pub const TAG_LEN: usize = 5;

/// The length of an `->`.
pub const ARROW_LEN: usize = 2;

/// The ASCII bytes of `get-name`, the whole of a query.
pub open spec fn query_tag() -> Seq<u8> {
    seq!['g' as u8, 'e' as u8, 't' as u8, '-' as u8, 'n' as u8, 'a' as u8, 'm' as u8, 'e' as u8]
}

/// The ASCII bytes of `boop `, which open a notification.
pub open spec fn boop_tag() -> Seq<u8> {
    seq!['b' as u8, 'o' as u8, 'o' as u8, 'p' as u8, ' ' as u8]
}

/// The ASCII bytes of `->`, which part the sender from the recipient.
pub open spec fn arrow() -> Seq<u8> {
    seq!['-' as u8, '>' as u8]
}

/// An `->` stands at position `i` of `s`.
pub open spec fn arrow_at(s: Seq<u8>, i: int) -> bool {
    0 <= i && i + 1 < s.len() && s[i] == '-' as u8 && s[i + 1] == '>' as u8
}

/// The first `->` of `s` stands at position `i`.
pub open spec fn first_arrow_at(s: Seq<u8>, i: int) -> bool {
    arrow_at(s, i) && forall|j: int| 0 <= j < i ==> !arrow_at(s, j)
}

/// The position of the first `->` of `s`, if it has one.
pub open spec fn arrow_index(s: Seq<u8>) -> Option<int> {
    if exists|i: int| first_arrow_at(s, i) {
        Some(choose|i: int| first_arrow_at(s, i))
    } else {
        None
    }
}

/// An `->` stands at position `i` of the text `s`.
pub open spec fn text_arrow_at(s: Seq<char>, i: int) -> bool {
    0 <= i && i + 1 < s.len() && s[i] == '-' && s[i + 1] == '>'
}

/// The text `s` holds an `->`.
pub open spec fn has_arrow(s: Seq<char>) -> bool {
    exists|i: int| text_arrow_at(s, i)
}

/// What a datagram says.
#[derive(Debug, PartialEq, Eq)]
pub enum MessageKind {
    /// "Tell me your registered name."
    Query,
    /// A boop from `sender`, for `recipient` or, where none is named, for everyone.
    Notification { sender: String, recipient: Option<String> },
    /// Anything else. It is dropped, never an error.
    Unrecognized,
}

/// A [`MessageKind`] as a mathematical value.
pub enum MessageView {
    Query,
    Notification { sender: Seq<char>, recipient: Option<Seq<char>> },
    Unrecognized,
}

impl View for MessageKind {
    type V = MessageView;

    open spec fn view(&self) -> MessageView {
        match self {
            MessageKind::Query => MessageView::Query,
            MessageKind::Notification { sender, recipient } => MessageView::Notification {
                sender: sender@,
                recipient: match recipient {
                    Some(r) => Some(r@),
                    None => None,
                },
            },
            MessageKind::Unrecognized => MessageView::Unrecognized,
        }
    }
}

/// Why a notification could not be encoded.
#[derive(Debug, Clone, Copy, PartialEq, Eq, Structural)]
pub enum EncodeError {
    /// The datagram would be longer than [`MAX_DATAGRAM`] bytes.
    TooLong,
}

/// The recipient of a call as a mathematical value.
pub open spec fn recipient_view(recipient: Option<&str>) -> Option<Seq<char>> {
    match recipient {
        Some(r) => Some(r@),
        None => None,
    }
}

/// The payload of a notification, which follows the tag.
pub open spec fn notification_payload(sender: Seq<char>, recipient: Option<Seq<char>>) -> Seq<u8> {
    match recipient {
        Some(r) => encode_utf8(sender) + arrow() + encode_utf8(r),
        None => encode_utf8(sender),
    }
}

/// The datagram of a notification, whatever its length.
pub open spec fn notification_bytes(sender: Seq<char>, recipient: Option<Seq<char>>) -> Seq<u8> {
    boop_tag() + notification_payload(sender, recipient)
}

/// What [`encode_notification`] returns: the datagram where it fits, else the error.
pub open spec fn encoded_notification(sender: Seq<char>, recipient: Option<Seq<char>>) -> Result<
    Seq<u8>,
    EncodeError,
> {
    let bytes = notification_bytes(sender, recipient);
    if bytes.len() <= MAX_DATAGRAM {
        Ok(bytes)
    } else {
        Err(EncodeError::TooLong)
    }
}

/// What a payload says: the text before its first `->` is the sender and all
/// the text after it the recipient; without an `->` the whole is the sender.
pub open spec fn decoded_payload(payload: Seq<u8>) -> MessageView {
    match arrow_index(payload) {
        Some(i) => MessageView::Notification {
            sender: decode_utf8(payload.take(i)),
            recipient: Some(decode_utf8(payload.skip(i + ARROW_LEN))),
        },
        None => MessageView::Notification { sender: decode_utf8(payload), recipient: None },
    }
}

/// What a datagram says. Too short, or not UTF-8, it says nothing; `get-name`
/// and nothing more is a query; after `boop ` comes a notification's payload;
/// all else says nothing.
pub open spec fn decoded(datagram: Seq<u8>) -> MessageView {
    if datagram.len() < MIN_DATAGRAM || !valid_utf8(datagram) {
        MessageView::Unrecognized
    } else if datagram == query_tag() {
        MessageView::Query
    } else if boop_tag().is_prefix_of(datagram) {
        decoded_payload(datagram.skip(TAG_LEN as int))
    } else {
        MessageView::Unrecognized
    }
}

/// The first `->` of a sequence is the only position that [`arrow_index`] can give.
pub proof fn lemma_arrow_index(s: Seq<u8>, i: int)
    requires
        first_arrow_at(s, i),
    ensures
        arrow_index(s) == Some(i),
{
    let k = choose|k: int| first_arrow_at(s, k);
    assert(first_arrow_at(s, k));
    assert(!(k < i) && !(i < k));
}

/// A sequence without an `->` has no first one.
pub proof fn lemma_no_arrow_index(s: Seq<u8>)
    requires
        forall|j: int| 0 <= j < s.len() ==> !arrow_at(s, j),
    ensures
        arrow_index(s) is None,
{
    assert forall|i: int| !first_arrow_at(s, i) by {
        assert(first_arrow_at(s, i) ==> arrow_at(s, i));
    }
}

/// The query datagram.
pub fn encode_query() -> (out: Vec<u8>)
    ensures
        out@ == query_tag(),
{
    vec!['g' as u8, 'e' as u8, 't' as u8, '-' as u8, 'n' as u8, 'a' as u8, 'm' as u8, 'e' as u8]
}

/// The datagram that tells `recipient`, or everyone where none is named, that
/// `sender` boops. Fails where it would not fit in one datagram.
pub fn encode_notification(sender: &str, recipient: Option<&str>) -> (out: Result<
    Vec<u8>,
    EncodeError,
>)
    ensures
        match out {
            Ok(bytes) => encoded_notification(sender@, recipient_view(recipient)) == Ok::<
                Seq<u8>,
                EncodeError,
            >(bytes@),
            Err(e) => encoded_notification(sender@, recipient_view(recipient)) == Err::<
                Seq<u8>,
                EncodeError,
            >(e),
        },
{
    let from = sender.as_bytes();
    if from.len() > MAX_DATAGRAM - TAG_LEN {
        return Err(EncodeError::TooLong);
    }
    let mut out = vec!['b' as u8, 'o' as u8, 'o' as u8, 'p' as u8, ' ' as u8];
    out.extend_from_slice(from);
    assert(out@ =~= boop_tag() + encode_utf8(sender@));
    match recipient {
        Some(name) => {
            let to = name.as_bytes();
            let room = MAX_DATAGRAM - TAG_LEN - ARROW_LEN;
            if from.len() > room || to.len() > room - from.len() {
                return Err(EncodeError::TooLong);
            }
            out.push('-' as u8);
            out.push('>' as u8);
            out.extend_from_slice(to);
            assert(out@ =~= notification_bytes(sender@, Some(name@)));
        },
        None => {},
    }
    Ok(out)
}

/// Whether a datagram is the query.
fn is_query(datagram: &[u8]) -> (yes: bool)
    ensures
        yes == (datagram@ == query_tag()),
{
    let yes = datagram.len() == 8 && datagram[0] == 'g' as u8 && datagram[1] == 'e' as u8
        && datagram[2] == 't' as u8 && datagram[3] == '-' as u8 && datagram[4] == 'n' as u8
        && datagram[5] == 'a' as u8 && datagram[6] == 'm' as u8 && datagram[7] == 'e' as u8;
    assert(yes ==> datagram@ =~= query_tag());
    yes
}

/// Whether a datagram opens with the notification tag.
fn is_boop(datagram: &[u8]) -> (yes: bool)
    ensures
        yes == boop_tag().is_prefix_of(datagram@),
{
    let yes = datagram.len() >= TAG_LEN && datagram[0] == 'b' as u8 && datagram[1] == 'o' as u8
        && datagram[2] == 'o' as u8 && datagram[3] == 'p' as u8 && datagram[4] == ' ' as u8;
    proof {
        if datagram@.len() >= TAG_LEN {
            let head = datagram@.subrange(0, TAG_LEN as int);
            assert forall|i: int| 0 <= i < TAG_LEN implies head[i] == datagram@[i] by {}
        }
    }
    yes
}

/// The position of the first `->` in `s`.
fn find_arrow(s: &[u8]) -> (found: Option<usize>)
    ensures
        match found {
            Some(i) => first_arrow_at(s@, i as int),
            None => forall|j: int| 0 <= j < s@.len() ==> !arrow_at(s@, j),
        },
{
    let n = s.len();
    if n < 2 {
        return None;
    }
    let mut i: usize = 0;
    while i < n - 1
        invariant
            n == s@.len(),
            n >= 2,
            i <= n - 1,
            forall|j: int| 0 <= j < i ==> !arrow_at(s@, j),
        decreases n - i,
    {
        if s[i] == '-' as u8 && s[i + 1] == '>' as u8 {
            return Some(i);
        }
        i += 1;
    }
    None
}

/// Reads a datagram.
pub fn decode(datagram: &[u8]) -> (msg: MessageKind)
    ensures
        msg@ == decoded(datagram@),
{
    broadcast use {group_utf8_lib, vstd::slice::group_slice_axioms};

    if datagram.len() < MIN_DATAGRAM {
        return MessageKind::Unrecognized;
    }
    let text = match std::str::from_utf8(datagram) {
        Ok(t) => t,
        Err(_) => {
            return MessageKind::Unrecognized;
        },
    };
    if is_query(datagram) {
        return MessageKind::Query;
    }
    if !is_boop(datagram) {
        return MessageKind::Unrecognized;
    }
    proof {
        assert forall|i: int| 0 <= i < TAG_LEN implies datagram@[i] < 0x80 by {
            assert(datagram@[i] == boop_tag()[i]);
        }
        lemma_boundary_after_ascii(datagram@, TAG_LEN as int);
    }
    let (_, body) = text.split_at(TAG_LEN);
    let payload = body.as_bytes();
    match find_arrow(payload) {
        Some(i) => {
            proof {
                lemma_arrow_index(payload@, i as int);
                is_char_boundary_iff_not_is_continuation_byte(payload@, i as int);
            }
            let (sender, rest) = body.split_at(i);
            proof {
                let tail = payload@.skip(i as int);
                assert forall|k: int| 0 <= k < ARROW_LEN implies tail[k] < 0x80 by {}
                lemma_boundary_after_ascii(tail, ARROW_LEN as int);
            }
            let (_, recipient) = rest.split_at(ARROW_LEN);
            assert(recipient.spec_bytes() =~= payload@.skip(i + ARROW_LEN));
            MessageKind::Notification {
                sender: sender.to_owned(),
                recipient: Some(recipient.to_owned()),
            }
        },
        None => {
            proof {
                lemma_no_arrow_index(payload@);
            }
            MessageKind::Notification { sender: body.to_owned(), recipient: None }
        },
    }
}

/// An `->` among the bytes of an encoded text is an `->` of the text.
pub proof fn lemma_arrow_in_text(s: Seq<char>, j: int)
    requires
        arrow_at(encode_utf8(s), j),
    ensures
        has_arrow(s),
    decreases s.len(),
{
    let rest = s.drop_first();
    let head = encode_scalar(s[0] as u32);
    let tail = encode_utf8(rest);
    assert(encode_utf8(s) == head + tail);
    lemma_encode_scalar_bytes(s[0]);
    if j >= head.len() {
        // The `->` lies behind the first character.
        assert(arrow_at(tail, j - head.len()));
        lemma_arrow_in_text(rest, j - head.len());
        let i = choose|i: int| text_arrow_at(rest, i);
        assert(text_arrow_at(s, i + 1));
    } else {
        // The `-` is a byte of the first character, which is then the `-`
        // itself, and the `>` is the character that follows.
        assert(head == seq!['-' as u8]);
        lemma_ascii_char(s[0], '-');
        lemma_encode_scalar_bytes(rest[0]);
        assert(encode_scalar(rest[0] as u32) == seq!['>' as u8]);
        lemma_ascii_char(rest[0], '>');
        assert(text_arrow_at(s, 0));
    }
}

/// The query, encoded and read again, is a query.
pub proof fn lemma_query_round_trip()
    ensures
        decoded(query_tag()) == MessageView::Query,
{
    lemma_ascii_is_utf8(query_tag());
}

/// Round trip: a notification that is encoded and read again is the
/// notification it was. This holds of every sender without an `->` and every
/// recipient; an empty sender needs a recipient beside it, else the datagram
/// is shorter than [`MIN_DATAGRAM`].
pub proof fn lemma_notification_round_trip(sender: Seq<char>, recipient: Option<Seq<char>>)
    requires
        !has_arrow(sender),
        sender.len() > 0 || recipient is Some,
    ensures
        encoded_notification(sender, recipient) matches Ok(bytes) ==> decoded(bytes)
            == (MessageView::Notification { sender, recipient }),
{
    broadcast use group_utf8_lib;

    let from = encode_utf8(sender);
    let payload = notification_payload(sender, recipient);
    let bytes = notification_bytes(sender, recipient);
    // The datagram is the tag and the payload, and both are UTF-8.
    lemma_ascii_is_utf8(boop_tag());
    lemma_ascii_is_utf8(arrow());
    assert(boop_tag().is_prefix_of(bytes));
    assert(bytes.skip(TAG_LEN as int) =~= payload);
    // The sender's bytes hold no `->`, as the sender holds none.
    assert forall|j: int| 0 <= j < from.len() implies !arrow_at(from, j) by {
        if arrow_at(from, j) {
            lemma_arrow_in_text(sender, j);
        }
    }
    match recipient {
        Some(to) => {
            // The first `->` of the payload is the one that was put behind the sender.
            let n = from.len() as int;
            assert(valid_utf8(from + arrow()));
            assert(valid_utf8(payload));
            assert forall|j: int| 0 <= j < n implies !arrow_at(payload, j) by {
                if j + 1 < n {
                    assert(!arrow_at(from, j));
                }
            }
            lemma_arrow_index(payload, n);
            assert(payload.take(n) =~= from);
            assert(payload.skip(n + ARROW_LEN) =~= encode_utf8(to));
        },
        None => {
            // A sender that is not empty takes a byte, which makes six.
            if sender.len() > 0 {
                lemma_encode_scalar_bytes(sender[0]);
            }
            lemma_no_arrow_index(payload);
        },
    }
}

/// A sequence with an `->` has a first one, at or before any of them.
pub proof fn lemma_first_arrow_exists(s: Seq<u8>, p: int)
    requires
        arrow_at(s, p),
    ensures
        exists|i: int| 0 <= i <= p && first_arrow_at(s, i),
    decreases p,
{
    if exists|j: int| 0 <= j < p && arrow_at(s, j) {
        let j = choose|j: int| 0 <= j < p && arrow_at(s, j);
        lemma_first_arrow_exists(s, j);
    } else {
        assert(first_arrow_at(s, p));
    }
}

/// An `->` of a text is an `->` among the bytes of the encoded text.
pub proof fn lemma_arrow_in_bytes(s: Seq<char>, k: int)
    requires
        text_arrow_at(s, k),
    ensures
        exists|p: int| arrow_at(encode_utf8(s), p),
    decreases k,
{
    let rest = s.drop_first();
    let head = encode_scalar(s[0] as u32);
    let tail = encode_utf8(rest);
    assert(encode_utf8(s) == head + tail);
    lemma_encode_scalar_bytes(s[0]);
    if k == 0 {
        lemma_encode_scalar_bytes(rest[0]);
        assert(tail == encode_scalar(rest[0] as u32) + encode_utf8(rest.drop_first()));
        assert(arrow_at(head + tail, 0));
    } else {
        assert(text_arrow_at(rest, k - 1));
        lemma_arrow_in_bytes(rest, k - 1);
        let p = choose|p: int| arrow_at(tail, p);
        assert(arrow_at(head + tail, head.len() + p));
    }
}

/// The round trip holds of no other notification: a sender with an `->` is
/// cut at it, and an empty sender without a recipient makes a datagram too
/// short to be read.
pub proof fn lemma_notification_round_trip_only(sender: Seq<char>, recipient: Option<Seq<char>>)
    requires
        has_arrow(sender) || (sender.len() == 0 && recipient is None),
    ensures
        encoded_notification(sender, recipient) matches Ok(bytes) ==> decoded(bytes)
            != (MessageView::Notification { sender, recipient }),
{
    broadcast use group_utf8_lib;

    if has_arrow(sender) {
        let from = encode_utf8(sender);
        let payload = notification_payload(sender, recipient);
        let bytes = notification_bytes(sender, recipient);
        lemma_ascii_is_utf8(boop_tag());
        lemma_ascii_is_utf8(arrow());
        assert(boop_tag().is_prefix_of(bytes));
        assert(bytes.skip(TAG_LEN as int) =~= payload);
        assert(valid_utf8(from + arrow()));
        assert(valid_utf8(payload));
        // The payload has an `->` among the sender's bytes, so its first one
        // stands before the sender's end.
        lemma_arrow_in_bytes(sender, choose|k: int| text_arrow_at(sender, k));
        let p = choose|p: int| arrow_at(from, p);
        assert(arrow_at(payload, p));
        lemma_first_arrow_exists(payload, p);
        let i = choose|i: int| 0 <= i <= p && first_arrow_at(payload, i);
        lemma_arrow_index(payload, i);
        // What is read as the sender has fewer bytes than the sender.
        let read = payload.take(i);
        is_char_boundary_iff_not_is_continuation_byte(payload, i);
        assert(valid_utf8(read));
        assert(encode_utf8(decode_utf8(read)) == read);
        assert(read.len() < from.len());
    }
}

} // verus!
