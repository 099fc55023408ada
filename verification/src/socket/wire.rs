//! The text form of a message: the JSON payload of one frame.
//!
//! A message without a payload is written as its bare quoted name, `"Ping"`.
//! A message that carries a string is written as an object with one key, the
//! variant's name, as in `{"GetUser":"..."}`. Reading accepts what a JSON
//! reader accepts for these: white space between tokens, escapes inside the
//! name, and `null` as the value of a variant without a payload.

use crate::socket::json::{json_string, json_text, read_json_string, write_json_string};
use crate::socket::message::MessageView;
use vstd::prelude::*;
use vstd::slice::slice_subrange;

verus! {

pub const QUOTE: u8 = 0x22;

pub const BACKSLASH: u8 = 0x5c;

pub const COLON: u8 = 0x3a;

pub const OPEN_BRACE: u8 = 0x7b;

pub const CLOSE_BRACE: u8 = 0x7d;

/// JSON's white space: space, line feed, tab, carriage return.
pub open spec fn is_space(b: u8) -> bool {
    b == 0x20 || b == 0x0a || b == 0x09 || b == 0x0d
}

/// The first index from `i` on that holds no white space; the text's length
/// if only white space follows.
pub open spec fn skip_spaces(text: Seq<u8>, i: int) -> int
    decreases text.len() - i,
{
    if 0 <= i < text.len() && is_space(text[i]) {
        skip_spaces(text, i + 1)
    } else {
        i
    }
}

/// The end of the text once the white space before index `end` is cut off.
pub open spec fn trim_before(text: Seq<u8>, end: int) -> int
    decreases end,
{
    if 0 < end <= text.len() && is_space(text[end - 1]) {
        trim_before(text, end - 1)
    } else {
        end
    }
}

/// The index just past the quote that closes a string literal, scanning from
/// `i`, an index inside the literal. A byte behind a backslash closes
/// nothing. `None` if the literal does not close.
pub open spec fn literal_end(text: Seq<u8>, i: int) -> Option<int>
    decreases text.len() - i,
{
    if i < 0 || i >= text.len() {
        None
    } else if text[i] == QUOTE {
        Some(i + 1)
    } else if text[i] == BACKSLASH {
        if i + 1 < text.len() {
            literal_end(text, i + 2)
        } else {
            None
        }
    } else {
        literal_end(text, i + 1)
    }
}

fn is_space_byte(b: u8) -> (r: bool)
    ensures
        r == is_space(b),
{
    b == 0x20 || b == 0x0a || b == 0x09 || b == 0x0d
}

fn skip_spaces_from(text: &[u8], i: usize) -> (j: usize)
    requires
        i <= text@.len(),
    ensures
        j == skip_spaces(text@, i as int),
        i <= j <= text@.len(),
        j < text@.len() ==> !is_space(text@[j as int]),
{
    let mut j: usize = i;
    while j < text.len() && is_space_byte(text[j])
        invariant
            i <= j <= text@.len(),
            skip_spaces(text@, j as int) == skip_spaces(text@, i as int),
        decreases text@.len() - j,
    {
        j = j + 1;
    }
    j
}

fn trim_before_index(text: &[u8], end: usize) -> (z: usize)
    requires
        end <= text@.len(),
    ensures
        z == trim_before(text@, end as int),
        z <= end,
        z > 0 ==> !is_space(text@[z - 1]),
{
    let mut z: usize = end;
    while z > 0 && is_space_byte(text[z - 1])
        invariant
            z <= end <= text@.len(),
            trim_before(text@, z as int) == trim_before(text@, end as int),
        decreases z,
    {
        z = z - 1;
    }
    z
}

fn find_literal_end(text: &[u8], i: usize) -> (r: Option<usize>)
    requires
        i <= text@.len(),
    ensures
        match r {
            Some(e) => literal_end(text@, i as int) == Some(e as int) && i < e <= text@.len(),
            None => literal_end(text@, i as int) is None,
        },
{
    let n = text.len();
    let mut j: usize = i;
    while j < n
        invariant
            n == text@.len(),
            i <= j <= n,
            literal_end(text@, j as int) == literal_end(text@, i as int),
        decreases n - j,
    {
        let b = text[j];
        if b == QUOTE {
            return Some(j + 1);
        } else if b == BACKSLASH {
            if j + 1 < n {
                j = j + 2;
            } else {
                return None;
            }
        } else {
            j = j + 1;
        }
    }
    None
}

fn bytes_equal(a: &[u8], b: &[u8]) -> (r: bool)
    ensures
        r == (a@ == b@),
{
    if a.len() != b.len() {
        return false;
    }
    let mut i: usize = 0;
    while i < a.len()
        invariant
            a@.len() == b@.len(),
            i <= a@.len(),
            forall|k: int| 0 <= k < i ==> a@[k] == b@[k],
        decreases a@.len() - i,
    {
        if a[i] != b[i] {
            return false;
        }
        i = i + 1;
    }
    assert(a@ =~= b@);
    true
}

/// The two vocabularies, named by the way their messages travel.
#[derive(Debug, Clone, Copy, PartialEq, Eq, Structural)]
pub enum Vocabulary {
    /// Backend to bot: `Ping` and `GetUser`.
    Upstream,
    /// Bot to backend: `Ping` and `User`.
    Downstream,
}

/// A message of either vocabulary with the variant's name left out: the
/// heartbeat, or the one variant that carries a string.
#[derive(Debug, PartialEq, Eq)]
pub enum Variant {
    Ping,
    Payload(String),
}

impl View for Variant {
    type V = MessageView;

    open spec fn view(&self) -> MessageView {
        match self {
            Variant::Ping => MessageView::Ping,
            Variant::Payload(s) => MessageView::Payload(s@),
        }
    }
}

impl Clone for Variant {
    fn clone(&self) -> (r: Self)
        ensures
            r@ == self@,
    {
        match self {
            Variant::Ping => Variant::Ping,
            Variant::Payload(s) => Variant::Payload(s.clone()),
        }
    }
}

/// Which variant a name stands for.
#[derive(Debug, Clone, Copy, PartialEq, Eq, Structural)]
pub enum Named {
    Ping,
    Payload,
}

/// The heartbeat on the wire: the six bytes `"Ping"`, quotes included.
pub open spec fn ping_text() -> Seq<u8> {
    seq![0x22u8, 0x50u8, 0x69u8, 0x6eu8, 0x67u8, 0x22u8]
}

/// The four bytes `null`.
pub open spec fn null_text() -> Seq<u8> {
    seq![0x6eu8, 0x75u8, 0x6cu8, 0x6cu8]
}

/// The heartbeat's name.
pub open spec fn ping_name() -> Seq<char> {
    "Ping"@
}

/// The name of the variant that carries a string.
pub open spec fn payload_name(voc: Vocabulary) -> Seq<char> {
    match voc {
        Vocabulary::Upstream => "GetUser"@,
        Vocabulary::Downstream => "User"@,
    }
}

/// That name as it is written on the wire: `"GetUser"` or `"User"`, quotes
/// included.
pub open spec fn quoted_name(voc: Vocabulary) -> Seq<u8> {
    match voc {
        Vocabulary::Upstream => seq![
            0x22u8, 0x47u8, 0x65u8, 0x74u8, 0x55u8, 0x73u8, 0x65u8, 0x72u8, 0x22u8,
        ],
        Vocabulary::Downstream => seq![0x22u8, 0x55u8, 0x73u8, 0x65u8, 0x72u8, 0x22u8],
    }
}

/// The text of a message: the bare quoted name, or an object whose one key is
/// the name and whose value is the payload as a JSON string.
pub open spec fn message_text(voc: Vocabulary, v: MessageView) -> Seq<u8> {
    match v {
        MessageView::Ping => ping_text(),
        MessageView::Payload(s) => seq![OPEN_BRACE] + quoted_name(voc) + seq![COLON] + json_text(s)
            + seq![CLOSE_BRACE],
    }
}

/// The variant that a name literal stands for. The plain spellings are known
/// byte for byte; any other spelling names what the JSON reader makes of it.
pub open spec fn named(voc: Vocabulary, literal: Seq<u8>) -> Option<Named> {
    if literal == ping_text() {
        Some(Named::Ping)
    } else if literal == quoted_name(voc) {
        Some(Named::Payload)
    } else {
        match json_string(literal) {
            Some(name) => if name == ping_name() {
                Some(Named::Ping)
            } else if name == payload_name(voc) {
                Some(Named::Payload)
            } else {
                None
            },
            None => None,
        }
    }
}

/// Whether a text is `null` with nothing but white space around it.
pub open spec fn is_null(text: Seq<u8>) -> bool {
    let from = skip_spaces(text, 0);
    let to = trim_before(text, text.len() as int);
    from <= to && text.subrange(from, to) == null_text()
}

/// The message that an object stands for, where the object opens at `open`
/// and the text's last byte that is no white space lies just before `end`.
pub open spec fn object_message(voc: Vocabulary, text: Seq<u8>, open: int, end: int) -> Option<
    MessageView,
> {
    let key = skip_spaces(text, open + 1);
    if key >= text.len() || text[key] != QUOTE {
        None
    } else {
        match literal_end(text, key + 1) {
            None => None,
            Some(key_end) => {
                let colon = skip_spaces(text, key_end);
                if colon >= text.len() || text[colon] != COLON || end < colon + 2 || text[end - 1]
                    != CLOSE_BRACE {
                    None
                } else {
                    let value = text.subrange(colon + 1, end - 1);
                    match named(voc, text.subrange(key, key_end)) {
                        None => None,
                        Some(Named::Ping) => if is_null(value) {
                            Some(MessageView::Ping)
                        } else {
                            None
                        },
                        Some(Named::Payload) => match json_string(value) {
                            Some(s) => Some(MessageView::Payload(s)),
                            None => None,
                        },
                    }
                }
            },
        }
    }
}

/// The message that a text stands for; `None` where the text is no message of
/// the vocabulary.
pub open spec fn text_message(voc: Vocabulary, text: Seq<u8>) -> Option<MessageView> {
    let start = skip_spaces(text, 0);
    let end = trim_before(text, text.len() as int);
    if start >= text.len() {
        None
    } else if text[start] == QUOTE {
        if named(voc, text.subrange(start, end)) == Some(Named::Ping) {
            Some(MessageView::Ping)
        } else {
            None
        }
    } else if text[start] == OPEN_BRACE {
        object_message(voc, text, start, end)
    } else {
        None
    }
}

/// A byte that is no white space is not trimmed away.
proof fn lemma_trim_keeps(text: Seq<u8>, i: int, end: int)
    requires
        0 <= i < end <= text.len(),
        !is_space(text[i]),
    ensures
        trim_before(text, end) > i,
    decreases end,
{
    if is_space(text[end - 1]) {
        lemma_trim_keeps(text, i, end - 1);
    }
}

/// A literal without quote or backslash inside closes at its first quote.
proof fn lemma_plain_literal_end(text: Seq<u8>, i: int, close: int)
    requires
        0 <= i <= close < text.len(),
        text[close] == QUOTE,
        forall|k: int| i <= k < close ==> text[k] != QUOTE && text[k] != BACKSLASH,
    ensures
        literal_end(text, i) == Some(close + 1),
    decreases close - i,
{
    if i < close {
        lemma_plain_literal_end(text, i + 1, close);
    }
}

/// Reading the text of a message gives the message back, provided the JSON
/// reader gives back the string that the JSON writer wrote.
pub(crate) proof fn lemma_text_reads_back(voc: Vocabulary, v: MessageView)
    requires
        v matches MessageView::Payload(s) ==> json_string(json_text(s)) == Some(s),
    ensures
        text_message(voc, message_text(voc, v)) == Some(v),
{
    let text = message_text(voc, v);
    match v {
        MessageView::Ping => {
            assert(text.subrange(0, 6) =~= ping_text());
        },
        MessageView::Payload(s) => {
            let name = quoted_name(voc);
            let q = name.len() as int;
            let body = json_text(s);
            let end = text.len() as int;
            assert(end == q + 3 + body.len());
            assert(text[0] == OPEN_BRACE);
            assert(forall|k: int| 0 <= k < q ==> text[1 + k] == name[k]);
            assert(text[q + 1] == COLON);
            assert(text[end - 1] == CLOSE_BRACE);
            assert(skip_spaces(text, 0) == 0);
            assert(trim_before(text, end) == end);
            assert(skip_spaces(text, 1) == 1);
            lemma_plain_literal_end(text, 2, q);
            assert(skip_spaces(text, q + 1) == q + 1);
            assert(text.subrange(1, q + 1) =~= name);
            assert(text.subrange(q + 2, end - 1) =~= body);
            assert(name != ping_text()) by {
                assert(name[1] != ping_text()[1]);
            }
        },
    }
}

fn ping_bytes() -> (v: Vec<u8>)
    ensures
        v@ == ping_text(),
{
    let v: Vec<u8> = vec![0x22u8, 0x50u8, 0x69u8, 0x6eu8, 0x67u8, 0x22u8];
    assert(v@ =~= ping_text());
    v
}

fn quoted_name_bytes(voc: Vocabulary) -> (v: Vec<u8>)
    ensures
        v@ == quoted_name(voc),
{
    match voc {
        Vocabulary::Upstream => {
            let v: Vec<u8> = vec![
                0x22u8,
                0x47u8,
                0x65u8,
                0x74u8,
                0x55u8,
                0x73u8,
                0x65u8,
                0x72u8,
                0x22u8,
            ];
            assert(v@ =~= quoted_name(voc));
            v
        },
        Vocabulary::Downstream => {
            let v: Vec<u8> = vec![0x22u8, 0x55u8, 0x73u8, 0x65u8, 0x72u8, 0x22u8];
            assert(v@ =~= quoted_name(voc));
            v
        },
    }
}

fn payload_name_string(voc: Vocabulary) -> (name: String)
    ensures
        name@ == payload_name(voc),
{
    match voc {
        Vocabulary::Upstream => "GetUser".to_owned(),
        Vocabulary::Downstream => "User".to_owned(),
    }
}

/// Writes the text of a message.
///
/// The text is stated byte for byte but for the payload's JSON string, which
/// the JSON writer makes; and reading the text gives the message back.
pub fn write_variant(voc: Vocabulary, v: &Variant) -> (text: Vec<u8>)
    ensures
        text@ == message_text(voc, v@),
        text_message(voc, text@) == Some(v@),
{
    match v {
        Variant::Ping => {
            proof {
                lemma_text_reads_back(voc, v@);
            }
            ping_bytes()
        },
        Variant::Payload(s) => {
            let body = write_json_string(s.as_str());
            let name = quoted_name_bytes(voc);
            let mut text: Vec<u8> = Vec::new();
            text.push(OPEN_BRACE);
            text.extend_from_slice(name.as_slice());
            text.push(COLON);
            text.extend_from_slice(body.as_slice());
            text.push(CLOSE_BRACE);
            proof {
                assert(text@ =~= message_text(voc, v@));
                lemma_text_reads_back(voc, v@);
            }
            text
        },
    }
}

fn name_of(voc: Vocabulary, literal: &[u8]) -> (r: Option<Named>)
    ensures
        r == named(voc, literal@),
{
    let ping = ping_bytes();
    let quoted = quoted_name_bytes(voc);
    if bytes_equal(literal, ping.as_slice()) {
        Some(Named::Ping)
    } else if bytes_equal(literal, quoted.as_slice()) {
        Some(Named::Payload)
    } else {
        match read_json_string(literal) {
            Ok(name) => {
                let unit: String = "Ping".to_owned();
                let payload = payload_name_string(voc);
                if name == unit {
                    Some(Named::Ping)
                } else if name == payload {
                    Some(Named::Payload)
                } else {
                    None
                }
            },
            Err(_) => None,
        }
    }
}

fn is_null_text(text: &[u8]) -> (r: bool)
    ensures
        r == is_null(text@),
{
    let from = skip_spaces_from(text, 0);
    let to = trim_before_index(text, text.len());
    if from > to || to - from != 4 {
        assert(null_text().len() == 4);
        return false;
    }
    let word = slice_subrange(text, from, to);
    let r = word[0] == 0x6e && word[1] == 0x75 && word[2] == 0x6c && word[3] == 0x6c;
    proof {
        if r {
            assert(word@ =~= null_text());
        }
    }
    r
}

/// Reads a message from its text; `None` where the text is no message of the
/// vocabulary.
pub fn read_variant(voc: Vocabulary, text: &[u8]) -> (r: Option<Variant>)
    ensures
        match r {
            Some(v) => text_message(voc, text@) == Some(v@),
            None => text_message(voc, text@) is None,
        },
{
    let n = text.len();
    let start = skip_spaces_from(text, 0);
    if start >= n {
        return None;
    }
    let end = trim_before_index(text, n);
    proof {
        lemma_trim_keeps(text@, start as int, n as int);
    }
    if text[start] == QUOTE {
        match name_of(voc, slice_subrange(text, start, end)) {
            Some(Named::Ping) => Some(Variant::Ping),
            _ => None,
        }
    } else if text[start] == OPEN_BRACE {
        let key = skip_spaces_from(text, start + 1);
        if key >= n || text[key] != QUOTE {
            return None;
        }
        let key_end = match find_literal_end(text, key + 1) {
            Some(e) => e,
            None => {
                return None;
            },
        };
        let colon = skip_spaces_from(text, key_end);
        if colon >= n || text[colon] != COLON || end < 2 || end - 2 < colon || text[end - 1]
            != CLOSE_BRACE {
            return None;
        }
        let value = slice_subrange(text, colon + 1, end - 1);
        match name_of(voc, slice_subrange(text, key, key_end)) {
            None => None,
            Some(Named::Ping) => if is_null_text(value) {
                Some(Variant::Ping)
            } else {
                None
            },
            Some(Named::Payload) => match read_json_string(value) {
                Ok(s) => Some(Variant::Payload(s)),
                Err(_) => None,
            },
        }
    } else {
        None
    }
}

} // verus!
