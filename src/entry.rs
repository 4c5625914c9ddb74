//! The text of one log entry: `[<timestamp>] FROM <source>: <payload>\n`.

use crate::clock::{
    format_timestamp, lemma_timestamp_well_formed, stamp_well_formed, timestamp_text, LocalTime,
};
use crate::text::{decimal, is_digit, push_decimal};
use vstd::prelude::*;
use vstd::utf8::{decode_utf8, valid_utf8};

verus! {

/// What stands in the log for a payload: its text where the bytes are
/// valid UTF-8, otherwise a placeholder that names the byte count.
pub open spec fn payload_view(bytes: Seq<u8>) -> Seq<char> {
    if valid_utf8(bytes) {
        decode_utf8(bytes)
    } else {
        binary_placeholder(bytes.len())
    }
}

/// `<BINARY DATA: N bytes>`.
pub open spec fn binary_placeholder(n: nat) -> Seq<char> {
    "<BINARY DATA: "@ + decimal(n) + " bytes>"@
}

/// One line of the log.
pub open spec fn entry_text(stamp: Seq<char>, source: Seq<char>, payload: Seq<char>) -> Seq<
    char,
> {
    "["@ + stamp + "] FROM "@ + source + ": "@ + payload + "\n"@
}

/// The log line for a datagram from `source` with `payload`, received at `t`.
pub open spec fn log_line_view(t: LocalTime, source: Seq<char>, payload: Seq<u8>) -> Seq<char> {
    entry_text(timestamp_text(t), source, payload_view(payload))
}

/// Relies on `String::from_utf8`: it succeeds exactly on valid UTF-8,
/// and then holds the characters that the bytes encode.
#[verifier::external_body]
fn utf8_text(bytes: &[u8]) -> (r: Option<String>)
    ensures
        r is Some <==> valid_utf8(bytes@),
        r is Some ==> r->0@ == decode_utf8(bytes@),
{
    String::from_utf8(bytes.to_vec()).ok()
}

/// The payload as it stands in the log.
pub fn payload_text(payload: &[u8]) -> (r: String)
    ensures
        r@ == payload_view(payload@),
{
    match utf8_text(payload) {
        Some(text) => text,
        None => {
            let mut s = String::new();
            s.append("<BINARY DATA: ");
            push_decimal(&mut s, payload.len() as u64);
            s.append(" bytes>");
            assert(s@ =~= binary_placeholder(payload@.len()));
            s
        },
    }
}

/// The log line for a datagram from `source` with `payload`, received at
/// `time`.
pub fn log_line(time: &LocalTime, source: &str, payload: &[u8]) -> (r: String)
    ensures
        r@ == log_line_view(*time, source@, payload@),
{
    let stamp = format_timestamp(time);
    let text = payload_text(payload);
    let mut s = String::new();
    s.append("[");
    s.append(stamp.as_str());
    s.append("] FROM ");
    s.append(source);
    s.append(": ");
    s.append(text.as_str());
    s.append("\n");
    assert(s@ =~= log_line_view(*time, source@, payload@));
    s
}

/// For a datagram whose source and payload text hold no line break, the
/// log entry is exactly one line: `[`, a well-formed timestamp, and a
/// single line break at its end.
pub proof fn lemma_one_line_per_datagram(t: LocalTime, source: Seq<char>, payload: Seq<u8>)
    requires
        t.wf(),
        0 <= t.year <= 9999,
        !source.contains('\n'),
        !payload_view(payload).contains('\n'),
    ensures
        ({
            let line = log_line_view(t, source, payload);
            &&& line[0] == '['
            &&& stamp_well_formed(line.subrange(1, 24))
            &&& line.last() == '\n'
            &&& forall|i: int| 0 <= i < line.len() - 1 ==> #[trigger] line[i] != '\n'
        }),
{
    lemma_timestamp_well_formed(t);
    let stamp = timestamp_text(t);
    let text = payload_view(payload);
    let line = log_line_view(t, source, payload);
    reveal_strlit("[");
    reveal_strlit("] FROM ");
    reveal_strlit(": ");
    reveal_strlit("\n");
    let head = "["@ + stamp + "] FROM "@;
    assert(line =~= head + source + ": "@ + text + "\n"@);
    assert(line.subrange(1, 24) =~= stamp);
    assert forall|i: int| 0 <= i < line.len() - 1 implies #[trigger] line[i] != '\n' by {
        if i == 0 {
        } else if i < 24 {
            assert(line[i] == stamp[i - 1]);
            if i - 1 != 4 && i - 1 != 7 && i - 1 != 10 && i - 1 != 13 && i - 1 != 16 && i - 1
                != 19 {
                assert(is_digit(stamp[i - 1]));
            }
        } else if i < 31 {
        } else if i < 31 + source.len() {
            assert(line[i] == source[i - 31]);
        } else if i < 33 + source.len() {
        } else {
            assert(line[i] == text[i - 33 - source.len()]);
        }
    }
}

/// A payload that is not valid UTF-8 is logged, not dropped: its entry
/// holds `<BINARY DATA: N bytes>`, N being its length.
pub proof fn lemma_binary_payload_logged(t: LocalTime, source: Seq<char>, payload: Seq<u8>)
    requires
        !valid_utf8(payload),
    ensures
        ({
            let line = log_line_view(t, source, payload);
            let k = timestamp_text(t).len() + source.len() + 10;
            let p = binary_placeholder(payload.len());
            &&& k + p.len() < line.len()
            &&& line.subrange(k as int, (k + p.len()) as int) == p
        }),
{
    reveal_strlit("[");
    reveal_strlit("] FROM ");
    reveal_strlit(": ");
    reveal_strlit("\n");
    let line = log_line_view(t, source, payload);
    let p = binary_placeholder(payload.len());
    let head = "["@ + timestamp_text(t) + "] FROM "@ + source + ": "@;
    assert(line =~= head + p + "\n"@);
    assert(line.subrange(head.len() as int, (head.len() + p.len()) as int) =~= p);
}

} // verus!
