use vstd::prelude::*;
use vstd::utf8::*;
use crate::text::{get_bytes_as_hex, hex_pairs, owned_text, push_text};

verus! {

/// A character counts as printable when its code point is above 15.
pub open spec fn is_printable(c: char) -> bool {
    (c as u32) > 15
}

/// The number of printable characters in `t`.
pub open spec fn printable_count(t: Seq<char>) -> nat
    decreases t.len(),
{
    if t.len() == 0 {
        0
    } else {
        printable_count(t.drop_last()) + if is_printable(t.last()) {
            1nat
        } else {
            0nat
        }
    }
}

/// How a value read from a device is shown: undecodable bytes as hex pairs;
/// an empty text as `(empty)`; a mostly printable text (over 90%) verbatim;
/// a short (under 20 characters) partly printable text (over 20%) as hex
/// pairs followed by the text in quotes and parentheses; any other as hex
/// pairs.
pub open spec fn formatted(b: Seq<u8>) -> Seq<char> {
    if !valid_utf8(b) {
        hex_pairs(b)
    } else {
        let t = decode_utf8(b);
        if t.len() == 0 {
            "(empty)"@
        } else if 10 * printable_count(t) > 9 * t.len() {
            t
        } else if 5 * printable_count(t) > t.len() && t.len() < 20 {
            hex_pairs(b) + " (\""@ + t + "\")"@
        } else {
            hex_pairs(b)
        }
    }
}

/// Relies on `std::str::from_utf8`: it accepts exactly the valid UTF-8
/// byte sequences, and the text it gives is what they encode.
#[verifier::external_body]
fn decode_text(bytes: &[u8]) -> (r: Option<String>)
    ensures
        r is Some <==> valid_utf8(bytes@),
        r is Some ==> r->0@ == decode_utf8(bytes@),
{
    std::str::from_utf8(bytes).ok().map(|t| t.to_string())
}

/// Counts the printable characters of a text.
fn count_printable(t: &str) -> (r: usize)
    requires
        t@.len() <= usize::MAX,
    ensures
        r == printable_count(t@),
{
    let mut n: usize = 0;
    for c in it: t.chars()
        invariant
            it.seq() == t@,
            n == printable_count(t@.subrange(0, it.index() as int)),
            n <= it.index(),
            it.index() <= t@.len(),
            t@.len() <= usize::MAX,
    {
        assert(it.index() < t@.len());
        proof {
            let p = t@.subrange(0, it.index() as int + 1);
            assert(p.drop_last() =~= t@.subrange(0, it.index() as int));
            assert(p.last() == c);
        }
        if (c as u32) > 15 {
            n = n + 1;
        }
    }
    assert(t@.subrange(0, t@.len() as int) =~= t@);
    n
}

/// Shows bytes read from a device as text, as hex pairs, or as both, by how
/// printable their UTF-8 decoding is.
pub fn format_bytes(input_bytes: &[u8]) -> (r: String)
    ensures
        r@ == formatted(input_bytes@),
{
    match decode_text(input_bytes) {
        Some(input_string) => {
            let byte_len = input_bytes.len();
            proof {
                lemma_decoded_len(input_bytes@);
            }
            let chars_printable = count_printable(input_string.as_str());
            let len = input_string.as_str().unicode_len();
            if len == 0 {
                return owned_text("(empty)");
            }
            assert(chars_printable <= len) by {
                lemma_printable_count_bound(input_string@);
            }
            let printable = chars_printable as u128;
            let total = len as u128;
            if 10 * printable > 9 * total {
                input_string
            } else if 5 * printable > total && len < 20 {
                let mut s = get_bytes_as_hex(input_bytes);
                push_text(&mut s, " (\"");
                push_text(&mut s, input_string.as_str());
                push_text(&mut s, "\")");
                s
            } else {
                get_bytes_as_hex(input_bytes)
            }
        },
        None => get_bytes_as_hex(input_bytes),
    }
}

proof fn lemma_decoded_len(b: Seq<u8>)
    requires
        valid_utf8(b),
    ensures
        decode_utf8(b).len() <= b.len(),
    decreases b.len(),
{
    if b.len() > 0 {
        let k = length_of_first_scalar(b);
        assert(1 <= k <= b.len());
        assert(pop_first_scalar(b).len() == b.len() - k);
        lemma_decoded_len(pop_first_scalar(b));
    }
}

proof fn lemma_printable_count_bound(t: Seq<char>)
    ensures
        printable_count(t) <= t.len(),
    decreases t.len(),
{
    if t.len() > 0 {
        lemma_printable_count_bound(t.drop_last());
    }
}

proof fn lemma_all_printable_count(t: Seq<char>)
    requires
        forall|i: int| 0 <= i < t.len() ==> is_printable(#[trigger] t[i]),
    ensures
        printable_count(t) == t.len(),
    decreases t.len(),
{
    if t.len() > 0 {
        assert(is_printable(t[t.len() - 1]));
        lemma_all_printable_count(t.drop_last());
    }
}

/// A valid UTF-8 text all of whose characters are printable is shown as
/// the text itself.
pub proof fn lemma_printable_text_verbatim(b: Seq<u8>)
    requires
        valid_utf8(b),
        decode_utf8(b).len() > 0,
        forall|i: int| 0 <= i < decode_utf8(b).len() ==> is_printable(#[trigger] decode_utf8(b)[i]),
    ensures
        formatted(b) == decode_utf8(b),
{
    let t = decode_utf8(b);
    lemma_all_printable_count(t);
}

} // verus!
