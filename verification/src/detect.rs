//! The message-type detector: a heuristic classifier over the raw text
//! that never fails, with a fixed priority order.
use vstd::prelude::*;

use crate::parse::{digits_at, is_station_token};
use crate::text::{
    alpha, chars_contains, chars_has_prefix, contains_seq, digit, has_prefix, is_digit, to_chars,
    tokenize, tokenize_chars, trim_start_chars, trim_start_s, upper_chars, upper_s,
};
use crate::types::MessageType;

verus! {

/// The `ddhhmmZ` shape of a METAR time token: seven characters, six digits
/// then a capital `Z`.
pub open spec fn is_time_shape(t: Seq<char>) -> bool {
    t.len() == 7 && t[6] == 'Z' && digits_at(t, 0, 6)
}

/// The shape heuristic: the first whitespace token is a four-letter
/// station and the second looks like `ddhhmmZ`.
pub open spec fn looks_like_metar_s(s: Seq<char>) -> bool {
    let toks = tokenize(s);
    toks.len() >= 2 && is_station_token(toks[0]) && is_time_shape(toks[1])
}

#[verifier::loop_isolation(false)]
fn looks_like_metar(v: &Vec<char>) -> (b: bool)
    ensures
        b == looks_like_metar_s(v@),
{
    let toks = tokenize_chars(v);
    proof {
        assert(crate::text::vsview(toks@).len() == toks@.len());
        if toks@.len() >= 2 {
            assert(crate::text::vsview(toks@)[0] == toks@[0]@);
            assert(crate::text::vsview(toks@)[1] == toks@[1]@);
        }
    }
    if toks.len() < 2 {
        return false;
    }
    let first = &toks[0];
    let second = &toks[1];
    if !(first.len() == 4 && alpha(first[0]) && alpha(first[1])
        && alpha(first[2]) && alpha(first[3])) {
        return false;
    }
    proof {
        assert forall|t: int| 0 <= t < 4 implies crate::text::is_alpha(#[trigger] first@[t]) by {
            assert(t == 0 || t == 1 || t == 2 || t == 3);
        }
    }
    if second.len() != 7 || second[6] != 'Z' {
        return false;
    }
    let mut t: usize = 0;
    while t < 6
        invariant
            second@.len() == 7,
            t <= 6,
            forall|u: int| 0 <= u < t ==> is_digit(#[trigger] second@[u]),
        decreases 6 - t,
    {
        if !digit(second[t]) {
            return false;
        }
        t = t + 1;
    }
    true
}

/// What the detector answers on the text: case-insensitive `TAF` plus a
/// boundary first, then a `METAR `/`SPECI ` prefix, then a `NOTAM` or `Q)`
/// occurrence anywhere, then the station/time shape heuristic, else
/// `Unknown`.
pub open spec fn detect_s(s: Seq<char>) -> MessageType {
    let trimmed = trim_start_s(s);
    let up = upper_s(trimmed);
    if has_prefix(up, "TAF "@) || has_prefix(up, "TAF\n"@) || has_prefix(up, "TAF\r"@) {
        MessageType::Taf
    } else if has_prefix(up, "METAR "@) || has_prefix(up, "SPECI "@) {
        MessageType::Metar
    } else if contains_seq(up, "NOTAM"@) || contains_seq(up, "Q)"@) {
        MessageType::Notam
    } else if looks_like_metar_s(trimmed) {
        MessageType::Metar
    } else {
        MessageType::Unknown
    }
}

/// Classify a raw message. Runs unconditionally and never fails; callers
/// that hold a type hint resolve it against this answer themselves.
pub fn detect_message_type(raw: &str) -> (r: MessageType)
    ensures
        r == detect_s(raw@),
{
    let v = to_chars(raw);
    let trimmed = trim_start_chars(&v);
    let up = upper_chars(&trimmed);
    if chars_has_prefix(&up, "TAF ") || chars_has_prefix(&up, "TAF\n") || chars_has_prefix(
        &up,
        "TAF\r",
    ) {
        return MessageType::Taf;
    }
    if chars_has_prefix(&up, "METAR ") || chars_has_prefix(&up, "SPECI ") {
        return MessageType::Metar;
    }
    if chars_contains(&up, "NOTAM") || chars_contains(&up, "Q)") {
        return MessageType::Notam;
    }
    if looks_like_metar(&trimmed) {
        return MessageType::Metar;
    }
    MessageType::Unknown
}

} // verus!
