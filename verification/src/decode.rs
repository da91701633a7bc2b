//! The decode orchestrator: strip one leading byte-order mark, detect the
//! message type, resolve it against the caller's hint, dispatch to the
//! matching pipeline, overwrite the four type fields with the
//! authoritative values, note a type mismatch, gate the optional output
//! sections, and finalize the sorted issue lists with their legacy
//! mirrors. Never fails for any input string.
use vstd::prelude::*;

use crate::detect::{detect_message_type, detect_s};
use crate::issues::{count_code, finalize_issues, issue, legacy_of, sort_issues_s};
use crate::metar::{decode_metar, decode_metar_s, metar_warnings_s};
use crate::notam::{decode_notam, decode_notam_s};
use crate::taf::{decode_taf, decode_taf_s};
use crate::text::{
    chars_string, contains_seq, has_prefix, strip_bom, strip_bom_chars, to_chars, trim_s,
    trim_start_s, upper_s,
};
use crate::types::{
    mt_str, sview, DecodeOptions, DecodeOptionsV, DecodeResponse, DecodeResponseV, DetailLevel,
    Issue, IssueCode, IssueV, MessageType,
};

verus! {

/// The warning issued when no message type can be determined.
pub open spec fn type_unknown_issue() -> IssueV {
    IssueV {
        code: IssueCode::TypeUnknown,
        message: "Unable to determine message type."@,
        token: None,
        span: None,
    }
}

/// The empty envelope synthesized when the target type is unknown, before
/// finalization.
pub open spec fn unknown_response_s(sanitized: Seq<char>) -> DecodeResponseV {
    DecodeResponseV {
        schema_version: "1.0"@,
        message_type: MessageType::Unknown,
        requested_type: MessageType::Unknown,
        detected_type: MessageType::Unknown,
        final_type: MessageType::Unknown,
        raw: trim_s(sanitized),
        parsed: None,
        normalized: None,
        explain: None,
        warnings: seq![type_unknown_issue()],
        errors: Seq::empty(),
        warnings_legacy: None,
        errors_legacy: None,
    }
}

/// The warning recording that the caller's hint and the detector
/// disagreed.
pub open spec fn mismatch_issue(rq: MessageType, dt: MessageType) -> IssueV {
    IssueV {
        code: IssueCode::TypeMismatch,
        message: "Requested type "@ + mt_str(rq) + " but detected "@ + mt_str(dt)
            + ". Parsed using requested type."@,
        token: None,
        span: None,
    }
}

/// The note prepended to the explanation in full detail on a mismatch.
pub open spec fn mismatch_note(rq: MessageType, dt: MessageType) -> Seq<char> {
    "提示：请求类型为 "@ + mt_str(rq) + "，检测为 "@ + mt_str(dt) + "，已按请求类型解析。\n"@
}

/// The full decode: sanitize, detect, resolve the target, dispatch,
/// overwrite the type fields, record a mismatch, gate the optional
/// sections, and finalize the issue lists.
pub open spec fn decode_message_s(raw: Seq<char>, o: DecodeOptionsV) -> DecodeResponseV {
    let sanitized = strip_bom(raw);
    let detected = detect_s(sanitized);
    let requested = o.type_hint;
    let target: MessageType = if requested == MessageType::Unknown {
        detected
    } else {
        requested
    };
    let base: DecodeResponseV = match target {
        MessageType::Taf => decode_taf_s(sanitized, o.detail, o.lang),
        MessageType::Metar => decode_metar_s(sanitized, o.detail, o.lang),
        MessageType::Notam => decode_notam_s(sanitized, o.detail, o.lang),
        MessageType::Unknown => unknown_response_s(sanitized),
    };
    let r1 = DecodeResponseV {
        message_type: target,
        requested_type: requested,
        detected_type: detected,
        final_type: target,
        ..base
    };
    let mismatch = requested != MessageType::Unknown && detected != MessageType::Unknown
        && requested != detected;
    let r2 = if mismatch {
        DecodeResponseV {
            warnings: r1.warnings.push(mismatch_issue(requested, detected)),
            explain: if o.detail == DetailLevel::Full {
                match r1.explain {
                    Some(e) => Some(mismatch_note(requested, detected) + e),
                    None => None,
                }
            } else {
                r1.explain
            },
            ..r1
        }
    } else {
        r1
    };
    let r3 = DecodeResponseV {
        parsed: if o.output_json {
            r2.parsed
        } else {
            None
        },
        normalized: if o.output_json {
            r2.normalized
        } else {
            None
        },
        explain: if o.output_explain {
            r2.explain
        } else {
            None
        },
        ..r2
    };
    let w = sort_issues_s(r3.warnings);
    let e = sort_issues_s(r3.errors);
    DecodeResponseV {
        warnings: w,
        errors: e,
        warnings_legacy: legacy_of(w),
        errors_legacy: legacy_of(e),
        ..r3
    }
}

/// Decode one raw message under the given options. The single pure entry
/// point of the library: it never fails, and the response is a function
/// of the input string and the options alone.
#[verifier::rlimit(60)]
pub fn decode_message(raw: &str, options: &DecodeOptions) -> (r: DecodeResponse)
    ensures
        r@ == decode_message_s(raw@, options@),
{
    let rv = to_chars(raw);
    let sanitized_chars = strip_bom_chars(&rv);
    let sanitized = chars_string(&sanitized_chars);
    let detected = detect_message_type(sanitized.as_str());
    let requested = options.type_hint;
    let target: MessageType = if requested == MessageType::Unknown {
        detected
    } else {
        requested
    };
    let mut response: DecodeResponse = match target {
        MessageType::Taf => decode_taf(sanitized.as_str(), options.detail, options.lang.as_str()),
        MessageType::Metar => decode_metar(
            sanitized.as_str(),
            options.detail,
            options.lang.as_str(),
        ),
        MessageType::Notam => decode_notam(
            sanitized.as_str(),
            options.detail,
            options.lang.as_str(),
        ),
        MessageType::Unknown => {
            let tc = to_chars(sanitized.as_str());
            let trimmed = crate::text::trim_chars(&tc);
            let r = DecodeResponse {
                schema_version: String::from_str("1.0"),
                message_type: MessageType::Unknown,
                requested_type: MessageType::Unknown,
                detected_type: MessageType::Unknown,
                final_type: MessageType::Unknown,
                raw: chars_string(&trimmed),
                parsed: None,
                normalized: None,
                explain: None,
                warnings: vec![
                    issue(IssueCode::TypeUnknown, "Unable to determine message type.", None),
                ],
                errors: Vec::new(),
                warnings_legacy: None,
                errors_legacy: None,
            };
            proof {
                assert(sview(r.warnings@) =~= seq![type_unknown_issue()]);
                assert(r@ =~~= unknown_response_s(sanitized@));
            }
            r
        },
    };
    response.message_type = target;
    response.requested_type = requested;
    response.detected_type = detected;
    response.final_type = target;
    let mismatch = requested != MessageType::Unknown && detected != MessageType::Unknown
        && requested != detected;
    if mismatch {
        let ghost w0 = sview(response.warnings@);
        let mut msg = String::from_str("Requested type ");
        msg.append(requested.as_str());
        msg.append(" but detected ");
        msg.append(detected.as_str());
        msg.append(". Parsed using requested type.");
        let x = Issue {
            code: IssueCode::TypeMismatch,
            message: msg,
            token: None,
            span: None,
        };
        let ghost x_v = x@;
        response.warnings.push(x);
        proof {
            assert(x_v =~~= mismatch_issue(requested, detected));
            assert(sview(response.warnings@) =~= w0.push(mismatch_issue(requested, detected)));
        }
        if matches!(options.detail, DetailLevel::Full) {
            let ex = response.explain;
            response.explain = match ex {
                Some(e) => {
                    let mut note = String::from_str("提示：请求类型为 ");
                    note.append(requested.as_str());
                    note.append("，检测为 ");
                    note.append(detected.as_str());
                    note.append("，已按请求类型解析。\n");
                    note.append(e.as_str());
                    proof {
                        assert(note@ =~= mismatch_note(requested, detected) + e@);
                    }
                    Some(note)
                },
                None => None,
            };
        }
    }
    if !options.output_json {
        response.parsed = None;
        response.normalized = None;
    }
    if !options.output_explain {
        response.explain = None;
    }
    let legacy = finalize_issues(&mut response.warnings, &mut response.errors);
    response.warnings_legacy = legacy.0;
    response.errors_legacy = legacy.1;
    proof {
        assert(response@ =~~= decode_message_s(raw@, options@));
    }
    response
}

/// Purity: the response is a function of the input string and the options
/// alone, so decoding the same input twice yields identical responses —
/// `decode_message` pins its result to exactly this value.
pub proof fn lemma_decode_pure(
    r1: DecodeResponseV,
    r2: DecodeResponseV,
    raw: Seq<char>,
    o: DecodeOptionsV,
)
    requires
        r1 == decode_message_s(raw, o),
        r2 == decode_message_s(raw, o),
    ensures
        r1 == r2,
{
}

/// Detection: a string prefixed (case-insensitively) `TAF ` detects as a
/// TAF; one prefixed `METAR ` or `SPECI ` detects as a METAR; one merely
/// containing `NOTAM` or `Q)` — without such a prefix, which would win by
/// priority — detects as a NOTAM. The orchestrator records exactly this
/// answer, computed on the sanitized text, as `detected_type`.
pub proof fn lemma_detection(s: Seq<char>, raw: Seq<char>, o: DecodeOptionsV)
    ensures
        has_prefix(upper_s(trim_start_s(s)), "TAF "@) ==> detect_s(s) == MessageType::Taf,
        !has_prefix(upper_s(trim_start_s(s)), "TAF "@) && !has_prefix(
            upper_s(trim_start_s(s)),
            "TAF\n"@,
        ) && !has_prefix(upper_s(trim_start_s(s)), "TAF\r"@) && (has_prefix(
            upper_s(trim_start_s(s)),
            "METAR "@,
        ) || has_prefix(upper_s(trim_start_s(s)), "SPECI "@)) ==> detect_s(s)
            == MessageType::Metar,
        !has_prefix(upper_s(trim_start_s(s)), "TAF "@) && !has_prefix(
            upper_s(trim_start_s(s)),
            "TAF\n"@,
        ) && !has_prefix(upper_s(trim_start_s(s)), "TAF\r"@) && !has_prefix(
            upper_s(trim_start_s(s)),
            "METAR "@,
        ) && !has_prefix(upper_s(trim_start_s(s)), "SPECI "@) && (contains_seq(
            upper_s(trim_start_s(s)),
            "NOTAM"@,
        ) || contains_seq(upper_s(trim_start_s(s)), "Q)"@)) ==> detect_s(s)
            == MessageType::Notam,
        decode_message_s(raw, o).detected_type == detect_s(strip_bom(raw)),
{
}

/// Reconciliation: a requested METAR on a string the detector reads as a
/// TAF decodes as a METAR — `final_type` and `message_type` follow the
/// request — with exactly one type-mismatch warning in the response.
pub proof fn lemma_reconciliation(raw: Seq<char>, o: DecodeOptionsV)
    requires
        o.type_hint == MessageType::Metar,
        detect_s(strip_bom(raw)) == MessageType::Taf,
    ensures
        decode_message_s(raw, o).final_type == MessageType::Metar,
        decode_message_s(raw, o).message_type == MessageType::Metar,
        count_code(decode_message_s(raw, o).warnings, IssueCode::TypeMismatch) == 1,
{
    let sanitized = strip_bom(raw);
    let base = decode_metar_s(sanitized, o.detail, o.lang);
    crate::metar::lemma_no_code_in_metar_warnings(sanitized, IssueCode::TypeMismatch);
    crate::issues::lemma_count_code_sorted(metar_warnings_s(sanitized), IssueCode::TypeMismatch);
    let w1 = base.warnings.push(mismatch_issue(MessageType::Metar, MessageType::Taf));
    crate::issues::lemma_count_code_push(
        base.warnings,
        mismatch_issue(MessageType::Metar, MessageType::Taf),
        IssueCode::TypeMismatch,
    );
    crate::issues::lemma_count_code_sorted(w1, IssueCode::TypeMismatch);
}

/// Every response carries its warnings and errors in the deterministic
/// (code, token-or-empty, message) order that the final sort establishes.
pub proof fn lemma_response_issues_sorted(raw: Seq<char>, o: DecodeOptionsV)
    ensures
        crate::issues::issues_sorted(decode_message_s(raw, o).warnings),
        crate::issues::issues_sorted(decode_message_s(raw, o).errors),
{
    let sanitized = strip_bom(raw);
    let detected = detect_s(sanitized);
    let requested = o.type_hint;
    let target: MessageType = if requested == MessageType::Unknown {
        detected
    } else {
        requested
    };
    let base: DecodeResponseV = match target {
        MessageType::Taf => decode_taf_s(sanitized, o.detail, o.lang),
        MessageType::Metar => decode_metar_s(sanitized, o.detail, o.lang),
        MessageType::Notam => decode_notam_s(sanitized, o.detail, o.lang),
        MessageType::Unknown => unknown_response_s(sanitized),
    };
    let mismatch = requested != MessageType::Unknown && detected != MessageType::Unknown
        && requested != detected;
    let pre_sort: Seq<IssueV> = if mismatch {
        base.warnings.push(mismatch_issue(requested, detected))
    } else {
        base.warnings
    };
    crate::issues::lemma_sort_issues_sorted(pre_sort);
    crate::issues::lemma_sort_issues_sorted(base.errors);
}

/// A leading byte-order mark is stripped before detection and decoding:
/// adding one in front of an input that does not itself begin with one
/// changes nothing, and the echoed `raw` text is free of it.
pub proof fn lemma_bom_stripped(raw: Seq<char>, o: DecodeOptionsV)
    requires
        raw.len() == 0 || raw[0] != '\u{feff}',
    ensures
        decode_message_s(seq!['\u{feff}'] + raw, o) == decode_message_s(raw, o),
        decode_message_s(seq!['\u{feff}'] + raw, o).raw == trim_s(raw),
{
    let with_bom = seq!['\u{feff}'] + raw;
    assert(with_bom[0] == '\u{feff}');
    assert(strip_bom(with_bom) =~= raw);
    assert(strip_bom(raw) == raw);
}

} // verus!
