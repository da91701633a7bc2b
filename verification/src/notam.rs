//! The NOTAM pipeline: not token-based. Line endings are normalized, the
//! non-empty trimmed lines kept for display, and every `Q)`..`G)` tag
//! located on the uppercased text; each tag's content is the trimmed span
//! up to the next tag, a later occurrence of the same tag overwriting an
//! earlier one, and empty content leaves the field absent.
use vstd::prelude::*;

use crate::issues::{finalize_issues, legacy_of, sort_issues_s};
use crate::metar::{issues_from_legacy_vec, legacy_issues};
use crate::text::{
    chars_string, ssview, subvec, to_chars, trim_chars, trim_s, upper_chars, upper_s,
};
use crate::types::{
    clone_opt_string, oview, sview, DecodeResponse, DecodeResponseV, DetailLevel, Issue,
    MessageType, NormalizedMessage, NormalizedMessageV, NotamNormalized, NotamNormalizedV,
    NotamParsed, NotamParsedV, ParsedMessage, ParsedMessageV,
};

verus! {

/// Line endings normalized: every `\r\n` pair and every lone `\r` becomes
/// one `\n`.
pub open spec fn normalize_newlines(s: Seq<char>) -> Seq<char>
    decreases s.len(),
{
    if s.len() == 0 {
        s
    } else if s.len() >= 2 && s[0] == '\r' && s[1] == '\n' {
        seq!['\n'] + normalize_newlines(s.skip(2))
    } else if s[0] == '\r' {
        seq!['\n'] + normalize_newlines(s.skip(1))
    } else {
        seq![s[0]] + normalize_newlines(s.skip(1))
    }
}

#[verifier::loop_isolation(false)]
fn normalize_newlines_exec(v: &Vec<char>) -> (out: Vec<char>)
    ensures
        out@ == normalize_newlines(v@),
{
    let n = v.len();
    let mut out: Vec<char> = Vec::new();
    let mut i: usize = 0;
    proof {
        assert(v@.skip(0) =~= v@);
        assert(out@ + normalize_newlines(v@) =~= normalize_newlines(v@));
    }
    while i < n
        invariant
            n == v@.len(),
            i <= n,
            out@ + normalize_newlines(v@.skip(i as int)) == normalize_newlines(v@),
        decreases n - i,
    {
        let ghost rest = v@.skip(i as int);
        if v[i] == '\r' && i + 1 < n && v[i + 1] == '\n' {
            out.push('\n');
            proof {
                assert(rest[0] == v@[i as int]);
                assert(rest[1] == v@[i as int + 1]);
                assert(rest.skip(2) =~= v@.skip(i as int + 2));
                assert(out@ + normalize_newlines(v@.skip(i as int + 2)) =~= normalize_newlines(
                    v@,
                ));
            }
            i = i + 2;
        } else if v[i] == '\r' {
            out.push('\n');
            proof {
                assert(rest[0] == v@[i as int]);
                if rest.len() >= 2 {
                    assert(rest[1] == v@[i as int + 1]);
                }
                assert(rest.skip(1) =~= v@.skip(i as int + 1));
                assert(out@ + normalize_newlines(v@.skip(i as int + 1)) =~= normalize_newlines(
                    v@,
                ));
            }
            i = i + 1;
        } else {
            out.push(v[i]);
            proof {
                assert(rest[0] == v@[i as int]);
                if rest.len() >= 2 {
                    assert(rest[1] == v@[i as int + 1]);
                }
                assert(rest.skip(1) =~= v@.skip(i as int + 1));
                assert(out@ + normalize_newlines(v@.skip(i as int + 1)) =~= normalize_newlines(
                    v@,
                ));
            }
            i = i + 1;
        }
    }
    proof {
        assert(v@.skip(n as int) =~= Seq::<char>::empty());
        assert(out@ + normalize_newlines(v@.skip(n as int)) =~= out@);
    }
    out
}

/// Length of the maximal run without a newline at the front.
pub open spec fn nonl_run(s: Seq<char>) -> nat
    decreases s.len(),
{
    if s.len() > 0 && s[0] != '\n' {
        1 + nonl_run(s.skip(1))
    } else {
        0
    }
}

pub proof fn lemma_nonl_run_le(s: Seq<char>)
    ensures
        nonl_run(s) <= s.len(),
    decreases s.len(),
{
    if s.len() > 0 && s[0] != '\n' {
        lemma_nonl_run_le(s.skip(1));
    }
}

proof fn lemma_nonl_run(s: Seq<char>, k: nat)
    requires
        k <= s.len(),
        forall|t: int| 0 <= t < k ==> #[trigger] s[t] != '\n',
        k == s.len() || s[k as int] == '\n',
    ensures
        nonl_run(s) == k,
    decreases k,
{
    if k == 0 {
    } else {
        lemma_nonl_run(s.skip(1), (k - 1) as nat);
    }
}

/// The non-empty trimmed lines of the normalized text, in order.
pub open spec fn notam_lines(s: Seq<char>) -> Seq<Seq<char>>
    decreases s.len(),
    via notam_lines_dec
{
    if s.len() == 0 {
        Seq::empty()
    } else if s[0] == '\n' {
        notam_lines(s.skip(1))
    } else {
        let line = trim_s(s.take(nonl_run(s) as int));
        (if line.len() > 0 {
            seq![line]
        } else {
            Seq::<Seq<char>>::empty()
        }) + notam_lines(s.skip(nonl_run(s) as int))
    }
}

#[via_fn]
proof fn notam_lines_dec(s: Seq<char>) {
    if s.len() > 0 && s[0] != '\n' {
        lemma_nonl_run_le(s);
    }
}

#[verifier::loop_isolation(false)]
fn notam_lines_exec(v: &Vec<char>) -> (out: Vec<String>)
    ensures
        ssview(out@) == notam_lines(v@),
{
    let n = v.len();
    let mut out: Vec<String> = Vec::new();
    let mut i: usize = 0;
    proof {
        assert(v@.skip(0) =~= v@);
        assert(ssview(out@) + notam_lines(v@) =~= notam_lines(v@));
    }
    while i < n
        invariant
            n == v@.len(),
            i <= n,
            ssview(out@) + notam_lines(v@.skip(i as int)) == notam_lines(v@),
        decreases n - i,
    {
        if v[i] == '\n' {
            proof {
                assert(v@.skip(i as int).skip(1) =~= v@.skip(i as int + 1));
            }
            i = i + 1;
        } else {
            let start = i;
            let mut j = i + 1;
            while j < n && v[j] != '\n'
                invariant
                    n == v@.len(),
                    start < j <= n,
                    forall|k: int| start <= k < j ==> #[trigger] v@[k] != '\n',
                decreases n - j,
            {
                j = j + 1;
            }
            let ghost rest = v@.skip(start as int);
            proof {
                assert forall|k: int| 0 <= k < j - start implies #[trigger] rest[k] != '\n' by {
                    assert(rest[k] == v@[start + k]);
                }
                if j < n {
                    assert(rest[(j - start) as int] == v@[j as int]);
                }
                lemma_nonl_run(rest, (j - start) as nat);
                assert(rest.take((j - start) as int) =~= v@.subrange(start as int, j as int));
                assert(rest.skip((j - start) as int) =~= v@.skip(j as int));
            }
            let seg = subvec(v, start, j);
            let line = trim_chars(&seg);
            if line.len() > 0 {
                let ghost o0 = out@;
                let ghost l_v = line@;
                out.push(chars_string(&line));
                proof {
                    assert(ssview(out@) =~= ssview(o0).push(l_v));
                    assert(ssview(out@) + notam_lines(v@.skip(j as int)) =~= notam_lines(v@));
                }
            } else {
                proof {
                    assert(ssview(out@) + notam_lines(v@.skip(j as int)) =~= notam_lines(v@));
                }
            }
            i = j;
        }
    }
    proof {
        assert(v@.skip(n as int) =~= Seq::<char>::empty());
        assert(ssview(out@) + notam_lines(v@.skip(n as int)) =~= ssview(out@));
    }
    out
}

/// A tag marker stands at `i` of the uppercased text: one of the eight
/// tag letters followed by `)`.
pub open spec fn is_tag_at(u: Seq<char>, i: int) -> bool {
    0 <= i && i + 1 < u.len() && (u[i] == 'Q' || u[i] == 'A' || u[i] == 'B' || u[i] == 'C' || u[i]
        == 'D' || u[i] == 'E' || u[i] == 'F' || u[i] == 'G') && u[i + 1] == ')'
}

/// The first tag position at or after `i`, or the text length.
pub open spec fn next_tag(u: Seq<char>, i: int) -> int
    decreases u.len() - i,
{
    if i < 0 || i >= u.len() {
        u.len() as int
    } else if is_tag_at(u, i) {
        i
    } else {
        next_tag(u, i + 1)
    }
}

proof fn lemma_next_tag(u: Seq<char>, i: int)
    requires
        0 <= i <= u.len(),
    ensures
        i <= next_tag(u, i) <= u.len(),
        next_tag(u, i) < u.len() ==> is_tag_at(u, next_tag(u, i)),
    decreases u.len() - i,
{
    if i < u.len() && !is_tag_at(u, i) {
        lemma_next_tag(u, i + 1);
    }
}

fn tag_at_exec(u: &Vec<char>, i: usize) -> (b: bool)
    requires
        i <= u@.len(),
    ensures
        b == is_tag_at(u@, i as int),
{
    i < u.len() && i + 1 < u.len() && (u[i] == 'Q' || u[i] == 'A' || u[i] == 'B' || u[i] == 'C' || u[i] == 'D'
        || u[i] == 'E' || u[i] == 'F' || u[i] == 'G') && u[i + 1] == ')'
}

#[verifier::loop_isolation(false)]
fn next_tag_exec(u: &Vec<char>, i: usize) -> (r: usize)
    requires
        i <= u@.len(),
    ensures
        r as int == next_tag(u@, i as int),
        i <= r <= u@.len(),
        r < u@.len() ==> is_tag_at(u@, r as int),
{
    let n = u.len();
    let mut j = i;
    while j < n && !tag_at_exec(u, j)
        invariant
            n == u@.len(),
            i <= j <= n,
            next_tag(u@, i as int) == next_tag(u@, j as int),
        decreases n - j,
    {
        j = j + 1;
    }
    j
}

/// The tag fields accumulated left to right; a later occurrence of a tag
/// overwrites an earlier one.
#[verifier::ext_equal]
pub struct NotamFieldsV {
    pub q_line: Option<Seq<char>>,
    pub a: Option<Seq<char>>,
    pub b: Option<Seq<char>>,
    pub c: Option<Seq<char>>,
    pub d: Option<Seq<char>>,
    pub e: Option<Seq<char>>,
    pub f: Option<Seq<char>>,
    pub g: Option<Seq<char>>,
}

pub open spec fn empty_fields() -> NotamFieldsV {
    NotamFieldsV {
        q_line: None,
        a: None,
        b: None,
        c: None,
        d: None,
        e: None,
        f: None,
        g: None,
    }
}

pub open spec fn assign_field(acc: NotamFieldsV, tag: char, content: Option<Seq<char>>)
    -> NotamFieldsV {
    if tag == 'Q' {
        NotamFieldsV { q_line: content, ..acc }
    } else if tag == 'A' {
        NotamFieldsV { a: content, ..acc }
    } else if tag == 'B' {
        NotamFieldsV { b: content, ..acc }
    } else if tag == 'C' {
        NotamFieldsV { c: content, ..acc }
    } else if tag == 'D' {
        NotamFieldsV { d: content, ..acc }
    } else if tag == 'E' {
        NotamFieldsV { e: content, ..acc }
    } else if tag == 'F' {
        NotamFieldsV { f: content, ..acc }
    } else {
        NotamFieldsV { g: content, ..acc }
    }
}

/// The fold over tag positions: `i` is a tag position (or the end); each
/// tag's content runs from past its marker to the next tag.
pub open spec fn notam_fields(norm: Seq<char>, u: Seq<char>, i: int, acc: NotamFieldsV)
    -> NotamFieldsV
    decreases u.len() - i,
    via notam_fields_dec
{
    if i < 0 || i >= u.len() {
        acc
    } else {
        let j = next_tag(u, i + 2);
        let content = trim_s(norm.subrange(i + 2, if j <= norm.len() {
            j
        } else {
            norm.len() as int
        }));
        let field: Option<Seq<char>> = if content.len() == 0 {
            None
        } else {
            Some(content)
        };
        notam_fields(norm, u, j, assign_field(acc, u[i], field))
    }
}

#[via_fn]
proof fn notam_fields_dec(norm: Seq<char>, u: Seq<char>, i: int, acc: NotamFieldsV) {
    if 0 <= i && i < u.len() {
        if i + 2 <= u.len() {
            lemma_next_tag(u, i + 2);
        }
    }
}

/// What parsing a raw NOTAM yields: the tag fields, the display lines,
/// and a single warning when no tag was found.
pub open spec fn parse_notam_s(raw: Seq<char>) -> (NotamParsedV, Seq<Seq<char>>) {
    let norm = normalize_newlines(raw);
    let u = upper_s(norm);
    let start = next_tag(u, 0);
    let fields = notam_fields(norm, u, start, empty_fields());
    let p = NotamParsedV {
        q_line: fields.q_line,
        a: fields.a,
        b: fields.b,
        c: fields.c,
        d: fields.d,
        e: fields.e,
        f: fields.f,
        g: fields.g,
        raw_lines: notam_lines(norm),
    };
    let warns: Seq<Seq<char>> = if start == u.len() {
        seq!["No NOTAM tags found; parsed as raw lines."@]
    } else {
        Seq::empty()
    };
    (p, warns)
}

/// Parse a raw NOTAM into the structured record plus the legacy warning
/// messages, exactly as the tag fold specifies. Never fails.
#[verifier::loop_isolation(false)]
#[verifier::rlimit(60)]
pub fn parse_notam(raw: &str) -> (r: (NotamParsed, Vec<String>))
    ensures
        r.0@ == parse_notam_s(raw@).0,
        ssview(r.1@) == parse_notam_s(raw@).1,
{
    let rv = to_chars(raw);
    let norm = normalize_newlines_exec(&rv);
    let u = upper_chars(&norm);
    proof {
        assert(u@.len() == norm@.len());
    }
    let raw_lines = notam_lines_exec(&norm);
    let n = u.len();
    let mut q_line: Option<String> = None;
    let mut a: Option<String> = None;
    let mut b: Option<String> = None;
    let mut c: Option<String> = None;
    let mut d: Option<String> = None;
    let mut e: Option<String> = None;
    let mut f: Option<String> = None;
    let mut g: Option<String> = None;
    let start = next_tag_exec(&u, 0);
    let mut warnings: Vec<String> = Vec::new();
    if start == n {
        warnings.push(String::from_str("No NOTAM tags found; parsed as raw lines."));
        proof {
            assert(ssview(warnings@) =~= parse_notam_s(raw@).1);
        }
    } else {
        proof {
            assert(ssview(warnings@) =~= parse_notam_s(raw@).1);
        }
    }
    let ghost fields0 = empty_fields();
    let mut i = start;
    while i < n
        invariant
            n == u@.len(),
            u@ == upper_s(norm@),
            i <= n,
            i < n ==> is_tag_at(u@, i as int),
            notam_fields(
                norm@,
                u@,
                i as int,
                NotamFieldsV {
                    q_line: oview(q_line),
                    a: oview(a),
                    b: oview(b),
                    c: oview(c),
                    d: oview(d),
                    e: oview(e),
                    f: oview(f),
                    g: oview(g),
                },
            ) == notam_fields(norm@, u@, start as int, empty_fields()),
        decreases n - i,
    {
        let ghost acc = NotamFieldsV {
            q_line: oview(q_line),
            a: oview(a),
            b: oview(b),
            c: oview(c),
            d: oview(d),
            e: oview(e),
            f: oview(f),
            g: oview(g),
        };
        let j = next_tag_exec(&u, i + 2);
        let seg = subvec(&norm, i + 2, j);
        let content = trim_chars(&seg);
        proof {
            assert(seg@ =~= norm@.subrange(i as int + 2, j as int));
        }
        let field: Option<String> = if content.len() == 0 {
            None
        } else {
            Some(chars_string(&content))
        };
        let tag = u[i];
        if tag == 'Q' {
            q_line = field;
        } else if tag == 'A' {
            a = field;
        } else if tag == 'B' {
            b = field;
        } else if tag == 'C' {
            c = field;
        } else if tag == 'D' {
            d = field;
        } else if tag == 'E' {
            e = field;
        } else if tag == 'F' {
            f = field;
        } else {
            g = field;
        }
        proof {
            let acc2 = NotamFieldsV {
                q_line: oview(q_line),
                a: oview(a),
                b: oview(b),
                c: oview(c),
                d: oview(d),
                e: oview(e),
                f: oview(f),
                g: oview(g),
            };
            let ghost cont = trim_s(norm@.subrange(i as int + 2, j as int));
            assert(acc2 =~= assign_field(
                acc,
                u@[i as int],
                if cont.len() == 0 {
                    None
                } else {
                    Some(cont)
                },
            ));
            assert(notam_fields(norm@, u@, i as int, acc) == notam_fields(norm@, u@, j as int,
                acc2,
            ));
        }
        i = j;
    }
    let parsed = NotamParsed {
        q_line,
        a,
        b,
        c,
        d,
        e,
        f,
        g,
        raw_lines,
    };
    proof {
        assert(notam_fields(norm@, u@, n as int, NotamFieldsV {
            q_line: oview(parsed.q_line),
            a: oview(parsed.a),
            b: oview(parsed.b),
            c: oview(parsed.c),
            d: oview(parsed.d),
            e: oview(parsed.e),
            f: oview(parsed.f),
            g: oview(parsed.g),
        }) == notam_fields(norm@, u@, start as int, empty_fields()));
        assert(parsed@ =~~= parse_notam_s(raw@).0);
    }
    (parsed, warnings)
}

/// The canonicalized record: the tag fields carried over unchanged.
pub open spec fn normalize_notam_s(p: NotamParsedV) -> NotamNormalizedV {
    NotamNormalizedV {
        q_line: p.q_line,
        a: p.a,
        b: p.b,
        c: p.c,
        d: p.d,
        e: p.e,
        f: p.f,
        g: p.g,
    }
}

/// Canonicalize a parsed NOTAM; a pure mapping.
pub fn normalize_notam(parsed: &NotamParsed) -> (r: NotamNormalized)
    ensures
        r@ == normalize_notam_s(parsed@),
{
    let r = NotamNormalized {
        q_line: clone_opt_string(&parsed.q_line),
        a: clone_opt_string(&parsed.a),
        b: clone_opt_string(&parsed.b),
        c: clone_opt_string(&parsed.c),
        d: clone_opt_string(&parsed.d),
        e: clone_opt_string(&parsed.e),
        f: clone_opt_string(&parsed.f),
        g: clone_opt_string(&parsed.g),
    };
    proof {
        assert(r@ =~~= normalize_notam_s(parsed@));
    }
    r
}

/// The parts of the rendered paragraph: location, start, end, content;
/// in full detail also the Q line and the D/F/G fields.
pub open spec fn np1(n: NotamNormalizedV) -> Seq<Seq<char>> {
    match n.a {
        Some(s) => Seq::empty().push("地点 "@ + s),
        None => Seq::empty(),
    }
}

pub open spec fn np2(n: NotamNormalizedV) -> Seq<Seq<char>> {
    match n.b {
        Some(s) => np1(n).push("生效 "@ + s),
        None => np1(n),
    }
}

pub open spec fn np3(n: NotamNormalizedV) -> Seq<Seq<char>> {
    match n.c {
        Some(s) => np2(n).push("终止 "@ + s),
        None => np2(n),
    }
}

pub open spec fn np4(n: NotamNormalizedV) -> Seq<Seq<char>> {
    match n.e {
        Some(s) => np3(n).push("内容 "@ + s),
        None => np3(n),
    }
}

pub open spec fn np5(n: NotamNormalizedV, detail: DetailLevel) -> Seq<Seq<char>> {
    if detail == DetailLevel::Full {
        match n.q_line {
            Some(s) => np4(n).push("Q 行 "@ + s),
            None => np4(n),
        }
    } else {
        np4(n)
    }
}

pub open spec fn np6(n: NotamNormalizedV, detail: DetailLevel) -> Seq<Seq<char>> {
    if detail == DetailLevel::Full {
        match n.d {
            Some(s) => np5(n, detail).push("D "@ + s),
            None => np5(n, detail),
        }
    } else {
        np5(n, detail)
    }
}

pub open spec fn np7(n: NotamNormalizedV, detail: DetailLevel) -> Seq<Seq<char>> {
    if detail == DetailLevel::Full {
        match n.f {
            Some(s) => np6(n, detail).push("F "@ + s),
            None => np6(n, detail),
        }
    } else {
        np6(n, detail)
    }
}

pub open spec fn notam_parts(n: NotamNormalizedV, detail: DetailLevel) -> Seq<Seq<char>> {
    if detail == DetailLevel::Full {
        match n.g {
            Some(s) => np7(n, detail).push("G "@ + s),
            None => np7(n, detail),
        }
    } else {
        np7(n, detail)
    }
}

/// The rendered paragraph: the unsupported-locale placeholder for any
/// locale but `zh-CN`; a fixed no-fields notice when nothing was
/// extracted; else the parts joined with commas.
pub open spec fn translate_notam_s(n: NotamNormalizedV, detail: DetailLevel, lang: Seq<char>)
    -> Seq<char> {
    if lang != "zh-CN"@ {
        "Translation only supports zh-CN for now."@
    } else if notam_parts(n, detail).len() == 0 {
        "未提取到常见 NOTAM 字段。"@
    } else {
        crate::text::join_sep(notam_parts(n, detail), "，"@)
    }
}

/// Render a normalized NOTAM in the requested locale and detail level.
#[verifier::rlimit(60)]
pub fn translate_notam(normalized: &NotamNormalized, detail: DetailLevel, lang: &str) -> (r:
    String)
    ensures
        r@ == translate_notam_s(normalized@, detail, lang@),
{
    let lv = to_chars(lang);
    if !crate::text::chars_eq_lit(&lv, "zh-CN") {
        return String::from_str("Translation only supports zh-CN for now.");
    }
    let ghost n = normalized@;
    let mut parts: Vec<String> = Vec::new();
    match &normalized.a {
        Some(x) => {
            let mut s = String::from_str("地点 ");
            s.append(x.as_str());
            parts.push(s);
        },
        None => {},
    }
    proof {
        assert(ssview(parts@) =~= np1(n));
    }
    match &normalized.b {
        Some(x) => {
            let mut s = String::from_str("生效 ");
            s.append(x.as_str());
            parts.push(s);
        },
        None => {},
    }
    proof {
        assert(ssview(parts@) =~= np2(n));
    }
    match &normalized.c {
        Some(x) => {
            let mut s = String::from_str("终止 ");
            s.append(x.as_str());
            parts.push(s);
        },
        None => {},
    }
    proof {
        assert(ssview(parts@) =~= np3(n));
    }
    match &normalized.e {
        Some(x) => {
            let mut s = String::from_str("内容 ");
            s.append(x.as_str());
            parts.push(s);
        },
        None => {},
    }
    proof {
        assert(ssview(parts@) =~= np4(n));
    }
    if matches!(detail, DetailLevel::Full) {
        match &normalized.q_line {
            Some(x) => {
                let mut s = String::from_str("Q 行 ");
                s.append(x.as_str());
                parts.push(s);
            },
            None => {},
        }
        proof {
            assert(ssview(parts@) =~= np5(n, detail));
        }
        match &normalized.d {
            Some(x) => {
                let mut s = String::from_str("D ");
                s.append(x.as_str());
                parts.push(s);
            },
            None => {},
        }
        proof {
            assert(ssview(parts@) =~= np6(n, detail));
        }
        match &normalized.f {
            Some(x) => {
                let mut s = String::from_str("F ");
                s.append(x.as_str());
                parts.push(s);
            },
            None => {},
        }
        proof {
            assert(ssview(parts@) =~= np7(n, detail));
        }
        match &normalized.g {
            Some(x) => {
                let mut s = String::from_str("G ");
                s.append(x.as_str());
                parts.push(s);
            },
            None => {},
        }
    }
    proof {
        assert(ssview(parts@) =~= notam_parts(n, detail));
    }
    if parts.len() == 0 {
        return String::from_str("未提取到常见 NOTAM 字段。");
    }
    crate::text::join_strings(&parts, "，")
}

/// The full NOTAM response. The type fields all read `notam`; the
/// orchestrator overwrites them with its own authoritative values.
pub open spec fn decode_notam_s(raw: Seq<char>, detail: DetailLevel, lang: Seq<char>)
    -> DecodeResponseV {
    let pr = parse_notam_s(raw);
    let normalized = normalize_notam_s(pr.0);
    let warnings = sort_issues_s(legacy_issues(pr.1));
    DecodeResponseV {
        schema_version: "1.0"@,
        message_type: MessageType::Notam,
        requested_type: MessageType::Notam,
        detected_type: MessageType::Notam,
        final_type: MessageType::Notam,
        raw: trim_s(raw),
        parsed: Some(ParsedMessageV::Notam(pr.0)),
        normalized: Some(NormalizedMessageV::Notam(normalized)),
        explain: Some(translate_notam_s(normalized, detail, lang)),
        warnings,
        errors: Seq::empty(),
        warnings_legacy: legacy_of(warnings),
        errors_legacy: None,
    }
}

/// Decode a raw NOTAM end to end. Never fails for any input.
#[verifier::rlimit(60)]
pub fn decode_notam(raw: &str, detail: DetailLevel, lang: &str) -> (r: DecodeResponse)
    ensures
        r@ == decode_notam_s(raw@, detail, lang@),
{
    let (parsed, warn_msgs) = parse_notam(raw);
    let normalized = normalize_notam(&parsed);
    let explain = translate_notam(&normalized, detail, lang);
    let mut warnings = issues_from_legacy_vec(&warn_msgs);
    let mut errors: Vec<Issue> = Vec::new();
    let legacy = finalize_issues(&mut warnings, &mut errors);
    let rv = to_chars(raw);
    let trimmed = trim_chars(&rv);
    let r = DecodeResponse {
        schema_version: String::from_str("1.0"),
        message_type: MessageType::Notam,
        requested_type: MessageType::Notam,
        detected_type: MessageType::Notam,
        final_type: MessageType::Notam,
        raw: chars_string(&trimmed),
        parsed: Some(ParsedMessage::Notam(parsed)),
        normalized: Some(NormalizedMessage::Notam(normalized)),
        explain: Some(explain),
        warnings,
        errors,
        warnings_legacy: legacy.0,
        errors_legacy: legacy.1,
    };
    proof {
        assert(sview(Seq::<Issue>::empty()) =~= Seq::<crate::types::IssueV>::empty());
        assert(sort_issues_s(Seq::<crate::types::IssueV>::empty())
            == Seq::<crate::types::IssueV>::empty());
        assert(r@ =~~= decode_notam_s(raw@, detail, lang@));
    }
    r
}

/// No field of the fold is ever the empty string: absent content stays
/// absent rather than empty.
pub open spec fn fields_nonempty(f: NotamFieldsV) -> bool {
    (f.q_line matches Some(x) ==> x.len() > 0) && (f.a matches Some(x) ==> x.len() > 0) && (
    f.b matches Some(x) ==> x.len() > 0) && (f.c matches Some(x) ==> x.len() > 0) && (
    f.d matches Some(x) ==> x.len() > 0) && (f.e matches Some(x) ==> x.len() > 0) && (
    f.f matches Some(x) ==> x.len() > 0) && (f.g matches Some(x) ==> x.len() > 0)
}

proof fn lemma_notam_fields_nonempty(norm: Seq<char>, u: Seq<char>, i: int, acc: NotamFieldsV)
    requires
        fields_nonempty(acc),
    ensures
        fields_nonempty(notam_fields(norm, u, i, acc)),
    decreases u.len() - i,
{
    if 0 <= i && i < u.len() {
        let j = next_tag(u, i + 2);
        let content = trim_s(norm.subrange(i + 2, if j <= norm.len() {
            j
        } else {
            norm.len() as int
        }));
        let field: Option<Seq<char>> = if content.len() == 0 {
            None
        } else {
            Some(content)
        };
        if i + 2 <= u.len() {
            lemma_next_tag(u, i + 2);
        }
        lemma_notam_fields_nonempty(norm, u, j, assign_field(acc, u[i], field));
    }
}

/// Adjacent empty-content tags — and empty content anywhere — yield an
/// absent field, never an empty string: every present field of a parsed
/// NOTAM is non-empty.
pub proof fn lemma_notam_no_empty_fields(raw: Seq<char>)
    ensures
        parse_notam_s(raw).0.q_line matches Some(x) ==> x.len() > 0,
        parse_notam_s(raw).0.a matches Some(x) ==> x.len() > 0,
        parse_notam_s(raw).0.b matches Some(x) ==> x.len() > 0,
        parse_notam_s(raw).0.c matches Some(x) ==> x.len() > 0,
        parse_notam_s(raw).0.d matches Some(x) ==> x.len() > 0,
        parse_notam_s(raw).0.e matches Some(x) ==> x.len() > 0,
        parse_notam_s(raw).0.f matches Some(x) ==> x.len() > 0,
        parse_notam_s(raw).0.g matches Some(x) ==> x.len() > 0,
{
    let norm = normalize_newlines(raw);
    let u = upper_s(norm);
    let start = next_tag(u, 0);
    lemma_notam_fields_nonempty(norm, u, start, empty_fields());
}

} // verus!
