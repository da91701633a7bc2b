//! The issue model: construction of warnings, the legacy-message bridge,
//! the deterministic sort and the legacy string-array mirrors.
use vstd::prelude::*;

use crate::text::{chars_lex_lt, lex_lt, has_prefix, ssview, subvec, to_chars, chars_string};
use crate::types::{oview, sview, Issue, IssueCode, IssueV, spec_code_rank};

verus! {

/// The issue one warning or error record holds.
pub open spec fn issue_s(code: IssueCode, message: Seq<char>, token: Option<Seq<char>>) -> IssueV {
    IssueV { code, message, token, span: None }
}

/// A fresh issue with the given code, message and optional subject token,
/// and no span.
pub fn issue(code: IssueCode, message: &str, token: Option<String>) -> (r: Issue)
    ensures
        r@ == issue_s(code, message@, oview(token)),
{
    Issue { code, message: String::from_str(message), token, span: None }
}

/// How a legacy warning message is lifted into a structured issue: a
/// message carrying the unrecognized-token prefix becomes an
/// `unknown_token` issue whose token is the rest of the message; any other
/// message becomes a plain `warning`.
pub open spec fn issue_from_legacy_s(m: Seq<char>) -> IssueV {
    if has_prefix(m, "Unrecognized token: "@) {
        IssueV {
            code: IssueCode::UnknownToken,
            message: m,
            token: Some(m.skip("Unrecognized token: "@.len() as int)),
            span: None,
        }
    } else {
        IssueV { code: IssueCode::Warning, message: m, token: None, span: None }
    }
}

/// Lift a legacy warning string into a structured issue.
pub fn issue_from_legacy(message: &str) -> (r: Issue)
    ensures
        r@ == issue_from_legacy_s(message@),
{
    let v = to_chars(message);
    let p = to_chars("Unrecognized token: ");
    if crate::text::chars_has_prefix(&v, "Unrecognized token: ") {
        let tail = subvec(&v, p.len(), v.len());
        proof {
            assert(tail@ =~= message@.skip("Unrecognized token: "@.len() as int));
        }
        Issue {
            code: IssueCode::UnknownToken,
            message: String::from_str(message),
            token: Some(chars_string(&tail)),
            span: None,
        }
    } else {
        Issue {
            code: IssueCode::Warning,
            message: String::from_str(message),
            token: None,
            span: None,
        }
    }
}

pub open spec fn token_or_empty(i: IssueV) -> Seq<char> {
    match i.token {
        Some(t) => t,
        None => Seq::empty(),
    }
}

/// The strict sort order on issues: by code rank — which follows the
/// lexicographic order of the code names — then by token (absent reads as
/// empty), then by message.
pub open spec fn issue_lt(a: IssueV, b: IssueV) -> bool {
    spec_code_rank(a.code) < spec_code_rank(b.code) || (spec_code_rank(a.code) == spec_code_rank(
        b.code,
    ) && (lex_lt(token_or_empty(a), token_or_empty(b)) || (token_or_empty(a) == token_or_empty(b)
        && lex_lt(a.message, b.message))))
}

fn issue_lt_exec(a: &Issue, b: &Issue) -> (r: bool)
    ensures
        r == issue_lt(a@, b@),
{
    let ra = a.code.rank();
    let rb = b.code.rank();
    if ra < rb {
        return true;
    }
    if ra > rb {
        return false;
    }
    let ta = match &a.token {
        Some(t) => to_chars(t.as_str()),
        None => Vec::new(),
    };
    let tb = match &b.token {
        Some(t) => to_chars(t.as_str()),
        None => Vec::new(),
    };
    proof {
        assert(ta@ == token_or_empty(a@));
        assert(tb@ == token_or_empty(b@));
    }
    if chars_lex_lt(&ta, &tb) {
        return true;
    }
    if chars_lex_lt(&tb, &ta) {
        return false;
    }
    proof {
        crate::issues::lemma_lex_connected(ta@, tb@);
    }
    let ma = to_chars(a.message.as_str());
    let mb = to_chars(b.message.as_str());
    chars_lex_lt(&ma, &mb)
}

/// Two sequences not strictly ordered either way are equal.
pub proof fn lemma_lex_connected(a: Seq<char>, b: Seq<char>)
    requires
        !lex_lt(a, b),
        !lex_lt(b, a),
    ensures
        a == b,
    decreases a.len(),
{
    if a.len() == 0 || b.len() == 0 {
        assert(a =~= b);
    } else {
        lemma_lex_connected(a.skip(1), b.skip(1));
        assert(a =~= seq![a[0]] + a.skip(1));
        assert(b =~= seq![b[0]] + b.skip(1));
    }
}

/// Stable insertion of `x` into `t`: after every element not strictly
/// greater than `x`, before the first strictly greater one.
pub open spec fn insert_issue(t: Seq<IssueV>, x: IssueV) -> Seq<IssueV>
    decreases t.len(),
{
    if t.len() == 0 {
        seq![x]
    } else if issue_lt(x, t[0]) {
        seq![x] + t
    } else {
        seq![t[0]] + insert_issue(t.skip(1), x)
    }
}

/// The stable sort of the issue list by `issue_lt`, processed left to
/// right — equal keys keep their relative order.
pub open spec fn sort_issues_s(s: Seq<IssueV>) -> Seq<IssueV>
    decreases s.len(),
{
    if s.len() == 0 {
        Seq::empty()
    } else {
        insert_issue(sort_issues_s(s.drop_last()), s.last())
    }
}

proof fn lemma_insert_at(t: Seq<IssueV>, x: IssueV, p: int)
    requires
        0 <= p <= t.len(),
        forall|j: int| 0 <= j < p ==> !issue_lt(x, #[trigger] t[j]),
        p == t.len() || issue_lt(x, t[p]),
    ensures
        insert_issue(t, x) == t.take(p) + seq![x] + t.skip(p),
    decreases t.len(),
{
    if t.len() == 0 {
        assert(insert_issue(t, x) =~= t.take(p) + seq![x] + t.skip(p));
    } else if p == 0 {
        assert(issue_lt(x, t[0]));
        assert(insert_issue(t, x) == seq![x] + t);
        assert(t.take(0) + seq![x] + t.skip(0) =~= seq![x] + t);
    } else {
        assert(!issue_lt(x, t[0]));
        let tt = t.skip(1);
        assert forall|j: int| 0 <= j < p - 1 implies !issue_lt(x, #[trigger] tt[j]) by {
            assert(tt[j] == t[j + 1]);
        }
        if p < t.len() {
            assert(tt[p - 1] == t[p]);
        }
        lemma_insert_at(tt, x, p - 1);
        assert(insert_issue(t, x) == seq![t[0]] + (tt.take(p - 1) + seq![x] + tt.skip(p - 1)));
        assert(seq![t[0]] + (tt.take(p - 1) + seq![x] + tt.skip(p - 1)) =~= t.take(p) + seq![x]
            + t.skip(p));
    }
}

fn insert_sorted(out: &mut Vec<Issue>, x: Issue)
    ensures
        sview(final(out)@) == insert_issue(sview(old(out)@), x@),
{
    let mut p: usize = 0;
    let ghost t = sview(out@);
    while p < out.len() && !issue_lt_exec(&x, &out[p])
        invariant
            out@ == old(out)@,
            t == sview(out@),
            p <= out@.len(),
            forall|j: int| 0 <= j < p ==> !issue_lt(x@, #[trigger] t[j]),
        decreases out@.len() - p,
    {
        proof {
            assert(t[p as int] == out@[p as int]@);
        }
        p = p + 1;
    }
    proof {
        if p < out@.len() {
            assert(t[p as int] == out@[p as int]@);
        }
        lemma_insert_at(t, x@, p as int);
    }
    out.insert(p, x);
    proof {
        assert(sview(out@) =~= t.take(p as int) + seq![x@] + t.skip(p as int));
    }
}

/// Sort the issues in place by (code, token-or-empty, message), the
/// deterministic order every response carries.
#[verifier::loop_isolation(false)]
pub fn sort_issues(issues: &mut Vec<Issue>)
    ensures
        sview(final(issues)@) == sort_issues_s(sview(old(issues)@)),
{
    let mut out: Vec<Issue> = Vec::new();
    let mut i: usize = 0;
    let n = issues.len();
    while i < n
        invariant
            n == issues@.len(),
            issues@ == old(issues)@,
            i <= n,
            sview(out@) == sort_issues_s(sview(issues@).take(i as int)),
        decreases n - i,
    {
        let x = clone_issue(&issues[i]);
        insert_sorted(&mut out, x);
        i = i + 1;
        proof {
            let sv = sview(issues@);
            assert(sv.take(i as int).drop_last() =~= sv.take(i as int - 1));
            assert(sv.take(i as int).last() == issues@[i - 1]@);
        }
    }
    proof {
        assert(sview(issues@).take(n as int) =~= sview(issues@));
    }
    *issues = out;
}

/// A copy of the issue with the same contents.
pub fn clone_issue(x: &Issue) -> (r: Issue)
    ensures
        r@ == x@,
{
    Issue {
        code: x.code,
        message: x.message.clone(),
        token: match &x.token {
            Some(t) => Some(t.clone()),
            None => None,
        },
        span: x.span,
    }
}

/// The messages of the issues, in order.
pub open spec fn messages_of(s: Seq<IssueV>) -> Seq<Seq<char>> {
    s.map_values(|i: IssueV| i.message)
}

/// The legacy mirror of a sorted issue list: absent when the list is
/// empty, else the messages in list order.
pub open spec fn legacy_of(s: Seq<IssueV>) -> Option<Seq<Seq<char>>> {
    if s.len() == 0 {
        None
    } else {
        Some(messages_of(s))
    }
}

fn legacy_strings(issues: &Vec<Issue>) -> (r: Option<Vec<String>>)
    ensures
        crate::types::legacy_view(r) == legacy_of(sview(issues@)),
{
    if issues.len() == 0 {
        proof {
            assert(sview(issues@).len() == 0);
        }
        return None;
    }
    let mut v: Vec<String> = Vec::new();
    let mut i: usize = 0;
    while i < issues.len()
        invariant
            i <= issues@.len(),
            v@.len() == i,
            forall|k: int| 0 <= k < i ==> #[trigger] v@[k]@ == issues@[k].message@,
        decreases issues@.len() - i,
    {
        v.push(issues[i].message.clone());
        i = i + 1;
    }
    proof {
        assert forall|k: int| 0 <= k < issues@.len() implies sview(issues@)[k] == issues@[k]@
            && ssview(v@)[k] == v@[k]@ by {}
        assert(ssview(v@) =~= messages_of(sview(issues@)));
    }
    Some(v)
}

/// Sort both lists and compute the legacy string mirrors: `None` for an
/// empty list, else the messages in sorted order.
pub fn finalize_issues(warnings: &mut Vec<Issue>, errors: &mut Vec<Issue>) -> (r: (
    Option<Vec<String>>,
    Option<Vec<String>>,
))
    ensures
        sview(final(warnings)@) == sort_issues_s(sview(old(warnings)@)),
        sview(final(errors)@) == sort_issues_s(sview(old(errors)@)),
        crate::types::legacy_view(r.0) == legacy_of(sview(final(warnings)@)),
        crate::types::legacy_view(r.1) == legacy_of(sview(final(errors)@)),
{
    sort_issues(warnings);
    sort_issues(errors);
    let warnings_legacy = legacy_strings(warnings);
    let errors_legacy = legacy_strings(errors);
    (warnings_legacy, errors_legacy)
}

/// How many issues of the list carry the given code.
pub open spec fn count_code(s: Seq<IssueV>, c: IssueCode) -> nat
    decreases s.len(),
{
    if s.len() == 0 {
        0
    } else {
        (if s[0].code == c {
            1nat
        } else {
            0nat
        }) + count_code(s.skip(1), c)
    }
}

pub proof fn lemma_count_code_push(s: Seq<IssueV>, x: IssueV, c: IssueCode)
    ensures
        count_code(s.push(x), c) == count_code(s, c) + (if x.code == c {
            1nat
        } else {
            0nat
        }),
    decreases s.len(),
{
    if s.len() == 0 {
        assert(s.push(x)[0] == x);
        assert(s.push(x).skip(1) =~= Seq::<IssueV>::empty());
        assert(count_code(Seq::<IssueV>::empty(), c) == 0);
        assert(count_code(s.push(x), c) == (if s.push(x)[0].code == c {
            1nat
        } else {
            0nat
        }) + count_code(s.push(x).skip(1), c));
    } else {
        assert(s.push(x)[0] == s[0]);
        assert(s.push(x).skip(1) =~= s.skip(1).push(x));
        lemma_count_code_push(s.skip(1), x, c);
    }
}

proof fn lemma_count_code_insert(t: Seq<IssueV>, x: IssueV, c: IssueCode)
    ensures
        count_code(insert_issue(t, x), c) == count_code(t, c) + (if x.code == c {
            1nat
        } else {
            0nat
        }),
    decreases t.len(),
{
    if t.len() == 0 {
        assert(insert_issue(t, x) == seq![x]);
        assert(seq![x][0] == x);
        assert(seq![x].skip(1) =~= Seq::<IssueV>::empty());
        assert(count_code(Seq::<IssueV>::empty(), c) == 0);
        assert(count_code(seq![x], c) == (if x.code == c {
            1nat
        } else {
            0nat
        }));
    } else if issue_lt(x, t[0]) {
        assert((seq![x] + t)[0] == x);
        assert((seq![x] + t).skip(1) =~= t);
    } else {
        lemma_count_code_insert(t.skip(1), x, c);
        assert((seq![t[0]] + insert_issue(t.skip(1), x))[0] == t[0]);
        assert((seq![t[0]] + insert_issue(t.skip(1), x)).skip(1) =~= insert_issue(t.skip(1), x));
    }
}

/// Sorting neither adds nor loses issues of any code.
pub proof fn lemma_count_code_sorted(s: Seq<IssueV>, c: IssueCode)
    ensures
        count_code(sort_issues_s(s), c) == count_code(s, c),
    decreases s.len(),
{
    if s.len() > 0 {
        lemma_count_code_sorted(s.drop_last(), c);
        lemma_count_code_insert(sort_issues_s(s.drop_last()), s.last(), c);
        assert(s =~= s.drop_last().push(s.last()));
        lemma_count_code_push(s.drop_last(), s.last(), c);
    }
}

proof fn lemma_lex_trans(a: Seq<char>, b: Seq<char>, c: Seq<char>)
    requires
        lex_lt(a, b),
        lex_lt(b, c),
    ensures
        lex_lt(a, c),
    decreases a.len(),
{
    if a.len() == 0 {
    } else if b.len() == 0 {
    } else if a[0] != b[0] {
        if c.len() > 0 && b[0] == c[0] {
            assert(a[0] < c[0]);
        }
    } else {
        if c.len() > 0 && b[0] == c[0] {
            lemma_lex_trans(a.skip(1), b.skip(1), c.skip(1));
        }
    }
}

proof fn lemma_lex_asym(a: Seq<char>, b: Seq<char>)
    requires
        lex_lt(a, b),
    ensures
        !lex_lt(b, a),
    decreases a.len(),
{
    if a.len() > 0 && b.len() > 0 && a[0] == b[0] {
        lemma_lex_asym(a.skip(1), b.skip(1));
    }
}

proof fn lemma_issue_lt_asym(a: IssueV, b: IssueV)
    requires
        issue_lt(a, b),
    ensures
        !issue_lt(b, a),
{
    if spec_code_rank(a.code) == spec_code_rank(b.code) {
        let ta = token_or_empty(a);
        let tb = token_or_empty(b);
        if lex_lt(ta, tb) {
            lemma_lex_asym(ta, tb);
        } else {
            lemma_lex_asym(a.message, b.message);
        }
    }
}

/// Transitivity of the issue order, componentwise over rank, token and
/// message.
proof fn lemma_issue_lt_trans(a: IssueV, b: IssueV, c: IssueV)
    requires
        issue_lt(a, b),
        issue_lt(b, c),
    ensures
        issue_lt(a, c),
{
    if spec_code_rank(a.code) == spec_code_rank(c.code) {
        let ta = token_or_empty(a);
        let tb = token_or_empty(b);
        let tc = token_or_empty(c);
        if lex_lt(ta, tb) && lex_lt(tb, tc) {
            lemma_lex_trans(ta, tb, tc);
        }
        if ta == tc && lex_lt(a.message, b.message) && lex_lt(b.message, c.message) {
            lemma_lex_trans(a.message, b.message, c.message);
        }
    }
}

proof fn lemma_insert_elems(t: Seq<IssueV>, x: IssueV)
    ensures
        forall|k: int|
            0 <= k < insert_issue(t, x).len() ==> insert_issue(t, x)[k] == x || t.contains(
                #[trigger] insert_issue(t, x)[k],
            ),
    decreases t.len(),
{
    if t.len() == 0 {
    } else if issue_lt(x, t[0]) {
        assert forall|k: int|
            0 <= k < insert_issue(t, x).len() implies insert_issue(t, x)[k] == x || t.contains(
            #[trigger] insert_issue(t, x)[k],
        ) by {
            if k > 0 {
                assert(insert_issue(t, x)[k] == t[k - 1]);
            }
        }
    } else {
        lemma_insert_elems(t.skip(1), x);
        assert forall|k: int|
            0 <= k < insert_issue(t, x).len() implies insert_issue(t, x)[k] == x || t.contains(
            #[trigger] insert_issue(t, x)[k],
        ) by {
            if k == 0 {
                assert(insert_issue(t, x)[0] == t[0]);
            } else {
                let e = insert_issue(t.skip(1), x)[k - 1];
                assert(insert_issue(t, x)[k] == e);
                if e != x {
                    let j = choose|j: int| 0 <= j < t.skip(1).len() && t.skip(1)[j] == e;
                    assert(t[j + 1] == e);
                }
            }
        }
    }
}

/// The order a sorted issue list satisfies: no later issue sorts strictly
/// before an earlier one.
pub open spec fn issues_sorted(s: Seq<IssueV>) -> bool {
    forall|i: int, j: int| 0 <= i < j < s.len() ==> !issue_lt(#[trigger] s[j], #[trigger] s[i])
}

proof fn lemma_insert_keeps_sorted(t: Seq<IssueV>, x: IssueV)
    requires
        issues_sorted(t),
    ensures
        issues_sorted(insert_issue(t, x)),
    decreases t.len(),
{
    if t.len() == 0 {
    } else if issue_lt(x, t[0]) {
        let r = seq![x] + t;
        assert forall|i: int, j: int| 0 <= i < j < r.len() implies !issue_lt(
            #[trigger] r[j],
            #[trigger] r[i],
        ) by {
            if i == 0 {
                assert(r[j] == t[j - 1]);
                if issue_lt(t[j - 1], x) {
                    if j == 1 {
                        lemma_issue_lt_asym(x, t[0]);
                    } else {
                        lemma_issue_lt_trans(t[j - 1], x, t[0]);
                        assert(!issue_lt(t[j - 1], t[0]));
                    }
                }
            } else {
                assert(r[i] == t[i - 1]);
                assert(r[j] == t[j - 1]);
            }
        }
    } else {
        let tt = t.skip(1);
        assert forall|i: int, j: int| 0 <= i < j < tt.len() implies !issue_lt(
            #[trigger] tt[j],
            #[trigger] tt[i],
        ) by {
            assert(tt[i] == t[i + 1]);
            assert(tt[j] == t[j + 1]);
        }
        lemma_insert_keeps_sorted(tt, x);
        lemma_insert_elems(tt, x);
        let r = seq![t[0]] + insert_issue(tt, x);
        assert forall|i: int, j: int| 0 <= i < j < r.len() implies !issue_lt(
            #[trigger] r[j],
            #[trigger] r[i],
        ) by {
            if i == 0 {
                let e = insert_issue(tt, x)[j - 1];
                assert(r[j] == e);
                if e == x {
                    assert(!issue_lt(x, t[0]));
                } else {
                    let k = choose|k: int| 0 <= k < tt.len() && tt[k] == e;
                    assert(t[k + 1] == e);
                    assert(!issue_lt(e, t[0]));
                }
            } else {
                assert(r[i] == insert_issue(tt, x)[i - 1]);
                assert(r[j] == insert_issue(tt, x)[j - 1]);
            }
        }
    }
}

/// The sort yields a list in the deterministic (code, token-or-empty,
/// message) order, as every finalized response carries.
pub proof fn lemma_sort_issues_sorted(s: Seq<IssueV>)
    ensures
        issues_sorted(sort_issues_s(s)),
    decreases s.len(),
{
    if s.len() > 0 {
        lemma_sort_issues_sorted(s.drop_last());
        lemma_insert_keeps_sorted(sort_issues_s(s.drop_last()), s.last());
    }
}

} // verus!
