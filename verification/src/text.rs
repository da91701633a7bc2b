//! Character classes, string/character conversions, tokenization, trimming,
//! substring search, lexicographic ordering and decimal rendering used by
//! every parser and by the translator.
use vstd::prelude::*;

verus! {

/// The Unicode `White_Space` code points, the set `str::trim` and
/// `str::split_whitespace` go by.
pub open spec fn is_space(c: char) -> bool {
    c == ' ' || c == '\t' || c == '\n' || c == '\r' || c == '\u{b}' || c == '\u{c}'
        || c == '\u{85}' || c == '\u{a0}' || c == '\u{1680}'
        || ('\u{2000}' <= c && c <= '\u{200a}')
        || c == '\u{2028}' || c == '\u{2029}' || c == '\u{202f}' || c == '\u{205f}'
        || c == '\u{3000}'
}

pub fn space(c: char) -> (r: bool)
    ensures
        r == is_space(c),
{
    c == ' ' || c == '\t' || c == '\n' || c == '\r' || c == '\u{b}' || c == '\u{c}'
        || c == '\u{85}' || c == '\u{a0}' || c == '\u{1680}'
        || ('\u{2000}' <= c && c <= '\u{200a}')
        || c == '\u{2028}' || c == '\u{2029}' || c == '\u{202f}' || c == '\u{205f}'
        || c == '\u{3000}'
}

pub open spec fn is_digit(c: char) -> bool {
    '0' <= c && c <= '9'
}

pub fn digit(c: char) -> (r: bool)
    ensures
        r == is_digit(c),
{
    '0' <= c && c <= '9'
}

/// ASCII letters of either case, as `char::is_ascii_alphabetic` decides.
pub open spec fn is_alpha(c: char) -> bool {
    ('A' <= c && c <= 'Z') || ('a' <= c && c <= 'z')
}

pub fn alpha(c: char) -> (r: bool)
    ensures
        r == is_alpha(c),
{
    ('A' <= c && c <= 'Z') || ('a' <= c && c <= 'z')
}

pub open spec fn is_upper(c: char) -> bool {
    'A' <= c && c <= 'Z'
}

pub fn upper(c: char) -> (r: bool)
    ensures
        r == is_upper(c),
{
    'A' <= c && c <= 'Z'
}

/// ASCII uppercasing of one character, as `char::to_ascii_uppercase` maps it.
pub open spec fn upper_char(c: char) -> char {
    if 'a' <= c && c <= 'z' {
        ((c as u8) - 32) as char
    } else {
        c
    }
}

pub fn to_upper_char(c: char) -> (r: char)
    ensures
        r == upper_char(c),
{
    if 'a' <= c && c <= 'z' {
        ((c as u8) - 32) as char
    } else {
        c
    }
}

pub open spec fn upper_s(s: Seq<char>) -> Seq<char> {
    s.map_values(|c: char| upper_char(c))
}

pub fn upper_chars(v: &Vec<char>) -> (out: Vec<char>)
    ensures
        out@ == upper_s(v@),
{
    let mut out: Vec<char> = Vec::new();
    let mut i: usize = 0;
    while i < v.len()
        invariant
            i <= v@.len(),
            out@ == upper_s(v@.take(i as int)),
        decreases v@.len() - i,
    {
        out.push(to_upper_char(v[i]));
        i = i + 1;
        proof {
            assert(out@ =~= upper_s(v@.take(i as int)));
        }
    }
    proof {
        assert(v@.take(v@.len() as int) =~= v@);
    }
    out
}

pub open spec fn digit_val(c: char) -> nat {
    (c as nat - '0' as nat) as nat
}

/// The characters of a string, in order, as an indexable vector.
pub fn to_chars(s: &str) -> (v: Vec<char>)
    ensures
        v@ == s@,
{
    let n = s.unicode_len();
    let mut v: Vec<char> = Vec::new();
    let mut i: usize = 0;
    while i < n
        invariant
            n == s@.len(),
            i <= n,
            v@ == s@.take(i as int),
        decreases n - i,
    {
        v.push(s.get_char(i));
        i = i + 1;
        proof {
            assert(v@ =~= s@.take(i as int));
        }
    }
    proof {
        assert(v@ =~= s@);
    }
    v
}

/// Relies on `String::push`: appending each character of the vector, in
/// order, to an empty string yields a string whose characters are exactly
/// the vector's contents.
#[verifier::external_body]
pub fn chars_string(v: &Vec<char>) -> (s: String)
    ensures
        s@ == v@,
{
    let mut s = String::new();
    for c in v.iter() {
        s.push(*c);
    }
    s
}

/// The copy of `v[a..b]`.
pub fn subvec(v: &Vec<char>, a: usize, b: usize) -> (out: Vec<char>)
    requires
        a <= b <= v@.len(),
    ensures
        out@ == v@.subrange(a as int, b as int),
{
    let mut out: Vec<char> = Vec::new();
    let mut k: usize = a;
    while k < b
        invariant
            a <= k <= b <= v@.len(),
            out@ == v@.subrange(a as int, k as int),
        decreases b - k,
    {
        out.push(v[k]);
        k = k + 1;
        proof {
            assert(out@ =~= v@.subrange(a as int, k as int));
        }
    }
    out
}

pub open spec fn has_prefix(s: Seq<char>, p: Seq<char>) -> bool {
    p.len() <= s.len() && s.take(p.len() as int) == p
}

pub fn chars_has_prefix_at(v: &Vec<char>, at: usize, p: &str) -> (b: bool)
    requires
        at <= v@.len(),
    ensures
        b == has_prefix(v@.skip(at as int), p@),
{
    let pc = to_chars(p);
    let n = v.len();
    let m = pc.len();
    if n - at < m {
        return false;
    }
    let mut i: usize = 0;
    while i < m
        invariant
            pc@ == p@,
            n == v@.len(),
            m == pc@.len(),
            at <= n,
            m <= n - at,
            i <= m,
            forall|k: int| 0 <= k < i ==> v@[at + k] == pc@[k],
        decreases m - i,
    {
        if v[at + i] != pc[i] {
            proof {
                assert(v@.skip(at as int).take(p@.len() as int)[i as int] != p@[i as int]);
            }
            return false;
        }
        i = i + 1;
    }
    proof {
        assert(v@.skip(at as int).take(p@.len() as int) =~= p@);
    }
    true
}

pub fn chars_has_prefix(v: &Vec<char>, p: &str) -> (b: bool)
    ensures
        b == has_prefix(v@, p@),
{
    let b = chars_has_prefix_at(v, 0, p);
    proof {
        assert(v@.skip(0) =~= v@);
    }
    b
}

pub fn chars_eq_lit(v: &Vec<char>, p: &str) -> (b: bool)
    ensures
        b == (v@ == p@),
{
    let pc = to_chars(p);
    if v.len() != pc.len() {
        return false;
    }
    let b = chars_has_prefix(v, p);
    proof {
        if b {
            assert(v@ =~= p@);
        } else {
            if v@ == p@ {
                assert(v@.take(p@.len() as int) =~= p@);
            }
        }
    }
    b
}

/// `p` occurs somewhere in `s` as a contiguous run.
pub open spec fn contains_seq(s: Seq<char>, p: Seq<char>) -> bool {
    exists|i: int|
        0 <= i && i + p.len() <= s.len() && #[trigger] s.subrange(i, i + p.len() as int) == p
}

pub fn chars_contains(v: &Vec<char>, p: &str) -> (b: bool)
    ensures
        b == contains_seq(v@, p@),
{
    let pc = to_chars(p);
    let n = v.len();
    let m = pc.len();
    if m > n {
        return false;
    }
    let mut i: usize = 0;
    while i <= n - m
        invariant
            pc@ == p@,
            n == v@.len(),
            m == pc@.len(),
            m <= n,
            i <= n,
            forall|j: int|
                0 <= j < i ==> #[trigger] v@.subrange(j, j + p@.len() as int) != p@,
        decreases n - i,
    {
        let mut k: usize = 0;
        let mut matched = true;
        while k < m
            invariant
                pc@ == p@,
                n == v@.len(),
                m == pc@.len(),
                i + m <= n,
                k <= m,
                m == 0 ==> matched,
                matched ==> forall|t: int| 0 <= t < k ==> v@[i + t] == pc@[t],
                !matched ==> v@.subrange(i as int, i + p@.len() as int) != p@,
            decreases m - k,
        {
            if v[i + k] != pc[k] {
                proof {
                    assert(v@.subrange(i as int, i + p@.len() as int)[k as int] != p@[k as int]);
                }
                matched = false;
                k = m;
            } else {
                k = k + 1;
            }
        }
        if matched {
            proof {
                assert(v@.subrange(i as int, i + p@.len() as int) =~= p@);
            }
            return true;
        }
        i = i + 1;
    }
    proof {
        assert forall|j: int| 0 <= j && j + p@.len() <= v@.len() implies #[trigger] v@.subrange(
            j,
            j + p@.len() as int,
        ) != p@ by {
            assert(j < i);
        }
    }
    false
}

/// Length of the maximal run of non-whitespace characters at the front.
pub open spec fn nonspace_run(s: Seq<char>) -> nat
    decreases s.len(),
{
    if s.len() > 0 && !is_space(s[0]) {
        1 + nonspace_run(s.skip(1))
    } else {
        0
    }
}

pub proof fn lemma_nonspace_run(s: Seq<char>, k: nat)
    requires
        k <= s.len(),
        forall|t: int| 0 <= t < k ==> !is_space(#[trigger] s[t]),
        k == s.len() || is_space(s[k as int]),
    ensures
        nonspace_run(s) == k,
    decreases k,
{
    if k == 0 {
    } else {
        lemma_nonspace_run(s.skip(1), (k - 1) as nat);
    }
}

pub proof fn lemma_nonspace_run_le(s: Seq<char>)
    ensures
        nonspace_run(s) <= s.len(),
    decreases s.len(),
{
    if s.len() > 0 && !is_space(s[0]) {
        lemma_nonspace_run_le(s.skip(1));
    }
}

/// The whitespace-separated tokens of a character sequence, in order — the
/// split that `str::split_whitespace` performs.
pub open spec fn tokenize(s: Seq<char>) -> Seq<Seq<char>>
    decreases s.len(),
    via tokenize_dec
{
    if s.len() == 0 {
        Seq::empty()
    } else if is_space(s[0]) {
        tokenize(s.skip(1))
    } else {
        seq![s.take(nonspace_run(s) as int)] + tokenize(s.skip(nonspace_run(s) as int))
    }
}

#[via_fn]
proof fn tokenize_dec(s: Seq<char>) {
    if s.len() > 0 && !is_space(s[0]) {
        lemma_nonspace_run_le(s);
    }
}

/// Spec view of a sequence of character vectors.
pub open spec fn vsview(s: Seq<Vec<char>>) -> Seq<Seq<char>> {
    s.map_values(|v: Vec<char>| v@)
}

pub fn tokenize_chars(v: &Vec<char>) -> (out: Vec<Vec<char>>)
    ensures
        vsview(out@) == tokenize(v@),
{
    let n = v.len();
    let mut out: Vec<Vec<char>> = Vec::new();
    let mut i: usize = 0;
    proof {
        assert(v@.skip(0) =~= v@);
        assert(vsview(out@) + tokenize(v@) =~= tokenize(v@));
    }
    while i < n
        invariant
            n == v@.len(),
            i <= n,
            vsview(out@) + tokenize(v@.skip(i as int)) == tokenize(v@),
        decreases n - i,
    {
        if space(v[i]) {
            proof {
                assert(v@.skip(i as int).skip(1) =~= v@.skip(i as int + 1));
            }
            i = i + 1;
        } else {
            let start = i;
            let mut j = i + 1;
            while j < n && !space(v[j])
                invariant
                    n == v@.len(),
                    start < j <= n,
                    forall|k: int| start <= k < j ==> !is_space(#[trigger] v@[k]),
                decreases n - j,
            {
                j = j + 1;
            }
            let tok = subvec(v, start, j);
            proof {
                let t = v@.skip(start as int);
                assert forall|k: int| 0 <= k < j - start implies !is_space(#[trigger] t[k]) by {
                    assert(t[k] == v@[start + k]);
                }
                if j < n {
                    assert(t[(j - start) as int] == v@[j as int]);
                }
                lemma_nonspace_run(t, (j - start) as nat);
                assert(t.take((j - start) as int) =~= v@.subrange(start as int, j as int));
                assert(t.skip((j - start) as int) =~= v@.skip(j as int));
                assert(tokenize(v@.skip(start as int)) == seq![tok@] + tokenize(v@.skip(j as int)));
            }
            out.push(tok);
            i = j;
            proof {
                assert(vsview(out@) =~= vsview(out@.drop_last()).push(tok@));
                assert(vsview(out@) + tokenize(v@.skip(i as int)) =~= tokenize(v@));
            }
        }
    }
    proof {
        assert(v@.skip(n as int) =~= Seq::<char>::empty());
        assert(vsview(out@) + tokenize(v@.skip(n as int)) =~= vsview(out@));
    }
    out
}

/// What is left after removing leading whitespace.
pub open spec fn trim_start_s(s: Seq<char>) -> Seq<char>
    decreases s.len(),
{
    if s.len() > 0 && is_space(s[0]) {
        trim_start_s(s.skip(1))
    } else {
        s
    }
}

/// What is left after removing trailing whitespace.
pub open spec fn trim_end_s(s: Seq<char>) -> Seq<char>
    decreases s.len(),
{
    if s.len() > 0 && is_space(s.last()) {
        trim_end_s(s.drop_last())
    } else {
        s
    }
}

/// What is left after removing whitespace at both ends, as `str::trim`.
pub open spec fn trim_s(s: Seq<char>) -> Seq<char> {
    trim_end_s(trim_start_s(s))
}

pub fn trim_chars(v: &Vec<char>) -> (out: Vec<char>)
    ensures
        out@ == trim_s(v@),
{
    let n = v.len();
    let mut i: usize = 0;
    proof {
        assert(v@.skip(0) =~= v@);
    }
    while i < n && space(v[i])
        invariant
            n == v@.len(),
            i <= n,
            trim_start_s(v@) == trim_start_s(v@.skip(i as int)),
        decreases n - i,
    {
        proof {
            assert(v@.skip(i as int).skip(1) =~= v@.skip(i as int + 1));
        }
        i = i + 1;
    }
    let ghost t = v@.skip(i as int);
    proof {
        assert(trim_start_s(v@) == t);
    }
    let mut j = n;
    proof {
        assert(t.take((n - i) as int) =~= t);
    }
    while j > i && space(v[j - 1])
        invariant
            n == v@.len(),
            i <= j <= n,
            t == v@.skip(i as int),
            trim_end_s(t) == trim_end_s(t.take((j - i) as int)),
        decreases j,
    {
        proof {
            let cur = t.take((j - i) as int);
            assert(cur.last() == v@[j - 1]);
            assert(cur.drop_last() =~= t.take((j - 1 - i) as int));
        }
        j = j - 1;
    }
    proof {
        let cur = t.take((j - i) as int);
        if j > i {
            assert(cur.last() == v@[j - 1]);
        }
        assert(trim_end_s(cur) == cur);
        assert(cur =~= v@.subrange(i as int, j as int));
    }
    subvec(v, i, j)
}

pub fn trim_start_chars(v: &Vec<char>) -> (out: Vec<char>)
    ensures
        out@ == trim_start_s(v@),
{
    let n = v.len();
    let mut i: usize = 0;
    proof {
        assert(v@.skip(0) =~= v@);
    }
    while i < n && space(v[i])
        invariant
            n == v@.len(),
            i <= n,
            trim_start_s(v@) == trim_start_s(v@.skip(i as int)),
        decreases n - i,
    {
        proof {
            assert(v@.skip(i as int).skip(1) =~= v@.skip(i as int + 1));
        }
        i = i + 1;
    }
    let out = subvec(v, i, n);
    proof {
        assert(out@ =~= v@.skip(i as int));
    }
    out
}

/// The first `max` characters, with `...` appended when anything was cut.
pub open spec fn truncate_s(s: Seq<char>, max: nat) -> Seq<char> {
    if s.len() <= max {
        s
    } else {
        s.take(max as int) + "..."@
    }
}

pub(crate) fn truncate_text(value: &str, max_chars: usize) -> (r: String)
    ensures
        r@ == truncate_s(value@, max_chars as nat),
{
    let v = to_chars(value);
    if v.len() <= max_chars {
        let out = chars_string(&v);
        out
    } else {
        let head = subvec(&v, 0, max_chars);
        let mut out = chars_string(&head);
        out.append("...");
        out
    }
}

/// One leading byte-order mark removed, if present.
pub open spec fn strip_bom(s: Seq<char>) -> Seq<char> {
    if s.len() > 0 && s[0] == '\u{feff}' {
        s.skip(1)
    } else {
        s
    }
}

pub fn strip_bom_chars(v: &Vec<char>) -> (out: Vec<char>)
    ensures
        out@ == strip_bom(v@),
{
    if v.len() > 0 && v[0] == '\u{feff}' {
        let out = subvec(v, 1, v.len());
        proof {
            assert(out@ =~= v@.skip(1));
        }
        out
    } else {
        subvec(v, 0, v.len())
    }
}

/// Strict lexicographic order on character sequences by code point — the
/// order `str`'s `Ord` induces, since UTF-8 byte order follows code points.
pub open spec fn lex_lt(a: Seq<char>, b: Seq<char>) -> bool
    decreases a.len(),
{
    if b.len() == 0 {
        false
    } else if a.len() == 0 {
        true
    } else if a[0] != b[0] {
        a[0] < b[0]
    } else {
        lex_lt(a.skip(1), b.skip(1))
    }
}

pub fn chars_lex_lt(a: &Vec<char>, b: &Vec<char>) -> (r: bool)
    ensures
        r == lex_lt(a@, b@),
{
    let mut i: usize = 0;
    proof {
        assert(a@.skip(0) =~= a@);
        assert(b@.skip(0) =~= b@);
    }
    loop
        invariant
            i <= a@.len(),
            i <= b@.len(),
            forall|k: int| 0 <= k < i ==> a@[k] == b@[k],
            lex_lt(a@, b@) == lex_lt(a@.skip(i as int), b@.skip(i as int)),
        decreases a@.len() - i,
    {
        if i >= b.len() {
            return false;
        }
        if i >= a.len() {
            return true;
        }
        if a[i] != b[i] {
            return a[i] < b[i];
        }
        proof {
            assert(a@.skip(i as int).skip(1) =~= a@.skip(i as int + 1));
            assert(b@.skip(i as int).skip(1) =~= b@.skip(i as int + 1));
        }
        i = i + 1;
    }
}

pub open spec fn digit_char(d: nat) -> char {
    if d == 0 {
        '0'
    } else if d == 1 {
        '1'
    } else if d == 2 {
        '2'
    } else if d == 3 {
        '3'
    } else if d == 4 {
        '4'
    } else if d == 5 {
        '5'
    } else if d == 6 {
        '6'
    } else if d == 7 {
        '7'
    } else if d == 8 {
        '8'
    } else {
        '9'
    }
}

/// The decimal rendering of a natural number, no padding.
pub open spec fn dec_str(n: nat) -> Seq<char>
    decreases n,
{
    if n < 10 {
        seq![digit_char(n)]
    } else {
        dec_str(n / 10) + seq![digit_char(n % 10)]
    }
}

/// The decimal rendering of an integer, `-` sign for negatives.
pub open spec fn dec_int(n: int) -> Seq<char> {
    if n < 0 {
        seq!['-'] + dec_str((-n) as nat)
    } else {
        dec_str(n as nat)
    }
}

/// Two-digit zero-padded rendering, as `{:02}` formats.
pub open spec fn dec_pad2(n: nat) -> Seq<char> {
    if n < 10 {
        seq!['0', digit_char(n)]
    } else {
        dec_str(n)
    }
}

/// Rendering of a tenths-valued quantity with one decimal place, as `{:.1}`
/// formats `t / 10.0`.
pub open spec fn dec_tenths(t: nat) -> Seq<char> {
    dec_str(t / 10) + seq!['.', digit_char(t % 10)]
}

fn push_digit(s: &mut String, d: u32)
    requires
        d < 10,
    ensures
        final(s)@ == old(s)@ + seq![digit_char(d as nat)],
{
    proof {
        reveal_strlit("0");
        reveal_strlit("1");
        reveal_strlit("2");
        reveal_strlit("3");
        reveal_strlit("4");
        reveal_strlit("5");
        reveal_strlit("6");
        reveal_strlit("7");
        reveal_strlit("8");
        reveal_strlit("9");
    }
    if d == 0 {
        s.append("0");
    } else if d == 1 {
        s.append("1");
    } else if d == 2 {
        s.append("2");
    } else if d == 3 {
        s.append("3");
    } else if d == 4 {
        s.append("4");
    } else if d == 5 {
        s.append("5");
    } else if d == 6 {
        s.append("6");
    } else if d == 7 {
        s.append("7");
    } else if d == 8 {
        s.append("8");
    } else {
        s.append("9");
    }
    proof {
        assert(s@ =~= old(s)@ + seq![digit_char(d as nat)]);
    }
}

/// The decimal rendering of `n`.
pub fn dec_u32(n: u32) -> (r: String)
    ensures
        r@ == dec_str(n as nat),
    decreases n,
{
    if n < 10 {
        let mut s = String::new();
        push_digit(&mut s, n);
        proof {
            assert(s@ =~= dec_str(n as nat));
        }
        s
    } else {
        let mut s = dec_u32(n / 10);
        push_digit(&mut s, n % 10);
        s
    }
}

/// The decimal rendering of `n`, `-` sign for negatives.
pub fn dec_i32(n: i32) -> (r: String)
    ensures
        r@ == dec_int(n as int),
{
    if n < 0 {
        let mut s = String::from_str("-");
        proof {
            reveal_strlit("-");
            assert(s@ =~= seq!['-']);
        }
        let m = -(n as i64);
        let rest = dec_u32(m as u32);
        s.append(rest.as_str());
        s
    } else {
        dec_u32(n as u32)
    }
}

/// Two-digit zero-padded rendering of `n`, as `{:02}` formats.
pub fn dec_pad2_u8(n: u8) -> (r: String)
    ensures
        r@ == dec_pad2(n as nat),
{
    if n < 10 {
        let mut s = String::from_str("0");
        proof {
            reveal_strlit("0");
            assert(s@ =~= seq!['0']);
        }
        push_digit(&mut s, n as u32);
        s
    } else {
        dec_u32(n as u32)
    }
}

/// Rendering of `t` tenths with one decimal place.
pub fn dec_tenths_u32(t: u32) -> (r: String)
    ensures
        r@ == dec_tenths(t as nat),
{
    let mut s = dec_u32(t / 10);
    let mut tail = String::from_str(".");
    proof {
        reveal_strlit(".");
        assert(tail@ =~= seq!['.']);
    }
    push_digit(&mut tail, t % 10);
    s.append(tail.as_str());
    proof {
        assert(s@ =~= dec_tenths(t as nat));
    }
    s
}

/// The parts joined with the separator between consecutive parts.
pub open spec fn join_sep(parts: Seq<Seq<char>>, sep: Seq<char>) -> Seq<char>
    decreases parts.len(),
{
    if parts.len() == 0 {
        Seq::empty()
    } else if parts.len() == 1 {
        parts[0]
    } else {
        join_sep(parts.drop_last(), sep) + sep + parts.last()
    }
}

/// Spec view of a sequence of strings.
pub open spec fn ssview(s: Seq<String>) -> Seq<Seq<char>> {
    s.map_values(|x: String| x@)
}

pub fn join_strings(parts: &Vec<String>, sep: &str) -> (r: String)
    ensures
        r@ == join_sep(ssview(parts@), sep@),
{
    let mut s = String::new();
    let mut i: usize = 0;
    while i < parts.len()
        invariant
            i <= parts@.len(),
            s@ == join_sep(ssview(parts@).take(i as int), sep@),
        decreases parts@.len() - i,
    {
        if i > 0 {
            s.append(sep);
        }
        s.append(parts[i].as_str());
        i = i + 1;
        proof {
            let pv = ssview(parts@);
            assert(pv.take(i as int).drop_last() =~= pv.take(i as int - 1));
            assert(pv.take(i as int).last() == parts@[i - 1]@);
        }
    }
    proof {
        assert(ssview(parts@).take(parts@.len() as int) =~= ssview(parts@));
    }
    s
}

} // verus!
