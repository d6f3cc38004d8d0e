//! Character-level text utilities with specifications.
//!
//! Texts are modelled as `Seq<char>`. The spec functions here describe the
//! standard-library string operations the installer relies on (`lines`,
//! `split`, `trim`, `split_whitespace`, integer parsing, decimal printing),
//! and the executable functions are proved to compute them.
use vstd::prelude::*;

verus! {

// ---------------------------------------------------------------------------
// Character classes
// ---------------------------------------------------------------------------

/// Unicode `White_Space` (the set `char::is_whitespace` accepts).
pub open spec fn is_ws(c: char) -> bool {
    let u = c as u32;
    ||| 0x09 <= u <= 0x0D
    ||| u == 0x20
    ||| u == 0x85
    ||| u == 0xA0
    ||| u == 0x1680
    ||| 0x2000 <= u <= 0x200A
    ||| u == 0x2028
    ||| u == 0x2029
    ||| u == 0x202F
    ||| u == 0x205F
    ||| u == 0x3000
}

/// ASCII decimal digit.
pub open spec fn is_digit(c: char) -> bool {
    '0' <= c && c <= '9'
}

pub fn is_whitespace(c: char) -> (r: bool)
    ensures
        r == is_ws(c),
{
    let u = c as u32;
    (0x09 <= u && u <= 0x0D) || u == 0x20 || u == 0x85 || u == 0xA0 || u == 0x1680 || (0x2000
        <= u && u <= 0x200A) || u == 0x2028 || u == 0x2029 || u == 0x202F || u == 0x205F || u
        == 0x3000
}

pub fn is_ascii_digit(c: char) -> (r: bool)
    ensures
        r == is_digit(c),
{
    '0' <= c && c <= '9'
}

/// Value of an ASCII digit.
pub open spec fn digit_value(c: char) -> nat {
    ((c as u32) - ('0' as u32)) as nat
}

/// The ASCII digit for `d` (`d < 10`).
pub open spec fn digit_char(d: nat) -> char {
    if d == 0 {
        '0'
    } else if d == 1 {
        '1'
    } else if d == 2 {
        '2'
    } else if d == 3 {
        '3'
    } else if d == 4 {
        '4'
    } else if d == 5 {
        '5'
    } else if d == 6 {
        '6'
    } else if d == 7 {
        '7'
    } else if d == 8 {
        '8'
    } else {
        '9'
    }
}

// ---------------------------------------------------------------------------
// Conversions between `str`/`String` and `Vec<char>`
// ---------------------------------------------------------------------------

/// Characters of a string slice, in order.
pub fn chars_of(s: &str) -> (out: Vec<char>)
    ensures
        out@ == s@,
{
    let mut out: Vec<char> = Vec::new();
    for c in it: s.chars()
        invariant
            out@ == it.seq().take(it.index() as int),
            it.seq() == s@,
    {
        out.push(c);
    }
    out
}

/// Appends one character to a `String` (`String::push`).
#[verifier::external_body]
pub(crate) fn push_char(s: &mut String, c: char)
    ensures
        final(s)@ == old(s)@.push(c),
{
    s.push(c);
}

/// Appends the characters `cs` to `s`.
pub fn push_chars(s: &mut String, cs: &[char])
    ensures
        final(s)@ == old(s)@ + cs@,
{
    let ghost s0 = s@;
    for i in 0..cs.len()
        invariant
            s@ == s0 + cs@.take(i as int),
    {
        push_char(s, cs[i]);
        assert(cs@.take(i + 1) == cs@.take(i as int).push(cs@[i as int]));
    }
    assert(cs@.take(cs.len() as int) == cs@);
}

/// A `String` holding exactly the characters `cs`.
pub fn string_of(cs: &[char]) -> (s: String)
    ensures
        s@ == cs@,
{
    let mut s = String::new();
    push_chars(&mut s, cs);
    s
}

/// A `String` holding a literal.
pub fn owned(lit: &str) -> (s: String)
    ensures
        s@ == lit@,
{
    String::from_str(lit)
}

/// Appends a string slice.
pub fn push_str(s: &mut String, t: &str)
    ensures
        final(s)@ == old(s)@ + t@,
{
    s.append(t);
}

// ---------------------------------------------------------------------------
// Decimal printing
// ---------------------------------------------------------------------------

/// Decimal representation of `n` (as `Display` prints an unsigned integer).
pub open spec fn dec(n: nat) -> Seq<char>
    decreases n,
{
    if n < 10 {
        seq![digit_char(n)]
    } else {
        dec(n / 10).push(digit_char(n % 10))
    }
}

/// `n` printed with at least two digits (`{:02}`), for `n < 100`.
pub open spec fn pad2(n: nat) -> Seq<char> {
    if n < 10 {
        seq!['0', digit_char(n)]
    } else {
        dec(n)
    }
}

fn digit_of(d: u64) -> (c: char)
    requires
        d < 10,
    ensures
        c == digit_char(d as nat),
{
    if d == 0 {
        '0'
    } else if d == 1 {
        '1'
    } else if d == 2 {
        '2'
    } else if d == 3 {
        '3'
    } else if d == 4 {
        '4'
    } else if d == 5 {
        '5'
    } else if d == 6 {
        '6'
    } else if d == 7 {
        '7'
    } else if d == 8 {
        '8'
    } else {
        '9'
    }
}

/// Appends the decimal representation of `n`.
pub fn push_dec(s: &mut String, n: u64)
    ensures
        final(s)@ == old(s)@ + dec(n as nat),
    decreases n,
{
    if n >= 10 {
        push_dec(s, n / 10);
        push_char(s, digit_of(n % 10));
        assert(old(s)@ + dec(n as nat) == old(s)@ + dec((n / 10) as nat) + seq![
            digit_char((n % 10) as nat),
        ]);
    } else {
        push_char(s, digit_of(n));
    }
}

/// Decimal representation of `n`, as `n.to_string()` gives it.
pub fn dec_string(n: u64) -> (s: String)
    ensures
        s@ == dec(n as nat),
{
    let mut s = String::new();
    push_dec(&mut s, n);
    s
}

/// Appends `n` with at least two digits.
pub fn push_pad2(s: &mut String, n: u64)
    ensures
        final(s)@ == old(s)@ + pad2(n as nat),
{
    if n < 10 {
        push_char(s, '0');
        push_char(s, digit_of(n));
    } else {
        push_dec(s, n);
    }
}

// ---------------------------------------------------------------------------
// Splitting
// ---------------------------------------------------------------------------

/// The character sequences held by a vector of character vectors.
pub open spec fn views(v: Seq<Vec<char>>) -> Seq<Seq<char>> {
    v.map_values(|x: Vec<char>| x@)
}

/// The pieces of `s` between the characters equal to `sep` (as `str::split`
/// with a `char` pattern yields them; always at least one piece).
pub open spec fn split_on(s: Seq<char>, sep: char) -> Seq<Seq<char>>
    decreases s.len(),
{
    if s.len() == 0 {
        seq![Seq::<char>::empty()]
    } else {
        let r = split_on(s.drop_last(), sep);
        if s.last() == sep {
            r.push(Seq::<char>::empty())
        } else {
            r.update(r.len() - 1, r.last().push(s.last()))
        }
    }
}

pub proof fn lemma_split_on_nonempty(s: Seq<char>, sep: char)
    ensures
        split_on(s, sep).len() >= 1,
    decreases s.len(),
{
    if s.len() > 0 {
        lemma_split_on_nonempty(s.drop_last(), sep);
    }
}

/// Removes one trailing `'\r'`.
pub open spec fn strip_cr(l: Seq<char>) -> Seq<char> {
    if l.len() > 0 && l.last() == '\r' {
        l.drop_last()
    } else {
        l
    }
}

/// The lines of `s`, as `str::lines` yields them: split at `'\n'`, a
/// `"\r\n"` ending counts as one line ending, and a final empty piece
/// (after a trailing newline, or of the empty text) is not a line.
pub open spec fn lines(s: Seq<char>) -> Seq<Seq<char>> {
    let parts = split_on(s, '\n');
    let n = parts.len();
    let k: int = if parts[n - 1].len() == 0 {
        n - 1
    } else {
        n as int
    };
    Seq::new(k as nat, |i: int| if i < n - 1 { strip_cr(parts[i]) } else { parts[i] })
}

/// `str::split(sep)` on a character slice.
pub fn split_chars(s: &[char], sep: char) -> (out: Vec<Vec<char>>)
    ensures
        views(out@) == split_on(s@, sep),
{
    let mut done: Vec<Vec<char>> = Vec::new();
    let mut cur: Vec<char> = Vec::new();
    assert(s@.take(0) == Seq::<char>::empty());
    assert(views(done@).push(cur@) =~= split_on(s@.take(0), sep));
    for i in 0..s.len()
        invariant
            views(done@).push(cur@) == split_on(s@.take(i as int), sep),
    {
        let c = s[i];
        let ghost t = s@.take(i as int);
        assert(s@.take(i + 1).drop_last() == t);
        assert(s@.take(i + 1).last() == c);
        let ghost old_done = views(done@);
        let ghost old_cur = cur@;
        if c == sep {
            done.push(cur);
            cur = Vec::new();
            assert(views(done@) =~= old_done.push(old_cur));
            assert(views(done@).push(cur@) =~= split_on(s@.take(i + 1), sep));
        } else {
            cur.push(c);
            assert(views(done@).push(cur@) =~= old_done.push(old_cur).update(
                old_done.len() as int,
                old_cur.push(c),
            ));
        }
    }
    assert(s@.take(s.len() as int) == s@);
    let ghost old_done = views(done@);
    let ghost old_cur = cur@;
    done.push(cur);
    assert(views(done@) =~= old_done.push(old_cur));
    done
}

/// `str::lines` on a string slice.
pub fn lines_of(s: &str) -> (out: Vec<Vec<char>>)
    ensures
        views(out@) == lines(s@),
{
    let cs = chars_of(s);
    let parts = split_chars(cs.as_slice(), '\n');
    proof {
        lemma_split_on_nonempty(s@, '\n');
    }
    let n = parts.len();
    let k = if parts[n - 1].len() == 0 {
        n - 1
    } else {
        n
    };
    let mut out: Vec<Vec<char>> = Vec::new();
    assert(views(out@) =~= lines(s@).take(0));
    for i in 0..k
        invariant
            k <= n,
            n == parts.len(),
            views(parts@) == split_on(s@, '\n'),
            views(out@) == lines(s@).take(i as int),
            lines(s@).len() == k,
    {
        let p = &parts[i];
        let mut line: Vec<char> = Vec::new();
        let m = if i + 1 < n && p.len() > 0 && p[p.len() - 1] == '\r' {
            p.len() - 1
        } else {
            p.len()
        };
        for j in 0..m
            invariant
                m <= p.len(),
                line@ == p@.take(j as int),
        {
            line.push(p[j]);
            assert(p@.take(j + 1) == p@.take(j as int).push(p@[j as int]));
        }
        assert(p@ == split_on(s@, '\n')[i as int]);
        assert(line@ =~= lines(s@)[i as int]);
        let ghost before = views(out@);
        let ghost lv = line@;
        out.push(line);
        assert(views(out@) =~= before.push(lv));
        assert(views(out@) =~= lines(s@).take(i + 1));
    }
    assert(lines(s@).take(k as int) == lines(s@));
    out
}

/// Whitespace-separated tokens, as `str::split_whitespace` yields them.
pub open spec fn tokens(s: Seq<char>) -> Seq<Seq<char>>
    decreases s.len(),
{
    if s.len() == 0 {
        Seq::empty()
    } else {
        let t = tokens(s.drop_last());
        let c = s.last();
        if is_ws(c) {
            t
        } else if s.len() >= 2 && !is_ws(s[s.len() - 2]) {
            t.update(t.len() - 1, t.last().push(c))
        } else {
            t.push(seq![c])
        }
    }
}


/// `split_whitespace` on a character slice.
pub fn tokens_of(s: &[char]) -> (out: Vec<Vec<char>>)
    ensures
        views(out@) == tokens(s@),
{
    let mut out: Vec<Vec<char>> = Vec::new();
    let mut in_word = false;
    assert(views(out@) =~= tokens(s@.take(0)));
    for i in 0..s.len()
        invariant
            views(out@) == tokens(s@.take(i as int)),
            in_word == (i >= 1 && !is_ws(s@[i - 1])),
            in_word ==> out.len() >= 1,
    {
        let c = s[i];
        let ghost t = s@.take(i as int);
        assert(s@.take(i + 1).drop_last() == t);
        assert(s@.take(i + 1).last() == c);
        if i >= 1 {
            assert(s@.take(i + 1)[i - 1] == s@[i - 1]);
        }
        if is_whitespace(c) {
            in_word = false;
        } else if in_word {
            let ghost old_out = views(out@);
            let last = out.len() - 1;
            let mut w = out.pop().unwrap();
            w.push(c);
            out.push(w);
            assert(views(out@) =~= old_out.update(last as int, old_out[last as int].push(c)));
            in_word = true;
        } else {
            let mut w: Vec<char> = Vec::new();
            w.push(c);
            let ghost old_out = views(out@);
            out.push(w);
            assert(views(out@) =~= old_out.push(seq![c]));
            in_word = true;
        }
    }
    assert(s@.take(s.len() as int) == s@);
    out
}

// ---------------------------------------------------------------------------
// Trimming, prefixes, searching
// ---------------------------------------------------------------------------

/// Number of leading characters of `s` satisfying `p`.
pub open spec fn lead(s: Seq<char>, p: spec_fn(char) -> bool) -> nat
    decreases s.len(),
{
    if s.len() == 0 || !p(s[0]) {
        0
    } else {
        1 + lead(s.drop_first(), p)
    }
}

/// Number of trailing characters of `s` satisfying `p`.
pub open spec fn trail(s: Seq<char>, p: spec_fn(char) -> bool) -> nat
    decreases s.len(),
{
    if s.len() == 0 || !p(s.last()) {
        0
    } else {
        1 + trail(s.drop_last(), p)
    }
}

/// `s` without its leading and trailing characters satisfying `p`
/// (`str::trim_matches` with a predicate).
pub open spec fn trim_by(s: Seq<char>, p: spec_fn(char) -> bool) -> Seq<char> {
    let a = lead(s, p);
    let t = s.skip(a as int);
    t.take(t.len() - trail(t, p))
}

/// `str::trim`.
pub open spec fn trim(s: Seq<char>) -> Seq<char> {
    trim_by(s, |c: char| is_ws(c))
}

proof fn lemma_lead(s: Seq<char>, p: spec_fn(char) -> bool, n: int)
    requires
        0 <= n <= s.len(),
        forall|j: int| 0 <= j < n ==> p(s[j]),
        n == s.len() || !p(s[n]),
    ensures
        lead(s, p) == n,
    decreases n,
{
    if n > 0 {
        assert forall|j: int| 0 <= j < n - 1 implies p(s.drop_first()[j]) by {
            assert(s.drop_first()[j] == s[j + 1]);
        }
        if n < s.len() {
            assert(s.drop_first()[n - 1] == s[n]);
        }
        lemma_lead(s.drop_first(), p, n - 1);
    }
}

proof fn lemma_trail(s: Seq<char>, p: spec_fn(char) -> bool, n: int)
    requires
        0 <= n <= s.len(),
        forall|j: int| s.len() - n <= j < s.len() ==> p(s[j]),
        n == s.len() || !p(s[s.len() - n - 1]),
    ensures
        trail(s, p) == n,
    decreases n,
{
    if n > 0 {
        let d = s.drop_last();
        assert forall|j: int| d.len() - (n - 1) <= j < d.len() implies p(d[j]) by {
            assert(d[j] == s[j]);
        }
        if n < s.len() {
            assert(d[d.len() - (n - 1) - 1] == s[s.len() - n - 1]);
        }
        lemma_trail(d, p, n - 1);
    }
}

/// The characters of `s` without leading and trailing whitespace.
pub fn trim_chars(s: &[char]) -> (out: Vec<char>)
    ensures
        out@ == trim(s@),
{
    let ghost p = |c: char| is_ws(c);
    let mut a: usize = 0;
    while a < s.len() && is_whitespace(s[a])
        invariant
            a <= s.len(),
            forall|j: int| 0 <= j < a ==> is_ws(#[trigger] s@[j]),
        decreases s.len() - a,
    {
        a = a + 1;
    }
    proof {
        lemma_lead(s@, p, a as int);
    }
    let mut b: usize = s.len();
    while b > a && is_whitespace(s[b - 1])
        invariant
            a <= b <= s.len(),
            forall|j: int| b <= j < s.len() ==> is_ws(#[trigger] s@[j]),
        decreases b,
    {
        b = b - 1;
    }
    let ghost t = s@.skip(a as int);
    proof {
        assert forall|j: int| t.len() - (s.len() - b) <= j < t.len() implies p(t[j]) by {
            assert(t[j] == s@[j + a]);
        }
        if b > a {
            assert(t[t.len() - (s.len() - b) - 1] == s@[b - 1]);
        }
        lemma_trail(t, p, (s.len() - b) as int);
    }
    let mut out: Vec<char> = Vec::new();
    let mut i = a;
    while i < b
        invariant
            a <= i <= b <= s.len(),
            out@ == s@.subrange(a as int, i as int),
        decreases b - i,
    {
        out.push(s[i]);
        assert(s@.subrange(a as int, i + 1) == s@.subrange(a as int, i as int).push(s@[i as int]));
        i = i + 1;
    }
    assert(out@ =~= trim(s@));
    out
}

/// The characters of `s` without leading and trailing copies of `q`.
pub fn trim_char(s: &[char], q: char) -> (out: Vec<char>)
    ensures
        out@ == trim_by(s@, |c: char| c == q),
{
    let ghost p = |c: char| c == q;
    let mut a: usize = 0;
    while a < s.len() && s[a] == q
        invariant
            a <= s.len(),
            forall|j: int| 0 <= j < a ==> #[trigger] s@[j] == q,
        decreases s.len() - a,
    {
        a = a + 1;
    }
    proof {
        lemma_lead(s@, p, a as int);
    }
    let mut b: usize = s.len();
    while b > a && s[b - 1] == q
        invariant
            a <= b <= s.len(),
            forall|j: int| b <= j < s.len() ==> #[trigger] s@[j] == q,
        decreases b,
    {
        b = b - 1;
    }
    let ghost t = s@.skip(a as int);
    proof {
        assert forall|j: int| t.len() - (s.len() - b) <= j < t.len() implies p(t[j]) by {
            assert(t[j] == s@[j + a]);
        }
        if b > a {
            assert(t[t.len() - (s.len() - b) - 1] == s@[b - 1]);
        }
        lemma_trail(t, p, (s.len() - b) as int);
    }
    let mut out: Vec<char> = Vec::new();
    let mut i = a;
    while i < b
        invariant
            a <= i <= b <= s.len(),
            out@ == s@.subrange(a as int, i as int),
        decreases b - i,
    {
        out.push(s[i]);
        assert(s@.subrange(a as int, i + 1) == s@.subrange(a as int, i as int).push(s@[i as int]));
        i = i + 1;
    }
    assert(out@ =~= trim_by(s@, p));
    out
}

/// `s` starts with `p`.
pub open spec fn has_prefix(s: Seq<char>, p: Seq<char>) -> bool {
    p.len() <= s.len() && s.take(p.len() as int) == p
}

/// `str::strip_prefix`.
pub open spec fn strip_prefix(s: Seq<char>, p: Seq<char>) -> Option<Seq<char>> {
    if has_prefix(s, p) {
        Some(s.skip(p.len() as int))
    } else {
        None
    }
}

/// Whether `s` starts with `p`.
pub fn starts_with(s: &[char], p: &str) -> (r: bool)
    ensures
        r == has_prefix(s@, p@),
{
    let pc = chars_of(p);
    if pc.len() > s.len() {
        return false;
    }
    let mut i: usize = 0;
    while i < pc.len()
        invariant
            pc@ == p@,
            pc.len() <= s.len(),
            i <= pc.len(),
            forall|j: int| 0 <= j < i ==> s@[j] == pc@[j],
        decreases pc.len() - i,
    {
        if s[i] != pc[i] {
            assert(s@.take(pc.len() as int)[i as int] != p@[i as int]);
            return false;
        }
        i = i + 1;
    }
    assert(s@.take(pc.len() as int) =~= p@);
    true
}

/// `s` with the prefix `p` removed, if it starts with it.
pub fn strip_prefix_chars(s: &[char], p: &str) -> (r: Option<Vec<char>>)
    ensures
        match strip_prefix(s@, p@) {
            Some(rest) => r matches Some(v) && v@ == rest,
            None => r is None,
        },
{
    if starts_with(s, p) {
        let n = p.unicode_len();
        let mut out: Vec<char> = Vec::new();
        let mut i = n;
        while i < s.len()
            invariant
                n <= i <= s.len(),
                out@ == s@.subrange(n as int, i as int),
            decreases s.len() - i,
        {
            out.push(s[i]);
            assert(s@.subrange(n as int, i + 1) == s@.subrange(n as int, i as int).push(
                s@[i as int],
            ));
            i = i + 1;
        }
        assert(out@ =~= s@.skip(n as int));
        Some(out)
    } else {
        None
    }
}

/// `pat` occurs in `s` at index `i`.
pub open spec fn matches_at(s: Seq<char>, pat: Seq<char>, i: int) -> bool {
    0 <= i && i + pat.len() <= s.len() && s.subrange(i, i + pat.len()) == pat
}

/// The first index at or after `k` where `pat` occurs in `s`.
pub open spec fn find_from(s: Seq<char>, pat: Seq<char>, k: int) -> Option<int>
    decreases s.len() + 1 - k,
{
    if k < 0 || k + pat.len() > s.len() {
        None
    } else if matches_at(s, pat, k) {
        Some(k)
    } else {
        find_from(s, pat, k + 1)
    }
}

pub proof fn lemma_find_from_matches(s: Seq<char>, pat: Seq<char>, k: int)
    ensures
        find_from(s, pat, k) matches Some(i) ==> k <= i && matches_at(s, pat, i),
    decreases s.len() + 1 - k,
{
    if k >= 0 && k + pat.len() <= s.len() && !matches_at(s, pat, k) {
        lemma_find_from_matches(s, pat, k + 1);
    }
}

/// The first index where `pat` occurs in `s` (`str::find`).
pub open spec fn find(s: Seq<char>, pat: Seq<char>) -> Option<int> {
    find_from(s, pat, 0)
}

/// Whether `pat` occurs in `s`.
pub open spec fn contains(s: Seq<char>, pat: Seq<char>) -> bool {
    find(s, pat) is Some
}

/// `str::find` on character slices.
pub fn find_chars(s: &[char], pat: &[char]) -> (r: Option<usize>)
    ensures
        match r {
            Some(i) => find(s@, pat@) == Some(i as int) && matches_at(s@, pat@, i as int),
            None => find(s@, pat@) is None,
        },
{
    proof {
        lemma_find_from_matches(s@, pat@, 0);
    }
    if pat.len() > s.len() {
        return None;
    }
    let mut k: usize = 0;
    while k <= s.len() - pat.len()
        invariant
            pat.len() <= s.len(),
            k <= s.len() - pat.len() + 1,
            find_from(s@, pat@, 0) == find_from(s@, pat@, k as int),
        decreases s.len() - k,
    {
        let mut j: usize = 0;
        let mut ok = true;
        while j < pat.len()
            invariant
                k + pat.len() <= s.len(),
                j <= pat.len(),
                ok == (forall|m: int| 0 <= m < j ==> s@[k + m] == pat@[m]),
            decreases pat.len() - j,
        {
            if s[k + j] != pat[j] {
                ok = false;
            }
            j = j + 1;
        }
        if ok {
            assert(s@.subrange(k as int, k + pat.len()) =~= pat@);
            return Some(k);
        } else {
            proof {
                let m = choose|m: int| 0 <= m < pat.len() && s@[k + m] != pat@[m];
                assert(s@.subrange(k as int, k + pat.len())[m] != pat@[m]);
            }
        }
        k = k + 1;
    }
    None
}

/// Whether `pat` occurs in `s`.
pub fn contains_str(s: &[char], pat: &str) -> (r: bool)
    ensures
        r == contains(s@, pat@),
{
    let pc = chars_of(pat);
    find_chars(s, pc.as_slice()).is_some()
}

// ---------------------------------------------------------------------------
// Integer parsing
// ---------------------------------------------------------------------------

/// Value of a digit string.
pub open spec fn digits_value(s: Seq<char>) -> nat
    decreases s.len(),
{
    if s.len() == 0 {
        0
    } else {
        digits_value(s.drop_last()) * 10 + digit_value(s.last())
    }
}

/// All characters are ASCII digits.
pub open spec fn all_digits(s: Seq<char>) -> bool {
    forall|i: int| 0 <= i < s.len() ==> is_digit(s[i])
}

/// `str::parse` for an unsigned integer type whose largest value is `max`:
/// an optional `'+'`, then one or more ASCII digits, with value at most `max`.
pub open spec fn parse_unsigned(s: Seq<char>, max: nat) -> Option<nat> {
    let d = if s.len() > 0 && s[0] == '+' {
        s.drop_first()
    } else {
        s
    };
    if d.len() > 0 && all_digits(d) && digits_value(d) <= max {
        Some(digits_value(d))
    } else {
        None
    }
}

proof fn lemma_digits_value_mono(s: Seq<char>, i: int)
    requires
        0 <= i <= s.len(),
    ensures
        digits_value(s.take(i)) <= digits_value(s),
    decreases s.len() - i,
{
    if i < s.len() {
        lemma_digits_value_mono(s, i + 1);
        assert(s.take(i + 1).drop_last() == s.take(i));
    } else {
        assert(s.take(i) == s);
    }
}

/// `str::parse::<uN>()` where `max` is `uN::MAX`.
pub fn parse_uint(s: &[char], max: u64) -> (r: Option<u64>)
    ensures
        match parse_unsigned(s@, max as nat) {
            Some(v) => r == Some(v as u64),
            None => r is None,
        },
{
    let start: usize = if s.len() > 0 && s[0] == '+' {
        1
    } else {
        0
    };
    let ghost d = if s@.len() > 0 && s@[0] == '+' {
        s@.drop_first()
    } else {
        s@
    };
    assert(d == s@.skip(start as int));
    if start >= s.len() {
        return None;
    }
    let mut acc: u64 = 0;
    let mut i = start;
    while i < s.len()
        invariant
            start <= i <= s.len(),
            d == s@.skip(start as int),
            d == (if s@.len() > 0 && s@[0] == '+' {
                s@.drop_first()
            } else {
                s@
            }),
            acc as nat == digits_value(d.take(i - start)),
            acc <= max,
            forall|j: int| 0 <= j < i - start ==> is_digit(#[trigger] d[j]),
        decreases s.len() - i,
    {
        let c = s[i];
        assert(d.take(i + 1 - start).drop_last() == d.take(i - start));
        assert(d.take(i + 1 - start).last() == c);
        assert(d[i - start] == c);
        if !is_ascii_digit(c) {
            assert(!all_digits(d));
            return None;
        }
        let dv = (c as u32 - '0' as u32) as u64;
        assert(dv as nat == digit_value(c));
        assert(digits_value(d.take(i + 1 - start)) == acc * 10 + dv);
        let m = acc.checked_mul(10);
        if m.is_none() {
            proof {
                lemma_digits_value_mono(d, i + 1 - start);
            }
            return None;
        }
        let m = m.unwrap();
        let a = m.checked_add(dv);
        if a.is_none() {
            proof {
                lemma_digits_value_mono(d, i + 1 - start);
            }
            return None;
        }
        let a = a.unwrap();
        if a > max {
            proof {
                lemma_digits_value_mono(d, i + 1 - start);
            }
            return None;
        }
        acc = a;
        i = i + 1;
    }
    assert(d.take(s.len() - start) == d);
    Some(acc)
}

} // verus!
