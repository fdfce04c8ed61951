//! Text primitives over the character view of strings.
use vstd::prelude::*;

verus! {

broadcast use vstd::string::group_string_axioms;

/// Appends one character to a string (std `String::push`): the string's
/// characters afterwards are the old ones followed by `c`.
#[verifier::external_body]
fn push_char(s: &mut String, c: char)
    ensures
        final(s)@ == old(s)@.push(c),
{
    s.push(c);
}

/// The characters of `s`, in order.
pub fn chars_of(s: &str) -> (r: Vec<char>)
    ensures
        r@ == s@,
{
    let mut r: Vec<char> = Vec::new();
    for c in it: s.chars()
        invariant
            r@ == it.seq().take(it.index() as int),
            it.seq() == s@,
    {
        assert(it.seq().take(it.index() + 1) == it.seq().take(it.index() as int).push(c));
        r.push(c);
    }
    r
}

/// A string made of the characters `cs`.
pub fn string_from_chars(cs: &[char]) -> (r: String)
    ensures
        r@ == cs@,
{
    let mut r = String::new();
    let n = cs.len();
    for i in 0..n
        invariant
            n == cs@.len(),
            r@ == cs@.take(i as int),
    {
        assert(cs@.take(i + 1) == cs@.take(i as int).push(cs@[i as int]));
        push_char(&mut r, cs[i]);
    }
    assert(cs@.take(n as int) == cs@);
    r
}

/// A string made of the characters `cs[lo..hi]`.
pub fn string_from_char_range(cs: &[char], lo: usize, hi: usize) -> (r: String)
    requires
        lo <= hi <= cs@.len(),
    ensures
        r@ == cs@.subrange(lo as int, hi as int),
{
    let mut r = String::new();
    for i in lo..hi
        invariant
            hi <= cs@.len(),
            r@ == cs@.subrange(lo as int, i as int),
    {
        assert(cs@.subrange(lo as int, i + 1) == cs@.subrange(lo as int, i as int).push(cs@[i as int]));
        push_char(&mut r, cs[i]);
    }
    r
}

/// `a` followed by `b`.
pub fn concat(a: &str, b: &str) -> (r: String)
    ensures
        r@ == a@ + b@,
{
    let mut r = String::from_str(a);
    r.append(b);
    r
}

/// Character-wise equality of two strings.
pub fn str_eq(a: &str, b: &str) -> (r: bool)
    ensures
        r == (a@ == b@),
{
    let x = String::from_str(a);
    let y = String::from_str(b);
    x == y
}

/// `pat` occurs in `s` at character position `i`.
pub open spec fn occurs_at(s: Seq<char>, pat: Seq<char>, i: int) -> bool {
    0 <= i && i + pat.len() <= s.len() && s.subrange(i, i + pat.len()) == pat
}

pub open spec fn spec_starts_with(s: Seq<char>, pat: Seq<char>) -> bool {
    occurs_at(s, pat, 0)
}

pub open spec fn spec_ends_with(s: Seq<char>, pat: Seq<char>) -> bool {
    occurs_at(s, pat, s.len() - pat.len())
}

pub open spec fn spec_contains(s: Seq<char>, pat: Seq<char>) -> bool {
    exists|i: int| occurs_at(s, pat, i)
}

fn occurs_at_exec(s: &[char], pat: &[char], i: usize) -> (r: bool)
    requires
        i <= s@.len(),
    ensures
        r == occurs_at(s@, pat@, i as int),
{
    let n = pat.len();
    if n > s.len() - i {
        return false;
    }
    let mut k: usize = 0;
    while k < n
        invariant
            n == pat@.len(),
            i + n <= s@.len(),
            i + n <= s.len(),
            k <= n,
            forall|j: int| 0 <= j < k ==> s@[i + j] == pat@[j],
        decreases n - k,
    {
        if s[i + k] != pat[k] {
            assert(s@.subrange(i as int, i + n)[k as int] != pat@[k as int]);
            return false;
        }
        k = k + 1;
    }
    assert(s@.subrange(i as int, i + n) =~= pat@);
    true
}

/// `s` begins with `pat`.
pub fn starts_with(s: &str, pat: &str) -> (r: bool)
    ensures
        r == spec_starts_with(s@, pat@),
{
    let sc = chars_of(s);
    let pc = chars_of(pat);
    occurs_at_exec(sc.as_slice(), pc.as_slice(), 0)
}

/// `s` ends with `pat`.
pub fn ends_with(s: &str, pat: &str) -> (r: bool)
    ensures
        r == spec_ends_with(s@, pat@),
{
    let sc = chars_of(s);
    let pc = chars_of(pat);
    if pc.len() > sc.len() {
        return false;
    }
    occurs_at_exec(sc.as_slice(), pc.as_slice(), sc.len() - pc.len())
}

/// `pat` occurs somewhere in `s`.
pub fn contains(s: &str, pat: &str) -> (r: bool)
    ensures
        r == spec_contains(s@, pat@),
{
    let sc = chars_of(s);
    let pc = chars_of(pat);
    let n = sc.len();
    let mut i: usize = 0;
    while i < n
        invariant
            n == sc@.len(),
            sc@ == s@,
            pc@ == pat@,
            i <= n,
            forall|j: int| 0 <= j < i ==> !occurs_at(s@, pat@, j),
        decreases n - i,
    {
        if occurs_at_exec(sc.as_slice(), pc.as_slice(), i) {
            return true;
        }
        i = i + 1;
    }
    if occurs_at_exec(sc.as_slice(), pc.as_slice(), n) {
        return true;
    }
    assert forall|j: int| !occurs_at(s@, pat@, j) by {
        if 0 <= j <= n {
        }
    }
    false
}

/// Every non-overlapping occurrence of `pat` in `s`, scanning from the left,
/// replaced by `rep` (what `str::replace` does, for a non-empty pattern).
pub open spec fn replace_all(s: Seq<char>, pat: Seq<char>, rep: Seq<char>) -> Seq<char>
    decreases s.len(),
{
    if pat.len() == 0 || s.len() == 0 {
        s
    } else if occurs_at(s, pat, 0) {
        rep + replace_all(s.skip(pat.len() as int), pat, rep)
    } else {
        seq![s[0]] + replace_all(s.skip(1), pat, rep)
    }
}

/// `s` with every occurrence of `pat` replaced by `rep`.
pub fn replace(s: &str, pat: &str, rep: &str) -> (r: String)
    ensures
        r@ == replace_all(s@, pat@, rep@),
{
    let sc = chars_of(s);
    let pc = chars_of(pat);
    let rc = chars_of(rep);
    let n = sc.len();
    let m = pc.len();
    if m == 0 {
        return String::from_str(s);
    }
    let mut out: Vec<char> = Vec::new();
    let mut i: usize = 0;
    assert(s@.skip(0) =~= s@);
    while i < n
        invariant
            n == sc@.len(),
            m == pc@.len(),
            m > 0,
            sc@ == s@,
            pc@ == pat@,
            rc@ == rep@,
            i <= n,
            out@ + replace_all(s@.skip(i as int), pat@, rep@) == replace_all(s@, pat@, rep@),
        decreases n - i,
    {
        let ghost rest = s@.skip(i as int);
        if occurs_at_exec(sc.as_slice(), pc.as_slice(), i) {
            assert(rest.subrange(0, m as int) =~= s@.subrange(i as int, i + m));
            assert(rest.skip(m as int) =~= s@.skip(i + m));
            let mut k: usize = 0;
            let ghost out0 = out@;
            while k < rc.len()
                invariant
                    out@ == out0 + rc@.take(k as int),
                    k <= rc@.len(),
                decreases rc@.len() - k,
            {
                assert(rc@.take(k + 1) == rc@.take(k as int).push(rc@[k as int]));
                out.push(rc[k]);
                k = k + 1;
            }
            assert(rc@.take(rc@.len() as int) == rc@);
            assert(out0 + rep@ + replace_all(s@.skip(i + m), pat@, rep@) == out0 + (rep@
                + replace_all(s@.skip(i + m), pat@, rep@)));
            i = i + m;
        } else {
            assert(!occurs_at(rest, pat@, 0)) by {
                if i + m <= n {
                    assert(rest.subrange(0, m as int) =~= s@.subrange(i as int, i + m));
                }
            }
            assert(rest.skip(1) =~= s@.skip(i + 1));
            assert(rest[0] == s@[i as int]);
            let ghost out0 = out@;
            out.push(sc[i]);
            assert(out0 + seq![s@[i as int]] + replace_all(s@.skip(i + 1), pat@, rep@) == out0
                + (seq![s@[i as int]] + replace_all(s@.skip(i + 1), pat@, rep@)));
            i = i + 1;
        }
    }
    assert(s@.skip(n as int).len() == 0);
    assert(out@ + s@.skip(n as int) == out@);
    string_from_chars(out.as_slice())
}

/// A character with the Unicode White_Space property (what
/// `char::is_whitespace` tests).
pub open spec fn spec_is_whitespace(c: char) -> bool {
    let u = c as u32;
    (9 <= u && u <= 13) || u == 32 || u == 0x85 || u == 0xA0 || u == 0x1680 || (0x2000 <= u && u
        <= 0x200A) || u == 0x2028 || u == 0x2029 || u == 0x202F || u == 0x205F || u == 0x3000
}

pub fn is_whitespace(c: char) -> (r: bool)
    ensures
        r == spec_is_whitespace(c),
{
    let u = c as u32;
    (9 <= u && u <= 13) || u == 32 || u == 0x85 || u == 0xA0 || u == 0x1680 || (0x2000 <= u && u
        <= 0x200A) || u == 0x2028 || u == 0x2029 || u == 0x202F || u == 0x205F || u == 0x3000
}

/// The tokens after `cur` when scanning `s`: maximal runs of non-whitespace
/// characters, the first of them continuing `cur`.
pub open spec fn split_ws_from(s: Seq<char>, cur: Seq<char>) -> Seq<Seq<char>>
    decreases s.len(),
{
    if s.len() == 0 {
        if cur.len() > 0 {
            seq![cur]
        } else {
            seq![]
        }
    } else if spec_is_whitespace(s[0]) {
        (if cur.len() > 0 {
            seq![cur]
        } else {
            seq![]
        }) + split_ws_from(s.skip(1), seq![])
    } else {
        split_ws_from(s.skip(1), cur.push(s[0]))
    }
}

/// The whitespace-separated words of `s` (what `str::split_whitespace` yields).
pub open spec fn split_ws(s: Seq<char>) -> Seq<Seq<char>> {
    split_ws_from(s, seq![])
}

/// The views of a sequence of strings.
pub open spec fn strs_view(v: Seq<String>) -> Seq<Seq<char>> {
    v.map_values(|x: String| x@)
}

/// The whitespace-separated words of `s`.
pub fn split_whitespace(s: &str) -> (r: Vec<String>)
    ensures
        strs_view(r@) == split_ws(s@),
{
    let sc = chars_of(s);
    let n = sc.len();
    let mut out: Vec<String> = Vec::new();
    let mut cur: Vec<char> = Vec::new();
    assert(s@.skip(0) =~= s@);
    for i in 0..n
        invariant
            n == sc@.len(),
            sc@ == s@,
            strs_view(out@) + split_ws_from(s@.skip(i as int), cur@) == split_ws(s@),
    {
        let c = sc[i];
        let ghost rest = s@.skip(i as int);
        assert(rest[0] == c);
        assert(rest.skip(1) =~= s@.skip(i + 1));
        if is_whitespace(c) {
            if cur.len() > 0 {
                let w = string_from_chars(cur.as_slice());
                let ghost before = out@;
                out.push(w);
                assert(strs_view(out@) =~= strs_view(before) + seq![cur@]);
                assert(strs_view(out@) + split_ws_from(s@.skip(i + 1), seq![]) =~= strs_view(
                    before,
                ) + (seq![cur@] + split_ws_from(s@.skip(i + 1), seq![])));
            } else {
                assert(seq![] + split_ws_from(s@.skip(i + 1), seq![]) =~= split_ws_from(
                    s@.skip(i + 1),
                    seq![],
                ));
            }
            cur = Vec::new();
            assert(cur@ =~= seq![]);
        } else {
            cur.push(c);
        }
    }
    assert(s@.skip(n as int).len() == 0);
    if cur.len() > 0 {
        let w = string_from_chars(cur.as_slice());
        let ghost before = out@;
        out.push(w);
        assert(strs_view(out@) =~= strs_view(before) + seq![cur@]);
    } else {
        assert(strs_view(out@) + seq![] =~= strs_view(out@));
    }
    out
}

/// The fields of `s` between occurrences of `sep`, after `cur` (what
/// `str::split` with a character yields, empty fields included).
pub open spec fn split_on_from(s: Seq<char>, sep: char, cur: Seq<char>) -> Seq<Seq<char>>
    decreases s.len(),
{
    if s.len() == 0 {
        seq![cur]
    } else if s[0] == sep {
        seq![cur] + split_on_from(s.skip(1), sep, seq![])
    } else {
        split_on_from(s.skip(1), sep, cur.push(s[0]))
    }
}

pub open spec fn split_on(s: Seq<char>, sep: char) -> Seq<Seq<char>> {
    split_on_from(s, sep, seq![])
}

/// The fields of `s` separated by `sep`.
pub fn split_char(s: &str, sep: char) -> (r: Vec<String>)
    ensures
        strs_view(r@) == split_on(s@, sep),
{
    let sc = chars_of(s);
    let n = sc.len();
    let mut out: Vec<String> = Vec::new();
    let mut cur: Vec<char> = Vec::new();
    assert(s@.skip(0) =~= s@);
    for i in 0..n
        invariant
            n == sc@.len(),
            sc@ == s@,
            strs_view(out@) + split_on_from(s@.skip(i as int), sep, cur@) == split_on(s@, sep),
    {
        let c = sc[i];
        let ghost rest = s@.skip(i as int);
        assert(rest[0] == c);
        assert(rest.skip(1) =~= s@.skip(i + 1));
        if c == sep {
            let w = string_from_chars(cur.as_slice());
            let ghost before = out@;
            out.push(w);
            assert(strs_view(out@) =~= strs_view(before) + seq![cur@]);
            assert(strs_view(out@) + split_on_from(s@.skip(i + 1), sep, seq![]) =~= strs_view(before)
                + (seq![cur@] + split_on_from(s@.skip(i + 1), sep, seq![])));
            cur = Vec::new();
            assert(cur@ =~= seq![]);
        } else {
            cur.push(c);
        }
    }
    assert(s@.skip(n as int).len() == 0);
    let w = string_from_chars(cur.as_slice());
    let ghost before = out@;
    out.push(w);
    assert(strs_view(out@) =~= strs_view(before) + seq![cur@]);
    out
}

/// A run of non-whitespace characters continues the current word.
pub proof fn lemma_split_ws_word(w: Seq<char>, rest: Seq<char>, cur: Seq<char>)
    requires
        forall|i: int| 0 <= i < w.len() ==> !spec_is_whitespace(#[trigger] w[i]),
    ensures
        split_ws_from(w + rest, cur) == split_ws_from(rest, cur + w),
    decreases w.len(),
{
    if w.len() == 0 {
        assert(w + rest =~= rest);
        assert(cur + w =~= cur);
    } else {
        let s = w + rest;
        assert(s[0] == w[0]);
        assert(!spec_is_whitespace(w[0]));
        let w1 = w.skip(1);
        assert forall|i: int| 0 <= i < w1.len() implies !spec_is_whitespace(#[trigger] w1[i]) by {
            assert(w1[i] == w[i + 1]);
        }
        assert(s.skip(1) =~= w1 + rest);
        lemma_split_ws_word(w1, rest, cur.push(w[0]));
        assert(cur.push(w[0]) + w1 =~= cur + w);
    }
}

/// A whitespace character ends the current word.
pub proof fn lemma_split_ws_space(c: char, rest: Seq<char>, cur: Seq<char>)
    requires
        spec_is_whitespace(c),
        cur.len() > 0,
    ensures
        split_ws_from(seq![c] + rest, cur) == seq![cur] + split_ws_from(rest, seq![]),
{
    let s = seq![c] + rest;
    assert(s[0] == c);
    assert(s.skip(1) =~= rest);
}

/// Replacing a pattern that does not occur changes nothing.
pub proof fn lemma_replace_absent(s: Seq<char>, pat: Seq<char>, rep: Seq<char>)
    requires
        forall|i: int| !occurs_at(s, pat, i),
    ensures
        replace_all(s, pat, rep) == s,
    decreases s.len(),
{
    if pat.len() > 0 && s.len() > 0 {
        let t = s.skip(1);
        assert forall|i: int| !occurs_at(t, pat, i) by {
            if occurs_at(t, pat, i) {
                assert(s.subrange(i + 1, i + 1 + pat.len()) =~= t.subrange(i, i + pat.len()));
                assert(occurs_at(s, pat, i + 1));
            }
        }
        lemma_replace_absent(t, pat, rep);
        assert(s =~= seq![s[0]] + t);
    }
}

/// The decimal value of a string of digits.
pub open spec fn digits_value(s: Seq<char>) -> int
    decreases s.len(),
{
    if s.len() == 0 {
        0
    } else {
        digits_value(s.drop_last()) * 10 + ((s.last() as u32) - ('0' as u32))
    }
}

pub open spec fn is_digit(c: char) -> bool {
    '0' <= c && c <= '9'
}

/// What `u32::from_str` accepts: an optional '+', then one or more decimal
/// digits whose value fits in a `u32`.
pub open spec fn all_digits(s: Seq<char>) -> bool {
    forall|i: int| 0 <= i < s.len() ==> is_digit(#[trigger] s[i])
}

/// The text after an optional leading '+'.
pub open spec fn unsigned_body(s: Seq<char>) -> Seq<char> {
    if s.len() > 0 && s[0] == '+' {
        s.drop_first()
    } else {
        s
    }
}

pub open spec fn spec_parse_u32(s: Seq<char>) -> Option<u32> {
    let body = unsigned_body(s);
    if body.len() > 0 && all_digits(body) && digits_value(body) <= u32::MAX {
        Some(digits_value(body) as u32)
    } else {
        None
    }
}

/// The `u32` written in `s`, if `s` is one.
pub fn parse_u32(s: &str) -> (r: Option<u32>)
    ensures
        r == spec_parse_u32(s@),
{
    let sc = chars_of(s);
    let start: usize = if sc.len() > 0 && sc[0] == '+' {
        1
    } else {
        0
    };
    let ghost body = unsigned_body(s@);
    assert(body =~= s@.skip(start as int));
    let n = sc.len();
    if start >= n {
        return None;
    }
    let mut v: u64 = 0;
    let mut overflow = false;
    let mut i: usize = start;
    while i < n
        invariant
            n == sc@.len(),
            sc@ == s@,
            start <= i <= n,
            body =~= s@.skip(start as int),
            body == unsigned_body(s@),
            body.len() == n - start,
            forall|k: int| 0 <= k < i - start ==> is_digit(#[trigger] body[k]),
            !overflow ==> v == digits_value(body.take(i - start)) && v <= u32::MAX,
            overflow ==> digits_value(body.take(i - start)) > u32::MAX,
        decreases n - i,
    {
        let c = sc[i];
        assert(body[i - start] == c);
        if !('0' <= c && c <= '9') {
            assert(!is_digit(body[i - start]));
            return None;
        }
        let ghost pre = body.take(i - start);
        assert(body.take(i - start + 1).drop_last() =~= pre);
        assert(body.take(i - start + 1).last() == c);
        let d = (c as u32) - ('0' as u32);
        if !overflow {
            let nv = v * 10 + (d as u64);
            if nv > 4294967295u64 {
                overflow = true;
            } else {
                v = nv;
            }
        }
        i = i + 1;
    }
    assert(body.take(n - start) =~= body);
    if overflow {
        None
    } else {
        Some(v as u32)
    }
}

/// The decimal digits of `n`, without leading zeros ("0" for zero).
pub open spec fn spec_decimal(n: nat) -> Seq<char>
    decreases n,
{
    if n < 10 {
        seq![((48 + n) as u8) as char]
    } else {
        spec_decimal(n / 10) + seq![((48 + (n % 10)) as u8) as char]
    }
}

/// `n` written in decimal (what `{}` prints for an unsigned integer).
pub fn decimal(n: usize) -> (r: String)
    ensures
        r@ == spec_decimal(n as nat),
{
    let mut digits: Vec<char> = Vec::new();
    let mut m: usize = n;
    assert(digits@.reverse() =~= Seq::<char>::empty());
    assert(spec_decimal(n as nat) =~= spec_decimal(m as nat) + digits@.reverse());
    loop
        invariant_except_break
            spec_decimal(n as nat) == spec_decimal(m as nat) + digits@.reverse(),
        ensures
            spec_decimal(n as nat) == digits@.reverse(),
        decreases m,
    {
        if m < 10 {
            let c = ((48 + m) as u8) as char;
            let ghost before = digits@;
            digits.push(c);
            assert(digits@.reverse() =~= seq![c] + before.reverse());
            assert(spec_decimal(m as nat) == seq![c]);
            break;
        }
        let c = ((48 + (m % 10)) as u8) as char;
        let ghost before = digits@;
        digits.push(c);
        assert(digits@.reverse() =~= seq![c] + before.reverse());
        assert(spec_decimal(m as nat) == spec_decimal((m / 10) as nat) + seq![c]);
        m = m / 10;
        assert(spec_decimal(n as nat) =~= spec_decimal(m as nat) + digits@.reverse());
    }
    let mut out: Vec<char> = Vec::new();
    let k = digits.len();
    let mut i: usize = k;
    while i > 0
        invariant
            i <= k,
            k == digits@.len(),
            out@ == digits@.reverse().take(k - i),
        decreases i,
    {
        i = i - 1;
        assert(digits@.reverse().take(k - i) =~= digits@.reverse().take(k - i - 1).push(digits@[i as int]));
        out.push(digits[i]);
    }
    assert(digits@.reverse().take(k as int) =~= digits@.reverse());
    string_from_chars(out.as_slice())
}

/// The lower-case form of a string, as `str::to_lowercase` computes it
/// (Unicode's lower-case mapping; a capital sigma becomes final or medial
/// sigma depending on its neighbours).
pub uninterp spec fn spec_to_lowercase(s: Seq<char>) -> Seq<char>;

/// Calls `str::to_lowercase`; the result is named, not stated.
#[verifier::external_body]
pub(crate) fn to_lowercase(s: &str) -> (r: String)
    ensures
        r@ == spec_to_lowercase(s@),
{
    s.to_lowercase()
}

/// The index of the first occurrence of `c` in `s`, or -1.
pub open spec fn find_char(s: Seq<char>, c: char) -> int
    decreases s.len(),
{
    if s.len() == 0 {
        -1
    } else if s[0] == c {
        0
    } else if find_char(s.drop_first(), c) < 0 {
        -1
    } else {
        find_char(s.drop_first(), c) + 1
    }
}

pub proof fn lemma_find_char(s: Seq<char>, c: char)
    ensures
        -1 <= find_char(s, c) < s.len(),
        find_char(s, c) >= 0 ==> s[find_char(s, c)] == c,
        forall|j: int| 0 <= j < find_char(s, c) ==> s[j] != c,
        find_char(s, c) < 0 ==> forall|j: int| 0 <= j < s.len() ==> s[j] != c,
    decreases s.len(),
{
    if s.len() > 0 && s[0] != c {
        lemma_find_char(s.drop_first(), c);
        assert forall|j: int| 1 <= j < s.len() implies s[j] == s.drop_first()[j - 1] by {}
    }
}

pub proof fn lemma_find_char_is(s: Seq<char>, c: char, k: int)
    requires
        0 <= k <= s.len(),
        k < s.len() ==> s[k] == c,
        forall|j: int| 0 <= j < k ==> s[j] != c,
    ensures
        find_char(s, c) == (if k < s.len() {
            k
        } else {
            -1
        }),
    decreases k,
{
    if k > 0 {
        assert(s[0] != c);
        let d = s.drop_first();
        assert forall|j: int| 0 <= j < k - 1 implies d[j] != c by {
            assert(d[j] == s[j + 1]);
        }
        lemma_find_char_is(d, c, k - 1);
    }
}

/// The parts of `s` before and after the first `c` (what `split_once` does
/// with a character pattern).
pub fn split_once(s: &str, c: char) -> (r: Option<(String, String)>)
    ensures
        find_char(s@, c) < 0 ==> r is None,
        find_char(s@, c) >= 0 ==> (r matches Some((a, b)) && a@ == s@.take(find_char(s@, c)) && b@
            == s@.skip(find_char(s@, c) + 1)),
{
    let sc = chars_of(s);
    let n = sc.len();
    for i in 0..n
        invariant
            n == sc@.len(),
            sc@ == s@,
            forall|j: int| 0 <= j < i ==> s@[j] != c,
    {
        if sc[i] == c {
            proof {
                lemma_find_char_is(s@, c, i as int);
            }
            let a = string_from_char_range(sc.as_slice(), 0, i);
            let b = string_from_char_range(sc.as_slice(), i + 1, n);
            return Some((a, b));
        }
    }
    proof {
        lemma_find_char_is(s@, c, n as int);
    }
    None
}

/// `s` without the prefix `pat` (the caller knows it is there).
pub fn strip_prefix(s: &str, pat: &str) -> (r: String)
    requires
        spec_starts_with(s@, pat@),
    ensures
        r@ == s@.skip(pat@.len() as int),
{
    let sc = chars_of(s);
    let pc = chars_of(pat);
    string_from_char_range(sc.as_slice(), pc.len(), sc.len())
}

/// Index of the first non-whitespace character at or after `i`.
pub open spec fn first_non_ws(s: Seq<char>, i: int) -> int
    decreases s.len() - i,
{
    if i >= s.len() {
        s.len() as int
    } else if !spec_is_whitespace(s[i]) {
        i
    } else {
        first_non_ws(s, i + 1)
    }
}

/// One past the last non-whitespace character before `j`.
pub open spec fn end_non_ws(s: Seq<char>, j: int) -> int
    decreases j,
{
    if j <= 0 {
        0
    } else if !spec_is_whitespace(s[j - 1]) {
        j
    } else {
        end_non_ws(s, j - 1)
    }
}

/// `s` without leading and trailing whitespace (what `str::trim` gives).
pub open spec fn spec_trim(s: Seq<char>) -> Seq<char> {
    let a = first_non_ws(s, 0);
    if a >= s.len() {
        seq![]
    } else {
        s.subrange(a, end_non_ws(s, s.len() as int))
    }
}

proof fn lemma_first_non_ws(s: Seq<char>, i: int)
    requires
        0 <= i <= s.len(),
    ensures
        i <= first_non_ws(s, i) <= s.len(),
    decreases s.len() - i,
{
    if i < s.len() && spec_is_whitespace(s[i]) {
        lemma_first_non_ws(s, i + 1);
    }
}

proof fn lemma_end_non_ws(s: Seq<char>, j: int, a: int)
    requires
        0 <= a < j <= s.len(),
        !spec_is_whitespace(s[a]),
    ensures
        a < end_non_ws(s, j) <= j,
    decreases j,
{
    if spec_is_whitespace(s[j - 1]) {
        lemma_end_non_ws(s, j - 1, a);
    }
}

/// `s` without leading and trailing whitespace.
pub fn trim(s: &str) -> (r: String)
    ensures
        r@ == spec_trim(s@),
{
    let cs = chars_of(s);
    let n = cs.len();
    let mut a: usize = 0;
    while a < n && is_whitespace(cs[a])
        invariant
            cs@ == s@,
            n == cs@.len(),
            a <= n,
            first_non_ws(s@, 0) == first_non_ws(s@, a as int),
        decreases n - a,
    {
        a = a + 1;
    }
    if a >= n {
        return String::new();
    }
    let mut b: usize = n;
    proof {
        lemma_end_non_ws(s@, n as int, a as int);
    }
    while b > a && is_whitespace(cs[b - 1])
        invariant
            cs@ == s@,
            n == cs@.len(),
            a < n,
            a < b <= n,
            !spec_is_whitespace(s@[a as int]),
            end_non_ws(s@, n as int) == end_non_ws(s@, b as int),
        decreases b,
    {
        b = b - 1;
    }
    assert(first_non_ws(s@, a as int) == a);
    assert(end_non_ws(s@, b as int) == b);
    string_from_char_range(cs.as_slice(), a, b)
}

} // verus!
