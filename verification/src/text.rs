//! Character-sequence operations used by the parsers, each with its meaning
//! stated as a spec function over `Seq<char>`.

use vstd::prelude::*;

verus! {

// ---------------------------------------------------------------------------
// Specifications
// ---------------------------------------------------------------------------

/// The Unicode `White_Space` property, which `char::is_whitespace` tests.
pub open spec fn is_whitespace(c: char) -> bool {
    ||| ('\t' <= c && c <= '\r')
    ||| c == ' '
    ||| c == '\u{85}'
    ||| c == '\u{a0}'
    ||| c == '\u{1680}'
    ||| ('\u{2000}' <= c && c <= '\u{200a}')
    ||| c == '\u{2028}'
    ||| c == '\u{2029}'
    ||| c == '\u{202f}'
    ||| c == '\u{205f}'
    ||| c == '\u{3000}'
}

/// The ASCII whitespace that `u8::is_ascii_whitespace` accepts
/// (space, tab, line feed, form feed, carriage return).
pub open spec fn is_ascii_whitespace(c: char) -> bool {
    c == ' ' || c == '\t' || c == '\n' || c == '\x0C' || c == '\r'
}

/// Every character of `s` is ASCII.
pub open spec fn is_ascii(s: Seq<char>) -> bool {
    forall|i: int| 0 <= i < s.len() ==> #[trigger] s[i] <= '\u{7f}'
}

/// `s` without its leading whitespace.
pub open spec fn trim_start(s: Seq<char>) -> Seq<char>
    decreases s.len(),
{
    if s.len() > 0 && is_whitespace(s[0]) {
        trim_start(s.drop_first())
    } else {
        s
    }
}

/// `s` without its trailing whitespace.
pub open spec fn trim_end(s: Seq<char>) -> Seq<char>
    decreases s.len(),
{
    if s.len() > 0 && is_whitespace(s.last()) {
        trim_end(s.drop_last())
    } else {
        s
    }
}

/// `s` without leading and trailing whitespace, as `str::trim` gives it.
pub open spec fn trim(s: Seq<char>) -> Seq<char> {
    trim_end(trim_start(s))
}

/// `pat` occurs in `s` starting at index `k`.
pub open spec fn matches_at(s: Seq<char>, pat: Seq<char>, k: int) -> bool {
    0 <= k && k + pat.len() <= s.len() && s.subrange(k, k + pat.len()) == pat
}

/// The first index `>= k` at which `pat` occurs in `s`, if any.
pub open spec fn find_from(s: Seq<char>, pat: Seq<char>, k: int) -> Option<int>
    decreases s.len() + 1 - k,
{
    if k < 0 || k + pat.len() > s.len() {
        None
    } else if matches_at(s, pat, k) {
        Some(k)
    } else {
        find_from(s, pat, k + 1)
    }
}

/// The first index at which `pat` occurs in `s`, as `str::find` gives it.
pub open spec fn find(s: Seq<char>, pat: Seq<char>) -> Option<int> {
    find_from(s, pat, 0)
}

/// The first index `>= k` that holds `c`, or `s.len()` when there is none.
pub open spec fn index_of_from(s: Seq<char>, c: char, k: int) -> int
    decreases s.len() - k,
{
    if k < 0 || k >= s.len() {
        s.len() as int
    } else if s[k] == c {
        k
    } else {
        index_of_from(s, c, k + 1)
    }
}

/// `s` with every non-overlapping occurrence of the nonempty `pat` removed,
/// scanning from the left, as `str::replace(pat, "")` gives it.
pub open spec fn remove_all(s: Seq<char>, pat: Seq<char>) -> Seq<char>
    decreases s.len(),
{
    if s.len() == 0 {
        s
    } else if pat.len() > 0 && matches_at(s, pat, 0) {
        remove_all(s.skip(pat.len() as int), pat)
    } else {
        seq![s[0]] + remove_all(s.drop_first(), pat)
    }
}

/// The decimal digits of `n`, most significant first, as `{}` formats a number.
pub open spec fn decimal(n: nat) -> Seq<char>
    decreases n,
{
    if n < 10 {
        seq![digit_char(n)]
    } else {
        decimal(n / 10) + seq![digit_char(n % 10)]
    }
}

/// The character of a decimal digit.
pub open spec fn digit_char(d: nat) -> char {
    (48 + d) as char
}

// ---------------------------------------------------------------------------
// Lemmas
// ---------------------------------------------------------------------------

/// What `find_from` returns: the first match at or after `k`.
pub proof fn lemma_find_from(s: Seq<char>, pat: Seq<char>, k: int)
    requires
        0 <= k,
    ensures
        match find_from(s, pat, k) {
            Some(j) => k <= j && matches_at(s, pat, j) && forall|i: int|
                k <= i < j ==> !#[trigger] matches_at(s, pat, i),
            None => forall|i: int| k <= i ==> !#[trigger] matches_at(s, pat, i),
        },
    decreases s.len() + 1 - k,
{
    if k + pat.len() > s.len() {
    } else if matches_at(s, pat, k) {
    } else {
        lemma_find_from(s, pat, k + 1);
    }
}

/// `find_from` is determined by the first match at or after `k`.
pub proof fn lemma_find_from_first(s: Seq<char>, pat: Seq<char>, k: int, j: int)
    requires
        0 <= k <= j,
        matches_at(s, pat, j),
        forall|i: int| k <= i < j ==> !#[trigger] matches_at(s, pat, i),
    ensures
        find_from(s, pat, k) == Some(j),
    decreases j - k,
{
    if k < j {
        lemma_find_from_first(s, pat, k + 1, j);
    }
}

/// `find_from` is `None` when no match starts at or after `k`.
pub proof fn lemma_find_from_none(s: Seq<char>, pat: Seq<char>, k: int)
    requires
        0 <= k,
        forall|i: int| k <= i ==> !#[trigger] matches_at(s, pat, i),
    ensures
        find_from(s, pat, k) is None,
    decreases s.len() + 1 - k,
{
    if k + pat.len() <= s.len() {
        assert(!matches_at(s, pat, k));
        lemma_find_from_none(s, pat, k + 1);
    }
}

/// What `index_of_from` returns: the first index holding `c`, or the length.
pub proof fn lemma_index_of_from(s: Seq<char>, c: char, k: int)
    requires
        0 <= k,
    ensures
        k <= index_of_from(s, c, k) <= s.len() || (k > s.len() && index_of_from(s, c, k)
            == s.len()),
        index_of_from(s, c, k) < s.len() ==> s[index_of_from(s, c, k)] == c,
        forall|i: int| k <= i < index_of_from(s, c, k) ==> s[i] != c,
    decreases s.len() - k,
{
    if k < s.len() && s[k] != c {
        lemma_index_of_from(s, c, k + 1);
    }
}

/// `trim_start` of an all-whitespace prefix followed by `t`.
pub proof fn lemma_trim_start_skip(s: Seq<char>, i: int)
    requires
        0 <= i <= s.len(),
        forall|j: int| 0 <= j < i ==> is_whitespace(#[trigger] s[j]),
    ensures
        trim_start(s) == trim_start(s.skip(i)),
    decreases i,
{
    if i > 0 {
        assert(s.drop_first().skip(i - 1) =~= s.skip(i));
        lemma_trim_start_skip(s.drop_first(), i - 1);
    } else {
        assert(s.skip(0) =~= s);
    }
}

/// `trim_end` of `t` followed by an all-whitespace suffix.
pub proof fn lemma_trim_end_take(s: Seq<char>, i: int)
    requires
        0 <= i <= s.len(),
        forall|j: int| i <= j < s.len() ==> is_whitespace(#[trigger] s[j]),
    ensures
        trim_end(s) == trim_end(s.take(i)),
    decreases s.len() - i,
{
    if i < s.len() {
        assert(s.drop_last().take(i) =~= s.take(i));
        lemma_trim_end_take(s.drop_last(), i);
    } else {
        assert(s.take(i) =~= s);
    }
}

/// `remove_all` of `s` in terms of `remove_all` of the part after index `i`,
/// when no occurrence of `pat` starts before `i`.
pub proof fn lemma_remove_all_no_match_prefix(s: Seq<char>, pat: Seq<char>, i: int)
    requires
        pat.len() > 0,
        0 <= i <= s.len(),
        forall|j: int| 0 <= j < i ==> !#[trigger] matches_at(s, pat, j),
    ensures
        remove_all(s, pat) == s.take(i) + remove_all(s.skip(i), pat),
    decreases i,
{
    if i == 0 {
        assert(s.skip(0) =~= s);
        assert(s.take(0) + s =~= s);
    } else {
        assert(!matches_at(s, pat, 0));
        let t = s.drop_first();
        assert forall|j: int| 0 <= j < i - 1 implies !#[trigger] matches_at(t, pat, j) by {
            assert(!matches_at(s, pat, j + 1));
            if matches_at(t, pat, j) {
                assert(s.subrange(j + 1, j + 1 + pat.len()) =~= t.subrange(j, j + pat.len()));
            }
        }
        lemma_remove_all_no_match_prefix(t, pat, i - 1);
        assert(t.skip(i - 1) =~= s.skip(i));
        assert(seq![s[0]] + t.take(i - 1) =~= s.take(i));
    }
}

/// Removing from a sequence that starts with `pat`.
pub proof fn lemma_remove_all_leading_match(s: Seq<char>, pat: Seq<char>)
    requires
        pat.len() > 0,
        matches_at(s, pat, 0),
    ensures
        remove_all(s, pat) == remove_all(s.skip(pat.len() as int), pat),
{
}

/// Removing from a sequence with no occurrence of `pat` leaves it unchanged.
pub proof fn lemma_remove_all_no_match(s: Seq<char>, pat: Seq<char>)
    requires
        pat.len() > 0,
        forall|j: int| 0 <= j < s.len() ==> !#[trigger] matches_at(s, pat, j),
    ensures
        remove_all(s, pat) == s,
{
    lemma_remove_all_no_match_prefix(s, pat, s.len() as int);
    assert(s.skip(s.len() as int) =~= Seq::<char>::empty());
    assert(s.take(s.len() as int) =~= s);
}

/// `trim_start` drops a prefix and leaves nothing or a non-whitespace start.
pub proof fn lemma_trim_start_shape(s: Seq<char>)
    ensures
        trim_start(s).len() <= s.len(),
        trim_start(s) == s.skip(s.len() - trim_start(s).len()),
        trim_start(s).len() == 0 || !is_whitespace(trim_start(s)[0]),
    decreases s.len(),
{
    if s.len() > 0 && is_whitespace(s[0]) {
        lemma_trim_start_shape(s.drop_first());
        assert(s.drop_first().skip(s.drop_first().len() - trim_start(s).len()) =~= s.skip(
            s.len() - trim_start(s).len(),
        ));
    } else {
        assert(s.skip(0) =~= s);
    }
}

/// `trim_end` drops a suffix and leaves nothing or a non-whitespace end.
pub proof fn lemma_trim_end_shape(s: Seq<char>)
    ensures
        trim_end(s).len() <= s.len(),
        trim_end(s) == s.take(trim_end(s).len() as int),
        trim_end(s).len() == 0 || !is_whitespace(trim_end(s).last()),
    decreases s.len(),
{
    if s.len() > 0 && is_whitespace(s.last()) {
        lemma_trim_end_shape(s.drop_last());
        assert(s.drop_last().take(trim_end(s).len() as int) =~= s.take(trim_end(s).len() as int));
    } else {
        assert(s.take(s.len() as int) =~= s);
    }
}

/// Trimming leaves a sequence whose ends are not whitespace unchanged.
pub proof fn lemma_trim_unchanged(s: Seq<char>)
    requires
        s.len() > 0,
        !is_whitespace(s[0]),
        !is_whitespace(s.last()),
    ensures
        trim(s) == s,
{
}

/// A trimmed sequence is empty or has no whitespace at either end, and
/// trimming it again changes nothing.
pub proof fn lemma_trim_trimmed(s: Seq<char>)
    ensures
        trim(s).len() == 0 || (!is_whitespace(trim(s)[0]) && !is_whitespace(trim(s).last())),
        trim(trim(s)) == trim(s),
{
    let u = trim_start(s);
    lemma_trim_start_shape(s);
    lemma_trim_end_shape(u);
    let t = trim_end(u);
    if t.len() > 0 {
        assert(t[0] == u[0]);
        lemma_trim_unchanged(t);
    }
}

/// A decimal digit character.
pub open spec fn is_digit(c: char) -> bool {
    '0' <= c && c <= '9'
}

/// The number that the digit characters `s` denote in base 10, most
/// significant first (the empty numeral denotes 0).
pub open spec fn numeral_value(s: Seq<char>) -> int
    decreases s.len(),
{
    if s.len() == 0 {
        0
    } else {
        numeral_value(s.drop_last()) * 10 + (s.last() as int - '0' as int)
    }
}

/// `decimal(n)` is the decimal numeral of `n`: a nonempty string of digits
/// that denotes `n` in base 10, without a leading zero unless `n` is 0.
pub proof fn lemma_decimal_denotes(n: nat)
    ensures
        decimal(n).len() > 0,
        forall|i: int| 0 <= i < decimal(n).len() ==> is_digit(#[trigger] decimal(n)[i]),
        numeral_value(decimal(n)) == n,
        decimal(n)[0] == '0' ==> n == 0,
    decreases n,
{
    let d = (n % 10) as nat;
    assert(digit_char(d) as int == 48 + d);
    if n < 10 {
        assert(decimal(n) == seq![digit_char(n)]);
        assert(decimal(n).drop_last() =~= Seq::<char>::empty());
        assert(numeral_value(Seq::<char>::empty()) == 0);
        assert('0' as int == 48);
        assert(decimal(n).last() == digit_char(n));
        assert(numeral_value(decimal(n)) == numeral_value(decimal(n).drop_last()) * 10 + (
        digit_char(n) as int - '0' as int));
    } else {
        lemma_decimal_denotes(n / 10);
        let p = decimal(n / 10);
        let s = decimal(n);
        assert(s == p + seq![digit_char(d)]);
        assert(s.drop_last() =~= p);
        assert(s.last() == digit_char(d));
        assert(s[0] == p[0]);
        assert forall|i: int| 0 <= i < s.len() implies is_digit(#[trigger] s[i]) by {
            if i < p.len() {
                assert(s[i] == p[i]);
            }
        }
        assert(numeral_value(s) == numeral_value(p) * 10 + d);
        assert((n / 10) as int * 10 + d == n);
    }
}

// ---------------------------------------------------------------------------
// Executable operations
// ---------------------------------------------------------------------------

/// The characters of `s`, in order.
pub fn chars_of(s: &str) -> (res: Vec<char>)
    ensures
        res@ == s@,
{
    let mut res: Vec<char> = Vec::new();
    for c in it: s.chars()
        invariant
            res@ == it.seq().take(it.index() as int),
            it.seq() == s@,
    {
        res.push(c);
    }
    res
}

/// Appends one character to a string by calling `String::push`, which the
/// contract takes to append exactly that character.
#[verifier::external_body]
fn push_char(s: &mut String, c: char)
    ensures
        final(s)@ == old(s)@.push(c),
{
    s.push(c);
}

/// Appends `chars[from..to]` to `res`.
pub fn push_chars(res: &mut String, chars: &Vec<char>, from: usize, to: usize)
    requires
        from <= to <= chars.len(),
    ensures
        final(res)@ == old(res)@ + chars@.subrange(from as int, to as int),
{
    let mut i = from;
    while i < to
        invariant
            from <= i <= to <= chars.len(),
            res@ == old(res)@ + chars@.subrange(from as int, i as int),
        decreases to - i,
    {
        push_char(res, chars[i]);
        i += 1;
        assert(chars@.subrange(from as int, i as int) =~= chars@.subrange(
            from as int,
            (i - 1) as int,
        ).push(chars@[i - 1]));
    }
}

/// The string whose characters are `chars[from..to]`.
pub fn string_of(chars: &Vec<char>, from: usize, to: usize) -> (res: String)
    requires
        from <= to <= chars.len(),
    ensures
        res@ == chars@.subrange(from as int, to as int),
{
    let mut res = String::new();
    push_chars(&mut res, chars, from, to);
    assert(Seq::<char>::empty() + chars@.subrange(from as int, to as int) =~= chars@.subrange(
        from as int,
        to as int,
    ));
    res
}

/// `chars[from..to]` as a new vector.
pub fn sub_vec(chars: &Vec<char>, from: usize, to: usize) -> (res: Vec<char>)
    requires
        from <= to <= chars.len(),
    ensures
        res@ == chars@.subrange(from as int, to as int),
{
    let mut res: Vec<char> = Vec::new();
    let mut i = from;
    while i < to
        invariant
            from <= i <= to <= chars.len(),
            res@ == chars@.subrange(from as int, i as int),
        decreases to - i,
    {
        res.push(chars[i]);
        i += 1;
    }
    res
}

/// Two strings hold the same characters.
pub fn same_chars(a: &str, b: &str) -> (res: bool)
    ensures
        res == (a@ == b@),
{
    let x = chars_of(a);
    let y = chars_of(b);
    if x.len() != y.len() {
        return false;
    }
    let mut i: usize = 0;
    while i < x.len()
        invariant
            x@ == a@,
            y@ == b@,
            x.len() == y.len(),
            i <= x.len(),
            forall|j: int| 0 <= j < i ==> x@[j] == y@[j],
        decreases x.len() - i,
    {
        if x[i] != y[i] {
            return false;
        }
        i += 1;
    }
    assert(x@ =~= y@);
    true
}

/// Whether `c` has the Unicode `White_Space` property.
pub fn is_whitespace_char(c: char) -> (res: bool)
    ensures
        res == is_whitespace(c),
{
    ('\t' <= c && c <= '\r') || c == ' ' || c == '\u{85}' || c == '\u{a0}' || c == '\u{1680}'
        || ('\u{2000}' <= c && c <= '\u{200a}') || c == '\u{2028}' || c == '\u{2029}' || c
        == '\u{202f}' || c == '\u{205f}' || c == '\u{3000}'
}

/// Whether `c` is ASCII whitespace.
pub fn is_ascii_whitespace_char(c: char) -> (res: bool)
    ensures
        res == is_ascii_whitespace(c),
{
    c == ' ' || c == '\t' || c == '\n' || c == '\x0C' || c == '\r'
}

/// The bounds of `chars` without its leading and trailing whitespace.
pub fn trim_bounds(chars: &Vec<char>) -> (res: (usize, usize))
    ensures
        res.0 <= res.1 <= chars.len(),
        chars@.subrange(res.0 as int, res.1 as int) == trim(chars@),
{
    let mut a: usize = 0;
    while a < chars.len() && is_whitespace_char(chars[a])
        invariant
            a <= chars.len(),
            forall|j: int| 0 <= j < a ==> is_whitespace(#[trigger] chars@[j]),
        decreases chars.len() - a,
    {
        a += 1;
    }
    proof {
        lemma_trim_start_skip(chars@, a as int);
    }
    let ghost rest = chars@.skip(a as int);
    assert(trim_start(rest) == rest);
    let mut b: usize = chars.len();
    while b > a && is_whitespace_char(chars[b - 1])
        invariant
            a <= b <= chars.len(),
            rest == chars@.skip(a as int),
            forall|j: int| b <= j < chars.len() ==> is_whitespace(#[trigger] chars@[j]),
        decreases b,
    {
        b -= 1;
    }
    proof {
        let n = (b - a) as int;
        assert forall|j: int| n <= j < rest.len() implies is_whitespace(#[trigger] rest[j]) by {
            assert(rest[j] == chars@[a + j]);
        }
        lemma_trim_end_take(rest, n);
        assert(rest.take(n) =~= chars@.subrange(a as int, b as int));
        let t = rest.take(n);
        if n > 0 {
            assert(t.last() == chars@[b - 1]);
        }
        assert(trim_end(t) == t);
    }
    (a, b)
}

/// Whether `pat` occurs in `chars` at index `k`.
pub fn matches_at_exec(chars: &Vec<char>, pat: &Vec<char>, k: usize) -> (res: bool)
    ensures
        res == matches_at(chars@, pat@, k as int),
{
    if k > chars.len() || pat.len() > chars.len() - k {
        return false;
    }
    let mut j: usize = 0;
    while j < pat.len()
        invariant
            k + pat.len() <= chars.len(),
            j <= pat.len(),
            forall|i: int| 0 <= i < j ==> chars@[k + i] == pat@[i],
        decreases pat.len() - j,
    {
        if chars[k + j] != pat[j] {
            assert(chars@.subrange(k as int, k + pat.len())[j as int] != pat@[j as int]);
            return false;
        }
        j += 1;
    }
    assert(chars@.subrange(k as int, k + pat.len()) =~= pat@);
    true
}

/// The first index `>= k` at which `pat` occurs in `chars`.
pub fn find_from_exec(chars: &Vec<char>, pat: &Vec<char>, k: usize) -> (res: Option<usize>)
    ensures
        match res {
            Some(j) => find_from(chars@, pat@, k as int) == Some(j as int),
            None => find_from(chars@, pat@, k as int) is None,
        },
{
    if pat.len() > chars.len() {
        proof {
            assert forall|j: int| k <= j implies !#[trigger] matches_at(chars@, pat@, j) by {}
            lemma_find_from_none(chars@, pat@, k as int);
        }
        return None;
    }
    let last = chars.len() - pat.len();
    let mut i = k;
    while i <= last
        invariant
            last == chars.len() - pat.len(),
            k <= i,
            forall|j: int| k <= j < i ==> !#[trigger] matches_at(chars@, pat@, j),
        ensures
            forall|j: int| k <= j <= last ==> !#[trigger] matches_at(chars@, pat@, j),
        decreases last + 1 - i,
    {
        if matches_at_exec(chars, pat, i) {
            proof {
                lemma_find_from_first(chars@, pat@, k as int, i as int);
            }
            return Some(i);
        }
        if i == last {
            break;
        }
        i += 1;
    }
    proof {
        assert forall|j: int| k <= j implies !#[trigger] matches_at(chars@, pat@, j) by {
            if j > last {
                assert(j + pat.len() > chars.len());
            }
        }
        lemma_find_from_none(chars@, pat@, k as int);
    }
    None
}

/// The first index `>= k` that holds `c`, or the length when there is none.
pub fn index_of_from_exec(chars: &Vec<char>, c: char, k: usize) -> (res: usize)
    requires
        k <= chars.len(),
    ensures
        res as int == index_of_from(chars@, c, k as int),
{
    let mut i = k;
    while i < chars.len() && chars[i] != c
        invariant
            k <= i <= chars.len(),
            index_of_from(chars@, c, k as int) == index_of_from(chars@, c, i as int),
        decreases chars.len() - i,
    {
        i += 1;
    }
    i
}

/// `chars` with every occurrence of the nonempty `pat` removed, scanning from the left.
pub fn remove_all_exec(chars: &Vec<char>, pat: &Vec<char>) -> (res: Vec<char>)
    requires
        pat.len() > 0,
    ensures
        res@ == remove_all(chars@, pat@),
{
    let mut res: Vec<char> = Vec::new();
    let mut i: usize = 0;
    assert(chars@.skip(0) =~= chars@);
    assert(res@ + remove_all(chars@, pat@) =~= remove_all(chars@, pat@));
    while i < chars.len()
        invariant
            pat.len() > 0,
            i <= chars.len(),
            remove_all(chars@, pat@) == res@ + remove_all(chars@.skip(i as int), pat@),
        decreases chars.len() - i,
    {
        let ghost rest = chars@.skip(i as int);
        if matches_at_exec(chars, pat, i) {
            assert(rest.subrange(0, pat.len() as int) =~= chars@.subrange(
                i as int,
                i + pat.len(),
            ));
            assert(rest.skip(pat.len() as int) =~= chars@.skip(i + pat.len()));
            i += pat.len();
        } else {
            assert(!matches_at(rest, pat@, 0)) by {
                if matches_at(rest, pat@, 0) {
                    assert(rest.subrange(0, pat.len() as int) =~= chars@.subrange(
                        i as int,
                        i + pat.len(),
                    ));
                }
            }
            assert(rest.drop_first() =~= chars@.skip(i + 1));
            res.push(chars[i]);
            i += 1;
        }
    }
    assert(chars@.skip(i as int) =~= Seq::<char>::empty());
    assert(res@ + Seq::<char>::empty() =~= res@);
    res
}

/// Appends the decimal digits of `n` to `out`.
pub fn push_decimal(out: &mut String, n: usize)
    ensures
        final(out)@ == old(out)@ + decimal(n as nat),
        numeral_value(final(out)@.skip(old(out)@.len() as int)) == n,
    decreases n,
{
    if n >= 10 {
        push_decimal(out, n / 10);
    }
    let d = (n % 10) as u8;
    let c = (48u8 + d) as char;
    assert(c == digit_char((n % 10) as nat));
    push_char(out, c);
    proof {
        if n >= 10 {
            assert(decimal(n as nat) == decimal((n / 10) as nat) + seq![digit_char((n % 10) as nat)]);
        }
        lemma_decimal_denotes(n as nat);
        assert(out@.skip(old(out)@.len() as int) =~= decimal(n as nat));
    }
}

} // verus!
