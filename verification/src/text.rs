//! Text helpers: decimal numbers, cutting at a character, trimming.

use vstd::prelude::*;

verus! {

/// The decimal digit `d`, for `0 <= d < 10`.
pub open spec fn digit(d: int) -> char {
    if d == 0 {
        '0'
    } else if d == 1 {
        '1'
    } else if d == 2 {
        '2'
    } else if d == 3 {
        '3'
    } else if d == 4 {
        '4'
    } else if d == 5 {
        '5'
    } else if d == 6 {
        '6'
    } else if d == 7 {
        '7'
    } else if d == 8 {
        '8'
    } else {
        '9'
    }
}

/// `n` in decimal notation, without leading zeros.
pub open spec fn decimal(n: nat) -> Seq<char>
    decreases n,
{
    if n < 10 {
        seq![digit(n as int)]
    } else {
        decimal(n / 10).push(digit((n % 10) as int))
    }
}

fn digit_text(d: u128) -> (r: &'static str)
    requires
        d < 10,
    ensures
        r@ == seq![digit(d as int)],
{
    proof {
        reveal_strlit("0");
        reveal_strlit("1");
        reveal_strlit("2");
        reveal_strlit("3");
        reveal_strlit("4");
        reveal_strlit("5");
        reveal_strlit("6");
        reveal_strlit("7");
        reveal_strlit("8");
        reveal_strlit("9");
    }
    match d {
        0 => "0",
        1 => "1",
        2 => "2",
        3 => "3",
        4 => "4",
        5 => "5",
        6 => "6",
        7 => "7",
        8 => "8",
        _ => "9",
    }
}

/// Writes `n` in decimal notation.
pub fn to_decimal(n: u128) -> (r: String)
    ensures
        r@ == decimal(n as nat),
    decreases n,
{
    if n < 10 {
        digit_text(n).to_owned()
    } else {
        let head = to_decimal(n / 10);
        let r = head.concat(digit_text(n % 10));
        assert(r@ == head@.push(digit((n % 10) as int)));
        r
    }
}

/// What stands in `s` before the first `c`; all of `s` where it holds no `c`.
pub open spec fn before_first(s: Seq<char>, c: char) -> Seq<char>
    decreases s.len(),
{
    if s.len() == 0 || s[0] == c {
        Seq::empty()
    } else {
        seq![s[0]] + before_first(s.drop_first(), c)
    }
}

/// What stands in `s` after the last `c`; all of `s` where it holds no `c`.
pub open spec fn after_last(s: Seq<char>, c: char) -> Seq<char>
    decreases s.len(),
{
    if s.len() == 0 || s.last() == c {
        Seq::empty()
    } else {
        after_last(s.drop_last(), c).push(s.last())
    }
}

/// A prefix without `c` that ends at `c`, or at the end, is what stands before
/// the first `c`.
proof fn before_first_at(s: Seq<char>, c: char, k: int)
    requires
        0 <= k <= s.len(),
        forall|i: int| 0 <= i < k ==> s[i] != c,
        k < s.len() ==> s[k] == c,
    ensures
        before_first(s, c) == s.take(k),
    decreases k,
{
    if k > 0 {
        before_first_at(s.drop_first(), c, k - 1);
        assert(seq![s[0]] + s.drop_first().take(k - 1) =~= s.take(k));
    } else {
        assert(s.take(0) =~= Seq::empty());
    }
}

/// A suffix without `c` that follows `c`, or is all of `s`, is what stands
/// after the last `c`.
proof fn after_last_at(s: Seq<char>, c: char, k: int)
    requires
        0 <= k <= s.len(),
        forall|i: int| k <= i < s.len() ==> s[i] != c,
        k > 0 ==> s[k - 1] == c,
    ensures
        after_last(s, c) == s.skip(k),
    decreases s.len(),
{
    if k < s.len() {
        after_last_at(s.drop_last(), c, k);
        assert(s.drop_last().skip(k).push(s.last()) =~= s.skip(k));
    } else {
        assert(s.skip(k) =~= Seq::empty());
    }
}

/// The characters of `s`, one by one.
fn characters(s: &str) -> (r: Vec<char>)
    ensures
        r@ == s@,
{
    let mut r: Vec<char> = Vec::new();
    for c in it: s.chars()
        invariant
            r@ == it.seq().take(it.index()),
    {
        r.push(c);
    }
    r
}

/// Cuts `s` before the first `c`.
pub fn cut_before_first(s: &str, c: char) -> (r: &str)
    ensures
        r@ == before_first(s@, c),
{
    let chars = characters(s);
    let mut k: usize = 0;
    while k < chars.len() && chars[k] != c
        invariant
            0 <= k <= chars.len(),
            forall|i: int| 0 <= i < k ==> chars@[i] != c,
        decreases chars.len() - k,
    {
        k = k + 1;
    }
    proof {
        before_first_at(s@, c, k as int);
    }
    s.substring_char(0, k)
}

/// Keeps what follows the last `c` in `s`.
pub fn keep_after_last(s: &str, c: char) -> (r: &str)
    ensures
        r@ == after_last(s@, c),
{
    let chars = characters(s);
    let mut k: usize = chars.len();
    while k > 0 && chars[k - 1] != c
        invariant
            0 <= k <= chars.len(),
            forall|i: int| k <= i < chars.len() ==> chars@[i] != c,
        decreases k,
    {
        k = k - 1;
    }
    proof {
        after_last_at(s@, c, k as int);
    }
    s.substring_char(k, chars.len())
}

/// A character with the Unicode property White_Space.
pub open spec fn white_space(c: char) -> bool {
    ||| '\u{9}' <= c <= '\u{d}'
    ||| c == ' '
    ||| c == '\u{85}'
    ||| c == '\u{a0}'
    ||| c == '\u{1680}'
    ||| '\u{2000}' <= c <= '\u{200a}'
    ||| c == '\u{2028}'
    ||| c == '\u{2029}'
    ||| c == '\u{202f}'
    ||| c == '\u{205f}'
    ||| c == '\u{3000}'
}

/// Whether `c` has the Unicode property White_Space.
pub fn is_white_space(c: char) -> (r: bool)
    ensures
        r == white_space(c),
{
    ('\u{9}' <= c && c <= '\u{d}') || c == ' ' || c == '\u{85}' || c == '\u{a0}' || c
        == '\u{1680}' || ('\u{2000}' <= c && c <= '\u{200a}') || c == '\u{2028}' || c == '\u{2029}'
        || c == '\u{202f}' || c == '\u{205f}' || c == '\u{3000}'
}

/// `s` without the white space at its start.
pub open spec fn trim_start(s: Seq<char>) -> Seq<char>
    decreases s.len(),
{
    if s.len() > 0 && white_space(s[0]) {
        trim_start(s.drop_first())
    } else {
        s
    }
}

/// `s` without the white space at its end.
pub open spec fn trim_end(s: Seq<char>) -> Seq<char>
    decreases s.len(),
{
    if s.len() > 0 && white_space(s.last()) {
        trim_end(s.drop_last())
    } else {
        s
    }
}

/// `s` without the white space at either end.
pub open spec fn trimmed(s: Seq<char>) -> Seq<char> {
    trim_end(trim_start(s))
}

proof fn trim_start_at(s: Seq<char>, k: int)
    requires
        0 <= k <= s.len(),
        forall|i: int| 0 <= i < k ==> white_space(s[i]),
        k < s.len() ==> !white_space(s[k]),
    ensures
        trim_start(s) == s.skip(k),
    decreases k,
{
    if k > 0 {
        trim_start_at(s.drop_first(), k - 1);
        assert(s.drop_first().skip(k - 1) =~= s.skip(k));
    } else {
        assert(s.skip(0) =~= s);
    }
}

proof fn trim_end_at(s: Seq<char>, k: int)
    requires
        0 <= k <= s.len(),
        forall|i: int| k <= i < s.len() ==> white_space(s[i]),
        k > 0 ==> !white_space(s[k - 1]),
    ensures
        trim_end(s) == s.take(k),
    decreases s.len(),
{
    if k < s.len() {
        trim_end_at(s.drop_last(), k);
        assert(s.drop_last().take(k) =~= s.take(k));
    } else {
        assert(s.take(k) =~= s);
    }
}

/// Removes the white space at both ends of `s`.
pub fn trim(s: &str) -> (r: &str)
    ensures
        r@ == trimmed(s@),
{
    let chars = characters(s);
    let mut from: usize = 0;
    while from < chars.len() && is_white_space(chars[from])
        invariant
            0 <= from <= chars.len(),
            forall|i: int| 0 <= i < from ==> white_space(chars@[i]),
        decreases chars.len() - from,
    {
        from = from + 1;
    }
    let mut to: usize = chars.len();
    while to > from && is_white_space(chars[to - 1])
        invariant
            from <= to <= chars.len(),
            forall|i: int| to <= i < chars.len() ==> white_space(chars@[i]),
        decreases to,
    {
        to = to - 1;
    }
    proof {
        trim_start_at(s@, from as int);
        trim_end_at(s@.skip(from as int), to - from);
        assert(s@.skip(from as int).take(to - from) =~= s@.subrange(from as int, to as int));
    }
    s.substring_char(from, to)
}

/// Whether two texts are the same.
pub fn same_text(a: &str, b: &str) -> (r: bool)
    ensures
        r == (a@ == b@),
{
    a.to_owned() == b.to_owned()
}

/// Trimming leaves no white space at either end, so trimming again changes
/// nothing.
pub proof fn trim_is_idempotent(s: Seq<char>)
    ensures
        trimmed(trimmed(s)) == trimmed(s),
        trimmed(s).len() > 0 ==> !white_space(trimmed(s)[0]) && !white_space(trimmed(s).last()),
{
    trim_start_clean(s);
    trim_end_clean(trim_start(s));
}

proof fn trim_start_clean(s: Seq<char>)
    ensures
        trim_start(s).len() > 0 ==> !white_space(trim_start(s)[0]),
    decreases s.len(),
{
    if s.len() > 0 && white_space(s[0]) {
        trim_start_clean(s.drop_first());
    }
}

proof fn trim_end_clean(s: Seq<char>)
    ensures
        trim_end(s).len() > 0 ==> !white_space(trim_end(s).last()) && s.len() > 0 && trim_end(s)[0]
            == s[0],
        trim_end(trim_end(s)) == trim_end(s),
    decreases s.len(),
{
    if s.len() > 0 && white_space(s.last()) {
        trim_end_clean(s.drop_last());
    }
}

/// What follows the first `c` does not matter to what stands before it.
pub proof fn before_first_ignores_the_rest(s: Seq<char>, c: char, rest: Seq<char>)
    ensures
        before_first(s + seq![c] + rest, c) == before_first(s, c),
    decreases s.len(),
{
    let whole = s + seq![c] + rest;
    if s.len() == 0 {
        assert(whole[0] == c);
    } else {
        assert(whole[0] == s[0]);
        if s[0] != c {
            assert(whole.drop_first() =~= s.drop_first() + seq![c] + rest);
            before_first_ignores_the_rest(s.drop_first(), c, rest);
        }
    }
}

/// What stands before the first `c` holds no `c`.
pub proof fn before_first_holds_none(s: Seq<char>, c: char)
    ensures
        !before_first(s, c).contains(c),
    decreases s.len(),
{
    if s.len() > 0 && s[0] != c {
        before_first_holds_none(s.drop_first(), c);
        let rest = before_first(s.drop_first(), c);
        let whole = before_first(s, c);
        assert forall|i: int| 0 <= i < whole.len() implies whole[i] != c by {
            if i > 0 {
                assert(whole[i] == rest[i - 1]);
                assert(rest.contains(rest[i - 1]));
            }
        }
    }
}

/// What stands after the last `c` holds no `c`, and nothing that was not there.
pub proof fn after_last_holds_none(s: Seq<char>, c: char)
    ensures
        !after_last(s, c).contains(c),
        forall|x: char| #[trigger] after_last(s, c).contains(x) ==> s.contains(x),
    decreases s.len(),
{
    if s.len() > 0 && s.last() != c {
        after_last_holds_none(s.drop_last(), c);
        let rest = after_last(s.drop_last(), c);
        let whole = after_last(s, c);
        assert forall|i: int| 0 <= i < whole.len() implies whole[i] != c && s.contains(
            #[trigger] whole[i],
        ) by {
            if i < rest.len() {
                assert(whole[i] == rest[i]);
                assert(rest.contains(rest[i]));
                assert(s.drop_last().contains(rest[i]));
                let k = choose|k: int| 0 <= k < s.drop_last().len() && s.drop_last()[k] == rest[i];
                assert(s[k] == whole[i]);
            } else {
                assert(s[s.len() - 1] == whole[i]);
            }
        }
    }
}

/// Different numbers are written differently.
pub proof fn decimal_is_injective(m: nat, n: nat)
    requires
        decimal(m) == decimal(n),
    ensures
        m == n,
    decreases m,
{
    let a = decimal(m);
    let b = decimal(n);
    decimal_is_not_empty(m / 10);
    decimal_is_not_empty(n / 10);
    assert(a.last() == digit((m % 10) as int));
    assert(b.last() == digit((n % 10) as int));
    assert(a.drop_last() == b.drop_last());
    if m >= 10 && n >= 10 {
        assert(a.drop_last() =~= decimal(m / 10));
        assert(b.drop_last() =~= decimal(n / 10));
        decimal_is_injective(m / 10, n / 10);
    } else if m >= 10 {
        assert(a.len() == decimal(m / 10).len() + 1);
    } else if n >= 10 {
        assert(b.len() == decimal(n / 10).len() + 1);
    }
}

proof fn decimal_is_not_empty(n: nat)
    ensures
        decimal(n).len() > 0,
    decreases n,
{
    if n >= 10 {
        decimal_is_not_empty(n / 10);
    }
}

/// The number that a text of decimal digits stands for.
pub open spec fn number(s: Seq<char>) -> int
    decreases s.len(),
{
    if s.len() == 0 {
        0
    } else {
        10 * number(s.drop_last()) + (s.last() as int - '0' as int)
    }
}

/// A number that is written in decimal reads back as itself; the text holds
/// nothing but digits and no leading zero.
pub proof fn decimal_reads_back(n: nat)
    ensures
        number(decimal(n)) == n,
        decimal(n).len() > 0,
        forall|i: int| 0 <= i < decimal(n).len() ==> '0' <= #[trigger] decimal(n)[i] <= '9',
        n > 0 ==> decimal(n)[0] != '0',
        n == 0 ==> decimal(n).len() == 1,
    decreases n,
{
    let s = decimal(n);
    if n >= 10 {
        decimal_reads_back(n / 10);
        assert(s.drop_last() =~= decimal(n / 10));
        assert(s[0] == decimal(n / 10)[0]);
        assert forall|i: int| 0 <= i < s.len() implies '0' <= #[trigger] s[i] <= '9' by {
            if i < s.len() - 1 {
                assert(s[i] == decimal(n / 10)[i]);
            }
        }
    } else {
        assert(s.drop_last() =~= Seq::empty());
        assert(number(s.drop_last()) == 0);
    }
}

/// What stands before the first `c` is the part of `s` up to there: a prefix
/// that holds no `c`, and that ends at a `c` or at the end of `s`.
pub proof fn before_first_ends_at_the_first(s: Seq<char>, c: char)
    ensures
        ({
            let k = before_first(s, c).len() as int;
            &&& k <= s.len()
            &&& before_first(s, c) == s.take(k)
            &&& forall|i: int| 0 <= i < k ==> s[i] != c
            &&& k < s.len() ==> s[k] == c
        }),
    decreases s.len(),
{
    if s.len() > 0 && s[0] != c {
        let t = s.drop_first();
        before_first_ends_at_the_first(t, c);
        let k = before_first(t, c).len() as int;
        assert forall|i: int| 0 <= i < k + 1 implies s[i] != c by {
            if i > 0 {
                assert(s[i] == t[i - 1]);
            }
        }
        assert(before_first(s, c) =~= s.take(k + 1));
        if k < t.len() {
            assert(s[k + 1] == t[k]);
        }
    } else {
        assert(before_first(s, c) =~= s.take(0));
    }
}

/// What stands after the last `c` is the part of `s` from there: a suffix that
/// holds no `c`, and that follows a `c` or is all of `s`.
pub proof fn after_last_starts_at_the_last(s: Seq<char>, c: char)
    ensures
        ({
            let k = s.len() - after_last(s, c).len();
            &&& 0 <= k
            &&& after_last(s, c) == s.skip(k)
            &&& forall|i: int| k <= i < s.len() ==> s[i] != c
            &&& k > 0 ==> s[k - 1] == c
        }),
    decreases s.len(),
{
    if s.len() > 0 && s.last() != c {
        let t = s.drop_last();
        after_last_starts_at_the_last(t, c);
        let k = t.len() - after_last(t, c).len();
        assert forall|i: int| k <= i < s.len() implies s[i] != c by {
            if i < t.len() {
                assert(s[i] == t[i]);
            }
        }
        assert(after_last(s, c) =~= s.skip(k));
        if k > 0 {
            assert(s[k - 1] == t[k - 1]);
        }
    } else {
        assert(after_last(s, c) =~= s.skip(s.len() as int));
    }
}

proof fn trim_start_cut(s: Seq<char>) -> (k: int)
    ensures
        0 <= k <= s.len(),
        trim_start(s) == s.skip(k),
        forall|i: int| 0 <= i < k ==> white_space(#[trigger] s[i]),
        k < s.len() ==> !white_space(s[k]),
    decreases s.len(),
{
    if s.len() > 0 && white_space(s[0]) {
        let t = s.drop_first();
        let k = trim_start_cut(t);
        assert(t.skip(k) =~= s.skip(k + 1));
        assert forall|i: int| 0 <= i < k + 1 implies white_space(#[trigger] s[i]) by {
            if i > 0 {
                assert(s[i] == t[i - 1]);
            }
        }
        if k < t.len() {
            assert(s[k + 1] == t[k]);
        }
        k + 1
    } else {
        assert(s.skip(0) =~= s);
        0
    }
}

proof fn trim_end_cut(s: Seq<char>) -> (k: int)
    ensures
        0 <= k <= s.len(),
        trim_end(s) == s.take(k),
        forall|i: int| k <= i < s.len() ==> white_space(#[trigger] s[i]),
        k > 0 ==> !white_space(s[k - 1]),
    decreases s.len(),
{
    if s.len() > 0 && white_space(s.last()) {
        let t = s.drop_last();
        let k = trim_end_cut(t);
        assert(t.take(k) =~= s.take(k));
        assert forall|i: int| k <= i < s.len() implies white_space(#[trigger] s[i]) by {
            if i < t.len() {
                assert(s[i] == t[i]);
            }
        }
        if k > 0 {
            assert(s[k - 1] == t[k - 1]);
        }
        k
    } else {
        assert(s.take(s.len() as int) =~= s);
        s.len() as int
    }
}

/// Trimming cuts white space off the ends and nothing else: what is left stands
/// in `s` from one place to another, all before and behind it is white space,
/// and it neither starts nor ends with any.
pub proof fn trimming_removes_white_space_only(s: Seq<char>) -> (cut: (int, int))
    ensures
        0 <= cut.0 <= cut.1 <= s.len(),
        trimmed(s) == s.subrange(cut.0, cut.1),
        forall|i: int| 0 <= i < cut.0 ==> white_space(#[trigger] s[i]),
        forall|i: int| cut.1 <= i < s.len() ==> white_space(#[trigger] s[i]),
        cut.0 < cut.1 ==> !white_space(s[cut.0]) && !white_space(s[cut.1 - 1]),
{
    let a = trim_start_cut(s);
    let t = s.skip(a);
    let b = trim_end_cut(t);
    assert(t.take(b) =~= s.subrange(a, a + b));
    assert forall|i: int| a + b <= i < s.len() implies white_space(#[trigger] s[i]) by {
        assert(s[i] == t[i - a]);
    }
    if b > 0 {
        assert(s[a + b - 1] == t[b - 1]);
    }
    (a, a + b)
}

/// White space is what Unicode calls so, by the numbers of its characters.
pub proof fn white_space_is_that_of_unicode(c: char)
    ensures
        ({
            let n = c as int;
            white_space(c) <==> (9 <= n <= 13 || n == 32 || n == 133 || n == 160 || n == 5760 || 8192
                <= n <= 8202 || n == 8232 || n == 8233 || n == 8239 || n == 8287 || n == 12288)
        }),
{
}

/// A number is written so that it reads back, and texts are the same exactly if
/// they agree in every character.
pub proof fn texts_are_written_and_compared_in_full(
    n: u128,
    written: String,
    a: &str,
    b: &str,
    same: bool,
)
    requires
        call_ensures(to_decimal, (n,), written),
        call_ensures(same_text, (a, b), same),
    ensures
        number(written@) == n,
        same <==> a@.len() == b@.len() && forall|i: int| 0 <= i < a@.len() ==> a@[i] == b@[i],
{
    decimal_reads_back(n as nat);
    if a@.len() == b@.len() && forall|i: int| 0 <= i < a@.len() ==> a@[i] == b@[i] {
        assert(a@ =~= b@);
    }
}

} // verus!
