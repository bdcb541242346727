use vstd::prelude::*;

verus! {

/// Whether a character has the Unicode property White_Space, which is what
/// the standard library calls whitespace (`char::is_whitespace`).
pub open spec fn is_white_space(c: char) -> bool {
    let n = c as u32;
    ||| 0x09 <= n <= 0x0d
    ||| n == 0x20
    ||| n == 0x85
    ||| n == 0xa0
    ||| n == 0x1680
    ||| 0x2000 <= n <= 0x200a
    ||| n == 0x2028
    ||| n == 0x2029
    ||| n == 0x202f
    ||| n == 0x205f
    ||| n == 0x3000
}

/// `t` is `s` with its leading and trailing whitespace removed.
pub open spec fn is_trim_of(s: Seq<char>, t: Seq<char>) -> bool {
    exists|a: int, b: int|
        {
            &&& 0 <= a <= b <= s.len()
            &&& t == s.subrange(a, b)
            &&& forall|i: int| 0 <= i < a ==> is_white_space(#[trigger] s[i])
            &&& forall|i: int| b <= i < s.len() ==> is_white_space(#[trigger] s[i])
            &&& a < b ==> !is_white_space(s[a]) && !is_white_space(s[b - 1])
        }
}

/// `s` with its leading and trailing whitespace removed.
pub open spec fn trimmed(s: Seq<char>) -> Seq<char> {
    choose|t: Seq<char>| is_trim_of(s, t)
}

/// `t` without a pair of surrounding single or double quotes, if it has
/// such a pair.
pub open spec fn without_quotes(t: Seq<char>) -> Seq<char> {
    if t.len() >= 2 && ((t[0] == '\'' && t.last() == '\'') || (t[0] == '"' && t.last() == '"')) {
        t.subrange(1, t.len() - 1)
    } else {
        t
    }
}

/// `s` trimmed of surrounding whitespace, then of a pair of surrounding
/// quotes.
pub open spec fn unquoted(s: Seq<char>) -> Seq<char> {
    without_quotes(trimmed(s))
}

/// `str::trim_start`: the slice of `s` without its leading characters that
/// have the Unicode property White_Space.
#[verifier::external_body]
fn trim_start(s: &str) -> (t: &str)
    ensures
        t@.len() <= s@.len(),
        t@ == s@.subrange(s@.len() - t@.len(), s@.len() as int),
        forall|i: int| 0 <= i < s@.len() - t@.len() ==> is_white_space(#[trigger] s@[i]),
        t@.len() > 0 ==> !is_white_space(t@[0]),
{
    s.trim_start()
}

/// `str::trim_end`: the slice of `s` without its trailing characters that
/// have the Unicode property White_Space.
#[verifier::external_body]
fn trim_end(s: &str) -> (t: &str)
    ensures
        t@.len() <= s@.len(),
        t@ == s@.subrange(0, t@.len() as int),
        forall|i: int| t@.len() <= i < s@.len() ==> is_white_space(#[trigger] s@[i]),
        t@.len() > 0 ==> !is_white_space(t@.last()),
{
    s.trim_end()
}

/// There is only one way to trim a string.
pub proof fn lemma_trim_unique(s: Seq<char>, t1: Seq<char>, t2: Seq<char>)
    requires
        is_trim_of(s, t1),
        is_trim_of(s, t2),
    ensures
        t1 == t2,
{
    let (a1, b1) = choose|a: int, b: int|
        {
            &&& 0 <= a <= b <= s.len()
            &&& t1 == s.subrange(a, b)
            &&& forall|i: int| 0 <= i < a ==> is_white_space(#[trigger] s[i])
            &&& forall|i: int| b <= i < s.len() ==> is_white_space(#[trigger] s[i])
            &&& a < b ==> !is_white_space(s[a]) && !is_white_space(s[b - 1])
        };
    let (a2, b2) = choose|a: int, b: int|
        {
            &&& 0 <= a <= b <= s.len()
            &&& t2 == s.subrange(a, b)
            &&& forall|i: int| 0 <= i < a ==> is_white_space(#[trigger] s[i])
            &&& forall|i: int| b <= i < s.len() ==> is_white_space(#[trigger] s[i])
            &&& a < b ==> !is_white_space(s[a]) && !is_white_space(s[b - 1])
        };
    if a1 < b1 && a2 < b2 {
        if a1 < a2 {
            assert(is_white_space(s[a1]));
        }
        if a2 < a1 {
            assert(is_white_space(s[a2]));
        }
        if b1 < b2 {
            assert(is_white_space(s[b2 - 1]));
        }
        if b2 < b1 {
            assert(is_white_space(s[b1 - 1]));
        }
        assert(t1 =~= t2);
    } else if a1 < b1 {
        assert(is_white_space(s[a1]) || a1 < a2 || a1 >= b2);
    } else if a2 < b2 {
        assert(is_white_space(s[a2]) || a2 < a1 || a2 >= b1);
    } else {
        assert(t1 =~= t2);
    }
}

/// A character that is not white space has a first such character at or
/// before it.
proof fn lemma_first_non_white_space(s: Seq<char>, i: int)
    requires
        0 <= i < s.len(),
        !is_white_space(s[i]),
    ensures
        exists|a: int|
            0 <= a <= i && !is_white_space(s[a]) && forall|j: int|
                0 <= j < a ==> is_white_space(#[trigger] s[j]),
    decreases i,
{
    if exists|j: int| 0 <= j < i && !is_white_space(s[j]) {
        let j = choose|j: int| 0 <= j < i && !is_white_space(s[j]);
        lemma_first_non_white_space(s, j);
    } else {
        assert(forall|j: int| 0 <= j < i ==> is_white_space(#[trigger] s[j]));
    }
}

/// A character that is not white space has a last such character at or
/// after it.
proof fn lemma_last_non_white_space(s: Seq<char>, i: int)
    requires
        0 <= i < s.len(),
        !is_white_space(s[i]),
    ensures
        exists|b: int|
            i <= b < s.len() && !is_white_space(s[b]) && forall|j: int|
                b < j < s.len() ==> is_white_space(#[trigger] s[j]),
    decreases s.len() - i,
{
    if exists|j: int| i < j < s.len() && !is_white_space(s[j]) {
        let j = choose|j: int| i < j < s.len() && !is_white_space(s[j]);
        lemma_last_non_white_space(s, j);
    } else {
        assert(forall|j: int| i < j < s.len() ==> is_white_space(#[trigger] s[j]));
    }
}

/// Every string has a trimmed form, and it is a contiguous part of the
/// string.
pub proof fn lemma_trim_exists(s: Seq<char>)
    ensures
        is_trim_of(s, trimmed(s)),
        exists|a: int, b: int| 0 <= a <= b <= s.len() && trimmed(s) == s.subrange(a, b),
{
    if exists|i: int| 0 <= i < s.len() && !is_white_space(s[i]) {
        let i = choose|i: int| 0 <= i < s.len() && !is_white_space(s[i]);
        lemma_first_non_white_space(s, i);
        lemma_last_non_white_space(s, i);
        let a = choose|a: int|
            0 <= a <= i && !is_white_space(s[a]) && forall|j: int|
                0 <= j < a ==> is_white_space(#[trigger] s[j]);
        let b = choose|b: int|
            i <= b < s.len() && !is_white_space(s[b]) && forall|j: int|
                b < j < s.len() ==> is_white_space(#[trigger] s[j]);
        assert(forall|j: int| b + 1 <= j < s.len() ==> is_white_space(#[trigger] s[j]));
        assert(is_trim_of(s, s.subrange(a, b + 1)));
        lemma_trim_unique(s, s.subrange(a, b + 1), trimmed(s));
    } else {
        assert(forall|j: int| 0 <= j < s.len() ==> is_white_space(#[trigger] s[j]));
        assert(is_trim_of(s, s.subrange(0, 0)));
        lemma_trim_unique(s, s.subrange(0, 0), trimmed(s));
    }
}

/// Unquoting only removes characters from the ends: the result is a
/// contiguous part of the input.
pub proof fn law_unquote_is_slice(s: Seq<char>)
    ensures
        exists|a: int, b: int| 0 <= a <= b <= s.len() && unquoted(s) == s.subrange(a, b),
{
    lemma_trim_exists(s);
    let t = trimmed(s);
    let (a, b) = choose|a: int, b: int| 0 <= a <= b <= s.len() && t == s.subrange(a, b);
    if without_quotes(t) != t {
        assert(unquoted(s) =~= s.subrange(a + 1, b - 1));
    } else {
        assert(unquoted(s) == s.subrange(a, b));
    }
}

/// Stripping quotes removes either nothing or exactly one matching pair of
/// quotes, one at each end.
pub proof fn law_strip_quotes_removes_a_pair(t: Seq<char>)
    ensures
        without_quotes(t) == t || (t.len() >= 2 && t[0] == t.last() && (t[0] == '\'' || t[0] == '"')
            && t == seq![t[0]] + without_quotes(t) + seq![t[0]]),
{
    if without_quotes(t) != t {
        assert(t =~= seq![t[0]] + without_quotes(t) + seq![t[0]]);
    }
}

/// A string whose ends are not white space is its own trimmed form.
pub proof fn lemma_trimmed_unpadded(s: Seq<char>)
    requires
        s.len() > 0,
        !is_white_space(s[0]),
        !is_white_space(s[s.len() - 1]),
    ensures
        trimmed(s) == s,
{
    assert(s.subrange(0, s.len() as int) =~= s);
    assert(is_trim_of(s, s.subrange(0, s.len() as int)));
    lemma_trim_exists(s);
    lemma_trim_unique(s, s, trimmed(s));
}

/// A string made of a quote character, any text and the same quote
/// character unquotes to that text.
pub proof fn law_unquote_of_quoted(text: Seq<char>, quote: char)
    requires
        quote == '\'' || quote == '"',
    ensures
        unquoted(seq![quote] + text + seq![quote]) == text,
{
    let s = seq![quote] + text + seq![quote];
    assert(s[0] == quote);
    assert(s[s.len() - 1] == quote);
    assert(!is_white_space(quote));
    lemma_trimmed_unpadded(s);
    assert(s.subrange(1, s.len() - 1) =~= text);
}

/// Unquoting gives the input without its leading and trailing white
/// space, and then without one pair of matching surrounding quotes if what
/// is left has one; otherwise exactly what is left.
pub proof fn law_unquote_result(s: Seq<char>, a: int, b: int)
    requires
        0 <= a <= b <= s.len(),
        forall|i: int| 0 <= i < a ==> is_white_space(#[trigger] s[i]),
        forall|i: int| b <= i < s.len() ==> is_white_space(#[trigger] s[i]),
        a < b ==> !is_white_space(s[a]) && !is_white_space(s[b - 1]),
    ensures
        b - a >= 2 && s[a] == s[b - 1] && (s[a] == '\'' || s[a] == '"') ==> unquoted(s) == s.subrange(
            a + 1,
            b - 1,
        ),
        !(b - a >= 2 && s[a] == s[b - 1] && (s[a] == '\'' || s[a] == '"')) ==> unquoted(s)
            == s.subrange(a, b),
{
    let t = s.subrange(a, b);
    assert(is_trim_of(s, t));
    lemma_trim_exists(s);
    lemma_trim_unique(s, t, trimmed(s));
    if b - a >= 2 {
        assert(t[0] == s[a]);
        assert(t.last() == s[b - 1]);
        assert(t.subrange(1, t.len() - 1) =~= s.subrange(a + 1, b - 1));
    }
}

/// Removes surrounding single or double quotes from a string slice, if
/// present. Leading and trailing whitespace is trimmed before checking for
/// quotes.
pub fn unquote(s: &str) -> (r: &str)
    ensures
        r@ == unquoted(s@),
{
    let start_trimmed = trim_start(s);
    let t = trim_end(start_trimmed);
    proof {
        let a = s@.len() - start_trimmed@.len();
        let b = a + t@.len();
        assert forall|i: int| b <= i < s@.len() implies is_white_space(#[trigger] s@[i]) by {
            assert(s@[i] == start_trimmed@[i - a]);
        }
        if a < b {
            assert(s@[a] == start_trimmed@[0]);
            assert(s@[b - 1] == t@[t@.len() - 1]);
        }
        assert(t@ =~= s@.subrange(a, b));
        assert(is_trim_of(s@, t@));
        lemma_trim_unique(s@, t@, trimmed(s@));
    }
    strip_quotes(t)
}

/// Removes one pair of surrounding single or double quotes from a string
/// slice, if it has such a pair; otherwise returns it unchanged.
pub fn strip_quotes(t: &str) -> (r: &str)
    ensures
        r@ == without_quotes(t@),
{
    let n = t.unicode_len();
    if n >= 2 {
        let first = t.get_char(0);
        let last = t.get_char(n - 1);
        if (first == '\'' && last == '\'') || (first == '"' && last == '"') {
            return t.substring_char(1, n - 1);
        }
    }
    t
}

} // verus!
