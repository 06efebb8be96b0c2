//! Character-level helpers on strings: the character sequence of a string,
//! substring search, trimming, and single-character edits.

use vstd::prelude::*;

verus! {

broadcast use vstd::string::axiom_spec_iter;

/// The characters of `s`, in order.
pub fn chars_of(s: &str) -> (res: Vec<char>)
    ensures
        res@ == s@,
{
    let mut res: Vec<char> = Vec::new();
    for c in it: s.chars()
        invariant
            res@ == it.seq().take(it.index() as int),
            it.seq() == s@,
    {
        res.push(c);
    }
    res
}


/// `needle` occurs in `hay` starting at position `i`.
pub open spec fn occurs_at(hay: Seq<char>, needle: Seq<char>, i: int) -> bool {
    &&& 0 <= i
    &&& i + needle.len() <= hay.len()
    &&& hay.subrange(i, i + needle.len()) == needle
}

/// `needle` is a substring of `hay` (the empty string is a substring of every string).
pub open spec fn has_substring(hay: Seq<char>, needle: Seq<char>) -> bool {
    exists|i: int| occurs_at(hay, needle, i)
}

/// Whether the characters `hay[i..i + needle.len()]` are those of `needle`.
fn matches_at(hay: &Vec<char>, needle: &Vec<char>, i: usize) -> (res: bool)
    requires
        i + needle.len() <= hay.len(),
    ensures
        res == occurs_at(hay@, needle@, i as int),
{
    let mut k: usize = 0;
    while k < needle.len()
        invariant
            i + needle.len() <= hay.len(),
            k <= needle.len(),
            forall|j: int| 0 <= j < k ==> hay@[i + j] == needle@[j],
        decreases needle.len() - k,
    {
        if hay[i + k] != needle[k] {
            assert(hay@.subrange(i as int, i + needle.len())[k as int] != needle@[k as int]);
            return false;
        }
        k = k + 1;
    }
    assert(hay@.subrange(i as int, i + needle.len()) =~= needle@);
    true
}

/// Whether `needle` occurs in `hay`, as `str::contains` with a string pattern answers.
pub fn contains_str(hay: &str, needle: &str) -> (res: bool)
    ensures
        res == has_substring(hay@, needle@),
{
    let h = chars_of(hay);
    let n = chars_of(needle);
    if n.len() > h.len() {
        assert forall|i: int| !occurs_at(hay@, needle@, i) by {}
        return false;
    }
    let last = h.len() - n.len();
    let mut i: usize = 0;
    loop
        invariant
            h@ == hay@,
            n@ == needle@,
            last == h.len() - n.len(),
            n.len() <= h.len(),
            i <= last,
            forall|j: int| 0 <= j < i ==> !occurs_at(hay@, needle@, j),
        decreases last - i,
    {
        if matches_at(&h, &n, i) {
            return true;
        }
        if i == last {
            assert forall|j: int| !occurs_at(hay@, needle@, j) by {
                if 0 <= j && j + needle@.len() <= hay@.len() {
                    assert(j <= i);
                }
            }
            return false;
        }
        i = i + 1;
    }
}

/// Whether `a` and `b` hold the same characters.
pub fn str_eq(a: &str, b: &str) -> (res: bool)
    ensures
        res == (a@ == b@),
{
    let x = chars_of(a);
    let y = chars_of(b);
    if x.len() != y.len() {
        return false;
    }
    let mut i: usize = 0;
    while i < x.len()
        invariant
            x@ == a@,
            y@ == b@,
            x.len() == y.len(),
            i <= x.len(),
            forall|j: int| 0 <= j < i ==> x@[j] == y@[j],
        decreases x.len() - i,
    {
        if x[i] != y[i] {
            return false;
        }
        i = i + 1;
    }
    assert(x@ =~= y@);
    true
}

/// The Unicode `White_Space` property, which `char::is_whitespace` reports:
/// the tab to carriage-return controls, space, next line, no-break space,
/// ogham space mark, the spaces from en quad to hair space, line and
/// paragraph separator, narrow no-break space, medium mathematical space and
/// ideographic space.
pub open spec fn unicode_white_space(c: char) -> bool {
    let n = c as u32;
    ||| 0x9 <= n <= 0xD
    ||| n == 0x20
    ||| n == 0x85
    ||| n == 0xA0
    ||| n == 0x1680
    ||| 0x2000 <= n <= 0x200A
    ||| n == 0x2028
    ||| n == 0x2029
    ||| n == 0x202F
    ||| n == 0x205F
    ||| n == 0x3000
}

/// Whether `c` is white space, as `char::is_whitespace` answers.
pub fn is_whitespace(c: char) -> (res: bool)
    ensures
        res == unicode_white_space(c),
{
    let n = c as u32;
    (0x9 <= n && n <= 0xD) || n == 0x20 || n == 0x85 || n == 0xA0 || n == 0x1680
        || (0x2000 <= n && n <= 0x200A) || n == 0x2028 || n == 0x2029 || n == 0x202F
        || n == 0x205F || n == 0x3000
}

/// Calls `String::push`, which appends one character at the end.
#[verifier::external_body]
pub(crate) fn push_char(s: &mut String, c: char)
    ensures
        final(s)@ == old(s)@.push(c),
{
    s.push(c)
}

/// Calls `String::pop`, which removes and returns the last character, or
/// returns `None` and leaves the string as it is when it is empty.
#[verifier::external_body]
pub(crate) fn pop_char(s: &mut String) -> (res: Option<char>)
    ensures
        old(s)@.len() == 0 ==> res is None && final(s)@ == old(s)@,
        old(s)@.len() > 0 ==> res == Some(old(s)@.last()) && final(s)@ == old(s)@.drop_last(),
{
    s.pop()
}

/// The one-character string holding `c`.
pub fn char_string(c: char) -> (res: String)
    ensures
        res@ == seq![c],
{
    let mut s = String::new();
    push_char(&mut s, c);
    s
}

/// `s` without its leading white space.
pub open spec fn trim_start_spec(s: Seq<char>) -> Seq<char>
    decreases s.len(),
{
    if s.len() > 0 && unicode_white_space(s[0]) {
        trim_start_spec(s.drop_first())
    } else {
        s
    }
}

/// `s` without its trailing white space.
pub open spec fn trim_end_spec(s: Seq<char>) -> Seq<char>
    decreases s.len(),
{
    if s.len() > 0 && unicode_white_space(s.last()) {
        trim_end_spec(s.drop_last())
    } else {
        s
    }
}

/// `s` without its leading and trailing white space, as `str::trim` gives it.
pub open spec fn trim_spec(s: Seq<char>) -> Seq<char> {
    trim_end_spec(trim_start_spec(s))
}

proof fn lemma_trim_start_skip(s: Seq<char>, i: int)
    requires
        0 <= i <= s.len(),
        forall|j: int| 0 <= j < i ==> unicode_white_space(#[trigger] s[j]),
    ensures
        trim_start_spec(s) == trim_start_spec(s.subrange(i, s.len() as int)),
    decreases i,
{
    if i > 0 {
        assert(s.drop_first().subrange(i - 1, s.drop_first().len() as int) =~= s.subrange(i, s.len() as int));
        lemma_trim_start_skip(s.drop_first(), i - 1);
    } else {
        assert(s.subrange(0, s.len() as int) =~= s);
    }
}

proof fn lemma_trim_end_skip(s: Seq<char>, e: int)
    requires
        0 <= e <= s.len(),
        forall|j: int| e <= j < s.len() ==> unicode_white_space(#[trigger] s[j]),
    ensures
        trim_end_spec(s) == trim_end_spec(s.subrange(0, e)),
    decreases s.len() - e,
{
    if e < s.len() {
        assert(s.drop_last().subrange(0, e) =~= s.subrange(0, e));
        lemma_trim_end_skip(s.drop_last(), e);
    } else {
        assert(s.subrange(0, e) =~= s);
    }
}

/// `s` without its leading and trailing white space, as `str::trim` computes it.
pub fn trim(s: &str) -> (res: String)
    ensures
        res@ == trim_spec(s@),
{
    let cs = chars_of(s);
    let mut start: usize = 0;
    while start < cs.len() && is_whitespace(cs[start])
        invariant
            cs@ == s@,
            start <= cs.len(),
            forall|j: int| 0 <= j < start ==> unicode_white_space(#[trigger] cs@[j]),
        decreases cs.len() - start,
    {
        start = start + 1;
    }
    let ghost rest = s@.subrange(start as int, s@.len() as int);
    proof {
        lemma_trim_start_skip(s@, start as int);
        if rest.len() > 0 {
            assert(rest[0] == cs@[start as int]);
        }
    }
    assert(trim_start_spec(s@) == rest);
    let mut end: usize = cs.len();
    while end > start && is_whitespace(cs[end - 1])
        invariant
            cs@ == s@,
            start <= end <= cs.len(),
            rest == s@.subrange(start as int, s@.len() as int),
            forall|j: int| end - start <= j < rest.len() ==> unicode_white_space(#[trigger] rest[j]),
        decreases end,
    {
        end = end - 1;
    }
    proof {
        lemma_trim_end_skip(rest, end - start);
        let kept = rest.subrange(0, end - start);
        if kept.len() > 0 {
            assert(kept.last() == cs@[end - 1]);
        }
    }
    let mut res = String::new();
    let mut k: usize = start;
    while k < end
        invariant
            cs@ == s@,
            start <= k <= end <= cs.len(),
            res@ == s@.subrange(start as int, k as int),
        decreases end - k,
    {
        push_char(&mut res, cs[k]);
        assert(s@.subrange(start as int, k + 1) =~= s@.subrange(start as int, k as int).push(cs@[k as int]));
        k = k + 1;
    }
    assert(rest.subrange(0, end - start) =~= s@.subrange(start as int, end as int));
    res
}

} // verus!
