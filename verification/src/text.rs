//! Character-level operations on text: whitespace, trimming, searching and
//! filtering, each stated over the sequence of characters of a string.

use vstd::prelude::*;
use vstd::string::*;

verus! {

/// Whether `c` has the Unicode `White_Space` property: the ASCII space and the
/// controls from tab to carriage return, next line, the no-break spaces, the
/// spaces of fixed width, the line and paragraph separators, and the
/// ideographic space.
pub open spec fn whitespace(c: char) -> bool {
    let u: u32 = c as u32;
    ||| 0x09 <= u <= 0x0D
    ||| u == 0x20
    ||| u == 0x85
    ||| u == 0xA0
    ||| u == 0x1680
    ||| 0x2000 <= u <= 0x200A
    ||| u == 0x2028
    ||| u == 0x2029
    ||| u == 0x202F
    ||| u == 0x205F
    ||| u == 0x3000
}

/// Whether every character of `s` is whitespace; the empty text is blank.
pub open spec fn blank(s: Seq<char>) -> bool {
    forall|i: int| 0 <= i < s.len() ==> whitespace(#[trigger] s[i])
}

/// `s` without its leading whitespace.
pub open spec fn trim_start(s: Seq<char>) -> Seq<char>
    decreases s.len(),
{
    if s.len() > 0 && whitespace(s.first()) {
        trim_start(s.drop_first())
    } else {
        s
    }
}

/// `s` without its trailing whitespace.
pub open spec fn trim_end(s: Seq<char>) -> Seq<char>
    decreases s.len(),
{
    if s.len() > 0 && whitespace(s.last()) {
        trim_end(s.drop_last())
    } else {
        s
    }
}

/// `s` without its leading and trailing whitespace.
pub open spec fn trimmed(s: Seq<char>) -> Seq<char> {
    trim_end(trim_start(s))
}

/// Whether `pattern` occurs in `s` starting at index `at`.
pub open spec fn occurs_at(s: Seq<char>, pattern: Seq<char>, at: int) -> bool {
    &&& 0 <= at
    &&& at + pattern.len() <= s.len()
    &&& s.subrange(at, at + pattern.len()) == pattern
}

/// Whether `pattern` occurs somewhere in `s` as a run of consecutive
/// characters. The empty pattern occurs in every text.
pub open spec fn has_substring(s: Seq<char>, pattern: Seq<char>) -> bool {
    exists|at: int| occurs_at(s, pattern, at)
}

/// The test that a character is not `c`.
pub open spec fn other_than(c: char) -> spec_fn(char) -> bool {
    |x: char| x != c
}

/// `s` with every occurrence of the character `c` removed.
pub open spec fn without_char(s: Seq<char>, c: char) -> Seq<char> {
    s.filter(other_than(c))
}

/// `s` without one trailing line feed, and then without one trailing carriage
/// return: what is left of a line read from a terminal once its ending is
/// taken off.
pub open spec fn without_line_ending(s: Seq<char>) -> Seq<char> {
    let body = if s.len() > 0 && s.last() == '\n' {
        s.drop_last()
    } else {
        s
    };
    if body.len() > 0 && body.last() == '\r' {
        body.drop_last()
    } else {
        body
    }
}

/// Skipping a whitespace prefix does not change what `trim_start` yields.
proof fn lemma_trim_start_skips(s: Seq<char>, n: int)
    requires
        0 <= n <= s.len(),
        blank(s.take(n)),
    ensures
        trim_start(s) == trim_start(s.skip(n)),
    decreases n,
{
    if n == 0 {
        assert(s.skip(0) =~= s);
    } else {
        assert(s.take(n)[0] == s[0]);
        let rest = s.drop_first();
        assert forall|i: int| 0 <= i < n - 1 implies whitespace(
            #[trigger] rest.take(n - 1)[i],
        ) by {
            assert(rest.take(n - 1)[i] == s.take(n)[i + 1]);
        }
        lemma_trim_start_skips(rest, n - 1);
        assert(rest.skip(n - 1) =~= s.skip(n));
    }
}

/// Dropping a whitespace suffix does not change what `trim_end` yields.
proof fn lemma_trim_end_skips(s: Seq<char>, n: int)
    requires
        0 <= n <= s.len(),
        blank(s.skip(n)),
    ensures
        trim_end(s) == trim_end(s.take(n)),
    decreases s.len() - n,
{
    if n == s.len() {
        assert(s.take(n) =~= s);
    } else {
        assert(s.skip(n)[s.len() - n - 1] == s.last());
        let rest = s.drop_last();
        assert forall|i: int| 0 <= i < rest.len() - n implies whitespace(
            #[trigger] rest.skip(n)[i],
        ) by {
            assert(rest.skip(n)[i] == s.skip(n)[i]);
        }
        lemma_trim_end_skips(rest, n);
        assert(rest.take(n) =~= s.take(n));
    }
}

/// A text is blank exactly when trimming leaves nothing of it.
pub proof fn lemma_blank_iff_trimmed_empty(s: Seq<char>)
    ensures
        blank(s) <==> trimmed(s).len() == 0,
{
    if blank(s) {
        assert(s.take(s.len() as int) =~= s);
        lemma_trim_start_skips(s, s.len() as int);
        assert(s.skip(s.len() as int) =~= Seq::<char>::empty());
    } else {
        let k = choose|k: int| 0 <= k < s.len() && !whitespace(s[k]);
        lemma_trimmed_keeps(s, k);
    }
}

/// A character that is not whitespace survives trimming.
pub proof fn lemma_trimmed_keeps(s: Seq<char>, k: int)
    requires
        0 <= k < s.len(),
        !whitespace(s[k]),
    ensures
        trimmed(s).contains(s[k]),
{
    lemma_trim_start_keeps(s, k);
    let t = trim_start(s);
    let j = choose|j: int| 0 <= j < t.len() && t[j] == s[k];
    lemma_trim_end_keeps(t, j);
}

/// A character that is not whitespace survives `trim_start`.
proof fn lemma_trim_start_keeps(s: Seq<char>, k: int)
    requires
        0 <= k < s.len(),
        !whitespace(s[k]),
    ensures
        trim_start(s).contains(s[k]),
    decreases s.len(),
{
    if whitespace(s.first()) {
        lemma_trim_start_keeps(s.drop_first(), k - 1);
    } else {
        assert(trim_start(s)[k] == s[k]);
    }
}

/// A character that is not whitespace survives `trim_end`.
proof fn lemma_trim_end_keeps(s: Seq<char>, k: int)
    requires
        0 <= k < s.len(),
        !whitespace(s[k]),
    ensures
        trim_end(s).contains(s[k]),
    decreases s.len(),
{
    if whitespace(s.last()) {
        lemma_trim_end_keeps(s.drop_last(), k);
    } else {
        assert(trim_end(s)[k] == s[k]);
    }
}

/// What `trim_start` yields is the end of the text, and it does not begin
/// with whitespace.
proof fn lemma_trim_start_is_suffix(s: Seq<char>)
    ensures
        trim_start(s).len() <= s.len(),
        trim_start(s) == s.skip(s.len() - trim_start(s).len()),
        trim_start(s).len() > 0 ==> !whitespace(trim_start(s).first()),
    decreases s.len(),
{
    if s.len() > 0 && whitespace(s.first()) {
        let rest = s.drop_first();
        lemma_trim_start_is_suffix(rest);
        assert(rest.skip(rest.len() - trim_start(rest).len()) =~= s.skip(
            s.len() - trim_start(s).len(),
        ));
    } else {
        assert(s.skip(0) =~= s);
    }
}

/// What `trim_end` yields is the beginning of the text, and it does not end
/// with whitespace.
proof fn lemma_trim_end_is_prefix(s: Seq<char>)
    ensures
        trim_end(s).len() <= s.len(),
        trim_end(s) == s.take(trim_end(s).len() as int),
        trim_end(s).len() > 0 ==> !whitespace(trim_end(s).last()),
    decreases s.len(),
{
    if s.len() > 0 && whitespace(s.last()) {
        let rest = s.drop_last();
        lemma_trim_end_is_prefix(rest);
        assert(rest.take(trim_end(rest).len() as int) =~= s.take(trim_end(s).len() as int));
    } else {
        assert(s.take(s.len() as int) =~= s);
    }
}

/// What trimming yields is a run of consecutive characters of the text that
/// neither begins nor ends with whitespace.
pub proof fn lemma_trimmed_is_bare(s: Seq<char>)
    ensures
        ({
            let from: int = s.len() - trim_start(s).len();
            &&& 0 <= from
            &&& from + trimmed(s).len() <= s.len()
            &&& trimmed(s) == s.subrange(from, from + trimmed(s).len())
        }),
        trimmed(s).len() > 0 ==> !whitespace(trimmed(s).first()) && !whitespace(
            trimmed(s).last(),
        ),
{
    let t = trim_start(s);
    lemma_trim_start_is_suffix(s);
    lemma_trim_end_is_prefix(t);
    let from: int = s.len() - t.len();
    assert(trimmed(s) =~= s.subrange(from, from + trimmed(s).len()));
}

/// Trimming what is already trimmed changes nothing.
pub proof fn lemma_trimmed_idempotent(s: Seq<char>)
    ensures
        trimmed(trimmed(s)) == trimmed(s),
{
    lemma_trimmed_is_bare(s);
}

/// What `str::to_lowercase` makes of a text: its lowercase equivalent under
/// the Unicode case mappings, which may differ in length from the text.
/// Nothing more is said of it here.
pub uninterp spec fn lowercase(s: Seq<char>) -> Seq<char>;

/// Assumed of `str::to_lowercase`, not proved: the string it returns is a
/// function of the characters of the text alone, the one named `lowercase`.
pub assume_specification[ str::to_lowercase ](s: &str) -> (lowered: String)
    ensures
        lowered@ == lowercase(s@),
;

/// Assumed of `String::push`, not proved: it appends the character to the end
/// of the string and leaves what was there as it was.
pub assume_specification[ String::push ](s: &mut String, c: char)
    ensures
        final(s)@ == old(s)@.push(c),
;

/// The characters of `s`, in order.
pub(crate) fn chars_of(s: &str) -> (chars: Vec<char>)
    ensures
        chars@ == s@,
{
    broadcast use group_string_axioms;

    let mut chars: Vec<char> = Vec::new();
    let iter = s.chars();
    for c in it: iter
        invariant
            it.seq() == s@,
            chars@ == s@.take(it.index()),
    {
        chars.push(c);
    }
    chars
}

/// The string made of `chars[from..to]`.
pub(crate) fn string_of(chars: &[char], from: usize, to: usize) -> (s: String)
    requires
        from <= to <= chars@.len(),
    ensures
        s@ == chars@.subrange(from as int, to as int),
{
    let mut s = String::new();
    let mut i: usize = from;
    while i < to
        invariant
            from <= i <= to <= chars@.len(),
            s@ == chars@.subrange(from as int, i as int),
        decreases to - i,
    {
        s.push(chars[i]);
        i += 1;
        assert(chars@.subrange(from as int, i as int) =~= chars@.subrange(
            from as int,
            i - 1,
        ).push(chars@[i - 1]));
    }
    s
}

/// Whether `c` has the Unicode `White_Space` property.
pub fn is_whitespace(c: char) -> (b: bool)
    ensures
        b == whitespace(c),
{
    let u: u32 = c as u32;
    (0x09 <= u && u <= 0x0D) || u == 0x20 || u == 0x85 || u == 0xA0 || u == 0x1680 || (0x2000
        <= u && u <= 0x200A) || u == 0x2028 || u == 0x2029 || u == 0x202F || u == 0x205F || u
        == 0x3000
}

/// Whether `s` is empty or holds whitespace only.
pub fn is_blank(s: &str) -> (b: bool)
    ensures
        b == blank(s@),
{
    broadcast use group_string_axioms;

    let iter = s.chars();
    for c in it: iter
        invariant
            it.seq() == s@,
            blank(s@.take(it.index())),
    {
        if !is_whitespace(c) {
            assert(!whitespace(s@[it.index()]));
            return false;
        }
        assert forall|i: int| 0 <= i < it.index() + 1 implies whitespace(
            #[trigger] s@.take(it.index() + 1)[i],
        ) by {
            if i < it.index() {
                assert(s@.take(it.index() + 1)[i] == s@.take(it.index())[i]);
            }
        }
    }
    assert(s@.take(s@.len() as int) =~= s@);
    true
}

/// `s` without its leading and trailing whitespace.
pub fn trim(s: &str) -> (t: String)
    ensures
        t@ == trimmed(s@),
{
    let chars = chars_of(s);
    let n: usize = chars.len();
    let mut start: usize = 0;
    while start < n && is_whitespace(chars[start])
        invariant
            n == chars@.len(),
            start <= n,
            blank(chars@.take(start as int)),
        decreases n - start,
    {
        start += 1;
        assert forall|i: int| 0 <= i < start implies whitespace(
            #[trigger] chars@.take(start as int)[i],
        ) by {
            if i < start - 1 {
                assert(chars@.take(start as int)[i] == chars@.take(start - 1)[i]);
            }
        }
    }
    let ghost rest = chars@.skip(start as int);
    proof {
        lemma_trim_start_skips(chars@, start as int);
        assert(trim_start(rest) == rest);
        assert(rest.skip(rest.len() as int) =~= Seq::<char>::empty());
    }
    let mut end: usize = n;
    while end > start && is_whitespace(chars[end - 1])
        invariant
            n == chars@.len(),
            start <= end <= n,
            rest == chars@.skip(start as int),
            blank(rest.skip(end - start)),
        decreases end,
    {
        end -= 1;
        assert forall|i: int| 0 <= i < n - end implies whitespace(
            #[trigger] rest.skip(end - start)[i],
        ) by {
            if i > 0 {
                assert(rest.skip(end - start)[i] == rest.skip(end - start + 1)[i - 1]);
            }
        }
    }
    proof {
        lemma_trim_end_skips(rest, end - start);
        let kept = rest.take(end - start);
        assert(trim_end(kept) == kept);
        assert(kept =~= chars@.subrange(start as int, end as int));
    }
    string_of(chars.as_slice(), start, end)
}

/// Whether `pattern` occurs in `s` starting at index `at`.
fn matches_at(s: &[char], pattern: &[char], at: usize) -> (b: bool)
    requires
        at + pattern@.len() <= s@.len(),
    ensures
        b == occurs_at(s@, pattern@, at as int),
{
    let n: usize = s.len();
    let m: usize = pattern.len();
    let mut j: usize = 0;
    while j < m
        invariant
            n == s@.len(),
            m == pattern@.len(),
            at + m <= n,
            j <= m,
            forall|k: int| 0 <= k < j ==> s@[at + k] == pattern@[k],
        decreases m - j,
    {
        if s[at + j] != pattern[j] {
            assert(s@.subrange(at as int, at + m)[j as int] != pattern@[j as int]);
            return false;
        }
        j += 1;
    }
    assert(s@.subrange(at as int, at + m) =~= pattern@);
    true
}

/// Whether `pattern` occurs somewhere in `s`.
pub fn contains(s: &str, pattern: &str) -> (b: bool)
    ensures
        b == has_substring(s@, pattern@),
{
    let text = chars_of(s);
    let wanted = chars_of(pattern);
    let n: usize = text.len();
    let m: usize = wanted.len();
    if m > n {
        return false;
    }
    let last: usize = n - m;
    let mut at: usize = 0;
    loop
        invariant
            text@ == s@,
            wanted@ == pattern@,
            n == text@.len(),
            m == wanted@.len(),
            last == n - m,
            at <= last,
            forall|k: int| 0 <= k < at ==> !occurs_at(text@, wanted@, k),
        decreases last - at,
    {
        if matches_at(text.as_slice(), wanted.as_slice(), at) {
            assert(occurs_at(text@, wanted@, at as int));
            return true;
        }
        if at == last {
            return false;
        }
        at += 1;
    }
}

/// Whether the character `c` occurs in `s`.
pub fn contains_char(s: &str, c: char) -> (b: bool)
    ensures
        b == s@.contains(c),
{
    broadcast use group_string_axioms;

    let iter = s.chars();
    for x in it: iter
        invariant
            it.seq() == s@,
            !s@.take(it.index()).contains(c),
    {
        if x == c {
            assert(s@[it.index()] == c);
            return true;
        }
        assert forall|i: int| 0 <= i < it.index() + 1 implies #[trigger] s@.take(
            it.index() + 1,
        )[i] != c by {
            if i < it.index() {
                assert(s@.take(it.index())[i] == s@.take(it.index() + 1)[i]);
            }
        }
    }
    assert(s@.take(s@.len() as int) =~= s@);
    false
}

/// `s` with every occurrence of the character `c` removed.
pub fn remove_char(s: &str, c: char) -> (kept: String)
    ensures
        kept@ == without_char(s@, c),
{
    broadcast use group_string_axioms;

    let mut kept = String::new();
    let iter = s.chars();
    proof {
        reveal(Seq::filter);
    }
    for x in it: iter
        invariant
            it.seq() == s@,
            kept@ == without_char(s@.take(it.index()), c),
    {
        if x != c {
            kept.push(x);
        }
        proof {
            s@.take(it.index()).lemma_filter_push(x, other_than(c));
            assert(s@.take(it.index() + 1) =~= s@.take(it.index()).push(x));
        }
    }
    assert(s@.take(s@.len() as int) =~= s@);
    kept
}

/// `line` without one trailing line feed, and then without one trailing
/// carriage return.
pub fn strip_line_ending(line: &str) -> (stripped: String)
    ensures
        stripped@ == without_line_ending(line@),
{
    let chars = chars_of(line);
    let mut end: usize = chars.len();
    if end > 0 && chars[end - 1] == '\n' {
        end -= 1;
    }
    if end > 0 && chars[end - 1] == '\r' {
        end -= 1;
    }
    assert(chars@.subrange(0, end as int) =~= without_line_ending(chars@));
    string_of(chars.as_slice(), 0, end)
}

} // verus!
