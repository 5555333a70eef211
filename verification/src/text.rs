//! Character-level operations on text, each with its mathematical definition.
//!
//! Text is modelled as a sequence of Unicode scalar values (`Seq<char>`), the
//! view of `str` and `String`.

use vstd::prelude::*;
use vstd::string::StringExecFns;

verus! {

/// A set of characters that can be stripped from the ends of a text.
#[derive(Clone, Copy, Debug)]
pub enum CharClass {
    /// The characters with the Unicode property `White_Space`.
    Whitespace,
    /// One given character.
    Exactly(char),
}

/// Whether `c` has the Unicode property `White_Space`.
pub open spec fn is_whitespace(c: char) -> bool {
    let n = c as u32;
    ||| 0x09 <= n <= 0x0D
    ||| n == 0x20
    ||| n == 0x85
    ||| n == 0xA0
    ||| n == 0x1680
    ||| 0x2000 <= n <= 0x200A
    ||| n == 0x2028
    ||| n == 0x2029
    ||| n == 0x202F
    ||| n == 0x205F
    ||| n == 0x3000
}

impl CharClass {
    /// Whether `c` belongs to the class.
    pub open spec fn holds(self, c: char) -> bool {
        match self {
            CharClass::Whitespace => is_whitespace(c),
            CharClass::Exactly(x) => c == x,
        }
    }

    /// Tests whether `c` belongs to the class.
    pub fn test(&self, c: char) -> (r: bool)
        ensures
            r == self.holds(c),
    {
        match self {
            CharClass::Whitespace => {
                let n: u32 = c as u32;
                (0x09 <= n && n <= 0x0D) || n == 0x20 || n == 0x85 || n == 0xA0 || n == 0x1680 || (
                0x2000 <= n && n <= 0x200A) || n == 0x2028 || n == 0x2029 || n == 0x202F || n
                    == 0x205F || n == 0x3000
            },
            CharClass::Exactly(x) => c == *x,
        }
    }
}

/// The number of characters at the start of `s` that belong to `class`,
/// counted up to the first one that does not.
pub open spec fn leading_run(s: Seq<char>, class: CharClass) -> nat
    decreases s.len(),
{
    if s.len() > 0 && class.holds(s.first()) {
        1 + leading_run(s.drop_first(), class)
    } else {
        0
    }
}

/// The number of characters at the end of `s` that belong to `class`,
/// counted back to the last one that does not.
pub open spec fn trailing_run(s: Seq<char>, class: CharClass) -> nat
    decreases s.len(),
{
    if s.len() > 0 && class.holds(s.last()) {
        1 + trailing_run(s.drop_last(), class)
    } else {
        0
    }
}

/// `s` without the characters of `class` at its start.
pub open spec fn strip_start(s: Seq<char>, class: CharClass) -> Seq<char> {
    s.skip(leading_run(s, class) as int)
}

/// `s` without the characters of `class` at its end.
pub open spec fn strip_end(s: Seq<char>, class: CharClass) -> Seq<char> {
    s.take(s.len() - trailing_run(s, class))
}

/// `s` without leading whitespace.
pub open spec fn trim_start(s: Seq<char>) -> Seq<char> {
    strip_start(s, CharClass::Whitespace)
}

/// `s` without trailing whitespace.
pub open spec fn trim_end(s: Seq<char>) -> Seq<char> {
    strip_end(s, CharClass::Whitespace)
}

/// `s` without leading and trailing whitespace.
pub open spec fn trim(s: Seq<char>) -> Seq<char> {
    trim_end(trim_start(s))
}

/// Whether `pattern` occurs in `s` as a contiguous run of characters.
pub open spec fn contains(s: Seq<char>, pattern: Seq<char>) -> bool {
    exists|i: int| occurs_at(s, pattern, i)
}

/// Whether `pattern` occurs in `s` starting at index `i`.
pub open spec fn occurs_at(s: Seq<char>, pattern: Seq<char>, i: int) -> bool {
    0 <= i && i + pattern.len() <= s.len() && s.subrange(i, i + pattern.len()) == pattern
}

/// A leading run is never longer than the text.
pub proof fn lemma_leading_run_bound(s: Seq<char>, class: CharClass)
    ensures
        leading_run(s, class) <= s.len(),
    decreases s.len(),
{
    if s.len() > 0 && class.holds(s.first()) {
        lemma_leading_run_bound(s.drop_first(), class);
    }
}

/// A trailing run is never longer than the text.
pub proof fn lemma_trailing_run_bound(s: Seq<char>, class: CharClass)
    ensures
        trailing_run(s, class) <= s.len(),
    decreases s.len(),
{
    if s.len() > 0 && class.holds(s.last()) {
        lemma_trailing_run_bound(s.drop_last(), class);
    }
}

/// The leading run is `k` when the first `k` characters belong to the class
/// and the next one, if any, does not.
pub proof fn lemma_leading_run_is(s: Seq<char>, class: CharClass, k: int)
    requires
        0 <= k <= s.len(),
        forall|i: int| 0 <= i < k ==> class.holds(#[trigger] s[i]),
        k < s.len() ==> !class.holds(s[k]),
    ensures
        leading_run(s, class) == k,
    decreases k,
{
    if k > 0 {
        let rest = s.drop_first();
        assert forall|i: int| 0 <= i < k - 1 implies class.holds(#[trigger] rest[i]) by {
            assert(rest[i] == s[i + 1]);
        }
        if k - 1 < rest.len() {
            assert(rest[k - 1] == s[k]);
        }
        lemma_leading_run_is(rest, class, k - 1);
    }
}

/// The trailing run is `k` when the last `k` characters belong to the class
/// and the one before them, if any, does not.
pub proof fn lemma_trailing_run_is(s: Seq<char>, class: CharClass, k: int)
    requires
        0 <= k <= s.len(),
        forall|i: int| s.len() - k <= i < s.len() ==> class.holds(#[trigger] s[i]),
        k < s.len() ==> !class.holds(s[s.len() - k - 1]),
    ensures
        trailing_run(s, class) == k,
    decreases k,
{
    if k > 0 {
        let rest = s.drop_last();
        assert forall|i: int| rest.len() - (k - 1) <= i < rest.len() implies class.holds(
            #[trigger] rest[i],
        ) by {
            assert(rest[i] == s[i]);
        }
        if k - 1 < rest.len() {
            assert(rest[rest.len() - (k - 1) - 1] == s[s.len() - k - 1]);
        }
        lemma_trailing_run_is(rest, class, k - 1);
    }
}

/// What is left after the leading run does not start with a character of
/// the class.
pub proof fn lemma_strip_start_stops(s: Seq<char>, class: CharClass)
    ensures
        leading_run(s, class) <= s.len(),
        strip_start(s, class).len() > 0 ==> !class.holds(strip_start(s, class).first()),
    decreases s.len(),
{
    if s.len() > 0 && class.holds(s.first()) {
        lemma_strip_start_stops(s.drop_first(), class);
        assert(strip_start(s, class) =~= strip_start(s.drop_first(), class));
    } else {
        assert(strip_start(s, class) =~= s);
    }
}

/// What is left before the trailing run does not end with a character of the
/// class.
pub proof fn lemma_strip_end_stops(s: Seq<char>, class: CharClass)
    ensures
        trailing_run(s, class) <= s.len(),
        strip_end(s, class).len() > 0 ==> !class.holds(strip_end(s, class).last()),
    decreases s.len(),
{
    if s.len() > 0 && class.holds(s.last()) {
        lemma_strip_end_stops(s.drop_last(), class);
        assert(strip_end(s, class) =~= strip_end(s.drop_last(), class));
    } else {
        assert(strip_end(s, class) =~= s);
    }
}

/// The characters of `s`, in order.
pub fn chars_of(s: &str) -> (chars: Vec<char>)
    ensures
        chars@ == s@,
{
    let mut chars: Vec<char> = Vec::new();
    for c in it: s.chars()
        invariant
            it.seq() == s@,
            chars@ == it.seq().take(it.index() as int),
    {
        chars.push(c);
    }
    chars
}

/// The length of the leading run of `class` in `chars[from..to]`.
pub fn leading_run_in(chars: &Vec<char>, from: usize, to: usize, class: CharClass) -> (k: usize)
    requires
        from <= to <= chars.len(),
    ensures
        k == leading_run(chars@.subrange(from as int, to as int), class),
        from + k <= to,
{
    let mut i: usize = from;
    while i < to && class.test(chars[i])
        invariant
            from <= i <= to <= chars.len(),
            forall|j: int| from <= j < i ==> class.holds(#[trigger] chars@[j]),
        decreases to - i,
    {
        i = i + 1;
    }
    proof {
        let window = chars@.subrange(from as int, to as int);
        assert forall|j: int| 0 <= j < i - from implies class.holds(#[trigger] window[j]) by {
            assert(window[j] == chars@[from + j]);
        }
        lemma_leading_run_is(window, class, i - from);
    }
    i - from
}

/// The length of the trailing run of `class` in `chars[from..to]`.
pub fn trailing_run_in(chars: &Vec<char>, from: usize, to: usize, class: CharClass) -> (k: usize)
    requires
        from <= to <= chars.len(),
    ensures
        k == trailing_run(chars@.subrange(from as int, to as int), class),
        from + k <= to,
{
    let mut i: usize = to;
    while i > from && class.test(chars[i - 1])
        invariant
            from <= i <= to <= chars.len(),
            forall|j: int| i <= j < to ==> class.holds(#[trigger] chars@[j]),
        decreases i - from,
    {
        i = i - 1;
    }
    proof {
        let window = chars@.subrange(from as int, to as int);
        assert forall|j: int| window.len() - (to - i) <= j < window.len() implies class.holds(
            #[trigger] window[j],
        ) by {
            assert(window[j] == chars@[from + j]);
        }
        lemma_trailing_run_is(window, class, to - i);
    }
    to - i
}

/// Whether `pattern` occurs in `chars[from..to]` starting at offset `at` of
/// that window.
pub fn occurs_in_at(chars: &Vec<char>, from: usize, to: usize, pattern: &Vec<char>, at: usize) -> (r:
    bool)
    requires
        from <= to <= chars.len(),
    ensures
        r == occurs_at(chars@.subrange(from as int, to as int), pattern@, at as int),
{
    let n: usize = to - from;
    let m: usize = pattern.len();
    if at > n || m > n - at {
        return false;
    }
    let ghost window = chars@.subrange(from as int, to as int);
    let mut j: usize = 0;
    while j < m
        invariant
            from <= to <= chars.len(),
            n == to - from,
            m == pattern.len(),
            at <= n,
            m <= n - at,
            0 <= j <= m,
            window == chars@.subrange(from as int, to as int),
            forall|k: int| 0 <= k < j ==> #[trigger] window[at + k] == pattern@[k],
        decreases m - j,
    {
        if chars[from + at + j] != pattern[j] {
            proof {
                assert(window[at + j] == chars@[from + at + j]);
                if occurs_at(window, pattern@, at as int) {
                    assert(window.subrange(at as int, at + m)[j as int] == pattern@[j as int]);
                }
            }
            return false;
        }
        proof {
            assert(window[at + j] == chars@[from + at + j]);
        }
        j = j + 1;
    }
    proof {
        let found = window.subrange(at as int, at + m);
        assert forall|k: int| 0 <= k < m implies found[k] == pattern@[k] by {
            assert(found[k] == window[at + k]);
        }
        assert(found =~= pattern@);
    }
    true
}

/// Whether `pattern` occurs anywhere in `chars[from..to]`.
pub fn contains_in(chars: &Vec<char>, from: usize, to: usize, pattern: &Vec<char>) -> (r: bool)
    requires
        from <= to <= chars.len(),
    ensures
        r == contains(chars@.subrange(from as int, to as int), pattern@),
{
    let n: usize = to - from;
    let m: usize = pattern.len();
    let ghost window = chars@.subrange(from as int, to as int);
    if m > n {
        proof {
            assert forall|i: int| !occurs_at(window, pattern@, i) by {}
        }
        return false;
    }
    let last: usize = n - m;
    let mut i: usize = 0;
    while i < last
        invariant
            from <= to <= chars.len(),
            n == to - from,
            m == pattern.len(),
            last == n - m,
            0 <= i <= last,
            window == chars@.subrange(from as int, to as int),
            forall|k: int| 0 <= k < i ==> !occurs_at(window, pattern@, k),
        decreases last - i,
    {
        if occurs_in_at(chars, from, to, pattern, i) {
            return true;
        }
        i = i + 1;
    }
    let at_last = occurs_in_at(chars, from, to, pattern, last);
    proof {
        if !at_last {
            assert forall|k: int| !occurs_at(window, pattern@, k) by {
                if 0 <= k && k + m <= n {
                    assert(k <= last);
                }
            }
        }
    }
    at_last
}

/// Whether the two texts are equal, character for character.
pub fn same_text(a: &str, b: &str) -> (r: bool)
    ensures
        r == (a@ == b@),
{
    let x = a.as_bytes();
    let y = b.as_bytes();
    proof {
        vstd::utf8::encode_utf8_decode_utf8(a@);
        vstd::utf8::encode_utf8_decode_utf8(b@);
    }
    if x.len() != y.len() {
        return false;
    }
    let mut i: usize = 0;
    while i < x.len()
        invariant
            x.len() == y.len(),
            0 <= i <= x.len(),
            x@ == vstd::utf8::encode_utf8(a@),
            y@ == vstd::utf8::encode_utf8(b@),
            vstd::utf8::decode_utf8(x@) == a@,
            vstd::utf8::decode_utf8(y@) == b@,
            forall|k: int| 0 <= k < i ==> x@[k] == y@[k],
        decreases x.len() - i,
    {
        if x[i] != y[i] {
            return false;
        }
        i = i + 1;
    }
    proof {
        assert(x@ =~= y@);
    }
    true
}

/// `a` followed by `b`.
pub fn append_text(a: &str, b: &str) -> (r: String)
    ensures
        r@ == a@ + b@,
{
    let mut s = String::from_str(a);
    s.append(b);
    s
}

} // verus!
