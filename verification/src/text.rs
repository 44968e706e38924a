//! Text as sequences of characters: the small vocabulary of trimming,
//! splitting and joining that the agent's parsers are built from.
//!
//! Every contract here is stated over `Seq<char>`, the view of `str` and
//! `String`; the executable functions work on `Vec<char>` and convert at the
//! edges.

use vstd::prelude::*;

verus! {

/// `String::push` of the standard library appends one character.
pub assume_specification[ String::push ](s: &mut String, c: char)
    ensures
        final(s)@ == old(s)@.push(c),
;

/// What `{:?}` writes for a string: the text between double quotes, with the
/// characters escaped that Rust escapes in a string literal.
pub uninterp spec fn debug_text_of(s: Seq<char>) -> Seq<char>;

/// Formats `s` with the `Debug` implementation of `str` in the standard
/// library. The contract only names the outcome.
#[verifier::external_body]
pub(crate) fn debug_quoted(s: &str) -> (r: String)
    ensures
        r@ == debug_text_of(s@),
{
    format!("{:?}", s)
}

/// The characters that count as whitespace: the code points with the Unicode
/// property `White_Space`.
pub open spec fn is_whitespace(c: char) -> bool {
    let n = c as u32;
    ||| 0x09 <= n <= 0x0D
    ||| n == 0x20
    ||| n == 0x85
    ||| n == 0xA0
    ||| n == 0x1680
    ||| 0x2000 <= n <= 0x200A
    ||| n == 0x2028
    ||| n == 0x2029
    ||| n == 0x202F
    ||| n == 0x205F
    ||| n == 0x3000
}

/// What is stripped from the ends of a text.
#[derive(Clone, Copy, Debug)]
pub enum Strip {
    /// Any whitespace character.
    Whitespace,
    /// One given character.
    Char(char),
}

impl Strip {
    /// Whether `c` is among the characters that `self` strips.
    pub open spec fn takes(self, c: char) -> bool {
        match self {
            Strip::Whitespace => is_whitespace(c),
            Strip::Char(d) => c == d,
        }
    }

    /// Executable form of [`Strip::takes`].
    pub fn test(&self, c: char) -> (b: bool)
        ensures
            b == self.takes(c),
    {
        match self {
            Strip::Whitespace => {
                let n: u32 = c as u32;
                (0x09 <= n && n <= 0x0D) || n == 0x20 || n == 0x85 || n == 0xA0 || n == 0x1680 || (
                0x2000 <= n && n <= 0x200A) || n == 0x2028 || n == 0x2029 || n == 0x202F || n
                    == 0x205F || n == 0x3000
            },
            Strip::Char(d) => c == *d,
        }
    }
}

/// `s` without its longest prefix of characters that `what` takes.
pub open spec fn strip_start(s: Seq<char>, what: Strip) -> Seq<char>
    decreases s.len(),
{
    if s.len() > 0 && what.takes(s[0]) {
        strip_start(s.subrange(1, s.len() as int), what)
    } else {
        s
    }
}

/// `s` without its longest suffix of characters that `what` takes.
pub open spec fn strip_end(s: Seq<char>, what: Strip) -> Seq<char>
    decreases s.len(),
{
    if s.len() > 0 && what.takes(s[s.len() - 1]) {
        strip_end(s.subrange(0, s.len() - 1), what)
    } else {
        s
    }
}

/// `s` stripped at both ends.
pub open spec fn strip(s: Seq<char>, what: Strip) -> Seq<char> {
    strip_end(strip_start(s, what), what)
}

/// `s` without surrounding whitespace.
pub open spec fn trim(s: Seq<char>) -> Seq<char> {
    strip(s, Strip::Whitespace)
}

/// `s` without the copies of `c` at its two ends.
pub open spec fn trim_matches(s: Seq<char>, c: char) -> Seq<char> {
    strip(s, Strip::Char(c))
}

/// Whether `s` begins with `prefix`.
pub open spec fn starts_with(s: Seq<char>, prefix: Seq<char>) -> bool {
    prefix.len() <= s.len() && s.subrange(0, prefix.len() as int) == prefix
}

/// Whether `s` ends with `suffix`.
pub open spec fn ends_with(s: Seq<char>, suffix: Seq<char>) -> bool {
    suffix.len() <= s.len() && s.subrange(s.len() - suffix.len(), s.len() as int) == suffix
}

/// The index of the first `c` in `s`, or `s.len()` where there is none.
pub open spec fn index_of(s: Seq<char>, c: char) -> int
    decreases s.len(),
{
    if s.len() == 0 || s[0] == c {
        0
    } else {
        1 + index_of(s.subrange(1, s.len() as int), c)
    }
}

/// The pieces of `s` between the occurrences of `sep`. A text without `sep`,
/// the empty one too, is one piece.
pub open spec fn split(s: Seq<char>, sep: char) -> Seq<Seq<char>>
    decreases s.len(),
{
    let i = index_of(s, sep);
    if 0 <= i < s.len() {
        seq![s.subrange(0, i)] + split(s.subrange(i + 1, s.len() as int), sep)
    } else {
        seq![s]
    }
}

/// The `parts` written one after the other, `sep` between each two.
pub open spec fn join(parts: Seq<Seq<char>>, sep: Seq<char>) -> Seq<char>
    decreases parts.len(),
{
    if parts.len() == 0 {
        Seq::empty()
    } else if parts.len() == 1 {
        parts[0]
    } else {
        join(parts.drop_last(), sep) + sep + parts.last()
    }
}

/// Where the first `n` characters are stripped and the next is not, or the
/// text ends, `strip_start` leaves what follows them.
pub proof fn lemma_strip_start(s: Seq<char>, what: Strip, n: int)
    requires
        0 <= n <= s.len(),
        forall|k: int| 0 <= k < n ==> what.takes(#[trigger] s[k]),
        n < s.len() ==> !what.takes(s[n]),
    ensures
        strip_start(s, what) == s.subrange(n, s.len() as int),
    decreases n,
{
    if n == 0 {
        assert(s.subrange(0, s.len() as int) =~= s);
    } else {
        let t = s.subrange(1, s.len() as int);
        assert(what.takes(s[0]));
        assert forall|k: int| 0 <= k < n - 1 implies what.takes(#[trigger] t[k]) by {
            assert(t[k] == s[k + 1]);
        }
        lemma_strip_start(t, what, n - 1);
        assert(t.subrange(n - 1, t.len() as int) =~= s.subrange(n, s.len() as int));
    }
}

/// Where the characters from `n` on are stripped and the one before is not,
/// or there is none before, `strip_end` leaves the first `n`.
pub proof fn lemma_strip_end(s: Seq<char>, what: Strip, n: int)
    requires
        0 <= n <= s.len(),
        forall|k: int| n <= k < s.len() ==> what.takes(#[trigger] s[k]),
        n > 0 ==> !what.takes(s[n - 1]),
    ensures
        strip_end(s, what) == s.subrange(0, n),
    decreases s.len() - n,
{
    if n == s.len() {
        assert(s.subrange(0, s.len() as int) =~= s);
    } else {
        let t = s.subrange(0, s.len() - 1);
        assert(what.takes(s[s.len() - 1]));
        assert forall|k: int| n <= k < t.len() implies what.takes(#[trigger] t[k]) by {
            assert(t[k] == s[k]);
        }
        lemma_strip_end(t, what, n);
        assert(t.subrange(0, n) =~= s.subrange(0, n));
    }
}

/// Where no `c` stands before `k`, and `c` stands at `k` or the text ends
/// there, `k` is the first index of `c`.
pub proof fn lemma_index_of(s: Seq<char>, c: char, k: int)
    requires
        0 <= k <= s.len(),
        forall|j: int| 0 <= j < k ==> #[trigger] s[j] != c,
        k < s.len() ==> s[k] == c,
    ensures
        index_of(s, c) == k,
    decreases k,
{
    if k > 0 {
        let t = s.subrange(1, s.len() as int);
        assert(s[0] != c);
        assert forall|j: int| 0 <= j < k - 1 implies #[trigger] t[j] != c by {
            assert(t[j] == s[j + 1]);
        }
        lemma_index_of(t, c, k - 1);
    }
}

/// The characters of `s`.
pub fn chars_of(s: &str) -> (v: Vec<char>)
    ensures
        v@ == s@,
{
    let mut v: Vec<char> = Vec::new();
    for c in it: s.chars()
        invariant
            v@ == it.seq().take(it.index() as int),
            it.seq() == s@,
    {
        v.push(c);
    }
    v
}

/// The string made of the characters `v[from..to]`.
pub fn string_of(v: &Vec<char>, from: usize, to: usize) -> (s: String)
    requires
        from <= to <= v.len(),
    ensures
        s@ == v@.subrange(from as int, to as int),
{
    let mut s = String::new();
    let mut i: usize = from;
    while i < to
        invariant
            from <= i <= to <= v.len(),
            s@ == v@.subrange(from as int, i as int),
        decreases to - i,
    {
        s.push(v[i]);
        assert(v@.subrange(from as int, i as int).push(v@[i as int]) =~= v@.subrange(
            from as int,
            i + 1,
        ));
        i = i + 1;
    }
    s
}

/// Whether `a` and `b` hold the same characters.
pub fn same_text(a: &str, b: &str) -> (r: bool)
    ensures
        r == (a@ == b@),
{
    let x = chars_of(a);
    let y = chars_of(b);
    if x.len() != y.len() {
        return false;
    }
    let mut i: usize = 0;
    while i < x.len()
        invariant
            i <= x.len(),
            x.len() == y.len(),
            x@ == a@,
            y@ == b@,
            forall|k: int| 0 <= k < i ==> x@[k] == y@[k],
        decreases x.len() - i,
    {
        if x[i] != y[i] {
            return false;
        }
        i = i + 1;
    }
    assert(x@ =~= y@);
    true
}

/// The bounds of `v[from..to]` stripped at both ends.
pub fn strip_bounds(v: &Vec<char>, from: usize, to: usize, what: Strip) -> (r: (usize, usize))
    requires
        from <= to <= v.len(),
    ensures
        from <= r.0 <= r.1 <= to,
        v@.subrange(r.0 as int, r.1 as int) == strip(v@.subrange(from as int, to as int), what),
{
    let ghost s = v@.subrange(from as int, to as int);
    let mut a: usize = from;
    while a < to && what.test(v[a])
        invariant
            from <= a <= to <= v.len(),
            forall|k: int| from <= k < a ==> what.takes(#[trigger] v@[k]),
        decreases to - a,
    {
        a = a + 1;
    }
    let mut b: usize = to;
    while b > a && what.test(v[b - 1])
        invariant
            from <= a <= b <= to <= v.len(),
            forall|k: int| b <= k < to ==> what.takes(#[trigger] v@[k]),
        decreases b,
    {
        b = b - 1;
    }
    proof {
        assert forall|k: int| 0 <= k < a - from implies what.takes(#[trigger] s[k]) by {
            assert(s[k] == v@[from + k]);
        }
        lemma_strip_start(s, what, a - from);
        let t = s.subrange(a - from, s.len() as int);
        assert(t =~= v@.subrange(a as int, to as int));
        assert forall|k: int| b - a <= k < t.len() implies what.takes(#[trigger] t[k]) by {
            assert(t[k] == v@[a + k]);
        }
        if b > a {
            assert(t[b - a - 1] == v@[b - 1]);
        }
        lemma_strip_end(t, what, b - a);
        assert(t.subrange(0, b - a) =~= v@.subrange(a as int, b as int));
    }
    (a, b)
}

/// `s` stripped at both ends.
pub fn strip_text(s: &str, what: Strip) -> (r: String)
    ensures
        r@ == strip(s@, what),
{
    let v = chars_of(s);
    let (a, b) = strip_bounds(&v, 0, v.len(), what);
    assert(v@.subrange(0, v.len() as int) =~= v@);
    string_of(&v, a, b)
}

/// Whether `v[from..to]` begins with `prefix`.
pub fn starts_with_at(v: &Vec<char>, from: usize, to: usize, prefix: &Vec<char>) -> (r: bool)
    requires
        from <= to <= v.len(),
    ensures
        r == starts_with(v@.subrange(from as int, to as int), prefix@),
{
    let ghost s = v@.subrange(from as int, to as int);
    if prefix.len() > to - from {
        return false;
    }
    let mut i: usize = 0;
    while i < prefix.len()
        invariant
            i <= prefix.len() <= to - from,
            from <= to <= v.len(),
            s == v@.subrange(from as int, to as int),
            forall|k: int| 0 <= k < i ==> s[k] == prefix@[k],
        decreases prefix.len() - i,
    {
        if v[from + i] != prefix[i] {
            assert(s.subrange(0, prefix.len() as int)[i as int] == s[i as int]);
            return false;
        }
        i = i + 1;
    }
    assert(s.subrange(0, prefix.len() as int) =~= prefix@);
    true
}

/// Whether `v[from..to]` ends with `suffix`.
pub fn ends_with_at(v: &Vec<char>, from: usize, to: usize, suffix: &Vec<char>) -> (r: bool)
    requires
        from <= to <= v.len(),
    ensures
        r == ends_with(v@.subrange(from as int, to as int), suffix@),
{
    let ghost s = v@.subrange(from as int, to as int);
    if suffix.len() > to - from {
        return false;
    }
    let base: usize = to - suffix.len();
    let mut i: usize = 0;
    while i < suffix.len()
        invariant
            i <= suffix.len() <= to - from,
            base == to - suffix.len(),
            from <= to <= v.len(),
            s == v@.subrange(from as int, to as int),
            forall|k: int| 0 <= k < i ==> s[s.len() - suffix.len() + k] == suffix@[k],
        decreases suffix.len() - i,
    {
        if v[base + i] != suffix[i] {
            assert(s.subrange(s.len() - suffix.len(), s.len() as int)[i as int] == s[s.len()
                - suffix.len() + i]);
            return false;
        }
        i = i + 1;
    }
    assert(s.subrange(s.len() - suffix.len(), s.len() as int) =~= suffix@);
    true
}

/// The pieces of `s` between the occurrences of `sep`.
pub fn split_text(s: &str, sep: char) -> (r: Vec<String>)
    ensures
        r.deep_view() == split(s@, sep),
{
    let v = chars_of(s);
    let mut out: Vec<String> = Vec::new();
    let mut start: usize = 0;
    let mut i: usize = 0;
    assert(v@.subrange(0, v.len() as int) =~= v@);
    assert(out.deep_view() =~= Seq::<Seq<char>>::empty());
    while i < v.len()
        invariant
            start <= i <= v.len(),
            v@ == s@,
            forall|k: int| start <= k < i ==> v@[k] != sep,
            out.deep_view() + split(v@.subrange(start as int, v.len() as int), sep) == split(
                v@,
                sep,
            ),
        decreases v.len() - i,
    {
        if v[i] == sep {
            let piece = string_of(&v, start, i);
            proof {
                let rest = v@.subrange(start as int, v.len() as int);
                assert forall|j: int| 0 <= j < i - start implies #[trigger] rest[j] != sep by {
                    assert(rest[j] == v@[start + j]);
                }
                lemma_index_of(rest, sep, i - start);
                assert(rest.subrange(0, i - start) =~= v@.subrange(start as int, i as int));
                assert(rest.subrange(i - start + 1, rest.len() as int) =~= v@.subrange(
                    i + 1,
                    v.len() as int,
                ));
            }
            let ghost before = out.deep_view();
            out.push(piece);
            assert(out.deep_view() =~= before.push(piece@));
            assert(before.push(piece@) + split(v@.subrange(i + 1, v.len() as int), sep)
                =~= before + (seq![piece@] + split(v@.subrange(i + 1, v.len() as int), sep)));
            start = i + 1;
        }
        i = i + 1;
    }
    let piece = string_of(&v, start, v.len());
    proof {
        let rest = v@.subrange(start as int, v.len() as int);
        assert forall|j: int| 0 <= j < rest.len() implies #[trigger] rest[j] != sep by {
            assert(rest[j] == v@[start + j]);
        }
        lemma_index_of(rest, sep, rest.len() as int);
    }
    let ghost before = out.deep_view();
    out.push(piece);
    assert(out.deep_view() =~= before.push(piece@));
    assert(before.push(piece@) =~= before + seq![piece@]);
    out
}

/// The `parts` written one after the other, `sep` between each two.
pub fn join_text(parts: &Vec<String>, sep: &str) -> (r: String)
    ensures
        r@ == join(parts.deep_view(), sep@),
{
    let mut out = String::new();
    let mut i: usize = 0;
    assert(parts.deep_view().take(0) =~= Seq::<Seq<char>>::empty());
    while i < parts.len()
        invariant
            i <= parts.len(),
            out@ == join(parts.deep_view().take(i as int), sep@),
        decreases parts.len() - i,
    {
        let ghost done = parts.deep_view().take(i as int);
        let ghost next = parts.deep_view().take(i + 1);
        proof {
            assert(next.drop_last() =~= done);
            assert(next.last() == parts@[i as int]@);
        }
        if i > 0 {
            out.append(sep);
        } else {
            assert(out@ + parts@[i as int]@ =~= parts@[i as int]@);
        }
        out.append(parts[i].as_str());
        i = i + 1;
    }
    assert(parts.deep_view().take(parts.len() as int) =~= parts.deep_view());
    out
}

} // verus!
