//! Character-level text helpers shared by the parsers and the filter.
use vstd::prelude::*;
use vstd::std_specs::iter::IteratorSpec;
use vstd::string::StringSliceAdditionalSpecFns;
use vstd::utf8::valid_utf8;

verus! {

/// The characters of each string in a list.
pub open spec fn strings_view(v: Seq<String>) -> Seq<Seq<char>> {
    v.map_values(|s: String| s@)
}

/// Collects the characters of a string slice.
pub fn chars_of(s: &str) -> (v: Vec<char>)
    ensures
        v@ == s@,
{
    let mut it = s.chars();
    let mut v: Vec<char> = Vec::new();
    loop
        invariant
            it.remaining() == s@.skip(v@.len() as int),
            v@ == s@.take(v@.len() as int),
            v@.len() <= s@.len(),
            it.decrease() is Some,
        ensures
            v@ == s@,
        decreases it.decrease()->0,
    {
        match it.next() {
            Some(c) => {
                v.push(c);
            },
            None => {
                assert(s@.skip(v@.len() as int).len() == 0);
                assert(v@ =~= s@);
                break;
            },
        }
    }
    v
}

/// Builds a `String` from the characters of `cs[lo..hi]` with std's `FromIterator<&char>`
/// for `String` (`collect`). Claimed of std: the string holds exactly those characters, in
/// order.
#[verifier::external_body]
pub(crate) fn string_from_chars(cs: &[char], lo: usize, hi: usize) -> (s: String)
    requires
        lo <= hi <= cs@.len(),
    ensures
        s@ == cs@.subrange(lo as int, hi as int),
{
    cs[lo..hi].iter().collect()
}

/// What `str::to_lowercase` returns for a string with the characters `s` that holds a
/// character beyond ASCII (each character mapped by the Unicode `Lowercase` mapping, with the
/// final-sigma rule).
pub uninterp spec fn unicode_lowercase(s: Seq<char>) -> Seq<char>;

/// Whether every character of `s` is ASCII.
pub open spec fn all_ascii(s: Seq<char>) -> bool {
    forall|i: int| 0 <= i < s.len() ==> (#[trigger] s[i] as u32) < 128
}

/// An ASCII upper-case letter in lower case; any other character as it is.
pub open spec fn ascii_lower_char(c: char) -> char {
    if 'A' <= c && c <= 'Z' {
        ((c as u8) + 32) as u8 as char
    } else {
        c
    }
}

/// The characters of `s` with the ASCII upper-case letters in lower case.
pub open spec fn ascii_lowercase(s: Seq<char>) -> Seq<char> {
    s.map_values(|c: char| ascii_lower_char(c))
}

/// What `str::to_lowercase` returns for a string with the characters `s`: on ASCII text, the
/// letters `A` to `Z` become `a` to `z` and nothing else changes.
pub open spec fn lowercase(s: Seq<char>) -> Seq<char> {
    if all_ascii(s) {
        ascii_lowercase(s)
    } else {
        unicode_lowercase(s)
    }
}

/// Calls `str::to_lowercase` on the characters `cs[lo..hi]`.
/// The contract claims of std: on ASCII text the result maps `A` to `Z` to `a` to `z` and
/// keeps every other character (the Unicode lower-case mapping agrees with the ASCII one
/// there); on other text the result depends on those characters alone, and is named
/// `unicode_lowercase`.
#[verifier::external_body]
pub(crate) fn to_lowercase(cs: &[char], lo: usize, hi: usize) -> (r: Vec<char>)
    requires
        lo <= hi <= cs@.len(),
    ensures
        r@ == (if all_ascii(cs@.subrange(lo as int, hi as int)) {
            ascii_lowercase(cs@.subrange(lo as int, hi as int))
        } else {
            unicode_lowercase(cs@.subrange(lo as int, hi as int))
        }),
{
    let s: String = cs[lo..hi].iter().collect();
    s.to_lowercase().chars().collect()
}

/// Unicode `White_Space`, the property that `char::is_whitespace` tests.
pub open spec fn is_ws(c: char) -> bool {
    let v = c as u32;
    (0x09 <= v <= 0x0D) || v == 0x20 || v == 0x85 || v == 0xA0 || v == 0x1680 || (0x2000 <= v
        <= 0x200A) || v == 0x2028 || v == 0x2029 || v == 0x202F || v == 0x205F || v == 0x3000
}

/// Whether `c` is a Unicode white-space character.
pub fn is_whitespace(c: char) -> (r: bool)
    ensures
        r == is_ws(c),
{
    let v = c as u32;
    (0x09 <= v && v <= 0x0D) || v == 0x20 || v == 0x85 || v == 0xA0 || v == 0x1680 || (0x2000 <= v
        && v <= 0x200A) || v == 0x2028 || v == 0x2029 || v == 0x202F || v == 0x205F || v == 0x3000
}

/// `s` without its leading white space.
pub open spec fn trim_start(s: Seq<char>) -> Seq<char>
    decreases s.len(),
{
    if s.len() > 0 && is_ws(s[0]) {
        trim_start(s.drop_first())
    } else {
        s
    }
}

/// `s` without its trailing white space.
pub open spec fn trim_end(s: Seq<char>) -> Seq<char>
    decreases s.len(),
{
    if s.len() > 0 && is_ws(s.last()) {
        trim_end(s.drop_last())
    } else {
        s
    }
}

/// `s` without leading and trailing white space (what `str::trim` returns).
pub open spec fn trim(s: Seq<char>) -> Seq<char> {
    trim_end(trim_start(s))
}

/// The bounds of `trim(cs[lo..hi])` inside `cs`.
pub fn trim_bounds(cs: &[char], lo: usize, hi: usize) -> (r: (usize, usize))
    requires
        lo <= hi <= cs@.len(),
    ensures
        lo <= r.0 <= r.1 <= hi,
        cs@.subrange(r.0 as int, r.1 as int) == trim(cs@.subrange(lo as int, hi as int)),
{
    let mut a = lo;
    while a < hi && is_whitespace(cs[a])
        invariant
            lo <= a <= hi <= cs@.len(),
            trim_start(cs@.subrange(lo as int, hi as int)) == trim_start(
                cs@.subrange(a as int, hi as int),
            ),
        decreases hi - a,
    {
        assert(cs@.subrange(a as int, hi as int).drop_first() =~= cs@.subrange(a + 1, hi as int));
        a = a + 1;
    }
    let mut b = hi;
    while b > a && is_whitespace(cs[b - 1])
        invariant
            lo <= a <= b <= hi <= cs@.len(),
            trim_end(cs@.subrange(a as int, hi as int)) == trim_end(cs@.subrange(a as int, b as int)),
        decreases b - a,
    {
        assert(cs@.subrange(a as int, b as int).drop_last() =~= cs@.subrange(a as int, b - 1));
        b = b - 1;
    }
    (a, b)
}

/// The number of leading characters of `s` that are not white space.
pub open spec fn word_len(s: Seq<char>) -> nat
    decreases s.len(),
{
    if s.len() == 0 || is_ws(s[0]) {
        0
    } else {
        1 + word_len(s.drop_first())
    }
}

/// The white-space separated words of `s` (what `str::split_whitespace` yields).
pub open spec fn words(s: Seq<char>) -> Seq<Seq<char>>
    decreases s.len(),
{
    if s.len() == 0 {
        seq![]
    } else if is_ws(s[0]) {
        words(s.drop_first())
    } else {
        let n = word_len(s);
        proof {
            lemma_word_len_bounds(s);
        }
        seq![s.take(n as int)] + words(s.skip(n as int))
    }
}

/// A word is no longer than the text it starts.
pub proof fn lemma_word_len_bounds(s: Seq<char>)
    ensures
        word_len(s) <= s.len(),
        s.len() > 0 && !is_ws(s[0]) ==> word_len(s) >= 1,
    decreases s.len(),
{
    if s.len() > 0 && !is_ws(s[0]) {
        lemma_word_len_bounds(s.drop_first());
    }
}

/// A run of non-white-space characters ended by white space or by the end is a word.
pub proof fn lemma_word_len(s: Seq<char>, n: int)
    requires
        0 <= n <= s.len(),
        forall|k: int| 0 <= k < n ==> !is_ws(#[trigger] s[k]),
        n == s.len() || is_ws(s[n]),
    ensures
        word_len(s) == n,
    decreases n,
{
    if n > 0 {
        assert(!is_ws(s[0]));
        let t = s.drop_first();
        assert forall|k: int| 0 <= k < n - 1 implies !is_ws(#[trigger] t[k]) by {
            assert(t[k] == s[k + 1]);
        }
        if n < s.len() {
            assert(t[n - 1] == s[n]);
        }
        lemma_word_len(t, n - 1);
    }
}

/// The first `word_len(s)` characters of `s` are not white space, and white space or the end
/// follows them.
pub proof fn lemma_word_len_ends(s: Seq<char>)
    ensures
        word_len(s) <= s.len(),
        forall|k: int| 0 <= k < word_len(s) ==> !is_ws(#[trigger] s[k]),
        word_len(s) == s.len() || is_ws(s[word_len(s) as int]),
    decreases s.len(),
{
    if s.len() > 0 && !is_ws(s[0]) {
        let t = s.drop_first();
        lemma_word_len_ends(t);
        assert forall|k: int| 0 <= k < word_len(s) implies !is_ws(#[trigger] s[k]) by {
            if k > 0 {
                assert(s[k] == t[k - 1]);
            }
        }
        if word_len(s) < s.len() {
            assert(s[word_len(s) as int] == t[word_len(t) as int]);
        }
    }
}

/// A white-space character between two texts separates their words.
pub proof fn lemma_words_split_at_ws(a: Seq<char>, c: char, b: Seq<char>)
    requires
        is_ws(c),
    ensures
        words(a + seq![c] + b) == words(a) + words(b),
    decreases a.len(),
{
    let s = a + seq![c] + b;
    if a.len() == 0 {
        assert(s[0] == c);
        assert(s.drop_first() =~= b);
        assert(words(a) == Seq::<Seq<char>>::empty());
        assert(words(a) + words(b) =~= words(b));
    } else if is_ws(a[0]) {
        assert(s[0] == a[0]);
        assert(s.drop_first() =~= a.drop_first() + seq![c] + b);
        lemma_words_split_at_ws(a.drop_first(), c, b);
    } else {
        let n = word_len(a);
        lemma_word_len_ends(a);
        lemma_word_len_bounds(a);
        assert forall|k: int| 0 <= k < n implies !is_ws(#[trigger] s[k]) by {
            assert(s[k] == a[k]);
        }
        if n < a.len() {
            assert(s[n as int] == a[n as int]);
        } else {
            assert(s[n as int] == c);
        }
        lemma_word_len(s, n as int);
        assert(s[0] == a[0]);
        assert(s.take(n as int) =~= a.take(n as int));
        assert(s.skip(n as int) =~= a.skip(n as int) + seq![c] + b);
        lemma_words_split_at_ws(a.skip(n as int), c, b);
        assert(words(s) == seq![a.take(n as int)] + words(s.skip(n as int)));
        assert(words(a) == seq![a.take(n as int)] + words(a.skip(n as int)));
        assert(words(s) =~= words(a) + words(b));
    }
}

/// Leading and trailing white space does not change the words of a text.
pub proof fn lemma_words_trim(s: Seq<char>)
    ensures
        words(trim(s)) == words(s),
{
    lemma_words_trim_start(s);
    lemma_words_trim_end(trim_start(s));
}

/// Leading white space does not change the words of a text.
proof fn lemma_words_trim_start(s: Seq<char>)
    ensures
        words(trim_start(s)) == words(s),
    decreases s.len(),
{
    if s.len() > 0 && is_ws(s[0]) {
        lemma_words_trim_start(s.drop_first());
    }
}

/// Trailing white space does not change the words of a text.
proof fn lemma_words_trim_end(s: Seq<char>)
    ensures
        words(trim_end(s)) == words(s),
    decreases s.len(),
{
    if s.len() > 0 && is_ws(s.last()) {
        let d = s.drop_last();
        lemma_words_trim_end(d);
        lemma_words_split_at_ws(d, s.last(), Seq::<char>::empty());
        assert(d + seq![s.last()] + Seq::<char>::empty() =~= s);
        assert(words(Seq::<char>::empty()) == Seq::<Seq<char>>::empty());
        assert(words(d) + Seq::<Seq<char>>::empty() =~= words(d));
    }
}

/// The bounds, inside `cs`, of the words of `cs[lo..hi]`.
pub fn word_bounds(cs: &[char], lo: usize, hi: usize) -> (r: Vec<(usize, usize)>)
    requires
        lo <= hi <= cs@.len(),
    ensures
        r@.len() == words(cs@.subrange(lo as int, hi as int)).len(),
        forall|k: int|
            0 <= k < r@.len() ==> lo <= (#[trigger] r@[k]).0 < r@[k].1 <= hi && cs@.subrange(
                r@[k].0 as int,
                r@[k].1 as int,
            ) == words(cs@.subrange(lo as int, hi as int))[k],
{
    let ghost whole = words(cs@.subrange(lo as int, hi as int));
    let mut r: Vec<(usize, usize)> = Vec::new();
    let mut i = lo;
    while i < hi
        invariant
            lo <= i <= hi <= cs@.len(),
            whole == words(cs@.subrange(lo as int, hi as int)),
            r@.len() + words(cs@.subrange(i as int, hi as int)).len() == whole.len(),
            forall|k: int|
                0 <= k < r@.len() ==> lo <= (#[trigger] r@[k]).0 < r@[k].1 <= hi && cs@.subrange(
                    r@[k].0 as int,
                    r@[k].1 as int,
                ) == whole[k],
            forall|k: int|
                0 <= k < words(cs@.subrange(i as int, hi as int)).len() ==> whole[r@.len() + k]
                    == #[trigger] words(cs@.subrange(i as int, hi as int))[k],
        decreases hi - i,
    {
        let ghost rest = cs@.subrange(i as int, hi as int);
        if is_whitespace(cs[i]) {
            assert(rest.drop_first() =~= cs@.subrange(i + 1, hi as int));
            i = i + 1;
        } else {
            let mut j = i + 1;
            while j < hi && !is_whitespace(cs[j])
                invariant
                    i < j <= hi <= cs@.len(),
                    forall|k: int| i <= k < j ==> !is_ws(#[trigger] cs@[k]),
                decreases hi - j,
            {
                j = j + 1;
            }
            proof {
                assert forall|k: int| 0 <= k < j - i implies !is_ws(#[trigger] rest[k]) by {
                    assert(rest[k] == cs@[i + k]);
                }
                if j < hi {
                    assert(rest[j - i] == cs@[j as int]);
                }
                lemma_word_len(rest, j - i);
                assert(rest.take(j - i) =~= cs@.subrange(i as int, j as int));
                assert(rest.skip(j - i) =~= cs@.subrange(j as int, hi as int));
                assert(words(rest) == seq![cs@.subrange(i as int, j as int)] + words(
                    cs@.subrange(j as int, hi as int),
                ));
                assert(words(rest)[0] == cs@.subrange(i as int, j as int));
                assert forall|k: int|
                    0 <= k < words(cs@.subrange(j as int, hi as int)).len() implies whole[r@.len()
                    + 1 + k] == #[trigger] words(cs@.subrange(j as int, hi as int))[k] by {
                    assert(words(rest)[k + 1] == words(cs@.subrange(j as int, hi as int))[k]);
                }
            }
            r.push((i, j));
            i = j;
        }
    }
    r
}

/// The index of the first `c` in `s`, if any.
pub open spec fn find_char(s: Seq<char>, c: char) -> Option<int>
    decreases s.len(),
{
    if s.len() == 0 {
        None
    } else if s[0] == c {
        Some(0)
    } else {
        match find_char(s.drop_first(), c) {
            Some(i) => Some(i + 1),
            None => None,
        }
    }
}

/// `find_char` finds the first occurrence.
pub proof fn lemma_find_char(s: Seq<char>, c: char)
    ensures
        find_char(s, c) matches Some(i) ==> 0 <= i < s.len() && s[i] == c && forall|k: int|
            0 <= k < i ==> s[k] != c,
        find_char(s, c) is None ==> forall|k: int| 0 <= k < s.len() ==> s[k] != c,
    decreases s.len(),
{
    if s.len() > 0 && s[0] != c {
        lemma_find_char(s.drop_first(), c);
        assert forall|k: int| 1 <= k < s.len() implies s[k] == s.drop_first()[k - 1] by {}
    }
}

/// A first occurrence determines `find_char`.
pub proof fn lemma_find_char_at(s: Seq<char>, c: char, i: int)
    requires
        0 <= i <= s.len(),
        forall|k: int| 0 <= k < i ==> s[k] != c,
        i == s.len() || s[i] == c,
    ensures
        find_char(s, c) == (if i < s.len() { Some(i) } else { None::<int> }),
    decreases i,
{
    if i > 0 {
        let t = s.drop_first();
        assert forall|k: int| 0 <= k < i - 1 implies t[k] != c by {
            assert(t[k] == s[k + 1]);
        }
        if i < s.len() {
            assert(t[i - 1] == s[i]);
        }
        lemma_find_char_at(t, c, i - 1);
    }
}

/// The index, inside `cs`, of the first `c` in `cs[lo..hi]`.
pub fn find_char_in(cs: &[char], lo: usize, hi: usize, c: char) -> (r: Option<usize>)
    requires
        lo <= hi <= cs@.len(),
    ensures
        r is None <==> find_char(cs@.subrange(lo as int, hi as int), c) is None,
        r matches Some(k) ==> lo <= k < hi && find_char(cs@.subrange(lo as int, hi as int), c)
            == Some(k - lo),
{
    let mut i = lo;
    while i < hi && cs[i] != c
        invariant
            lo <= i <= hi <= cs@.len(),
            forall|k: int| lo <= k < i ==> cs@[k] != c,
        decreases hi - i,
    {
        i = i + 1;
    }
    proof {
        let s = cs@.subrange(lo as int, hi as int);
        assert forall|k: int| 0 <= k < i - lo implies s[k] != c by {
            assert(s[k] == cs@[lo + k]);
        }
        if i < hi {
            assert(s[i - lo] == cs@[i as int]);
        }
        lemma_find_char_at(s, c, i - lo);
    }
    if i < hi {
        Some(i)
    } else {
        None
    }
}

/// The pieces of `s` between occurrences of `sep` (what `str::split` yields for a char).
pub open spec fn split_on(s: Seq<char>, sep: char) -> Seq<Seq<char>>
    decreases s.len(),
{
    match find_char(s, sep) {
        Some(i) => {
            if 0 <= i < s.len() {
                seq![s.take(i)] + split_on(s.skip(i + 1), sep)
            } else {
                seq![s]
            }
        },
        None => seq![s],
    }
}

/// The bounds, inside `cs`, of the pieces of `cs[lo..hi]` between occurrences of `sep`.
pub fn split_bounds(cs: &[char], lo: usize, hi: usize, sep: char) -> (r: Vec<(usize, usize)>)
    requires
        lo <= hi <= cs@.len(),
    ensures
        r@.len() == split_on(cs@.subrange(lo as int, hi as int), sep).len(),
        forall|k: int|
            0 <= k < r@.len() ==> lo <= (#[trigger] r@[k]).0 <= r@[k].1 <= hi && cs@.subrange(
                r@[k].0 as int,
                r@[k].1 as int,
            ) == split_on(cs@.subrange(lo as int, hi as int), sep)[k],
{
    let ghost whole = split_on(cs@.subrange(lo as int, hi as int), sep);
    let mut r: Vec<(usize, usize)> = Vec::new();
    let mut i = lo;
    loop
        invariant_except_break
            r@.len() + split_on(cs@.subrange(i as int, hi as int), sep).len() == whole.len(),
            forall|k: int|
                0 <= k < r@.len() ==> lo <= (#[trigger] r@[k]).0 <= r@[k].1 <= hi && cs@.subrange(
                    r@[k].0 as int,
                    r@[k].1 as int,
                ) == whole[k],
            forall|k: int|
                0 <= k < split_on(cs@.subrange(i as int, hi as int), sep).len() ==> whole[r@.len()
                    + k] == #[trigger] split_on(cs@.subrange(i as int, hi as int), sep)[k],
        invariant
            lo <= i <= hi <= cs@.len(),
            whole == split_on(cs@.subrange(lo as int, hi as int), sep),
        ensures
            r@.len() == whole.len(),
            forall|k: int|
                0 <= k < r@.len() ==> lo <= (#[trigger] r@[k]).0 <= r@[k].1 <= hi && cs@.subrange(
                    r@[k].0 as int,
                    r@[k].1 as int,
                ) == whole[k],
        decreases hi - i,
    {
        let ghost rest = cs@.subrange(i as int, hi as int);
        proof {
            lemma_find_char(rest, sep);
        }
        match find_char_in(cs, i, hi, sep) {
            Some(j) => {
                proof {
                    assert(rest.take(j - i) =~= cs@.subrange(i as int, j as int));
                    assert(rest.skip(j - i + 1) =~= cs@.subrange(j + 1, hi as int));
                    assert(split_on(rest, sep) == seq![cs@.subrange(i as int, j as int)] + split_on(
                        cs@.subrange(j + 1, hi as int),
                        sep,
                    ));
                    assert(split_on(rest, sep)[0] == cs@.subrange(i as int, j as int));
                    assert forall|k: int|
                        0 <= k < split_on(cs@.subrange(j + 1, hi as int), sep).len() implies whole[r@.len()
                        + 1 + k] == #[trigger] split_on(cs@.subrange(j + 1, hi as int), sep)[k] by {
                        assert(split_on(rest, sep)[k + 1] == split_on(
                            cs@.subrange(j + 1, hi as int),
                            sep,
                        )[k]);
                    }
                }
                r.push((i, j));
                i = j + 1;
            },
            None => {
                proof {
                    assert(split_on(rest, sep) == seq![rest]);
                    assert(split_on(rest, sep)[0] == rest);
                    assert(whole[r@.len() as int] == rest);
                }
                r.push((i, hi));
                break;
            },
        }
    }
    r
}

/// Whether `p` occurs in `s` at position `i`.
pub open spec fn occurs_at(s: Seq<char>, p: Seq<char>, i: int) -> bool {
    0 <= i && i + p.len() <= s.len() && s.subrange(i, i + p.len()) == p
}

/// Whether `p` occurs in `s` (what `str::contains` answers for a string pattern).
pub open spec fn contains(s: Seq<char>, p: Seq<char>) -> bool {
    exists|i: int| occurs_at(s, p, i)
}

/// Whether `p` occurs in `s`.
pub fn contains_chars(s: &[char], p: &[char]) -> (r: bool)
    ensures
        r == contains(s@, p@),
{
    if p.len() > s.len() {
        assert forall|i: int| !occurs_at(s@, p@, i) by {}
        return false;
    }
    let mut i: usize = 0;
    while i <= s.len() - p.len()
        invariant
            p@.len() <= s@.len(),
            i <= s@.len() - p@.len() + 1,
            forall|k: int| 0 <= k < i ==> !occurs_at(s@, p@, k),
        decreases s@.len() - i,
    {
        let mut j: usize = 0;
        let n = s.len();
        while j < p.len()
            invariant
                i + p@.len() <= s@.len(),
                n == s@.len(),
                j <= p@.len(),
                forall|k: int| 0 <= k < j ==> s@[i + k] == p@[k],
            ensures
                j <= p@.len(),
                forall|k: int| 0 <= k < j ==> s@[i + k] == p@[k],
                j < p@.len() ==> s@[i + j] != p@[j as int],
            decreases p@.len() - j,
        {
            if s[i + j] != p[j] {
                break;
            }
            j = j + 1;
        }
        if j == p.len() {
            assert(s@.subrange(i as int, i + p@.len()) =~= p@);
            assert(occurs_at(s@, p@, i as int));
            return true;
        }
        assert(s@.subrange(i as int, i + p@.len())[j as int] != p@[j as int]);
        i = i + 1;
    }
    assert forall|k: int| !occurs_at(s@, p@, k) by {
        if 0 <= k && k + p@.len() <= s@.len() {
            assert(k < i);
        }
    }
    false
}

/// The ASCII lower-case form of a byte (what `u8::to_ascii_lowercase` returns).
pub open spec fn ascii_lower(b: u8) -> u8 {
    if 65 <= b <= 90 {
        (b + 32) as u8
    } else {
        b
    }
}

/// Whether `a[i..i + b.len()]` equals `b` ignoring ASCII case (what `<[u8]>::eq_ignore_ascii_case` answers).
pub open spec fn eq_ignore_ascii_case_at(a: Seq<u8>, i: int, b: Seq<u8>) -> bool {
    0 <= i && i + b.len() <= a.len() && forall|k: int|
        0 <= k < b.len() ==> ascii_lower(#[trigger] a[i + k]) == ascii_lower(b[k])
}

/// Whether some window of `hay` equals `needle` ignoring ASCII case.
pub open spec fn contains_ignore_ascii_case(hay: Seq<u8>, needle: Seq<u8>) -> bool {
    exists|i: int| eq_ignore_ascii_case_at(hay, i, needle)
}

/// The ASCII lower-case form of a byte.
pub fn to_ascii_lower(b: u8) -> (r: u8)
    ensures
        r == ascii_lower(b),
{
    if 65 <= b && b <= 90 {
        b + 32
    } else {
        b
    }
}

/// Whether some window of `hay` of `needle`'s length equals `needle` ignoring ASCII case.
pub fn bytes_contain_ignore_ascii_case(hay: &[u8], needle: &[u8]) -> (r: bool)
    requires
        needle@.len() > 0,
    ensures
        r == contains_ignore_ascii_case(hay@, needle@),
{
    if needle.len() > hay.len() {
        assert forall|i: int| !eq_ignore_ascii_case_at(hay@, i, needle@) by {}
        return false;
    }
    let mut i: usize = 0;
    while i <= hay.len() - needle.len()
        invariant
            0 < needle@.len() <= hay@.len(),
            i <= hay@.len() - needle@.len() + 1,
            forall|k: int| 0 <= k < i ==> !eq_ignore_ascii_case_at(hay@, k, needle@),
        decreases hay@.len() - i,
    {
        let mut j: usize = 0;
        let n = hay.len();
        while j < needle.len()
            invariant
                i + needle@.len() <= hay@.len(),
                n == hay@.len(),
                j <= needle@.len(),
                forall|k: int|
                    0 <= k < j ==> ascii_lower(#[trigger] hay@[i + k]) == ascii_lower(needle@[k]),
            ensures
                j <= needle@.len(),
                forall|k: int|
                    0 <= k < j ==> ascii_lower(#[trigger] hay@[i + k]) == ascii_lower(needle@[k]),
                j < needle@.len() ==> ascii_lower(hay@[i + j]) != ascii_lower(needle@[j as int]),
            decreases needle@.len() - j,
        {
            if to_ascii_lower(hay[i + j]) != to_ascii_lower(needle[j]) {
                break;
            }
            j = j + 1;
        }
        if j == needle.len() {
            assert(eq_ignore_ascii_case_at(hay@, i as int, needle@));
            return true;
        }
        assert(!eq_ignore_ascii_case_at(hay@, i as int, needle@));
        i = i + 1;
    }
    assert forall|k: int| !eq_ignore_ascii_case_at(hay@, k, needle@) by {
        if 0 <= k && k + needle@.len() <= hay@.len() {
            assert(k < i);
        }
    }
    false
}

/// Whether `c` is an ASCII decimal digit.
pub open spec fn is_digit(c: char) -> bool {
    '0' <= c <= '9'
}

/// The value of an ASCII decimal digit.
pub open spec fn digit_value(c: char) -> nat {
    ((c as u32) - 48) as nat
}

/// The value of a string of decimal digits.
pub open spec fn digits_value(d: Seq<char>) -> nat
    decreases d.len(),
{
    if d.len() == 0 {
        0
    } else {
        digits_value(d.drop_last()) * 10 + digit_value(d.last())
    }
}

/// Whether every character of `d` is a decimal digit.
pub open spec fn all_digits(d: Seq<char>) -> bool {
    forall|k: int| 0 <= k < d.len() ==> is_digit(#[trigger] d[k])
}

/// The digits of an unsigned number's text: a leading `+` is dropped when digits follow it.
pub open spec fn unsigned_digits(s: Seq<char>) -> Seq<char> {
    if s.len() > 1 && s[0] == '+' {
        s.drop_first()
    } else {
        s
    }
}

/// The number that `s` spells for an unsigned type whose largest value is `max`
/// (what `str::parse` gives for `usize`, `u16` and their kin).
pub open spec fn parse_unsigned(s: Seq<char>, max: nat) -> Option<nat> {
    let d = unsigned_digits(s);
    if d.len() > 0 && all_digits(d) && digits_value(d) <= max {
        Some(digits_value(d))
    } else {
        None
    }
}

/// A number's digits are worth at least those of any prefix.
pub proof fn lemma_digits_value_prefix(d: Seq<char>, k: int)
    requires
        0 <= k <= d.len(),
        all_digits(d),
    ensures
        digits_value(d.take(k)) <= digits_value(d),
    decreases d.len() - k,
{
    if k < d.len() {
        lemma_digits_value_prefix(d, k + 1);
        assert(d.take(k + 1).drop_last() =~= d.take(k));
        assert(is_digit(d[k]));
    } else {
        assert(d.take(k) =~= d);
    }
}

/// Parses the characters `cs[lo..hi]` as an unsigned number no larger than `max`.
pub fn parse_unsigned_in(cs: &[char], lo: usize, hi: usize, max: u64) -> (r: Option<u64>)
    requires
        lo <= hi <= cs@.len(),
    ensures
        match parse_unsigned(cs@.subrange(lo as int, hi as int), max as nat) {
            Some(v) => r == Some(v as u64),
            None => r is None,
        },
{
    let ghost s = cs@.subrange(lo as int, hi as int);
    let start = if hi - lo > 1 && cs[lo] == '+' {
        lo + 1
    } else {
        lo
    };
    let ghost d = cs@.subrange(start as int, hi as int);
    assert(d =~= unsigned_digits(s));
    if start == hi {
        return None;
    }
    let mut k = start;
    while k < hi
        invariant
            start <= k <= hi <= cs@.len(),
            lo <= start,
            d == cs@.subrange(start as int, hi as int),
            d == unsigned_digits(cs@.subrange(lo as int, hi as int)),
            forall|m: int| start <= m < k ==> is_digit(#[trigger] cs@[m]),
        decreases hi - k,
    {
        if !('0' <= cs[k] && cs[k] <= '9') {
            assert(!is_digit(d[k - start]));
            return None;
        }
        k = k + 1;
    }
    assert(all_digits(d)) by {
        assert forall|m: int| 0 <= m < d.len() implies is_digit(#[trigger] d[m]) by {
            assert(d[m] == cs@[start + m]);
        }
    }
    let mut acc: u128 = 0;
    let mut k = start;
    while k < hi
        invariant
            start <= k <= hi <= cs@.len(),
            d == cs@.subrange(start as int, hi as int),
            d == unsigned_digits(cs@.subrange(lo as int, hi as int)),
            all_digits(d),
            acc == digits_value(d.take(k - start)),
            acc <= max,
        decreases hi - k,
    {
        let c = cs[k];
        assert(c == d[k - start]);
        assert(is_digit(d[k - start]));
        let v = (c as u32 - 48) as u128;
        assert(d.take(k - start + 1).drop_last() =~= d.take(k - start));
        acc = acc * 10 + v;
        if acc > max as u128 {
            proof {
                lemma_digits_value_prefix(d, k - start + 1);
            }
            return None;
        }
        k = k + 1;
    }
    assert(d.take(hi - start) =~= d);
    Some(acc as u64)
}

/// The character of a digit below 16, in lower case.
pub open spec fn digit_char(v: nat) -> char {
    if v == 0 {
        '0'
    } else if v == 1 {
        '1'
    } else if v == 2 {
        '2'
    } else if v == 3 {
        '3'
    } else if v == 4 {
        '4'
    } else if v == 5 {
        '5'
    } else if v == 6 {
        '6'
    } else if v == 7 {
        '7'
    } else if v == 8 {
        '8'
    } else if v == 9 {
        '9'
    } else if v == 10 {
        'a'
    } else if v == 11 {
        'b'
    } else if v == 12 {
        'c'
    } else if v == 13 {
        'd'
    } else if v == 14 {
        'e'
    } else {
        'f'
    }
}

/// The digits of `n` in base `base` (2 to 16), most significant first, without padding.
pub open spec fn radix_digits(n: nat, base: nat) -> Seq<char>
    decreases n,
{
    if base < 2 || n < base {
        seq![digit_char(n)]
    } else {
        proof {
            assert(n / base < n) by (nonlinear_arith)
                requires
                    base >= 2,
                    n >= base,
            ;
        }
        radix_digits(n / base, base).push(digit_char(n % base))
    }
}

/// The digits of `n` in base `base`, padded with `0` on the left to at least `width` characters.
pub open spec fn radix_padded(n: nat, base: nat, width: nat) -> Seq<char> {
    let d = radix_digits(n, base);
    if d.len() < width {
        Seq::new((width - d.len()) as nat, |i: int| '0') + d
    } else {
        d
    }
}

/// The decimal text of `n` (what `Display` writes for an unsigned integer).
pub open spec fn decimal(n: nat) -> Seq<char> {
    radix_digits(n, 10)
}

/// A decimal digit's character has that value.
pub proof fn lemma_digit_char_value(v: nat)
    requires
        v < 10,
    ensures
        is_digit(digit_char(v)),
        digit_value(digit_char(v)) == v,
{
}

/// The decimal text of a number is a non-empty run of digits worth the number.
pub proof fn lemma_decimal_digits(n: nat)
    ensures
        decimal(n).len() > 0,
        all_digits(decimal(n)),
        digits_value(decimal(n)) == n,
    decreases n,
{
    lemma_digit_char_value(n % 10);
    if n < 10 {
        assert(decimal(n) == seq![digit_char(n)]);
        assert(decimal(n).drop_last() =~= Seq::<char>::empty());
        assert(digits_value(decimal(n)) == digits_value(Seq::<char>::empty()) * 10 + digit_value(
            digit_char(n),
        ));
    } else {
        lemma_decimal_digits(n / 10);
        let d = decimal(n / 10);
        assert(decimal(n) == d.push(digit_char(n % 10)));
        assert(decimal(n).drop_last() =~= d);
        assert(digits_value(decimal(n)) == digits_value(d) * 10 + digit_value(digit_char(n % 10)));
        assert((n / 10) * 10 + n % 10 == n);
        assert forall|k: int| 0 <= k < decimal(n).len() implies is_digit(#[trigger] decimal(n)[k]) by {
            if k < d.len() {
                assert(decimal(n)[k] == d[k]);
            }
        }
    }
}

/// Reading back the decimal text of a number gives the number.
pub proof fn lemma_parse_decimal(n: nat, max: nat)
    requires
        n <= max,
    ensures
        parse_unsigned(decimal(n), max) == Some(n),
{
    lemma_decimal_digits(n);
    assert(is_digit(decimal(n)[0]));
}

/// The character of a digit below 16, in lower case.
pub fn digit_char_of(v: u64) -> (c: char)
    requires
        v < 16,
    ensures
        c == digit_char(v as nat),
{
    match v {
        0 => '0',
        1 => '1',
        2 => '2',
        3 => '3',
        4 => '4',
        5 => '5',
        6 => '6',
        7 => '7',
        8 => '8',
        9 => '9',
        10 => 'a',
        11 => 'b',
        12 => 'c',
        13 => 'd',
        14 => 'e',
        _ => 'f',
    }
}

/// Appends the digits of `n` in base `base` to `out`.
pub fn push_radix_digits(out: &mut Vec<char>, n: u64, base: u64)
    requires
        2 <= base <= 16,
    ensures
        final(out)@ == old(out)@ + radix_digits(n as nat, base as nat),
    decreases n,
{
    if n < base {
        out.push(digit_char_of(n));
        assert(radix_digits(n as nat, base as nat) == seq![digit_char(n as nat)]);
    } else {
        assert(n / base < n) by (nonlinear_arith)
            requires
                base >= 2,
                n >= base,
        ;
        push_radix_digits(out, n / base, base);
        out.push(digit_char_of(n % base));
        assert(old(out)@ + radix_digits(n as nat, base as nat) =~= old(out)@ + radix_digits(
            (n / base) as nat,
            base as nat,
        ) + seq![digit_char((n % base) as nat)]);
    }
}

/// Appends the digits of `n` in base `base`, zero-padded to at least `width` characters.
pub fn push_radix_padded(out: &mut Vec<char>, n: u64, base: u64, width: usize)
    requires
        2 <= base <= 16,
    ensures
        final(out)@ == old(out)@ + radix_padded(n as nat, base as nat, width as nat),
{
    let mut digits: Vec<char> = Vec::new();
    push_radix_digits(&mut digits, n, base);
    assert(digits@ =~= radix_digits(n as nat, base as nat));
    let ghost start = out@;
    if digits.len() < width {
        let pad = width - digits.len();
        let mut i: usize = 0;
        while i < pad
            invariant
                i <= pad,
                out@ == start + Seq::new(i as nat, |k: int| '0'),
            decreases pad - i,
        {
            out.push('0');
            i = i + 1;
            assert(out@ =~= start + Seq::new(i as nat, |k: int| '0'));
        }
    }
    let ghost mid = out@;
    let mut j: usize = 0;
    while j < digits.len()
        invariant
            j <= digits@.len(),
            out@ == mid + digits@.take(j as int),
        decreases digits@.len() - j,
    {
        out.push(digits[j]);
        j = j + 1;
        assert(out@ =~= mid + digits@.take(j as int));
    }
    assert(digits@.take(digits@.len() as int) =~= digits@);
    assert(final(out)@ =~= old(out)@ + radix_padded(n as nat, base as nat, width as nat));
}

/// The decimal text of `n`.
pub fn decimal_string(n: u64) -> (s: String)
    ensures
        s@ == decimal(n as nat),
{
    let mut cs: Vec<char> = Vec::new();
    push_radix_digits(&mut cs, n, 10);
    string_from_chars(cs.as_slice(), 0, cs.len())
}

/// Whether the characters `a[lo..hi]` are exactly those of `b`.
pub fn chars_eq(a: &[char], lo: usize, hi: usize, b: &str) -> (r: bool)
    requires
        lo <= hi <= a@.len(),
    ensures
        r == (a@.subrange(lo as int, hi as int) == b@),
{
    let bc = chars_of(b);
    if hi - lo != bc.len() {
        assert(a@.subrange(lo as int, hi as int).len() != b@.len());
        return false;
    }
    let mut i: usize = 0;
    while i < bc.len()
        invariant
            i <= bc@.len(),
            bc@ == b@,
            hi - lo == bc@.len(),
            lo <= hi <= a@.len(),
            forall|k: int| 0 <= k < i ==> a@[lo + k] == bc@[k],
        decreases bc@.len() - i,
    {
        if a[lo + i] != bc[i] {
            assert(a@.subrange(lo as int, hi as int)[i as int] != b@[i as int]);
            return false;
        }
        i = i + 1;
    }
    assert(a@.subrange(lo as int, hi as int) =~= b@);
    true
}

/// Calls `std::str::from_utf8` and keeps the string slice when it succeeds.
/// Claimed of std: it succeeds exactly when the bytes are valid UTF-8, and the slice it
/// returns holds exactly those bytes.
#[verifier::external_body]
pub(crate) fn str_from_utf8<'a>(v: &'a [u8]) -> (r: Option<&'a str>)
    ensures
        r is Some <==> valid_utf8(v@),
        r matches Some(s) ==> s.spec_bytes() == v@,
{
    std::str::from_utf8(v).ok()
}

/// The index where the leading white space of `cs[lo..hi]` ends.
pub fn trim_start_index(cs: &[char], lo: usize, hi: usize) -> (r: usize)
    requires
        lo <= hi <= cs@.len(),
    ensures
        lo <= r <= hi,
        cs@.subrange(r as int, hi as int) == trim_start(cs@.subrange(lo as int, hi as int)),
{
    let mut a = lo;
    while a < hi && is_whitespace(cs[a])
        invariant
            lo <= a <= hi <= cs@.len(),
            trim_start(cs@.subrange(lo as int, hi as int)) == trim_start(
                cs@.subrange(a as int, hi as int),
            ),
        decreases hi - a,
    {
        assert(cs@.subrange(a as int, hi as int).drop_first() =~= cs@.subrange(a + 1, hi as int));
        a = a + 1;
    }
    assert(a < hi ==> cs@.subrange(a as int, hi as int)[0] == cs@[a as int]);
    a
}

/// The index of the first white-space character of `s`, if any.
pub open spec fn find_ws(s: Seq<char>) -> Option<int>
    decreases s.len(),
{
    if s.len() == 0 {
        None
    } else if is_ws(s[0]) {
        Some(0)
    } else {
        match find_ws(s.drop_first()) {
            Some(i) => Some(i + 1),
            None => None,
        }
    }
}

/// A first white-space character determines `find_ws`.
pub proof fn lemma_find_ws_at(s: Seq<char>, i: int)
    requires
        0 <= i <= s.len(),
        forall|k: int| 0 <= k < i ==> !is_ws(#[trigger] s[k]),
        i == s.len() || is_ws(s[i]),
    ensures
        find_ws(s) == (if i < s.len() { Some(i) } else { None::<int> }),
    decreases i,
{
    if i > 0 {
        let t = s.drop_first();
        assert forall|k: int| 0 <= k < i - 1 implies !is_ws(#[trigger] t[k]) by {
            assert(t[k] == s[k + 1]);
        }
        if i < s.len() {
            assert(t[i - 1] == s[i]);
        }
        lemma_find_ws_at(t, i - 1);
    }
}

/// `find_ws` finds the first white-space character.
pub proof fn lemma_find_ws(s: Seq<char>)
    ensures
        find_ws(s) matches Some(i) ==> 0 <= i < s.len() && is_ws(s[i]) && forall|k: int|
            0 <= k < i ==> !is_ws(#[trigger] s[k]),
        find_ws(s) is None ==> forall|k: int| 0 <= k < s.len() ==> !is_ws(#[trigger] s[k]),
    decreases s.len(),
{
    if s.len() > 0 && !is_ws(s[0]) {
        lemma_find_ws(s.drop_first());
        assert forall|k: int| 1 <= k < s.len() implies s[k] == s.drop_first()[k - 1] by {}
    }
}

/// The index, inside `cs`, of the first white-space character of `cs[lo..hi]`.
pub fn find_ws_in(cs: &[char], lo: usize, hi: usize) -> (r: Option<usize>)
    requires
        lo <= hi <= cs@.len(),
    ensures
        r is None <==> find_ws(cs@.subrange(lo as int, hi as int)) is None,
        r matches Some(k) ==> lo <= k < hi && find_ws(cs@.subrange(lo as int, hi as int)) == Some(
            k - lo,
        ),
{
    let mut i = lo;
    while i < hi && !is_whitespace(cs[i])
        invariant
            lo <= i <= hi <= cs@.len(),
            forall|k: int| lo <= k < i ==> !is_ws(#[trigger] cs@[k]),
        decreases hi - i,
    {
        i = i + 1;
    }
    proof {
        let s = cs@.subrange(lo as int, hi as int);
        assert forall|k: int| 0 <= k < i - lo implies !is_ws(#[trigger] s[k]) by {
            assert(s[k] == cs@[lo + k]);
        }
        if i < hi {
            assert(s[i - lo] == cs@[i as int]);
        }
        lemma_find_ws_at(s, i - lo);
    }
    if i < hi {
        Some(i)
    } else {
        None
    }
}

/// A line without the carriage return that ends it, if any.
pub open spec fn strip_cr(l: Seq<char>) -> Seq<char> {
    if l.len() > 0 && l.last() == '\r' {
        l.drop_last()
    } else {
        l
    }
}

/// The lines of `s` (what `str::lines` yields): split at `\n`, a `\r` before the `\n`
/// dropped, and no empty line after a final `\n`.
pub open spec fn lines(s: Seq<char>) -> Seq<Seq<char>>
    decreases s.len(),
{
    if s.len() == 0 {
        seq![]
    } else {
        match find_char(s, '\n') {
            Some(i) => {
                if 0 <= i < s.len() {
                    seq![strip_cr(s.take(i))] + lines(s.skip(i + 1))
                } else {
                    seq![s]
                }
            },
            None => seq![s],
        }
    }
}

/// The bounds, inside `cs`, of the lines of `cs[lo..hi]`.
pub fn line_bounds(cs: &[char], lo: usize, hi: usize) -> (r: Vec<(usize, usize)>)
    requires
        lo <= hi <= cs@.len(),
    ensures
        r@.len() == lines(cs@.subrange(lo as int, hi as int)).len(),
        forall|k: int|
            0 <= k < r@.len() ==> lo <= (#[trigger] r@[k]).0 <= r@[k].1 <= hi && cs@.subrange(
                r@[k].0 as int,
                r@[k].1 as int,
            ) == lines(cs@.subrange(lo as int, hi as int))[k],
{
    let ghost whole = lines(cs@.subrange(lo as int, hi as int));
    let mut r: Vec<(usize, usize)> = Vec::new();
    let mut i = lo;
    while i < hi
        invariant
            lo <= i <= hi <= cs@.len(),
            whole == lines(cs@.subrange(lo as int, hi as int)),
            r@.len() + lines(cs@.subrange(i as int, hi as int)).len() == whole.len(),
            forall|k: int|
                0 <= k < r@.len() ==> lo <= (#[trigger] r@[k]).0 <= r@[k].1 <= hi && cs@.subrange(
                    r@[k].0 as int,
                    r@[k].1 as int,
                ) == whole[k],
            forall|k: int|
                0 <= k < lines(cs@.subrange(i as int, hi as int)).len() ==> whole[r@.len() + k]
                    == #[trigger] lines(cs@.subrange(i as int, hi as int))[k],
        decreases hi - i,
    {
        let ghost rest = cs@.subrange(i as int, hi as int);
        proof {
            lemma_find_char(rest, '\n');
        }
        match find_char_in(cs, i, hi, '\n') {
            Some(j) => {
                let end = if j > i && cs[j - 1] == '\r' {
                    j - 1
                } else {
                    j
                };
                proof {
                    assert(rest.take(j - i) =~= cs@.subrange(i as int, j as int));
                    assert(strip_cr(rest.take(j - i)) =~= cs@.subrange(i as int, end as int));
                    assert(rest.skip(j - i + 1) =~= cs@.subrange(j + 1, hi as int));
                    assert(lines(rest) == seq![cs@.subrange(i as int, end as int)] + lines(
                        cs@.subrange(j + 1, hi as int),
                    ));
                    assert(lines(rest)[0] == cs@.subrange(i as int, end as int));
                    assert forall|k: int|
                        0 <= k < lines(cs@.subrange(j + 1, hi as int)).len() implies whole[r@.len()
                        + 1 + k] == #[trigger] lines(cs@.subrange(j + 1, hi as int))[k] by {
                        assert(lines(rest)[k + 1] == lines(cs@.subrange(j + 1, hi as int))[k]);
                    }
                }
                r.push((i, end));
                i = j + 1;
            },
            None => {
                proof {
                    assert(lines(rest) == seq![rest]);
                    assert(lines(rest)[0] == rest);
                    assert(lines(cs@.subrange(hi as int, hi as int)) =~= seq![]);
                }
                r.push((i, hi));
                i = hi;
            },
        }
    }
    assert(lines(cs@.subrange(i as int, hi as int)) =~= seq![]);
    r
}

/// Whether `s` begins with `p`.
pub open spec fn starts_with(s: Seq<char>, p: Seq<char>) -> bool {
    p.len() <= s.len() && s.take(p.len() as int) == p
}

/// The strings of `list` with `sep` between consecutive ones.
pub open spec fn join(list: Seq<Seq<char>>, sep: Seq<char>) -> Seq<char>
    decreases list.len(),
{
    if list.len() == 0 {
        seq![]
    } else if list.len() == 1 {
        list[0]
    } else {
        join(list.drop_last(), sep) + sep + list.last()
    }
}

/// Joining splits off the first string: `list[0]`, the separator, the rest joined.
pub proof fn lemma_join_front(list: Seq<Seq<char>>, sep: Seq<char>)
    requires
        list.len() >= 2,
    ensures
        join(list, sep) == list[0] + sep + join(list.drop_first(), sep),
    decreases list.len(),
{
    let dl = list.drop_last();
    let df = list.drop_first();
    assert(join(list, sep) == join(dl, sep) + sep + list.last());
    if list.len() == 2 {
        assert(dl.len() == 1 && dl[0] == list[0]);
        assert(join(dl, sep) == list[0]);
        assert(df.len() == 1 && df[0] == list[1]);
        assert(join(df, sep) == list[1]);
    } else {
        lemma_join_front(dl, sep);
        assert(df.drop_last() =~= dl.drop_first());
        assert(df.last() == list.last());
        assert(join(df, sep) == join(df.drop_last(), sep) + sep + df.last());
        assert(join(list, sep) =~= list[0] + sep + join(df, sep));
    }
}

/// No string of `list` holds the character `c`.
pub open spec fn none_holds(list: Seq<Seq<char>>, c: char) -> bool {
    forall|i: int, j: int| 0 <= i < list.len() && 0 <= j < list[i].len() ==> list[i][j] != c
}

/// Splitting the strings of `list`, joined by `c`, at `c` gives them back when none holds `c`.
pub proof fn lemma_split_join(list: Seq<Seq<char>>, c: char)
    requires
        list.len() >= 1,
        none_holds(list, c),
    ensures
        split_on(join(list, seq![c]), c) == list,
    decreases list.len(),
{
    let a = list[0];
    if list.len() == 1 {
        lemma_find_char_at(a, c, a.len() as int);
        assert(seq![a] =~= list);
    } else {
        let rest = list.drop_first();
        lemma_join_front(list, seq![c]);
        lemma_split_join(rest, c);
        let s = join(list, seq![c]);
        assert forall|k: int| 0 <= k < a.len() implies s[k] != c by {
            assert(s[k] == a[k]);
            assert(list[0][k] != c);
        }
        assert(s[a.len() as int] == c);
        lemma_find_char_at(s, c, a.len() as int);
        assert(s.take(a.len() as int) =~= a);
        assert(s.skip(a.len() as int + 1) =~= join(rest, seq![c]));
        assert(seq![a] + rest =~= list);
    }
}

/// The strings of `list` are non-empty and hold no white space.
pub open spec fn plain_words(list: Seq<Seq<char>>) -> bool {
    forall|i: int| 0 <= i < list.len() ==> #[trigger] list[i].len() > 0 && forall|j: int|
        0 <= j < list[i].len() ==> !is_ws(#[trigger] list[i][j])
}

/// The words of non-empty, white-space-free strings joined by a space are those strings.
pub proof fn lemma_words_join(list: Seq<Seq<char>>)
    requires
        list.len() >= 1,
        plain_words(list),
    ensures
        words(join(list, seq![' '])) == list,
    decreases list.len(),
{
    let a = list[0];
    assert(list[0].len() > 0);
    if list.len() == 1 {
        lemma_word_len(a, a.len() as int);
        assert(join(list, seq![' ']) == a);
        assert(!is_ws(a[0]));
        assert(a.skip(a.len() as int) =~= Seq::<char>::empty());
        assert(words(a) == seq![a.take(a.len() as int)] + words(a.skip(a.len() as int)));
        assert(a.take(a.len() as int) =~= a);
        assert(seq![a] =~= list);
    } else {
        let rest = list.drop_first();
        assert forall|i: int| 0 <= i < rest.len() implies #[trigger] rest[i].len() > 0 && forall|j: int|
            0 <= j < rest[i].len() ==> !is_ws(#[trigger] rest[i][j]) by {
            assert(rest[i] == list[i + 1]);
        }
        lemma_join_front(list, seq![' ']);
        lemma_words_join(rest);
        let s = join(list, seq![' ']);
        assert forall|k: int| 0 <= k < a.len() implies !is_ws(#[trigger] s[k]) by {
            assert(s[k] == a[k]);
        }
        assert(s[a.len() as int] == ' ');
        lemma_word_len(s, a.len() as int);
        let t = s.skip(a.len() as int);
        assert(t[0] == ' ');
        assert(is_ws(t[0]));
        assert(t.drop_first() =~= join(rest, seq![' ']));
        assert(words(t) == words(t.drop_first()));
        assert(!is_ws(s[0]));
        assert(words(s) == seq![s.take(a.len() as int)] + words(t));
        assert(s.take(a.len() as int) =~= a);
        assert(seq![a] + rest =~= list);
    }
}

/// Joins the strings of `list` with `sep` between consecutive ones.
pub fn join_strings(list: &Vec<String>, sep: &str) -> (r: String)
    ensures
        r@ == join(strings_view(list@), sep@),
{
    let mut r = String::new();
    let ghost v = strings_view(list@);
    let mut i: usize = 0;
    while i < list.len()
        invariant
            i <= list@.len(),
            v == strings_view(list@),
            r@ == join(v.take(i as int), sep@),
        decreases list@.len() - i,
    {
        assert(v.take(i + 1).drop_last() =~= v.take(i as int));
        assert(v.take(i + 1).last() == list@[i as int]@);
        if i != 0 {
            r.append(sep);
        } else {
            assert(v.take(1) =~= seq![list@[0]@]);
        }
        r.append(list[i].as_str());
        i = i + 1;
    }
    assert(v.take(i as int) =~= v);
    r
}

/// Appends the characters of `s` to `out`.
pub fn push_str(out: &mut Vec<char>, s: &str)
    ensures
        final(out)@ == old(out)@ + s@,
{
    let cs = chars_of(s);
    let ghost start = out@;
    let mut i: usize = 0;
    while i < cs.len()
        invariant
            i <= cs@.len(),
            cs@ == s@,
            out@ == start + cs@.take(i as int),
        decreases cs@.len() - i,
    {
        out.push(cs[i]);
        i = i + 1;
        assert(out@ =~= start + cs@.take(i as int));
    }
    assert(cs@.take(i as int) =~= cs@);
}

/// Appends the characters of `s` to `out`.
pub fn push_string(out: &mut Vec<char>, s: &String)
    ensures
        final(out)@ == old(out)@ + s@,
{
    push_str(out, s.as_str());
}

/// A `String` of the characters in `cs`.
pub fn string_of(cs: &Vec<char>) -> (s: String)
    ensures
        s@ == cs@,
{
    string_from_chars(cs.as_slice(), 0, cs.len())
}

/// The text of a boolean, as `Display` writes it.
pub open spec fn bool_text(b: bool) -> Seq<char> {
    if b {
        "true"@
    } else {
        "false"@
    }
}

/// Appends the text of a boolean.
pub fn push_bool(out: &mut Vec<char>, b: bool)
    ensures
        final(out)@ == old(out)@ + bool_text(b),
{
    if b {
        push_str(out, "true");
    } else {
        push_str(out, "false");
    }
}

/// The lower-case hexadecimal text of `n`, zero-padded to `width` digits (`{:0width$x}`).
pub open spec fn hex(n: nat, width: nat) -> Seq<char> {
    radix_padded(n, 16, width)
}

/// The decimal text of a byte.
pub open spec fn dec8(v: u8) -> Seq<char> {
    decimal(v as nat)
}

/// The decimal text of a 16-bit number.
pub open spec fn dec16(v: u16) -> Seq<char> {
    decimal(v as nat)
}

/// The decimal text of a 32-bit number.
pub open spec fn dec32(v: u32) -> Seq<char> {
    decimal(v as nat)
}

/// The hexadecimal text of a byte, zero-padded to `width` digits.
pub open spec fn hex8(v: u8, width: nat) -> Seq<char> {
    hex(v as nat, width)
}

/// The hexadecimal text of a 16-bit number, zero-padded to `width` digits.
pub open spec fn hex16(v: u16, width: nat) -> Seq<char> {
    hex(v as nat, width)
}

/// The hexadecimal text of a 32-bit number, zero-padded to `width` digits.
pub open spec fn hex32(v: u32, width: nat) -> Seq<char> {
    hex(v as nat, width)
}

/// Appends the decimal text of `n`.
pub fn push_dec(out: &mut Vec<char>, n: u64)
    ensures
        final(out)@ == old(out)@ + decimal(n as nat),
{
    push_radix_digits(out, n, 10);
}

/// Appends the hexadecimal text of `n`, zero-padded to `width` digits.
pub fn push_hex(out: &mut Vec<char>, n: u64, width: usize)
    ensures
        final(out)@ == old(out)@ + hex(n as nat, width as nat),
{
    push_radix_padded(out, n, 16, width);
}

/// The upper-case character of a digit below 16.
pub open spec fn upper_digit_char(v: nat) -> char {
    if v < 10 {
        digit_char(v)
    } else if v == 10 {
        'A'
    } else if v == 11 {
        'B'
    } else if v == 12 {
        'C'
    } else if v == 13 {
        'D'
    } else if v == 14 {
        'E'
    } else {
        'F'
    }
}

/// The two upper-case hexadecimal digits of a byte (`{:02X}`).
pub open spec fn upper_hex2(b: u8) -> Seq<char> {
    seq![upper_digit_char((b / 16) as nat), upper_digit_char((b % 16) as nat)]
}

/// Appends the two upper-case hexadecimal digits of a byte.
pub fn push_upper_hex2(out: &mut Vec<char>, b: u8)
    ensures
        final(out)@ == old(out)@ + upper_hex2(b),
{
    let hi = (b / 16) as u64;
    let lo = (b % 16) as u64;
    let c1 = if hi < 10 {
        digit_char_of(hi)
    } else {
        match hi {
            10 => 'A',
            11 => 'B',
            12 => 'C',
            13 => 'D',
            14 => 'E',
            _ => 'F',
        }
    };
    let c2 = if lo < 10 {
        digit_char_of(lo)
    } else {
        match lo {
            10 => 'A',
            11 => 'B',
            12 => 'C',
            13 => 'D',
            14 => 'E',
            _ => 'F',
        }
    };
    out.push(c1);
    out.push(c2);
    assert(final(out)@ =~= old(out)@ + upper_hex2(b));
}

} // verus!
