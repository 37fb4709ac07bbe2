//! Text operations on character sequences.
//!
//! Contracts speak of a string through its view, a `Seq<char>`. The algorithms
//! work on a `Vec<char>` copy of the text, so every position is a character and
//! never a byte offset.

use vstd::prelude::*;

verus! {

/// The characters of `s`, in order.
pub fn chars_of(s: &str) -> (out: Vec<char>)
    ensures
        out@ == s@,
{
    let mut out: Vec<char> = Vec::new();
    for c in it: s.chars()
        invariant
            out@ == it.seq().take(it.index()),
            it.seq() == s@,
    {
        out.push(c);
    }
    out
}

/// `needle` stands in `hay` at position `at`.
pub open spec fn occurs_at(hay: Seq<char>, needle: Seq<char>, at: int) -> bool {
    &&& 0 <= at
    &&& at + needle.len() <= hay.len()
    &&& hay.subrange(at, at + needle.len()) == needle
}

/// `needle` stands somewhere in `hay`. The empty text stands in every text.
pub open spec fn contains_text(hay: Seq<char>, needle: Seq<char>) -> bool {
    exists|at: int| occurs_at(hay, needle, at)
}

/// `prefix` stands at the start of `s`.
pub open spec fn starts_with_text(s: Seq<char>, prefix: Seq<char>) -> bool {
    occurs_at(s, prefix, 0)
}

fn occurs_at_chars(hay: &Vec<char>, needle: &Vec<char>, at: usize) -> (r: bool)
    requires
        at + needle.len() <= hay.len(),
    ensures
        r == occurs_at(hay@, needle@, at as int),
{
    let mut j: usize = 0;
    while j < needle.len()
        invariant
            j <= needle.len(),
            at + needle.len() <= hay.len(),
            forall|k: int| 0 <= k < j ==> hay@[at + k] == needle@[k],
        decreases needle.len() - j,
    {
        if hay[at + j] != needle[j] {
            assert(hay@.subrange(at as int, at + needle.len())[j as int] == hay@[at + j]);
            return false;
        }
        j += 1;
    }
    assert(hay@.subrange(at as int, at + needle.len()) =~= needle@);
    true
}

/// Whether `needle` occurs in `hay`, as `str::contains` decides it for a text pattern.
pub fn contains(hay: &str, needle: &str) -> (r: bool)
    ensures
        r == contains_text(hay@, needle@),
{
    let h = chars_of(hay);
    let n = chars_of(needle);
    if n.len() > h.len() {
        return false;
    }
    let last: usize = h.len() - n.len();
    let mut at: usize = 0;
    while at < last
        invariant
            h@ == hay@,
            n@ == needle@,
            n.len() <= h.len(),
            last == h.len() - n.len(),
            at <= last,
            forall|k: int| 0 <= k < at ==> !occurs_at(h@, n@, k),
        decreases last - at,
    {
        if occurs_at_chars(&h, &n, at) {
            return true;
        }
        at += 1;
    }
    occurs_at_chars(&h, &n, last)
}

/// Whether `a` and `b` are the same text.
pub fn equal(a: &str, b: &str) -> (r: bool)
    ensures
        r == (a@ == b@),
{
    let x = chars_of(a);
    let y = chars_of(b);
    if x.len() != y.len() {
        return false;
    }
    assert(x@.subrange(0, x@.len() as int) =~= x@);
    occurs_at_chars(&x, &y, 0)
}

/// Whether `s` begins with `prefix`.
pub fn starts_with(s: &str, prefix: &str) -> (r: bool)
    ensures
        r == starts_with_text(s@, prefix@),
{
    let h = chars_of(s);
    let n = chars_of(prefix);
    if n.len() > h.len() {
        return false;
    }
    occurs_at_chars(&h, &n, 0)
}

/// `s` without the run of `c` that it begins with.
pub open spec fn skip_leading(s: Seq<char>, c: char) -> Seq<char>
    decreases s.len(),
{
    if s.len() > 0 && s[0] == c {
        skip_leading(s.drop_first(), c)
    } else {
        s
    }
}

/// Skipping the leading run of `c` a second time changes nothing: what is left
/// after the first time begins with no `c`.
pub proof fn leading_run_is_skipped_once(s: Seq<char>, c: char)
    ensures
        skip_leading(skip_leading(s, c), c) == skip_leading(s, c),
        skip_leading(s, c).len() > 0 ==> skip_leading(s, c)[0] != c,
    decreases s.len(),
{
    if s.len() > 0 && s[0] == c {
        leading_run_is_skipped_once(s.drop_first(), c);
    }
}

proof fn lemma_skip_leading_run(s: Seq<char>, c: char, n: int)
    requires
        0 <= n <= s.len(),
        forall|k: int| 0 <= k < n ==> s[k] == c,
    ensures
        skip_leading(s, c) == skip_leading(s.subrange(n, s.len() as int), c),
    decreases n,
{
    if n == 0 {
        assert(s.subrange(0, s.len() as int) =~= s);
    } else {
        let rest = s.drop_first();
        assert forall|k: int| 0 <= k < n - 1 implies rest[k] == c by {
            assert(rest[k] == s[k + 1]);
        }
        lemma_skip_leading_run(rest, c, n - 1);
        assert(rest.subrange(n - 1, rest.len() as int) =~= s.subrange(n, s.len() as int));
    }
}

/// `s` without its leading run of `c`, as `str::trim_start_matches` gives it for a
/// character pattern.
pub fn trim_start_matches(s: &str, c: char) -> (r: String)
    ensures
        r@ == skip_leading(s@, c),
{
    let chars = chars_of(s);
    let mut n: usize = 0;
    while n < chars.len() && chars[n] == c
        invariant
            n <= chars.len(),
            forall|k: int| 0 <= k < n ==> chars@[k] == c,
        decreases chars.len() - n,
    {
        n += 1;
    }
    proof {
        lemma_skip_leading_run(s@, c, n as int);
    }
    let tail = s.substring_char(n, chars.len());
    String::from_str(tail)
}

/// The texts of `items` with `sep` between each two neighbours.
pub open spec fn join_text(items: Seq<Seq<char>>, sep: Seq<char>) -> Seq<char>
    decreases items.len(),
{
    if items.len() == 0 {
        Seq::empty()
    } else if items.len() == 1 {
        items[0]
    } else {
        join_text(items.drop_last(), sep) + sep + items.last()
    }
}

/// The items joined by `sep`, as `join` on a slice of strings gives them.
pub fn join(items: &Vec<String>, sep: &str) -> (r: String)
    ensures
        r@ == join_text(items.deep_view(), sep@),
{
    let mut out = String::new();
    let ghost all = items.deep_view();
    let mut i: usize = 0;
    while i < items.len()
        invariant
            i <= items.len(),
            all == items.deep_view(),
            out@ == join_text(all.take(i as int), sep@),
        decreases items.len() - i,
    {
        proof {
            assert(all.take(i + 1).drop_last() =~= all.take(i as int));
            assert(all.take(i + 1).last() == items[i as int]@);
        }
        if i > 0 {
            out.append(sep);
        }
        out.append(items[i].as_str());
        i += 1;
    }
    assert(all.take(items.len() as int) =~= all);
    out
}

/// `a` followed by `b`.
pub fn concat(a: &str, b: &str) -> (r: String)
    ensures
        r@ == a@ + b@,
{
    let mut out = String::from_str(a);
    out.append(b);
    out
}

/// The lowercase form of a text as the standard library computes it.
pub uninterp spec fn lowercase_of(s: Seq<char>) -> Seq<char>;

/// Calls `str::to_lowercase`. The contract gives the result its name and claims
/// nothing more of it: the mapping is the Unicode one and is not restated here.
#[verifier::external_body]
pub(crate) fn to_lowercase(s: &str) -> (r: String)
    ensures
        r@ == lowercase_of(s@),
{
    s.to_lowercase()
}

/// A character that the standard library counts as white space: the Unicode
/// property `White_Space`.
pub open spec fn is_space(c: char) -> bool {
    let code = c as u32;
    ||| 0x09 <= code <= 0x0D
    ||| code == 0x20
    ||| code == 0x85
    ||| code == 0xA0
    ||| code == 0x1680
    ||| 0x2000 <= code <= 0x200A
    ||| code == 0x2028
    ||| code == 0x2029
    ||| code == 0x202F
    ||| code == 0x205F
    ||| code == 0x3000
}

/// Whether `c` is white space, as `char::is_whitespace` decides it.
pub fn is_whitespace(c: char) -> (r: bool)
    ensures
        r == is_space(c),
{
    let code: u32 = c as u32;
    (0x09 <= code && code <= 0x0D) || code == 0x20 || code == 0x85 || code == 0xA0 || code == 0x1680
        || (0x2000 <= code && code <= 0x200A) || code == 0x2028 || code == 0x2029 || code
        == 0x202F || code == 0x205F || code == 0x3000
}

/// `s` without the white space that it begins with.
pub open spec fn skip_leading_spaces(s: Seq<char>) -> Seq<char>
    decreases s.len(),
{
    if s.len() > 0 && is_space(s[0]) {
        skip_leading_spaces(s.drop_first())
    } else {
        s
    }
}

/// `s` without the white space that it ends with.
pub open spec fn skip_trailing_spaces(s: Seq<char>) -> Seq<char>
    decreases s.len(),
{
    if s.len() > 0 && is_space(s.last()) {
        skip_trailing_spaces(s.drop_last())
    } else {
        s
    }
}

/// `s` without the white space at either end.
pub open spec fn trim_text(s: Seq<char>) -> Seq<char> {
    skip_trailing_spaces(skip_leading_spaces(s))
}

proof fn lemma_skip_leading_spaces(s: Seq<char>, n: int)
    requires
        0 <= n <= s.len(),
        forall|k: int| 0 <= k < n ==> is_space(s[k]),
        n < s.len() ==> !is_space(s[n]),
    ensures
        skip_leading_spaces(s) == s.subrange(n, s.len() as int),
    decreases n,
{
    if n == 0 {
        assert(s.subrange(0, s.len() as int) =~= s);
    } else {
        let rest = s.drop_first();
        assert forall|k: int| 0 <= k < n - 1 implies is_space(rest[k]) by {
            assert(rest[k] == s[k + 1]);
        }
        lemma_skip_leading_spaces(rest, n - 1);
        assert(rest.subrange(n - 1, rest.len() as int) =~= s.subrange(n, s.len() as int));
    }
}

proof fn lemma_skip_trailing_spaces(s: Seq<char>, n: int)
    requires
        0 <= n <= s.len(),
        forall|k: int| n <= k < s.len() ==> is_space(s[k]),
        n > 0 ==> !is_space(s[n - 1]),
    ensures
        skip_trailing_spaces(s) == s.subrange(0, n),
    decreases s.len() - n,
{
    if n == s.len() {
        assert(s.subrange(0, n) =~= s);
    } else {
        let rest = s.drop_last();
        lemma_skip_trailing_spaces(rest, n);
        assert(rest.subrange(0, n) =~= s.subrange(0, n));
    }
}

/// `s` without the white space at either end, as `str::trim` gives it.
pub fn trim(s: &str) -> (r: String)
    ensures
        r@ == trim_text(s@),
{
    let chars = chars_of(s);
    let mut from: usize = 0;
    while from < chars.len() && is_whitespace(chars[from])
        invariant
            from <= chars.len(),
            forall|k: int| 0 <= k < from ==> is_space(chars@[k]),
        decreases chars.len() - from,
    {
        from += 1;
    }
    let mut to: usize = chars.len();
    while to > from && is_whitespace(chars[to - 1])
        invariant
            from <= to <= chars.len(),
            forall|k: int| to <= k < chars.len() ==> is_space(chars@[k]),
        decreases to,
    {
        to -= 1;
    }
    proof {
        lemma_skip_leading_spaces(s@, from as int);
        let tail = s@.subrange(from as int, s@.len() as int);
        assert forall|k: int| to - from <= k < tail.len() implies is_space(tail[k]) by {
            assert(tail[k] == s@[k + from]);
        }
        lemma_skip_trailing_spaces(tail, to - from);
        assert(tail.subrange(0, to - from) =~= s@.subrange(from as int, to as int));
    }
    String::from_str(s.substring_char(from, to))
}

/// How many characters of `s` come before the first `sep`; all of them where
/// there is none.
pub open spec fn position_of(s: Seq<char>, sep: char) -> int
    decreases s.len(),
{
    if s.len() == 0 || s[0] == sep {
        0
    } else {
        1 + position_of(s.drop_first(), sep)
    }
}

proof fn lemma_position_of(s: Seq<char>, sep: char, n: int)
    requires
        0 <= n <= s.len(),
        forall|k: int| 0 <= k < n ==> s[k] != sep,
        n < s.len() ==> s[n] == sep,
    ensures
        position_of(s, sep) == n,
    decreases n,
{
    if n > 0 {
        let rest = s.drop_first();
        assert forall|k: int| 0 <= k < n - 1 implies rest[k] != sep by {
            assert(rest[k] == s[k + 1]);
        }
        lemma_position_of(rest, sep, n - 1);
    }
}

proof fn lemma_position_in_range(s: Seq<char>, sep: char)
    ensures
        0 <= position_of(s, sep) <= s.len(),
    decreases s.len(),
{
    if s.len() > 0 && s[0] != sep {
        lemma_position_in_range(s.drop_first(), sep);
    }
}

/// The pieces of `s` between its `sep` characters, in order. A text without `sep`
/// is one piece, and two neighbouring `sep` have an empty piece between them.
pub open spec fn split_text(s: Seq<char>, sep: char) -> Seq<Seq<char>>
    decreases s.len(),
    via split_text_decreases
{
    let cut = position_of(s, sep);
    if cut >= s.len() {
        seq![s]
    } else {
        seq![s.subrange(0, cut)] + split_text(s.subrange(cut + 1, s.len() as int), sep)
    }
}

#[via_fn]
proof fn split_text_decreases(s: Seq<char>, sep: char) {
    lemma_position_in_range(s, sep);
}

proof fn lemma_position_of_concat(x: Seq<char>, w: Seq<char>, sep: char)
    ensures
        position_of(x + w, sep) == if position_of(x, sep) < x.len() {
            position_of(x, sep)
        } else {
            x.len() + position_of(w, sep)
        },
    decreases x.len(),
{
    lemma_position_in_range(x, sep);
    if x.len() == 0 {
        assert(x + w =~= w);
    } else {
        assert((x + w)[0] == x[0]);
        if x[0] != sep {
            assert((x + w).drop_first() =~= x.drop_first() + w);
            lemma_position_of_concat(x.drop_first(), w, sep);
        }
    }
}

/// A text without `sep` is one piece.
pub proof fn lemma_split_whole(s: Seq<char>, sep: char)
    requires
        forall|k: int| 0 <= k < s.len() ==> s[k] != sep,
    ensures
        split_text(s, sep) == seq![s],
{
    lemma_position_of(s, sep, s.len() as int);
}

/// The pieces of two texts with a `sep` between them are the pieces of the first
/// and then the pieces of the second.
pub proof fn lemma_split_joined(x: Seq<char>, y: Seq<char>, sep: char)
    ensures
        split_text(x + seq![sep] + y, sep) == split_text(x, sep) + split_text(y, sep),
    decreases x.len(),
{
    let z = x + seq![sep] + y;
    let cut = position_of(x, sep);
    lemma_position_in_range(x, sep);
    lemma_position_of_concat(x, seq![sep] + y, sep);
    assert(z =~= x + (seq![sep] + y));
    assert((seq![sep] + y)[0] == sep);
    if cut < x.len() {
        let rest = x.subrange(cut + 1, x.len() as int);
        assert(z.subrange(0, cut) =~= x.subrange(0, cut));
        assert(z.subrange(cut + 1, z.len() as int) =~= rest + seq![sep] + y);
        lemma_split_joined(rest, y, sep);
        assert(seq![x.subrange(0, cut)] + (split_text(rest, sep) + split_text(y, sep)) =~= (seq![
            x.subrange(0, cut),
        ] + split_text(rest, sep)) + split_text(y, sep));
    } else {
        assert(position_of(z, sep) == x.len());
        assert(z.subrange(0, x.len() as int) =~= x);
        assert(z.subrange(x.len() as int + 1, z.len() as int) =~= y);
    }
}

/// The pieces of `s` between its `sep` characters, as `str::split` gives them for
/// a character pattern.
pub fn split(s: &str, sep: char) -> (r: Vec<String>)
    ensures
        r.deep_view() == split_text(s@, sep),
{
    let chars = chars_of(s);
    let mut out: Vec<String> = Vec::new();
    let mut start: usize = 0;
    let mut i: usize = 0;
    proof {
        assert(s@.subrange(0, s@.len() as int) =~= s@);
        assert(out.deep_view() + split_text(s@, sep) =~= split_text(s@, sep));
    }
    while i < chars.len()
        invariant
            chars@ == s@,
            start <= i <= chars.len(),
            forall|k: int| start <= k < i ==> chars@[k] != sep,
            split_text(s@, sep) == out.deep_view() + split_text(
                s@.subrange(start as int, s@.len() as int),
                sep,
            ),
        decreases chars.len() - i,
    {
        if chars[i] == sep {
            let piece = String::from_str(s.substring_char(start, i));
            proof {
                let tail = s@.subrange(start as int, s@.len() as int);
                assert forall|k: int| 0 <= k < i - start implies tail[k] != sep by {
                    assert(tail[k] == s@[k + start]);
                }
                lemma_position_of(tail, sep, i - start);
                assert(tail.subrange(0, i - start) =~= s@.subrange(start as int, i as int));
                assert(tail.subrange(i - start + 1, tail.len() as int) =~= s@.subrange(
                    i + 1,
                    s@.len() as int,
                ));
                assert(out.deep_view().push(piece@) + split_text(
                    s@.subrange(i + 1, s@.len() as int),
                    sep,
                ) =~= out.deep_view() + split_text(tail, sep));
            }
            let ghost before = out.deep_view();
            out.push(piece);
            assert(out.deep_view() =~= before.push(piece@));
            start = i + 1;
        }
        i += 1;
    }
    let piece = String::from_str(s.substring_char(start, chars.len()));
    proof {
        let tail = s@.subrange(start as int, s@.len() as int);
        assert forall|k: int| 0 <= k < tail.len() implies tail[k] != sep by {
            assert(tail[k] == s@[k + start]);
        }
        lemma_position_of(tail, sep, tail.len() as int);
        assert(out.deep_view().push(piece@) =~= out.deep_view() + split_text(tail, sep));
    }
    let ghost before = out.deep_view();
    out.push(piece);
    assert(out.deep_view() =~= before.push(piece@));
    out
}

/// How many characters of `s` come before its first white space; all of them
/// where there is none.
pub open spec fn word_len(s: Seq<char>) -> int
    decreases s.len(),
{
    if s.len() == 0 || is_space(s[0]) {
        0
    } else {
        1 + word_len(s.drop_first())
    }
}

proof fn lemma_word_len(s: Seq<char>, n: int)
    requires
        0 <= n <= s.len(),
        forall|k: int| 0 <= k < n ==> !is_space(s[k]),
        n < s.len() ==> is_space(s[n]),
    ensures
        word_len(s) == n,
    decreases n,
{
    if n > 0 {
        let rest = s.drop_first();
        assert forall|k: int| 0 <= k < n - 1 implies !is_space(rest[k]) by {
            assert(rest[k] == s[k + 1]);
        }
        lemma_word_len(rest, n - 1);
    }
}

proof fn lemma_word_len_in_range(s: Seq<char>)
    ensures
        0 <= word_len(s) <= s.len(),
        s.len() > 0 && !is_space(s[0]) ==> word_len(s) >= 1,
    decreases s.len(),
{
    if s.len() > 0 && !is_space(s[0]) {
        lemma_word_len_in_range(s.drop_first());
    }
}

/// The words of `s`: its longest runs of characters that are no white space, in
/// order.
pub open spec fn words_of(s: Seq<char>) -> Seq<Seq<char>>
    decreases s.len(),
    via words_of_decreases
{
    if s.len() == 0 {
        Seq::empty()
    } else if is_space(s[0]) {
        words_of(s.drop_first())
    } else {
        let n = word_len(s);
        seq![s.subrange(0, n)] + words_of(s.subrange(n, s.len() as int))
    }
}

#[via_fn]
proof fn words_of_decreases(s: Seq<char>) {
    lemma_word_len_in_range(s);
}

proof fn lemma_words_skip_spaces(s: Seq<char>, n: int)
    requires
        0 <= n <= s.len(),
        forall|k: int| 0 <= k < n ==> is_space(s[k]),
    ensures
        words_of(s) == words_of(s.subrange(n, s.len() as int)),
    decreases n,
{
    if n == 0 {
        assert(s.subrange(0, s.len() as int) =~= s);
    } else {
        let rest = s.drop_first();
        assert forall|k: int| 0 <= k < n - 1 implies is_space(rest[k]) by {
            assert(rest[k] == s[k + 1]);
        }
        lemma_words_skip_spaces(rest, n - 1);
        assert(rest.subrange(n - 1, rest.len() as int) =~= s.subrange(n, s.len() as int));
    }
}

/// The words of `s`, as `str::split_whitespace` gives them.
pub fn split_whitespace(s: &str) -> (r: Vec<String>)
    ensures
        r.deep_view() == words_of(s@),
{
    let chars = chars_of(s);
    let mut out: Vec<String> = Vec::new();
    let mut i: usize = 0;
    proof {
        assert(s@.subrange(0, s@.len() as int) =~= s@);
        assert(out.deep_view() + words_of(s@) =~= words_of(s@));
    }
    while i < chars.len()
        invariant
            chars@ == s@,
            i <= chars.len(),
            words_of(s@) == out.deep_view() + words_of(s@.subrange(i as int, s@.len() as int)),
        decreases chars.len() - i,
    {
        let ghost tail = s@.subrange(i as int, s@.len() as int);
        if is_whitespace(chars[i]) {
            proof {
                assert(tail[0] == s@[i as int]);
                assert(tail.drop_first() =~= s@.subrange(i + 1, s@.len() as int));
            }
            i += 1;
        } else {
            let start = i;
            while i < chars.len() && !is_whitespace(chars[i])
                invariant
                    chars@ == s@,
                    start <= i <= chars.len(),
                    forall|k: int| start <= k < i ==> !is_space(chars@[k]),
                decreases chars.len() - i,
            {
                i += 1;
            }
            let word = String::from_str(s.substring_char(start, i));
            proof {
                assert(tail[0] == s@[start as int]);
                assert forall|k: int| 0 <= k < i - start implies !is_space(tail[k]) by {
                    assert(tail[k] == s@[k + start]);
                }
                if i < chars.len() {
                    assert(tail[i - start] == s@[i as int]);
                }
                lemma_word_len(tail, i - start);
                assert(tail.subrange(0, i - start) =~= s@.subrange(start as int, i as int));
                assert(tail.subrange(i - start, tail.len() as int) =~= s@.subrange(
                    i as int,
                    s@.len() as int,
                ));
                assert(out.deep_view().push(word@) + words_of(
                    s@.subrange(i as int, s@.len() as int),
                ) =~= out.deep_view() + words_of(tail));
            }
            let ghost before = out.deep_view();
            out.push(word);
            assert(out.deep_view() =~= before.push(word@));
        }
    }
    proof {
        assert(s@.subrange(s@.len() as int, s@.len() as int) =~= Seq::<char>::empty());
        assert(out.deep_view() + Seq::<Seq<char>>::empty() =~= out.deep_view());
    }
    out
}

/// `s` with `to` after each of its characters.
pub open spec fn follow_each(s: Seq<char>, to: Seq<char>) -> Seq<char>
    decreases s.len(),
{
    if s.len() == 0 {
        Seq::empty()
    } else {
        seq![s[0]] + to + follow_each(s.drop_first(), to)
    }
}

/// `s` with every occurrence of `from` replaced by `to`, found from the left and
/// never overlapping. The empty text occurs before every character and at the
/// end.
pub open spec fn replace_text(s: Seq<char>, from: Seq<char>, to: Seq<char>) -> Seq<char>
    decreases s.len(),
{
    if from.len() == 0 {
        to + follow_each(s, to)
    } else if s.len() < from.len() {
        s
    } else if s.subrange(0, from.len() as int) == from {
        to + replace_text(s.subrange(from.len() as int, s.len() as int), from, to)
    } else {
        seq![s[0]] + replace_text(s.drop_first(), from, to)
    }
}

fn put_between(s: &str, to: &str) -> (r: String)
    ensures
        r@ == to@ + follow_each(s@, to@),
{
    let count = s.unicode_len();
    let mut out = String::from_str(to);
    let mut i: usize = 0;
    proof {
        assert(s@.subrange(0, s@.len() as int) =~= s@);
    }
    while i < count
        invariant
            count == s@.len(),
            i <= count,
            to@ + follow_each(s@, to@) == out@ + follow_each(
                s@.subrange(i as int, s@.len() as int),
                to@,
            ),
        decreases count - i,
    {
        let ghost tail = s@.subrange(i as int, s@.len() as int);
        let ghost before = out@;
        out.append(s.substring_char(i, i + 1));
        out.append(to);
        proof {
            assert(tail[0] == s@[i as int]);
            assert(s@.subrange(i as int, i + 1) =~= seq![tail[0]]);
            assert(tail.drop_first() =~= s@.subrange(i + 1, s@.len() as int));
            assert(out@ + follow_each(s@.subrange(i + 1, s@.len() as int), to@) =~= before
                + follow_each(tail, to@));
        }
        i += 1;
    }
    proof {
        assert(s@.subrange(s@.len() as int, s@.len() as int) =~= Seq::<char>::empty());
        assert(out@ + Seq::<char>::empty() =~= out@);
    }
    out
}

/// `s` with every occurrence of the pattern `from` replaced by `to`, as
/// `str::replace` gives it for a text pattern.
pub fn replace(s: &str, from: &str, to: &str) -> (r: String)
    ensures
        r@ == replace_text(s@, from@, to@),
{
    if from.unicode_len() == 0 {
        return put_between(s, to);
    }
    let chars = chars_of(s);
    let pattern = chars_of(from);
    let mut out = String::new();
    let mut kept: usize = 0;
    let mut i: usize = 0;
    proof {
        assert(s@.subrange(0, s@.len() as int) =~= s@);
        assert(out@ + s@.subrange(0, 0) + replace_text(s@, from@, to@) =~= replace_text(
            s@,
            from@,
            to@,
        ));
    }
    while i < chars.len() && chars.len() - i >= pattern.len()
        invariant
            chars@ == s@,
            pattern@ == from@,
            pattern.len() > 0,
            kept <= i <= chars.len(),
            replace_text(s@, from@, to@) == out@ + s@.subrange(kept as int, i as int)
                + replace_text(s@.subrange(i as int, s@.len() as int), from@, to@),
        decreases chars.len() - i,
    {
        let ghost tail = s@.subrange(i as int, s@.len() as int);
        let ghost before = out@;
        if occurs_at_chars(&chars, &pattern, i) {
            out.append(s.substring_char(kept, i));
            out.append(to);
            proof {
                assert(tail.subrange(0, from@.len() as int) =~= s@.subrange(
                    i as int,
                    i + from@.len(),
                ));
                assert(tail.subrange(from@.len() as int, tail.len() as int) =~= s@.subrange(
                    i + from@.len(),
                    s@.len() as int,
                ));
                assert(s@.subrange(i + from@.len(), i + from@.len()) =~= Seq::<char>::empty());
                assert(out@ + s@.subrange(i + from@.len(), i + from@.len()) + replace_text(
                    s@.subrange(i + from@.len(), s@.len() as int),
                    from@,
                    to@,
                ) =~= before + s@.subrange(kept as int, i as int) + replace_text(tail, from@, to@));
            }
            i += pattern.len();
            kept = i;
        } else {
            proof {
                assert(tail.subrange(0, from@.len() as int) =~= s@.subrange(
                    i as int,
                    i + from@.len(),
                ));
                assert(tail.drop_first() =~= s@.subrange(i + 1, s@.len() as int));
                assert(tail[0] == s@[i as int]);
                assert(s@.subrange(kept as int, i + 1) =~= s@.subrange(kept as int, i as int)
                    + seq![s@[i as int]]);
                assert(out@ + s@.subrange(kept as int, i + 1) + replace_text(
                    s@.subrange(i + 1, s@.len() as int),
                    from@,
                    to@,
                ) =~= before + s@.subrange(kept as int, i as int) + replace_text(tail, from@, to@));
            }
            i += 1;
        }
    }
    let ghost before = out@;
    out.append(s.substring_char(kept, chars.len()));
    proof {
        let tail = s@.subrange(i as int, s@.len() as int);
        assert(replace_text(tail, from@, to@) == tail);
        assert(before + s@.subrange(kept as int, s@.len() as int) =~= before + s@.subrange(
            kept as int,
            i as int,
        ) + tail);
    }
    out
}

/// The character of a decimal digit.
pub open spec fn digit_char(d: int) -> char {
    if d == 0 {
        '0'
    } else if d == 1 {
        '1'
    } else if d == 2 {
        '2'
    } else if d == 3 {
        '3'
    } else if d == 4 {
        '4'
    } else if d == 5 {
        '5'
    } else if d == 6 {
        '6'
    } else if d == 7 {
        '7'
    } else if d == 8 {
        '8'
    } else {
        '9'
    }
}

/// A number in decimal digits, without leading zeros.
pub open spec fn decimal_text(n: nat) -> Seq<char>
    decreases n,
{
    if n < 10 {
        seq![digit_char(n as int)]
    } else {
        decimal_text(n / 10).push(digit_char((n % 10) as int))
    }
}

fn digit_text(d: u64) -> (r: &'static str)
    requires
        d < 10,
    ensures
        r@ == seq![digit_char(d as int)],
{
    proof {
        reveal_strlit("0");
        reveal_strlit("1");
        reveal_strlit("2");
        reveal_strlit("3");
        reveal_strlit("4");
        reveal_strlit("5");
        reveal_strlit("6");
        reveal_strlit("7");
        reveal_strlit("8");
        reveal_strlit("9");
    }
    let r = if d == 0 {
        "0"
    } else if d == 1 {
        "1"
    } else if d == 2 {
        "2"
    } else if d == 3 {
        "3"
    } else if d == 4 {
        "4"
    } else if d == 5 {
        "5"
    } else if d == 6 {
        "6"
    } else if d == 7 {
        "7"
    } else if d == 8 {
        "8"
    } else {
        "9"
    };
    assert(r@ =~= seq![digit_char(d as int)]);
    r
}

/// `n` in decimal digits, as the standard library prints an unsigned integer.
pub fn decimal(n: u64) -> (r: String)
    ensures
        r@ == decimal_text(n as nat),
    decreases n,
{
    if n < 10 {
        String::from_str(digit_text(n))
    } else {
        let mut out = decimal(n / 10);
        out.append(digit_text(n % 10));
        assert(out@ =~= decimal_text((n / 10) as nat).push(digit_char((n % 10) as int)));
        out
    }
}

/// `a` comes before `b` in the order of the dictionary, character by character
/// by code point: the order in which the standard library sorts strings.
pub open spec fn text_lt(a: Seq<char>, b: Seq<char>) -> bool
    decreases a.len(),
{
    if b.len() == 0 {
        false
    } else if a.len() == 0 {
        true
    } else if a[0] != b[0] {
        a[0] < b[0]
    } else {
        text_lt(a.drop_first(), b.drop_first())
    }
}

/// No text comes before itself.
pub proof fn lemma_text_lt_irreflexive(a: Seq<char>)
    ensures
        !text_lt(a, a),
    decreases a.len(),
{
    if a.len() > 0 {
        lemma_text_lt_irreflexive(a.drop_first());
    }
}

/// The order is transitive.
pub proof fn lemma_text_lt_transitive(a: Seq<char>, b: Seq<char>, c: Seq<char>)
    requires
        text_lt(a, b),
        text_lt(b, c),
    ensures
        text_lt(a, c),
    decreases a.len(),
{
    if a.len() > 0 && b.len() > 0 && c.len() > 0 {
        if a[0] == b[0] && b[0] == c[0] {
            lemma_text_lt_transitive(a.drop_first(), b.drop_first(), c.drop_first());
        }
    }
}

/// Of two different texts one comes before the other.
pub proof fn lemma_text_lt_total(a: Seq<char>, b: Seq<char>)
    ensures
        a == b || text_lt(a, b) || text_lt(b, a),
    decreases a.len(),
{
    if a.len() > 0 && b.len() > 0 {
        if a[0] == b[0] {
            lemma_text_lt_total(a.drop_first(), b.drop_first());
            if a.drop_first() == b.drop_first() {
                assert(a =~= seq![a[0]] + a.drop_first());
                assert(b =~= seq![b[0]] + b.drop_first());
            }
        }
    } else if a.len() == 0 && b.len() == 0 {
        assert(a =~= b);
    }
}

fn chars_less_than(a: &Vec<char>, b: &Vec<char>) -> (r: bool)
    ensures
        r == text_lt(a@, b@),
{
    let mut i: usize = 0;
    proof {
        assert(a@.subrange(0, a@.len() as int) =~= a@);
        assert(b@.subrange(0, b@.len() as int) =~= b@);
    }
    while i < a.len() && i < b.len()
        invariant
            i <= a.len(),
            i <= b.len(),
            text_lt(a@, b@) == text_lt(
                a@.subrange(i as int, a@.len() as int),
                b@.subrange(i as int, b@.len() as int),
            ),
        decreases a.len() - i,
    {
        let ghost ta = a@.subrange(i as int, a@.len() as int);
        let ghost tb = b@.subrange(i as int, b@.len() as int);
        assert(ta[0] == a@[i as int] && tb[0] == b@[i as int]);
        if a[i] != b[i] {
            return a[i] < b[i];
        }
        proof {
            assert(ta.drop_first() =~= a@.subrange(i + 1, a@.len() as int));
            assert(tb.drop_first() =~= b@.subrange(i + 1, b@.len() as int));
        }
        i += 1;
    }
    i < b.len()
}

/// Whether `a` sorts before `b`.
pub fn less_than(a: &str, b: &str) -> (r: bool)
    ensures
        r == text_lt(a@, b@),
{
    let x = chars_of(a);
    let y = chars_of(b);
    chars_less_than(&x, &y)
}

} // verus!
