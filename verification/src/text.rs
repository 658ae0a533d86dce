//! Text building blocks shared by the formatter and the dispatcher:
//! decimal rendering, substring search, prefix tests, whitespace splitting,
//! joining, and the payload escaping rules.
//!
//! All specifications are stated over `Seq<char>` views; the executable
//! functions are verified against them.

use vstd::prelude::*;
use vstd::string::*;

verus! {

/// Appends one character to a string.
///
/// Relies on `String::push`, which the standard library documents as
/// appending exactly the given `char` to the end of the string.
#[verifier::external_body]
pub(crate) fn push_char(s: &mut String, c: char)
    ensures
        final(s)@ == old(s)@.push(c),
{
    s.push(c);
}

/// The decimal digit character for `n` (defined for `n < 10`).
pub open spec fn spec_digit(n: nat) -> char {
    if n == 0 {
        '0'
    } else if n == 1 {
        '1'
    } else if n == 2 {
        '2'
    } else if n == 3 {
        '3'
    } else if n == 4 {
        '4'
    } else if n == 5 {
        '5'
    } else if n == 6 {
        '6'
    } else if n == 7 {
        '7'
    } else if n == 8 {
        '8'
    } else {
        '9'
    }
}

/// The decimal rendering of `n`, without leading zeros (except for `0`
/// itself).
pub open spec fn spec_dec(n: nat) -> Seq<char>
    decreases n,
{
    if n < 10 {
        seq![spec_digit(n)]
    } else {
        spec_dec(n / 10).push(spec_digit(n % 10))
    }
}

/// The decimal digit character for `d`, executably.
fn digit_char(d: u64) -> (c: char)
    requires
        d < 10,
    ensures
        c == spec_digit(d as nat),
{
    match d {
        0 => '0',
        1 => '1',
        2 => '2',
        3 => '3',
        4 => '4',
        5 => '5',
        6 => '6',
        7 => '7',
        8 => '8',
        _ => '9',
    }
}

/// Renders `n` in decimal.
pub fn u64_to_dec(n: u64) -> (r: String)
    ensures
        r@ == spec_dec(n as nat),
    decreases n,
{
    if n < 10 {
        let mut s = String::new();
        push_char(&mut s, digit_char(n));
        proof {
            assert(s@ =~= spec_dec(n as nat));
        }
        s
    } else {
        let mut s = u64_to_dec(n / 10);
        push_char(&mut s, digit_char(n % 10));
        s
    }
}

/// `needle` occurs in `hay` starting at position `i`.
pub open spec fn spec_contains_at(hay: Seq<char>, needle: Seq<char>, i: int) -> bool {
    0 <= i && i + needle.len() <= hay.len() && hay.subrange(i, i + needle.len() as int) == needle
}

/// `needle` occurs somewhere in `hay` (every string contains the empty one).
pub open spec fn spec_contains(hay: Seq<char>, needle: Seq<char>) -> bool {
    exists|i: int| spec_contains_at(hay, needle, i)
}

/// `s` begins with `prefix`.
pub open spec fn spec_starts_with(s: Seq<char>, prefix: Seq<char>) -> bool {
    prefix.len() <= s.len() && s.subrange(0, prefix.len() as int) == prefix
}

/// Whether `needle` occurs in `hay` at position `i`, executably.
fn match_at(hay: &str, needle: &str, i: usize) -> (r: bool)
    requires
        i + needle@.len() <= hay@.len(),
        hay@.len() <= usize::MAX,
    ensures
        r == spec_contains_at(hay@, needle@, i as int),
{
    let n = needle.unicode_len();
    let mut j: usize = 0;
    while j < n
        invariant
            n == needle@.len(),
            i + n <= hay@.len(),
            hay@.len() <= usize::MAX,
            0 <= j <= n,
            forall|k: int| 0 <= k < j ==> hay@[i + k] == needle@[k],
        decreases n - j,
    {
        if hay.get_char(i + j) != needle.get_char(j) {
            proof {
                assert(hay@.subrange(i as int, i + n) != needle@) by {
                    assert(hay@.subrange(i as int, i + n)[j as int] == hay@[i + j]);
                }
            }
            return false;
        }
        j += 1;
    }
    proof {
        assert(hay@.subrange(i as int, i + n) =~= needle@);
    }
    true
}

/// Whether `s` begins with `prefix`, executably.
pub fn str_starts_with(s: &str, prefix: &str) -> (r: bool)
    ensures
        r == spec_starts_with(s@, prefix@),
{
    let n = prefix.unicode_len();
    if n > s.unicode_len() {
        return false;
    }
    match_at(s, prefix, 0)
}

/// Whether `needle` occurs anywhere in `hay`, executably.
pub fn str_contains(hay: &str, needle: &str) -> (r: bool)
    ensures
        r == spec_contains(hay@, needle@),
{
    let h = hay.unicode_len();
    let n = needle.unicode_len();
    if n > h {
        proof {
            assert(forall|i: int| !spec_contains_at(hay@, needle@, i));
        }
        return false;
    }
    let mut i: usize = 0;
    loop
        invariant
            h == hay@.len(),
            n == needle@.len(),
            n <= h,
            0 <= i <= h - n,
            forall|k: int| 0 <= k < i ==> !spec_contains_at(hay@, needle@, k),
        decreases h - n - i,
    {
        if match_at(hay, needle, i) {
            return true;
        }
        if i == h - n {
            proof {
                assert(forall|k: int| k > h - n ==> !spec_contains_at(hay@, needle@, k));
            }
            return false;
        }
        i += 1;
    }
}

/// How one character is escaped before being embedded between double quotes:
/// backslash and double quote receive a preceding backslash, every other
/// character is kept as it is.
pub open spec fn spec_escape_char(c: char) -> Seq<char> {
    if c == '\\' {
        seq!['\\', '\\']
    } else if c == '"' {
        seq!['\\', '"']
    } else {
        seq![c]
    }
}

/// The escaping of a whole text, character by character.
pub open spec fn spec_escape(s: Seq<char>) -> Seq<char>
    decreases s.len(),
{
    if s.len() == 0 {
        Seq::empty()
    } else {
        spec_escape(s.drop_last()) + spec_escape_char(s.last())
    }
}

/// Appends the escaped form of `s` to `out`.
pub fn append_escaped(out: &mut String, s: &str)
    ensures
        final(out)@ == old(out)@ + spec_escape(s@),
{
    let len = s.unicode_len();
    let mut i: usize = 0;
    while i < len
        invariant
            len == s@.len(),
            0 <= i <= len,
            out@ == old(out)@ + spec_escape(s@.take(i as int)),
        decreases len - i,
    {
        let c = s.get_char(i);
        if c == '\\' {
            push_char(out, '\\');
            push_char(out, '\\');
        } else if c == '"' {
            push_char(out, '\\');
            push_char(out, '"');
        } else {
            push_char(out, c);
        }
        proof {
            assert(s@.take(i + 1).drop_last() =~= s@.take(i as int));
            assert(s@.take(i + 1).last() == s@[i as int]);
            assert(out@ =~= old(out)@ + spec_escape(s@.take(i + 1)));
        }
        i += 1;
    }
    proof {
        assert(s@.take(len as int) =~= s@);
    }
}

/// The pieces of `s` cut at every space character: splitting keeps empty
/// pieces, so consecutive spaces and leading or trailing spaces contribute
/// empty tokens, and the empty text yields one empty token.
pub open spec fn spec_split_spaces(s: Seq<char>) -> Seq<Seq<char>>
    decreases s.len(),
{
    if s.len() == 0 {
        seq![Seq::<char>::empty()]
    } else if s[0] == ' ' {
        seq![Seq::<char>::empty()] + spec_split_spaces(s.drop_first())
    } else {
        let rest = spec_split_spaces(s.drop_first());
        seq![seq![s[0]] + rest[0]] + rest.drop_first()
    }
}

/// Splitting always yields at least one piece.
proof fn lemma_split_spaces_nonempty(s: Seq<char>)
    ensures
        spec_split_spaces(s).len() >= 1,
    decreases s.len(),
{
    if s.len() > 0 {
        lemma_split_spaces_nonempty(s.drop_first());
    }
}

/// A text without spaces is its own single piece.
proof fn lemma_split_no_space(s: Seq<char>)
    requires
        forall|j: int| 0 <= j < s.len() ==> s[j] != ' ',
    ensures
        spec_split_spaces(s) == seq![s],
    decreases s.len(),
{
    if s.len() == 0 {
        assert(spec_split_spaces(s) =~~= seq![s]);
    } else {
        lemma_split_no_space(s.drop_first());
        lemma_split_spaces_nonempty(s.drop_first());
        assert(seq![s[0]] + s.drop_first() =~= s);
        assert(spec_split_spaces(s) =~~= seq![s]);
    }
}

/// Splitting at the first space: the space-free part before it is the first
/// piece, and the remainder is split on its own.
proof fn lemma_split_at_space(s: Seq<char>, k: int)
    requires
        0 <= k < s.len(),
        s[k] == ' ',
        forall|j: int| 0 <= j < k ==> s[j] != ' ',
    ensures
        spec_split_spaces(s) == seq![s.take(k)] + spec_split_spaces(s.skip(k + 1)),
    decreases k,
{
    if k == 0 {
        assert(s.drop_first() =~= s.skip(1));
        assert(spec_split_spaces(s) =~~= seq![s.take(0)] + spec_split_spaces(s.skip(1)));
    } else {
        lemma_split_at_space(s.drop_first(), k - 1);
        lemma_split_spaces_nonempty(s.drop_first().skip(k));
        assert(s.drop_first().take(k - 1) =~= s.take(k).drop_first());
        assert(s.drop_first().skip(k) =~= s.skip(k + 1));
        assert(seq![s[0]] + s.take(k).drop_first() =~= s.take(k));
        assert(spec_split_spaces(s) =~~= seq![s.take(k)] + spec_split_spaces(s.skip(k + 1)));
    }
}

/// Splits `s` at every space character, executably.
pub fn split_spaces(s: &str) -> (r: Vec<String>)
    ensures
        r.deep_view() == spec_split_spaces(s@),
    decreases s@.len(),
{
    let len = s.unicode_len();
    let mut j: usize = 0;
    while j < len && s.get_char(j) != ' '
        invariant
            len == s@.len(),
            0 <= j <= len,
            forall|t: int| 0 <= t < j ==> s@[t] != ' ',
        decreases len - j,
    {
        j += 1;
    }
    if j == len {
        let mut v: Vec<String> = Vec::new();
        v.push(s.to_owned());
        proof {
            lemma_split_no_space(s@);
            assert(v.deep_view() =~~= spec_split_spaces(s@));
        }
        v
    } else {
        let head = s.substring_char(0, j).to_owned();
        let rest = s.substring_char(j + 1, len);
        let mut v = split_spaces(rest);
        v.insert(0, head);
        proof {
            lemma_split_at_space(s@, j as int);
            assert(rest@ =~= s@.skip(j + 1));
            assert(head@ =~= s@.take(j as int));
            assert(v.deep_view() =~~= spec_split_spaces(s@));
        }
        v
    }
}

/// The pieces of `parts` glued back together with a single space between
/// consecutive pieces.
pub open spec fn spec_join_spaces(parts: Seq<Seq<char>>) -> Seq<char>
    decreases parts.len(),
{
    if parts.len() == 0 {
        Seq::empty()
    } else if parts.len() == 1 {
        parts[0]
    } else {
        spec_join_spaces(parts.drop_last()) + seq![' '] + parts.last()
    }
}

/// Joins `parts` with single spaces, executably.
pub fn join_spaces(parts: &Vec<String>) -> (r: String)
    ensures
        r@ == spec_join_spaces(parts.deep_view()),
{
    let mut out = String::new();
    let mut i: usize = 0;
    while i < parts.len()
        invariant
            0 <= i <= parts.len(),
            parts.deep_view().len() == parts.len(),
            out@ == spec_join_spaces(parts.deep_view().take(i as int)),
        decreases parts.len() - i,
    {
        if i > 0 {
            push_char(&mut out, ' ');
        }
        out.append(parts[i].as_str());
        proof {
            let dv = parts.deep_view();
            assert(dv.take(i + 1).drop_last() =~= dv.take(i as int));
            assert(dv.take(i + 1).last() == dv[i as int]);
            assert(parts[i as int].deep_view() == dv[i as int]);
            if i == 0 {
                assert(out@ =~= spec_join_spaces(dv.take(1)));
            } else {
                assert(out@ =~= spec_join_spaces(dv.take(i + 1)));
            }
        }
        i += 1;
    }
    proof {
        assert(parts.deep_view().take(parts.deep_view().len() as int) =~= parts.deep_view());
    }
    out
}

} // verus!
