//! Verified text helpers: decimal rendering, case-insensitive comparison,
//! trailing-newline trimming, search-path splitting and path joining.

use vstd::prelude::*;

verus! {

/// The decimal digit character for a value below ten.
pub open spec fn digit_char(d: nat) -> char {
    if d == 0 {
        '0'
    } else if d == 1 {
        '1'
    } else if d == 2 {
        '2'
    } else if d == 3 {
        '3'
    } else if d == 4 {
        '4'
    } else if d == 5 {
        '5'
    } else if d == 6 {
        '6'
    } else if d == 7 {
        '7'
    } else if d == 8 {
        '8'
    } else {
        '9'
    }
}

/// The decimal representation of a natural number, most significant digit first.
pub open spec fn spec_decimal(n: nat) -> Seq<char>
    decreases n,
{
    if n < 10 {
        seq![digit_char(n)]
    } else {
        spec_decimal(n / 10) + seq![digit_char(n % 10)]
    }
}

/// The decimal representation of an integer, with a leading minus sign when negative.
pub open spec fn spec_decimal_int(n: int) -> Seq<char> {
    if n < 0 {
        seq!['-'] + spec_decimal((-n) as nat)
    } else {
        spec_decimal(n as nat)
    }
}

fn digit_str(d: u64) -> (s: &'static str)
    requires
        d < 10,
    ensures
        s@ =~= seq![digit_char(d as nat)],
{
    proof {
        reveal_strlit("0");
        reveal_strlit("1");
        reveal_strlit("2");
        reveal_strlit("3");
        reveal_strlit("4");
        reveal_strlit("5");
        reveal_strlit("6");
        reveal_strlit("7");
        reveal_strlit("8");
        reveal_strlit("9");
    }
    match d {
        0 => "0",
        1 => "1",
        2 => "2",
        3 => "3",
        4 => "4",
        5 => "5",
        6 => "6",
        7 => "7",
        8 => "8",
        _ => "9",
    }
}

/// Renders a number in decimal, as the standard formatter would.
pub fn decimal_string(n: u64) -> (s: String)
    ensures
        s@ == spec_decimal(n as nat),
    decreases n,
{
    if n < 10 {
        let s = digit_str(n).to_owned();
        assert(s@ == spec_decimal(n as nat));
        s
    } else {
        let q = decimal_string(n / 10);
        let s = q.concat(digit_str(n % 10));
        assert(s@ == spec_decimal(n as nat));
        s
    }
}

/// Renders a signed number in decimal, as the standard formatter would.
pub fn decimal_string_i32(n: i32) -> (s: String)
    ensures
        s@ == spec_decimal_int(n as int),
{
    if n >= 0 {
        decimal_string(n as u64)
    } else {
        let wide: i64 = n as i64;
        let magnitude: u64 = (-wide) as u64;
        assert(magnitude as int == -(n as int));
        proof {
            reveal_strlit("-");
        }
        let s = String::from_str("-").concat(decimal_string(magnitude).as_str());
        assert(s@ =~= spec_decimal_int(n as int));
        s
    }
}

/// A sequence of characters with every trailing newline removed.
pub open spec fn spec_trim_newlines(s: Seq<char>) -> Seq<char>
    decreases s.len(),
{
    if s.len() > 0 && s.last() == '\n' {
        spec_trim_newlines(s.drop_last())
    } else {
        s
    }
}

/// Removes every trailing newline character, as trimming a `"\n"` pattern
/// from the end of a string does.
pub fn trim_trailing_newlines(s: &str) -> (r: String)
    ensures
        r@ == spec_trim_newlines(s@),
{
    let n = s.unicode_len();
    proof {
        assert(s@.subrange(0, n as int) =~= s@);
    }
    let mut k = n;
    while k > 0 && s.get_char(k - 1) == '\n'
        invariant
            k <= n,
            n == s@.len(),
            spec_trim_newlines(s@) == spec_trim_newlines(s@.subrange(0, k as int)),
        decreases k,
    {
        proof {
            assert(s@.subrange(0, k as int).drop_last() =~= s@.subrange(0, k - 1 as int));
        }
        k = k - 1;
    }
    let r = s.substring_char(0, k).to_owned();
    proof {
        if k > 0 {
            assert(s@.subrange(0, k as int).last() == s@[k - 1]);
        }
        assert(spec_trim_newlines(s@.subrange(0, k as int)) == s@.subrange(0, k as int));
    }
    r
}

/// A character with an ASCII capital letter folded to its small form,
/// given as a scalar value.
pub open spec fn fold_char(c: char) -> int {
    if 65 <= c as u32 && c as u32 <= 90 {
        c as u32 + 32
    } else {
        c as u32 as int
    }
}

/// Character sequences that are equal up to ASCII case.
pub open spec fn eq_ignore_case(a: Seq<char>, b: Seq<char>) -> bool {
    a.len() == b.len() && (forall|i: int| 0 <= i < a.len() ==> fold_char(a[i]) == fold_char(b[i]))
}

/// Compares two strings, treating ASCII capital and small letters alike.
pub fn eq_ignore_ascii_case(a: &str, b: &str) -> (r: bool)
    ensures
        r == eq_ignore_case(a@, b@),
{
    let alen = a.unicode_len();
    let blen = b.unicode_len();
    if alen != blen {
        return false;
    }
    let mut i: usize = 0;
    while i < alen
        invariant
            i <= alen,
            alen == a@.len(),
            alen == b@.len(),
            forall|j: int| 0 <= j < i ==> fold_char(a@[j]) == fold_char(b@[j]),
        decreases alen - i,
    {
        let ua = a.get_char(i) as u32;
        let ub = b.get_char(i) as u32;
        let fa = if 65 <= ua && ua <= 90 { ua + 32 } else { ua };
        let fb = if 65 <= ub && ub <= 90 { ub + 32 } else { ub };
        if fa != fb {
            assert(fold_char(a@[i as int]) != fold_char(b@[i as int]));
            return false;
        }
        i = i + 1;
    }
    true
}

/// Compares two strings character by character.
pub fn str_eq(a: &str, b: &str) -> (r: bool)
    ensures
        r == (a@ == b@),
{
    let alen = a.unicode_len();
    let blen = b.unicode_len();
    if alen != blen {
        return false;
    }
    let mut i: usize = 0;
    while i < alen
        invariant
            i <= alen,
            alen == a@.len(),
            alen == b@.len(),
            forall|j: int| 0 <= j < i ==> a@[j] == b@[j],
        decreases alen - i,
    {
        if a.get_char(i) != b.get_char(i) {
            assert(a@[i as int] != b@[i as int]);
            return false;
        }
        i = i + 1;
    }
    assert(a@ =~= b@);
    true
}

/// A line of equals signs of the given length.
pub open spec fn spec_underline(n: nat) -> Seq<char> {
    Seq::new(n, |i: int| '=')
}

/// Builds a line of equals signs of the given length, used to underline a
/// heading on the terminal.
pub fn underline(n: usize) -> (s: String)
    ensures
        s@ == spec_underline(n as nat),
{
    proof {
        reveal_strlit("=");
    }
    let mut s = String::new();
    let mut i: usize = 0;
    while i < n
        invariant
            i <= n,
            s@ =~= spec_underline(i as nat),
        decreases n - i,
    {
        proof {
            reveal_strlit("=");
        }
        s.append("=");
        i = i + 1;
        assert(s@ =~= spec_underline(i as nat));
    }
    assert(s@ =~= spec_underline(n as nat));
    s
}

/// The candidate path for a file of the given name inside a directory:
/// the two joined with a path separator unless one is already present.
pub open spec fn spec_tool_path(dir: Seq<char>, name: Seq<char>) -> Seq<char> {
    if dir.len() == 0 {
        name
    } else if dir.last() == '/' {
        dir + name
    } else {
        dir + seq!['/'] + name
    }
}

/// Joins a directory and a file name with a path separator.
pub fn tool_path(dir: &str, name: &str) -> (p: String)
    ensures
        p@ == spec_tool_path(dir@, name@),
{
    let n = dir.unicode_len();
    if n == 0 {
        return name.to_owned();
    }
    if dir.get_char(n - 1) == '/' {
        String::from_str(dir).concat(name)
    } else {
        proof {
            reveal_strlit("/");
        }
        let p = String::from_str(dir).concat("/").concat(name);
        assert(p@ =~= spec_tool_path(dir@, name@));
        p
    }
}

/// The pieces joined back together with the separator between them.
pub open spec fn spec_joined(pieces: Seq<Seq<char>>, sep: char) -> Seq<char>
    decreases pieces.len(),
{
    if pieces.len() == 0 {
        Seq::empty()
    } else if pieces.len() == 1 {
        pieces[0]
    } else {
        pieces[0] + seq![sep] + spec_joined(pieces.drop_first(), sep)
    }
}

proof fn lemma_joined_cut(pieces: Seq<Seq<char>>, a: Seq<char>, b: Seq<char>, sep: char)
    ensures
        spec_joined(pieces.push(a + seq![sep] + b), sep) == spec_joined(
            pieces.push(a).push(b),
            sep,
        ),
    decreases pieces.len(),
{
    if pieces.len() == 0 {
        let two = pieces.push(a).push(b);
        assert(two.drop_first() =~= seq![b]);
        assert(spec_joined(seq![b], sep) == b);
        assert(two[0] == a);
        assert(spec_joined(two, sep) == two[0] + seq![sep] + spec_joined(two.drop_first(), sep));
        assert(pieces.push(a + seq![sep] + b) =~= seq![a + seq![sep] + b]);
        assert(spec_joined(seq![a + seq![sep] + b], sep) == a + seq![sep] + b);
    } else {
        let rest = pieces.drop_first();
        lemma_joined_cut(rest, a, b, sep);
        assert(pieces.push(a + seq![sep] + b).drop_first() =~= rest.push(a + seq![sep] + b));
        assert(pieces.push(a).push(b).drop_first() =~= rest.push(a).push(b));
        assert(pieces.push(a + seq![sep] + b)[0] == pieces[0]);
        assert(pieces.push(a).push(b)[0] == pieces[0]);
    }
}

/// Splits a search-path string on `':'`.  The result is characterised
/// exactly: the pieces contain no separator, and joining them with the
/// separator restores the input.
pub fn split_search_path(s: &str) -> (r: Vec<String>)
    ensures
        r@.len() >= 1,
        spec_joined(r.deep_view(), ':') == s@,
        forall|i: int, j: int|
            0 <= i < r.deep_view().len() && 0 <= j < r.deep_view()[i].len() ==> r.deep_view()[i][j]
                != ':',
{
    let n = s.unicode_len();
    let mut pieces: Vec<String> = Vec::new();
    let mut start: usize = 0;
    let mut i: usize = 0;
    while i < n
        invariant
            start <= i <= n,
            n == s@.len(),
            spec_joined(pieces.deep_view().push(s@.subrange(start as int, n as int)), ':') == s@,
            forall|k: int, j: int|
                0 <= k < pieces.deep_view().len() && 0 <= j < pieces.deep_view()[k].len()
                    ==> pieces.deep_view()[k][j] != ':',
            forall|j: int| start <= j < i ==> s@[j] != ':',
        decreases n - i,
    {
        if s.get_char(i) == ':' {
            let piece = s.substring_char(start, i).to_owned();
            let ghost old_pieces = pieces.deep_view();
            pieces.push(piece);
            proof {
                assert(pieces.deep_view() =~= old_pieces.push(s@.subrange(
                    start as int,
                    i as int,
                )));
                assert(s@.subrange(start as int, n as int) =~= s@.subrange(start as int, i as int)
                    + seq![':'] + s@.subrange(i + 1, n as int));
                lemma_joined_cut(
                    old_pieces,
                    s@.subrange(start as int, i as int),
                    s@.subrange(i + 1, n as int),
                    ':',
                );
            }
            start = i + 1;
        }
        i = i + 1;
    }
    let piece = s.substring_char(start, n).to_owned();
    let ghost old_pieces = pieces.deep_view();
    pieces.push(piece);
    proof {
        assert(pieces.deep_view() =~= old_pieces.push(s@.subrange(start as int, n as int)));
    }
    pieces
}

} // verus!
