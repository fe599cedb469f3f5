//! Text helpers: decimal numbers, comma-separated lists, file suffixes.

use vstd::prelude::*;

verus! {

/// The decimal digit of a number below ten.
pub open spec fn digit_char(d: nat) -> char {
    if d == 0 { '0' } else if d == 1 { '1' } else if d == 2 { '2' } else if d == 3 { '3' }
    else if d == 4 { '4' } else if d == 5 { '5' } else if d == 6 { '6' } else if d == 7 { '7' }
    else if d == 8 { '8' } else { '9' }
}

/// The decimal form of a number, without leading zeros.
pub open spec fn decimal(n: nat) -> Seq<char>
    decreases n,
{
    if n < 10 {
        seq![digit_char(n)]
    } else {
        decimal(n / 10).push(digit_char(n % 10))
    }
}

fn digit_string(d: u64) -> (r: String)
    requires
        d < 10,
    ensures
        r@ == seq![digit_char(d as nat)],
{
    proof {
        reveal_strlit("0");
        reveal_strlit("1");
        reveal_strlit("2");
        reveal_strlit("3");
        reveal_strlit("4");
        reveal_strlit("5");
        reveal_strlit("6");
        reveal_strlit("7");
        reveal_strlit("8");
        reveal_strlit("9");
    }
    let s = if d == 0 { "0" } else if d == 1 { "1" } else if d == 2 { "2" } else if d == 3 { "3" }
    else if d == 4 { "4" } else if d == 5 { "5" } else if d == 6 { "6" } else if d == 7 { "7" }
    else if d == 8 { "8" } else { "9" };
    let r = String::from_str(s);
    assert(r@ =~= seq![digit_char(d as nat)]);
    r
}

/// The decimal form of `n`.
pub fn decimal_string(n: u64) -> (r: String)
    ensures
        r@ == decimal(n as nat),
    decreases n,
{
    if n < 10 {
        digit_string(n)
    } else {
        let mut s = decimal_string(n / 10);
        let d = digit_string(n % 10);
        s.append(d.as_str());
        assert(s@ =~= decimal(n as nat));
        s
    }
}

/// The decimal form of a signed number.
pub open spec fn signed_decimal(n: int) -> Seq<char> {
    if n < 0 {
        seq!['-'] + decimal((-n) as nat)
    } else {
        decimal(n as nat)
    }
}

/// The decimal form of `n`, with a minus sign where it is negative.
pub fn i32_string(n: i32) -> (r: String)
    ensures
        r@ == signed_decimal(n as int),
{
    if n < 0 {
        let m: i64 = -(n as i64);
        let mut r = String::from_str("-");
        let digits = decimal_string(m as u64);
        r.append(digits.as_str());
        proof {
            reveal_strlit("-");
        }
        assert(r@ =~= signed_decimal(n as int));
        r
    } else {
        decimal_string(n as u64)
    }
}

/// The pieces of a text between its commas; a text without commas is one piece.
pub open spec fn comma_pieces(s: Seq<char>) -> Seq<Seq<char>>
    decreases s.len(),
{
    if s.len() == 0 {
        seq![Seq::empty()]
    } else if s.last() == ',' {
        comma_pieces(s.drop_last()).push(Seq::empty())
    } else {
        let p = comma_pieces(s.drop_last());
        p.update(p.len() - 1, p.last().push(s.last()))
    }
}

proof fn lemma_comma_pieces_nonempty(s: Seq<char>)
    ensures
        comma_pieces(s).len() >= 1,
    decreases s.len(),
{
    if s.len() > 0 {
        lemma_comma_pieces_nonempty(s.drop_last());
    }
}

/// The pieces of `s` between its commas.
pub fn split_commas(s: &str) -> (r: Vec<String>)
    ensures
        r@.map_values(|p: String| p@) == comma_pieces(s@),
{
    let n = s.unicode_len();
    let mut out: Vec<String> = Vec::new();
    let mut start: usize = 0;
    let mut i: usize = 0;
    proof {
        assert(s@.subrange(0, 0) =~= Seq::<char>::empty());
        assert(out@.map_values(|p: String| p@).push(s@.subrange(0, 0)) =~= seq![Seq::<char>::empty()]);
    }
    while i < n
        invariant
            n == s@.len(),
            0 <= start <= i <= n,
            out@.map_values(|p: String| p@).push(s@.subrange(start as int, i as int)) == comma_pieces(
                s@.subrange(0, i as int),
            ),
        decreases n - i,
    {
        let c = s.get_char(i);
        proof {
            assert(s@.subrange(0, i + 1).drop_last() =~= s@.subrange(0, i as int));
            lemma_comma_pieces_nonempty(s@.subrange(0, i as int));
        }
        if c == ',' {
            let piece = String::from_str(s.substring_char(start, i));
            out.push(piece);
            start = i + 1;
            proof {
                assert(out@.map_values(|p: String| p@) =~= out@.drop_last().map_values(|p: String| p@).push(piece@));
                assert(s@.subrange(start as int, i + 1) =~= Seq::<char>::empty());
            }
        } else {
            proof {
                assert(s@.subrange(start as int, i + 1) =~= s@.subrange(start as int, i as int).push(c));
                let p = comma_pieces(s@.subrange(0, i as int));
                assert(out@.map_values(|p: String| p@).push(s@.subrange(start as int, i + 1)) =~= p.update(
                    p.len() - 1,
                    p.last().push(c),
                ));
            }
        }
        i = i + 1;
    }
    let last = String::from_str(s.substring_char(start, n));
    out.push(last);
    proof {
        assert(s@.subrange(0, n as int) =~= s@);
        assert(out@.map_values(|p: String| p@) =~= out@.drop_last().map_values(|p: String| p@).push(last@));
    }
    out
}

/// A character with ASCII capitals made small.
pub open spec fn ascii_lower(c: char) -> char {
    if 'A' <= c && c <= 'Z' {
        (((c as u8) + 32) as u8) as char
    } else {
        c
    }
}

fn ascii_lower_char(c: char) -> (r: char)
    ensures
        r == ascii_lower(c),
{
    if 'A' <= c && c <= 'Z' {
        ((c as u8) + 32) as char
    } else {
        c
    }
}

/// Whether `t` matches the LIKE pattern `p`: `%` stands for any run of
/// characters, `_` for one character, other characters for themselves, ASCII
/// letters compared without case.
pub open spec fn like_match(t: Seq<char>, p: Seq<char>) -> bool
    decreases p.len(), t.len(),
{
    if p.len() == 0 {
        t.len() == 0
    } else if p[0] == '%' {
        like_match(t, p.drop_first()) || (t.len() > 0 && like_match(t.drop_first(), p))
    } else if t.len() == 0 {
        false
    } else if p[0] == '_' {
        like_match(t.drop_first(), p.drop_first())
    } else {
        ascii_lower(t[0]) == ascii_lower(p[0]) && like_match(t.drop_first(), p.drop_first())
    }
}

/// The characters of a text.
pub fn chars_of(s: &str) -> (r: Vec<char>)
    ensures
        r@ == s@,
{
    let n = s.unicode_len();
    let mut r: Vec<char> = Vec::new();
    let mut i: usize = 0;
    while i < n
        invariant
            n == s@.len(),
            0 <= i <= n,
            r@ == s@.subrange(0, i as int),
        decreases n - i,
    {
        r.push(s.get_char(i));
        i = i + 1;
        assert(r@ =~= s@.subrange(0, i as int));
    }
    assert(r@ =~= s@);
    r
}

fn like_from(t: &Vec<char>, p: &Vec<char>, i: usize, j: usize) -> (r: bool)
    requires
        i <= t@.len(),
        j <= p@.len(),
    ensures
        r == like_match(t@.subrange(i as int, t@.len() as int), p@.subrange(j as int, p@.len() as int)),
    decreases p@.len() - j, t@.len() - i,
{
    let ghost ts = t@.subrange(i as int, t@.len() as int);
    let ghost ps = p@.subrange(j as int, p@.len() as int);
    if j < p.len() {
        assert(ps.drop_first() =~= p@.subrange(j + 1, p@.len() as int));
    }
    if i < t.len() {
        assert(ts.drop_first() =~= t@.subrange(i + 1, t@.len() as int));
    }
    if j == p.len() {
        i == t.len()
    } else if p[j] == '%' {
        if like_from(t, p, i, j + 1) {
            true
        } else {
            i < t.len() && like_from(t, p, i + 1, j)
        }
    } else if i == t.len() {
        false
    } else if p[j] == '_' {
        like_from(t, p, i + 1, j + 1)
    } else {
        ascii_lower_char(t[i]) == ascii_lower_char(p[j]) && like_from(t, p, i + 1, j + 1)
    }
}

/// The pattern that finds a query anywhere in a text.
pub open spec fn anywhere(q: Seq<char>) -> Seq<char> {
    seq!['%'] + q + seq!['%']
}

/// Whether `t` matches the LIKE pattern `%q%`.
pub fn contains_text(t: &str, q: &str) -> (r: bool)
    ensures
        r == like_match(t@, anywhere(q@)),
{
    let tc = chars_of(t);
    let mut pc: Vec<char> = Vec::new();
    pc.push('%');
    let qc = chars_of(q);
    let mut k: usize = 0;
    while k < qc.len()
        invariant
            0 <= k <= qc@.len(),
            pc@ == seq!['%'] + qc@.subrange(0, k as int),
        decreases qc@.len() - k,
    {
        pc.push(qc[k]);
        k = k + 1;
        assert(pc@ =~= seq!['%'] + qc@.subrange(0, k as int));
    }
    pc.push('%');
    assert(pc@ =~= anywhere(q@));
    assert(tc@.subrange(0, tc@.len() as int) =~= tc@);
    assert(pc@.subrange(0, pc@.len() as int) =~= pc@);
    like_from(&tc, &pc, 0, 0)
}

/// The text after the last dot of a path; empty where there is no dot.
pub open spec fn file_suffix(s: Seq<char>) -> Seq<char>
    decreases s.len(),
{
    if s.len() == 0 || s.last() == '.' {
        Seq::empty()
    } else {
        if exists|k: int| 0 <= k < s.len() && s[k] == '.' {
            file_suffix(s.drop_last()).push(s.last())
        } else {
            Seq::empty()
        }
    }
}

/// The text after the last dot of `s`.
pub fn get_url_file_suffix(s: &str) -> (r: String)
    ensures
        r@ == file_suffix(s@),
{
    let n = s.unicode_len();
    let mut dot: Option<usize> = None;
    let mut i: usize = 0;
    while i < n
        invariant
            n == s@.len(),
            0 <= i <= n,
            match dot {
                Some(d) => d < i && s@[d as int] == '.' && forall|k: int| d < k < i ==> s@[k] != '.',
                None => forall|k: int| 0 <= k < i ==> s@[k] != '.',
            },
        decreases n - i,
    {
        if s.get_char(i) == '.' {
            dot = Some(i);
        }
        i = i + 1;
    }
    match dot {
        Some(d) => {
            let r = String::from_str(s.substring_char(d + 1, n));
            proof {
                lemma_file_suffix_after(s@, d as int);
            }
            r
        },
        None => {
            proof {
                lemma_file_suffix_none(s@);
            }
            String::new()
        },
    }
}

proof fn lemma_file_suffix_none(s: Seq<char>)
    requires
        forall|k: int| 0 <= k < s.len() ==> s[k] != '.',
    ensures
        file_suffix(s) == Seq::<char>::empty(),
{
}

proof fn lemma_file_suffix_after(s: Seq<char>, d: int)
    requires
        0 <= d < s.len(),
        s[d] == '.',
        forall|k: int| d < k < s.len() ==> s[k] != '.',
    ensures
        file_suffix(s) == s.subrange(d + 1, s.len() as int),
    decreases s.len(),
{
    if s.len() - 1 == d {
        assert(s.subrange(d + 1, s.len() as int) =~= Seq::<char>::empty());
    } else {
        let t = s.drop_last();
        assert(t[d] == '.');
        lemma_file_suffix_after(t, d);
        assert(s.subrange(d + 1, s.len() as int) =~= t.subrange(d + 1, t.len() as int).push(s.last()));
    }
}

} // verus!
