//! Verified text building blocks: decimal rendering of integers and
//! splitting a string on single spaces, as the generator's argument list
//! requires.

use vstd::prelude::*;
use vstd::string::*;

verus! {

/// The decimal digit character for a value below ten.
pub open spec fn digit_char(d: nat) -> char {
    if d == 0 {
        '0'
    } else if d == 1 {
        '1'
    } else if d == 2 {
        '2'
    } else if d == 3 {
        '3'
    } else if d == 4 {
        '4'
    } else if d == 5 {
        '5'
    } else if d == 6 {
        '6'
    } else if d == 7 {
        '7'
    } else if d == 8 {
        '8'
    } else {
        '9'
    }
}

/// The decimal rendering of a natural number, most significant digit first,
/// with no leading zeros (a single `'0'` for zero).
pub open spec fn dec_chars(n: nat) -> Seq<char>
    decreases n,
{
    if n < 10 {
        seq![digit_char(n)]
    } else {
        dec_chars(n / 10).push(digit_char(n % 10))
    }
}

/// The decimal rendering of an integer: a leading `'-'` when negative.
pub open spec fn sdec_chars(n: int) -> Seq<char> {
    if n >= 0 {
        dec_chars(n as nat)
    } else {
        seq!['-'] + dec_chars((-n) as nat)
    }
}

/// The one-character string for a decimal digit.
fn digit_str(d: u8) -> (r: &'static str)
    requires
        d < 10,
    ensures
        r@ == seq![digit_char(d as nat)],
{
    let r: &'static str = if d == 0 {
        "0"
    } else if d == 1 {
        "1"
    } else if d == 2 {
        "2"
    } else if d == 3 {
        "3"
    } else if d == 4 {
        "4"
    } else if d == 5 {
        "5"
    } else if d == 6 {
        "6"
    } else if d == 7 {
        "7"
    } else if d == 8 {
        "8"
    } else {
        "9"
    };
    proof {
        reveal_strlit("0");
        reveal_strlit("1");
        reveal_strlit("2");
        reveal_strlit("3");
        reveal_strlit("4");
        reveal_strlit("5");
        reveal_strlit("6");
        reveal_strlit("7");
        reveal_strlit("8");
        reveal_strlit("9");
        assert(r@ =~= seq![digit_char(d as nat)]);
    }
    r
}

/// Renders an unsigned value in decimal.
pub fn u64_to_dec(n: u64) -> (r: String)
    ensures
        r@ == dec_chars(n as nat),
    decreases n,
{
    if n < 10 {
        digit_str(n as u8).to_owned()
    } else {
        let mut s = u64_to_dec(n / 10);
        s.append(digit_str((n % 10) as u8));
        proof {
            assert(s@ =~= dec_chars(n as nat));
        }
        s
    }
}

/// Renders a signed value in decimal, with a leading minus sign when negative.
pub fn i32_to_dec(n: i32) -> (r: String)
    ensures
        r@ == sdec_chars(n as int),
{
    if n >= 0 {
        u64_to_dec(n as u64)
    } else {
        let mag: u64 = (-(n as i64)) as u64;
        let mut s = "-".to_owned();
        let digits = u64_to_dec(mag);
        s.append(digits.as_str());
        proof {
            reveal_strlit("-");
            assert(s@ =~= sdec_chars(n as int));
        }
        s
    }
}

/// Splitting a character sequence on every single space, keeping empty
/// pieces, as `str::split(' ')` does: the result always has at least one
/// piece, and joining the pieces with single spaces gives back the input.
pub open spec fn split_sp(s: Seq<char>) -> Seq<Seq<char>>
    decreases s.len(),
{
    if s.len() == 0 {
        seq![Seq::<char>::empty()]
    } else if s[0] == ' ' {
        seq![Seq::<char>::empty()] + split_sp(s.skip(1))
    } else {
        let rest = split_sp(s.skip(1));
        seq![seq![s[0]] + rest[0]] + rest.skip(1)
    }
}

/// `split_sp` never returns an empty list of pieces.
pub proof fn lemma_split_sp_len(s: Seq<char>)
    ensures
        split_sp(s).len() >= 1,
    decreases s.len(),
{
    if s.len() != 0 && s[0] != ' ' {
        lemma_split_sp_len(s.skip(1));
    }
}

/// The pieces joined back together, with a single space between them.
pub open spec fn join_sp(pieces: Seq<Seq<char>>) -> Seq<char>
    decreases pieces.len(),
{
    if pieces.len() == 0 {
        Seq::<char>::empty()
    } else if pieces.len() == 1 {
        pieces[0]
    } else {
        pieces[0] + seq![' '] + join_sp(pieces.skip(1))
    }
}

/// Splitting loses nothing: joining the pieces with single spaces gives back
/// the input.
pub proof fn lemma_split_sp_join(s: Seq<char>)
    ensures
        join_sp(split_sp(s)) == s,
    decreases s.len(),
{
    if s.len() == 0 {
    } else if s[0] == ' ' {
        lemma_split_sp_join(s.skip(1));
        lemma_split_sp_len(s.skip(1));
        let pieces = seq![Seq::<char>::empty()] + split_sp(s.skip(1));
        assert(pieces.skip(1) =~~= split_sp(s.skip(1)));
        assert(pieces.len() >= 2);
        assert(join_sp(pieces) == pieces[0] + seq![' '] + join_sp(pieces.skip(1)));
        assert(join_sp(pieces.skip(1)) == join_sp(split_sp(s.skip(1))));
        assert(join_sp(pieces) =~= s);
    } else {
        lemma_split_sp_join(s.skip(1));
        lemma_split_sp_len(s.skip(1));
        let rest = split_sp(s.skip(1));
        let pieces = seq![seq![s[0]] + rest[0]] + rest.skip(1);
        assert(pieces[0] == seq![s[0]] + rest[0]);
        if rest.len() == 1 {
            assert(pieces.len() == 1);
            assert(join_sp(rest) == rest[0]);
            assert(join_sp(pieces) == pieces[0]);
            assert(rest[0] == s.skip(1));
            assert(seq![s[0]] + s.skip(1) =~= s);
        } else {
            assert(pieces.skip(1) =~~= rest.skip(1));
            assert(pieces.len() == rest.len());
            assert(join_sp(rest) == rest[0] + seq![' '] + join_sp(rest.skip(1)));
            assert(join_sp(pieces) == pieces[0] + seq![' '] + join_sp(pieces.skip(1)));
            assert(join_sp(pieces.skip(1)) == join_sp(rest.skip(1)));
            assert(join_sp(pieces) =~= seq![s[0]] + join_sp(rest));
            assert(seq![s[0]] + s.skip(1) =~= s);
        }
    }
}

/// Splitting a sequence whose first `k` characters hold no space: either the
/// whole sequence is one piece, or the first piece ends at the space at `k`.
proof fn lemma_split_sp_at(s: Seq<char>, k: int)
    requires
        0 <= k <= s.len(),
        forall|j: int| 0 <= j < k ==> s[j] != ' ',
        k == s.len() || s[k] == ' ',
    ensures
        k == s.len() ==> split_sp(s) =~~= seq![s],
        k < s.len() ==> split_sp(s) =~~= seq![s.take(k)] + split_sp(s.skip(k + 1)),
    decreases k,
{
    if k == 0 {
        if k < s.len() {
            assert(s[0] == ' ');
            assert(s.take(0) =~= Seq::<char>::empty());
        }
    } else {
        assert(s.len() > 0 && s[0] != ' ');
        let t = s.skip(1);
        lemma_split_sp_at(t, k - 1);
        lemma_split_sp_len(t);
        if k == s.len() {
            assert(split_sp(t) =~~= seq![t]);
            assert(seq![s[0]] + t =~= s);
        } else {
            assert(split_sp(t) =~~= seq![t.take(k - 1)] + split_sp(t.skip(k)));
            assert(seq![s[0]] + t.take(k - 1) =~= s.take(k));
            assert(t.skip(k) =~= s.skip(k + 1));
        }
    }
}

/// Splits on every single space, as `str::split(' ')` does.
pub fn split_spaces(s: &str) -> (r: Vec<String>)
    ensures
        r.deep_view() == split_sp(s@),
{
    let n = s.unicode_len();
    let mut out: Vec<String> = Vec::new();
    let mut start: usize = 0;
    let mut i: usize = 0;
    proof {
        assert(s@.skip(0) =~= s@);
        assert(out.deep_view() =~~= Seq::<Seq<char>>::empty());
    }
    while i < n
        invariant
            0 <= start <= i <= n == s@.len(),
            forall|j: int| start <= j < i ==> s@[j] != ' ',
            split_sp(s@) =~~= out.deep_view() + split_sp(s@.skip(start as int)),
        decreases n - i,
    {
        if s.get_char(i) == ' ' {
            let piece = s.substring_char(start, i).to_owned();
            let ghost pre = out.deep_view();
            out.push(piece);
            proof {
                lemma_split_sp_at(s@.skip(start as int), i - start);
                assert(s@.skip(start as int).take(i - start) =~= s@.subrange(
                    start as int,
                    i as int,
                ));
                assert(s@.skip(start as int).skip(i - start + 1) =~= s@.skip(i + 1));
                assert(out.deep_view() =~~= pre.push(piece@));
                assert(split_sp(s@) =~~= out.deep_view() + split_sp(s@.skip(i + 1)));
            }
            start = i + 1;
        }
        i = i + 1;
    }
    let piece = s.substring_char(start, n).to_owned();
    let ghost pre = out.deep_view();
    out.push(piece);
    proof {
        lemma_split_sp_at(s@.skip(start as int), n - start);
        assert(s@.skip(start as int) =~= s@.subrange(start as int, n as int));
        assert(out.deep_view() =~~= pre.push(piece@));
        assert(out.deep_view() =~~= split_sp(s@));
    }
    out
}

/// Relies on `String::push`: appends the given character to the end of the
/// string.
#[verifier::external_body]
pub fn push_char_onto(s: &mut String, c: char)
    ensures
        final(s)@ == old(s)@ + seq![c],
{
    s.push(c);
}

} // verus!
