//! Verified text building blocks: decimal rendering of integers, SQL
//! single-quote escaping, and separator joins. Every executable function is
//! pinned to a spec-level `Seq<char>` description of its output.

use vstd::prelude::*;
use vstd::string::StringExecFns;

verus! {

/// The decimal digit character for a value below ten.
pub open spec fn digit_char(d: nat) -> char {
    if d == 0 {
        '0'
    } else if d == 1 {
        '1'
    } else if d == 2 {
        '2'
    } else if d == 3 {
        '3'
    } else if d == 4 {
        '4'
    } else if d == 5 {
        '5'
    } else if d == 6 {
        '6'
    } else if d == 7 {
        '7'
    } else if d == 8 {
        '8'
    } else {
        '9'
    }
}

/// Decimal digit string of a non-negative integer, most significant first.
pub open spec fn dec_digits(n: nat) -> Seq<char>
    decreases n,
{
    if n < 10 {
        seq![digit_char(n)]
    } else {
        dec_digits(n / 10).push(digit_char(n % 10))
    }
}

/// Decimal text of a signed integer: a minus sign followed by the digits of
/// its magnitude when negative.
pub open spec fn int_text(i: int) -> Seq<char> {
    if i >= 0 {
        dec_digits(i as nat)
    } else {
        seq!['-'] + dec_digits((-i) as nat)
    }
}

/// How one character appears inside a single-quoted SQL literal: an embedded
/// single quote is doubled, everything else passes through.
pub open spec fn escaped_char(c: char) -> Seq<char> {
    if c == '\'' {
        seq!['\'', '\'']
    } else {
        seq![c]
    }
}

/// SQL escaping of a character sequence: every single quote doubled.
pub open spec fn escape_quotes(s: Seq<char>) -> Seq<char>
    decreases s.len(),
{
    if s.len() == 0 {
        Seq::empty()
    } else {
        escape_quotes(s.drop_last()) + escaped_char(s.last())
    }
}

/// The inverse of `escape_quotes`: reading from the end, a doubled single
/// quote collapses back into one, every other character passes through.
pub open spec fn collapse_quotes(t: Seq<char>) -> Seq<char>
    decreases t.len(),
{
    if t.len() == 0 {
        Seq::empty()
    } else if t.len() >= 2 && t.last() == '\'' && t[t.len() - 2] == '\'' {
        collapse_quotes(t.take(t.len() - 2)).push('\'')
    } else {
        collapse_quotes(t.drop_last()).push(t.last())
    }
}

/// Escaping round-trips: collapsing the doubled quotes of an escaped string
/// recovers the string, for every string.
pub proof fn lemma_escape_round_trip(s: Seq<char>)
    ensures
        collapse_quotes(escape_quotes(s)) == s,
    decreases s.len(),
{
    if s.len() == 0 {
    } else {
        lemma_escape_round_trip(s.drop_last());
        let e = escape_quotes(s);
        if s.last() == '\'' {
            assert(e == escape_quotes(s.drop_last()) + seq!['\'', '\'']);
            assert(e.last() == '\'');
            assert(e[e.len() - 2] == '\'');
            assert(e.take(e.len() - 2) =~= escape_quotes(s.drop_last()));
            assert(s.drop_last().push(s.last()) =~= s);
        } else {
            assert(e == escape_quotes(s.drop_last()) + seq![s.last()]);
            assert(e.last() == s.last());
            assert(e.drop_last() =~= escape_quotes(s.drop_last()));
            assert(s.drop_last().push(s.last()) =~= s);
        }
    }
}

/// A formatted text cell round-trips: the literal is quote-delimited, and
/// collapsing the doubled quotes of its body recovers the original
/// characters, for every string.
pub proof fn lemma_text_literal_round_trip(s: Seq<char>)
    ensures
        ({
            let lit = seq!['\''] + escape_quotes(s) + seq!['\''];
            &&& lit.len() >= 2
            &&& lit.first() == '\''
            &&& lit.last() == '\''
            &&& collapse_quotes(lit.subrange(1, lit.len() - 1)) == s
        }),
{
    let lit = seq!['\''] + escape_quotes(s) + seq!['\''];
    assert(lit.subrange(1, lit.len() - 1) =~= escape_quotes(s));
    lemma_escape_round_trip(s);
}

/// The parts joined with the separator between consecutive parts.
pub open spec fn join_seqs(parts: Seq<Seq<char>>, sep: Seq<char>) -> Seq<char>
    decreases parts.len(),
{
    if parts.len() == 0 {
        Seq::empty()
    } else if parts.len() == 1 {
        parts[0]
    } else {
        join_seqs(parts.drop_last(), sep) + sep + parts.last()
    }
}

/// Relies on std's `String::push`: appends the given character at the end.
#[verifier::external_body]
pub(crate) fn push_char(s: &mut String, c: char)
    ensures
        final(s)@ == old(s)@ + seq![c],
{
    s.push(c);
}

/// The one-character string of a decimal digit.
fn digit_str(d: u64) -> (r: String)
    requires
        d < 10,
    ensures
        r@ == seq![digit_char(d as nat)],
{
    let mut r = String::new();
    if d == 0 {
        push_char(&mut r, '0');
    } else if d == 1 {
        push_char(&mut r, '1');
    } else if d == 2 {
        push_char(&mut r, '2');
    } else if d == 3 {
        push_char(&mut r, '3');
    } else if d == 4 {
        push_char(&mut r, '4');
    } else if d == 5 {
        push_char(&mut r, '5');
    } else if d == 6 {
        push_char(&mut r, '6');
    } else if d == 7 {
        push_char(&mut r, '7');
    } else if d == 8 {
        push_char(&mut r, '8');
    } else {
        push_char(&mut r, '9');
    }
    proof {
        assert(r@ =~= seq![digit_char(d as nat)]);
    }
    r
}

/// Renders an unsigned integer as decimal text.
pub fn u64_to_dec(n: u64) -> (r: String)
    ensures
        r@ == dec_digits(n as nat),
    decreases n,
{
    if n < 10 {
        digit_str(n)
    } else {
        let mut r = u64_to_dec(n / 10);
        let d = digit_str(n % 10);
        r.append(d.as_str());
        proof {
            assert(r@ =~= dec_digits(n as nat));
        }
        r
    }
}

/// Renders a signed integer as decimal text, with a leading minus sign when
/// negative.
pub fn i64_to_dec(i: i64) -> (r: String)
    ensures
        r@ == int_text(i as int),
{
    if i >= 0 {
        u64_to_dec(i as u64)
    } else {
        let mag: u64 = if i == i64::MIN {
            9223372036854775808u64
        } else {
            (-i) as u64
        };
        proof {
            assert(mag as nat == (-(i as int)) as nat);
        }
        let mut r = String::new();
        push_char(&mut r, '-');
        let digits = u64_to_dec(mag);
        r.append(digits.as_str());
        proof {
            assert(r@ =~= int_text(i as int));
        }
        r
    }
}

/// Escapes a string for use inside a single-quoted SQL literal.
pub fn escape_sq(s: &str) -> (r: String)
    ensures
        r@ == escape_quotes(s@),
{
    let len = s.unicode_len();
    let mut r = String::new();
    let mut i: usize = 0;
    while i < len
        invariant
            i <= len,
            len == s@.len(),
            r@ == escape_quotes(s@.take(i as int)),
        decreases len - i,
    {
        let c = s.get_char(i);
        if c == '\'' {
            push_char(&mut r, '\'');
            push_char(&mut r, '\'');
        } else {
            push_char(&mut r, c);
        }
        proof {
            assert(s@.take(i + 1).drop_last() =~= s@.take(i as int));
            assert(s@.take(i + 1).last() == s@[i as int]);
            assert(r@ =~= escape_quotes(s@.take(i as int)) + escaped_char(s@[i as int]));
        }
        i = i + 1;
    }
    proof {
        assert(s@.take(len as int) =~= s@);
    }
    r
}

/// Joins the parts with the separator between consecutive parts.
pub fn join_all(parts: &Vec<String>, sep: &str) -> (r: String)
    ensures
        r@ == join_seqs(parts@.map_values(|p: String| p@), sep@),
{
    let ghost views = parts@.map_values(|p: String| p@);
    let mut r = String::new();
    let mut i: usize = 0;
    while i < parts.len()
        invariant
            i <= parts.len(),
            views == parts@.map_values(|p: String| p@),
            r@ == join_seqs(views.take(i as int), sep@),
        decreases parts.len() - i,
    {
        if i > 0 {
            r.append(sep);
        }
        r.append(parts[i].as_str());
        proof {
            assert(views.take(i + 1).drop_last() =~= views.take(i as int));
            assert(views.take(i + 1).last() == views[i as int]);
            assert(views[i as int] == parts@[i as int]@);
            if i == 0 {
                assert(r@ =~= views.take(1)[0]);
            } else {
                assert(r@ =~= join_seqs(views.take(i as int), sep@) + sep@ + views[i as int]);
            }
        }
        i = i + 1;
    }
    proof {
        assert(views.take(parts@.len() as int) =~= views);
    }
    r
}

} // verus!
