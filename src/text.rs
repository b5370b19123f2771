//! Building report text: decimal numbers and lines joined by spaces.

use vstd::prelude::*;

verus! {

pub open spec fn digit_chars() -> Seq<char> {
    seq!['0', '1', '2', '3', '4', '5', '6', '7', '8', '9']
}

/// The decimal notation of `n`, without leading zeros.
pub open spec fn decimal(n: nat) -> Seq<char>
    decreases n,
{
    if n < 10 {
        seq![digit_chars()[n as int]]
    } else {
        decimal(n / 10).push(digit_chars()[(n % 10) as int])
    }
}

/// The lines one after the other, with a single space between two of them.
pub open spec fn joined(lines: Seq<String>) -> Seq<char>
    decreases lines.len(),
{
    if lines.len() == 0 {
        Seq::empty()
    } else if lines.len() == 1 {
        lines[0]@
    } else {
        joined(lines.drop_last()) + " "@ + lines.last()@
    }
}

fn digit_text(d: u64) -> (r: &'static str)
    requires
        d < 10,
    ensures
        r@ == seq![digit_chars()[d as int]],
{
    match d {
        0 => { proof { reveal_strlit("0"); } "0" },
        1 => { proof { reveal_strlit("1"); } "1" },
        2 => { proof { reveal_strlit("2"); } "2" },
        3 => { proof { reveal_strlit("3"); } "3" },
        4 => { proof { reveal_strlit("4"); } "4" },
        5 => { proof { reveal_strlit("5"); } "5" },
        6 => { proof { reveal_strlit("6"); } "6" },
        7 => { proof { reveal_strlit("7"); } "7" },
        8 => { proof { reveal_strlit("8"); } "8" },
        _ => { proof { reveal_strlit("9"); } "9" },
    }
}

/// Writes `n` in decimal.
pub fn decimal_text(n: u64) -> (r: String)
    ensures
        r@ == decimal(n as nat),
    decreases n,
{
    let mut s = if n < 10 {
        String::new()
    } else {
        decimal_text(n / 10)
    };
    s.append(digit_text(n % 10));
    proof {
        if n < 10 {
            assert(s@ =~= decimal(n as nat));
        }
    }
    s
}

/// Joins the lines with single spaces.
pub fn join_lines(lines: &Vec<String>) -> (r: String)
    ensures
        r@ == joined(lines@),
{
    let mut s = String::new();
    let mut i: usize = 0;
    while i < lines.len()
        invariant
            i <= lines@.len(),
            s@ == joined(lines@.take(i as int)),
        decreases lines@.len() - i,
    {
        if i > 0 {
            s.append(" ");
        }
        s.append(lines[i].as_str());
        proof {
            let t = lines@.take(i + 1);
            assert(t.drop_last() =~= lines@.take(i as int));
            assert(s@ =~= joined(t));
        }
        i = i + 1;
    }
    assert(lines@.take(lines@.len() as int) =~= lines@);
    s
}

} // verus!
