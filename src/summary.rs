//! The textual summary of a digest, `Digest(n_values=<n>, n_centroids=<k>)`,
//! with both counts written in decimal.
use vstd::prelude::*;

verus! {

/// The character of a decimal digit.
pub open spec fn digit_char(d: nat) -> char {
    if d == 0 {
        '0'
    } else if d == 1 {
        '1'
    } else if d == 2 {
        '2'
    } else if d == 3 {
        '3'
    } else if d == 4 {
        '4'
    } else if d == 5 {
        '5'
    } else if d == 6 {
        '6'
    } else if d == 7 {
        '7'
    } else if d == 8 {
        '8'
    } else {
        '9'
    }
}

/// The decimal digits of `n`, most significant first, without leading zeros.
pub open spec fn decimal(n: nat) -> Seq<char>
    decreases n,
{
    if n < 10 {
        seq![digit_char(n)]
    } else {
        decimal(n / 10).push(digit_char(n % 10))
    }
}

/// The summary of a digest that has taken `n_values` values into
/// `n_centroids` centroids.
pub open spec fn summary_spec(n_values: nat, n_centroids: nat) -> Seq<char> {
    "Digest(n_values="@ + decimal(n_values) + ", n_centroids="@ + decimal(n_centroids) + ")"@
}

fn digit_str(d: u64) -> (r: &'static str)
    requires
        d < 10,
    ensures
        r@ == seq![digit_char(d as nat)],
{
    if d == 0 {
        proof { reveal_strlit("0"); }
        "0"
    } else if d == 1 {
        proof { reveal_strlit("1"); }
        "1"
    } else if d == 2 {
        proof { reveal_strlit("2"); }
        "2"
    } else if d == 3 {
        proof { reveal_strlit("3"); }
        "3"
    } else if d == 4 {
        proof { reveal_strlit("4"); }
        "4"
    } else if d == 5 {
        proof { reveal_strlit("5"); }
        "5"
    } else if d == 6 {
        proof { reveal_strlit("6"); }
        "6"
    } else if d == 7 {
        proof { reveal_strlit("7"); }
        "7"
    } else if d == 8 {
        proof { reveal_strlit("8"); }
        "8"
    } else {
        proof { reveal_strlit("9"); }
        "9"
    }
}

/// Appends the decimal digits of `n` to `s`.
fn push_decimal(s: &mut String, n: u64)
    ensures
        final(s)@ == old(s)@ + decimal(n as nat),
    decreases n,
{
    if n >= 10 {
        push_decimal(s, n / 10);
    }
    let d = digit_str(n % 10);
    s.append(d);
    proof {
        if n >= 10 {
            assert(decimal(n as nat) == decimal((n / 10) as nat).push(digit_char((n % 10) as nat)));
            assert(old(s)@ + decimal((n / 10) as nat) + d@ == old(s)@ + decimal(n as nat));
        } else {
            assert(decimal(n as nat) == d@);
        }
    }
}

/// The summary text of a digest of `n_values` values in `n_centroids`
/// centroids.
pub fn summary_text(n_values: u64, n_centroids: usize) -> (r: String)
    ensures
        r@ == summary_spec(n_values as nat, n_centroids as nat),
{
    let mut s = String::from_str("Digest(n_values=");
    push_decimal(&mut s, n_values);
    s.append(", n_centroids=");
    push_decimal(&mut s, n_centroids as u64);
    s.append(")");
    s
}

} // verus!
