use vstd::prelude::*;

verus! {

/// The character of a decimal digit.
pub open spec fn digit_char(d: nat) -> char {
    if d == 0 { '0' }
    else if d == 1 { '1' }
    else if d == 2 { '2' }
    else if d == 3 { '3' }
    else if d == 4 { '4' }
    else if d == 5 { '5' }
    else if d == 6 { '6' }
    else if d == 7 { '7' }
    else if d == 8 { '8' }
    else { '9' }
}

/// The decimal notation of `n`, without sign or leading zeros.
pub open spec fn decimal_spec(n: nat) -> Seq<char>
    decreases n,
{
    if n < 10 {
        seq![digit_char(n)]
    } else {
        decimal_spec(n / 10) + seq![digit_char(n % 10)]
    }
}

fn digit_text(d: u64) -> (r: &'static str)
    requires
        d < 10,
    ensures
        r@ == seq![digit_char(d as nat)],
{
    if d == 0 {
        proof { reveal_strlit("0"); }
        "0"
    } else if d == 1 {
        proof { reveal_strlit("1"); }
        "1"
    } else if d == 2 {
        proof { reveal_strlit("2"); }
        "2"
    } else if d == 3 {
        proof { reveal_strlit("3"); }
        "3"
    } else if d == 4 {
        proof { reveal_strlit("4"); }
        "4"
    } else if d == 5 {
        proof { reveal_strlit("5"); }
        "5"
    } else if d == 6 {
        proof { reveal_strlit("6"); }
        "6"
    } else if d == 7 {
        proof { reveal_strlit("7"); }
        "7"
    } else if d == 8 {
        proof { reveal_strlit("8"); }
        "8"
    } else {
        proof { reveal_strlit("9"); }
        "9"
    }
}

/// Writes `n` in decimal.
pub fn decimal(n: u64) -> (r: String)
    ensures
        r@ == decimal_spec(n as nat),
    decreases n,
{
    if n < 10 {
        String::from_str(digit_text(n))
    } else {
        let mut head = decimal(n / 10);
        head.append(digit_text(n % 10));
        head
    }
}

/// The items of `s` in decimal, separated by `", "`.
pub open spec fn items_spec(s: Seq<u64>) -> Seq<char>
    decreases s.len(),
{
    if s.len() == 0 {
        Seq::empty()
    } else if s.len() == 1 {
        decimal_spec(s[0] as nat)
    } else {
        items_spec(s.drop_last()) + ", "@ + decimal_spec(s.last() as nat)
    }
}

/// A list of integers as `[a, b, c]`.
pub open spec fn list_spec(s: Seq<u64>) -> Seq<char> {
    "["@ + items_spec(s) + "]"@
}

/// Writes the items of `v` as a bracketed, comma-separated list.
pub fn list_text(v: &Vec<u64>) -> (r: String)
    ensures
        r@ == list_spec(v@),
{
    let mut out = String::from_str("[");
    let mut i: usize = 0;
    proof { reveal_strlit("["); reveal_strlit(", "); reveal_strlit("]"); }
    while i < v.len()
        invariant
            i <= v.len(),
            out@ == "["@ + items_spec(v@.subrange(0, i as int)),
        decreases v.len() - i,
    {
        proof {
            let next = v@.subrange(0, i as int + 1);
            assert(next.drop_last() =~= v@.subrange(0, i as int));
        }
        if i > 0 {
            out.append(", ");
        }
        let item = decimal(v[i]);
        out.append(item.as_str());
        i = i + 1;
    }
    out.append("]");
    assert(v@.subrange(0, v.len() as int) =~= v@);
    out
}

/// An optional integer as `Some(n)` or `None`.
pub open spec fn option_spec(o: Option<u64>) -> Seq<char> {
    match o {
        Some(n) => "Some("@ + decimal_spec(n as nat) + ")"@,
        None => "None"@,
    }
}

/// Writes `o` as `Some(n)` or `None`.
pub fn option_text(o: Option<u64>) -> (r: String)
    ensures
        r@ == option_spec(o),
{
    proof { reveal_strlit("Some("); reveal_strlit(")"); reveal_strlit("None"); }
    match o {
        Some(n) => {
            let mut out = String::from_str("Some(");
            let digits = decimal(n);
            out.append(digits.as_str());
            out.append(")");
            out
        },
        None => String::from_str("None"),
    }
}

} // verus!
