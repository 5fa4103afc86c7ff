use vstd::prelude::*;

verus! {

/// The character sequences held by a sequence of strings.
pub open spec fn lines_of(v: Seq<String>) -> Seq<Seq<char>> {
    v.map_values(|s: String| s@)
}

/// Segments joined in order, with `sep` between each two neighbours.
pub open spec fn join(segs: Seq<Seq<char>>, sep: Seq<char>) -> Seq<char>
    decreases segs.len(),
{
    if segs.len() == 0 {
        Seq::empty()
    } else if segs.len() == 1 {
        segs[0]
    } else {
        join(segs.drop_last(), sep) + sep + segs.last()
    }
}

/// Total number of characters over all segments.
pub open spec fn total_len(segs: Seq<Seq<char>>) -> nat
    decreases segs.len(),
{
    if segs.len() == 0 {
        0
    } else {
        total_len(segs.drop_last()) + segs.last().len()
    }
}

/// A joined text holds every character of its segments and one separator
/// between each two neighbours, nothing else.
pub proof fn lemma_join_len(segs: Seq<Seq<char>>, sep: Seq<char>)
    requires
        segs.len() > 0,
    ensures
        join(segs, sep).len() == total_len(segs) + (segs.len() - 1) * sep.len(),
    decreases segs.len(),
{
    if segs.len() > 1 {
        lemma_join_len(segs.drop_last(), sep);
        let n: int = segs.len() as int;
        let k: int = sep.len() as int;
        assert((n - 1) * k == (n - 2) * k + k) by (nonlinear_arith);
        assert(join(segs, sep) == join(segs.drop_last(), sep) + sep + segs.last());
    } else {
        assert(segs.drop_last().len() == 0);
        assert(total_len(segs.drop_last()) == 0);
        assert(join(segs, sep) == segs[0]);
    }
}

/// Decimal digit character of `d`, for `d < 10`.
pub open spec fn digit_char(d: nat) -> char {
    if d == 0 {
        '0'
    } else if d == 1 {
        '1'
    } else if d == 2 {
        '2'
    } else if d == 3 {
        '3'
    } else if d == 4 {
        '4'
    } else if d == 5 {
        '5'
    } else if d == 6 {
        '6'
    } else if d == 7 {
        '7'
    } else if d == 8 {
        '8'
    } else {
        '9'
    }
}

/// Decimal notation of a natural number, without leading zeros.
pub open spec fn decimal(n: nat) -> Seq<char>
    decreases n,
{
    if n < 10 {
        seq![digit_char(n)]
    } else {
        decimal(n / 10).push(digit_char(n % 10))
    }
}

fn digit_str(d: u32) -> (r: &'static str)
    requires
        d < 10,
    ensures
        r@ == seq![digit_char(d as nat)],
{
    proof {
        reveal_strlit("0");
        reveal_strlit("1");
        reveal_strlit("2");
        reveal_strlit("3");
        reveal_strlit("4");
        reveal_strlit("5");
        reveal_strlit("6");
        reveal_strlit("7");
        reveal_strlit("8");
        reveal_strlit("9");
    }
    let r = match d {
        0 => "0",
        1 => "1",
        2 => "2",
        3 => "3",
        4 => "4",
        5 => "5",
        6 => "6",
        7 => "7",
        8 => "8",
        _ => "9",
    };
    assert(r@ =~= seq![digit_char(d as nat)]);
    r
}

/// Renders `n` in decimal notation.
pub fn decimal_string(n: u32) -> (r: String)
    ensures
        r@ == decimal(n as nat),
    decreases n,
{
    if n < 10 {
        String::from_str(digit_str(n))
    } else {
        let mut s = decimal_string(n / 10);
        s.append(digit_str(n % 10));
        s
    }
}

/// Joins the strings of `parts` in order, with `sep` between neighbours.
pub fn join_strings(parts: &Vec<String>, sep: &str) -> (r: String)
    ensures
        r@ == join(lines_of(parts@), sep@),
{
    let ghost segs = lines_of(parts@);
    let mut out = String::new();
    let mut i: usize = 0;
    while i < parts.len()
        invariant
            i <= parts.len(),
            segs == lines_of(parts@),
            out@ == join(segs.take(i as int), sep@),
        decreases parts.len() - i,
    {
        if i > 0 {
            out.append(sep);
        }
        out.append(parts[i].as_str());
        proof {
            assert(segs.take(i + 1).drop_last() =~= segs.take(i as int));
            if i == 0 {
                assert(out@ =~= join(segs.take(1), sep@));
            }
        }
        i = i + 1;
    }
    assert(segs.take(i as int) =~= segs);
    out
}

} // verus!
