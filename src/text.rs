//! Decimal rendering of integers and the names built from an ordinal.
use vstd::prelude::*;
use vstd::string::StringExecFns;

verus! {

/// The character for one decimal digit.
pub open spec fn digit_char(d: nat) -> char {
    if d == 0 {
        '0'
    } else if d == 1 {
        '1'
    } else if d == 2 {
        '2'
    } else if d == 3 {
        '3'
    } else if d == 4 {
        '4'
    } else if d == 5 {
        '5'
    } else if d == 6 {
        '6'
    } else if d == 7 {
        '7'
    } else if d == 8 {
        '8'
    } else {
        '9'
    }
}

/// The decimal digits of `n`, most significant first, without leading zeros.
pub open spec fn decimal(n: nat) -> Seq<char>
    decreases n,
{
    if n < 10 {
        seq![digit_char(n)]
    } else {
        decimal(n / 10).push(digit_char(n % 10))
    }
}

/// `prefix`, then the decimal digits of `i`, then `suffix`.
pub open spec fn ordinal_name(prefix: Seq<char>, i: nat, suffix: Seq<char>) -> Seq<char> {
    prefix + decimal(i) + suffix
}

proof fn lemma_decimal_len(n: nat)
    ensures
        decimal(n).len() >= 1,
        n >= 10 ==> decimal(n).len() >= 2,
    decreases n,
{
    if n >= 10 {
        lemma_decimal_len(n / 10);
    }
}

/// Two numbers with the same decimal digits are equal.
pub proof fn lemma_decimal_injective(n: nat, m: nat)
    requires
        decimal(n) == decimal(m),
    ensures
        n == m,
    decreases n,
{
    lemma_decimal_len(n);
    lemma_decimal_len(m);
    if n < 10 && m < 10 {
        assert(decimal(n)[0] == digit_char(n));
        assert(decimal(m)[0] == digit_char(m));
    } else if n >= 10 && m >= 10 {
        let dn = decimal(n);
        let dm = decimal(m);
        assert(dn.last() == digit_char(n % 10));
        assert(dm.last() == digit_char(m % 10));
        assert(decimal(n / 10) =~= dn.drop_last());
        assert(decimal(m / 10) =~= dm.drop_last());
        lemma_decimal_injective(n / 10, m / 10);
    } else {
        assert(decimal(n).len() != decimal(m).len());
    }
}

/// Names built from one prefix and suffix with two different ordinals differ.
pub proof fn lemma_ordinal_names_distinct(prefix: Seq<char>, i: nat, j: nat, suffix: Seq<char>)
    requires
        i != j,
    ensures
        ordinal_name(prefix, i, suffix) != ordinal_name(prefix, j, suffix),
{
    if ordinal_name(prefix, i, suffix) == ordinal_name(prefix, j, suffix) {
        let a = ordinal_name(prefix, i, suffix);
        let b = ordinal_name(prefix, j, suffix);
        let di = decimal(i);
        let dj = decimal(j);
        assert(a.len() == b.len());
        assert(di.len() == dj.len());
        assert(di =~= a.subrange(prefix.len() as int, (prefix.len() + di.len()) as int));
        assert(dj =~= b.subrange(prefix.len() as int, (prefix.len() + dj.len()) as int));
        lemma_decimal_injective(i, j);
    }
}

fn digit_str(d: u64) -> (r: &'static str)
    requires
        d < 10,
    ensures
        r@ == seq![digit_char(d as nat)],
{
    proof {
        reveal_strlit("0");
        reveal_strlit("1");
        reveal_strlit("2");
        reveal_strlit("3");
        reveal_strlit("4");
        reveal_strlit("5");
        reveal_strlit("6");
        reveal_strlit("7");
        reveal_strlit("8");
        reveal_strlit("9");
    }
    let r = if d == 0 {
        "0"
    } else if d == 1 {
        "1"
    } else if d == 2 {
        "2"
    } else if d == 3 {
        "3"
    } else if d == 4 {
        "4"
    } else if d == 5 {
        "5"
    } else if d == 6 {
        "6"
    } else if d == 7 {
        "7"
    } else if d == 8 {
        "8"
    } else {
        "9"
    };
    assert(r@ =~= seq![digit_char(d as nat)]);
    r
}

/// Appends the decimal digits of `n` to `s`.
pub fn push_decimal(s: &mut String, n: u64)
    ensures
        final(s)@ == old(s)@ + decimal(n as nat),
    decreases n,
{
    if n < 10 {
        s.append(digit_str(n));
    } else {
        push_decimal(s, n / 10);
        s.append(digit_str(n % 10));
        assert(decimal(n as nat) == decimal((n / 10) as nat).push(digit_char((n % 10) as nat)));
        assert(final(s)@ =~= old(s)@ + decimal(n as nat));
    }
}

/// `prefix`, then the decimal digits of `i`, then `suffix`.
pub fn make_ordinal_name(prefix: &str, i: u64, suffix: &str) -> (r: String)
    ensures
        r@ == ordinal_name(prefix@, i as nat, suffix@),
{
    let mut r = prefix.to_owned();
    push_decimal(&mut r, i);
    r.append(suffix);
    r
}

/// The names `prefix`, digits of `i`, `suffix`, for each `i` in `[0, count)`.
pub fn make_ordinal_names(prefix: &str, count: u32, suffix: &str) -> (r: Vec<String>)
    ensures
        r@.len() == count,
        forall|i: int| 0 <= i < count ==> #[trigger] r@[i]@ == ordinal_name(prefix@, i as nat, suffix@),
{
    let mut r: Vec<String> = Vec::new();
    let mut i: u32 = 0;
    while i < count
        invariant
            i <= count,
            r@.len() == i,
            forall|k: int| 0 <= k < i ==> #[trigger] r@[k]@ == ordinal_name(prefix@, k as nat, suffix@),
        decreases count - i,
    {
        r.push(make_ordinal_name(prefix, i as u64, suffix));
        i = i + 1;
    }
    r
}

} // verus!
