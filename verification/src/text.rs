//! Decimal rendering of integers and joining of text, as used when
//! queries and SQL statements are assembled.

use vstd::prelude::*;
use vstd::string::StringExecFns;

verus! {

/// The character of a decimal digit `d` (0 through 9).
pub open spec fn digit_char(d: int) -> char {
    if d == 0 {
        '0'
    } else if d == 1 {
        '1'
    } else if d == 2 {
        '2'
    } else if d == 3 {
        '3'
    } else if d == 4 {
        '4'
    } else if d == 5 {
        '5'
    } else if d == 6 {
        '6'
    } else if d == 7 {
        '7'
    } else if d == 8 {
        '8'
    } else {
        '9'
    }
}

/// The decimal text of a natural number, most significant digit first,
/// with no leading zeros (zero is the single digit `0`).
pub open spec fn nat_text(n: nat) -> Seq<char>
    decreases n,
{
    if n < 10 {
        seq![digit_char(n as int)]
    } else {
        nat_text(n / 10).push(digit_char((n % 10) as int))
    }
}

/// The decimal text of an integer: a `-` before the digits of its
/// magnitude when it is negative.
pub open spec fn int_text(i: int) -> Seq<char> {
    if i < 0 {
        seq!['-'] + nat_text((-i) as nat)
    } else {
        nat_text(i as nat)
    }
}

/// `parts` joined with `sep` between each two neighbours.
pub open spec fn join(parts: Seq<Seq<char>>, sep: Seq<char>) -> Seq<char>
    decreases parts.len(),
{
    if parts.len() == 0 {
        Seq::empty()
    } else if parts.len() == 1 {
        parts[0]
    } else {
        join(parts.drop_last(), sep) + sep + parts.last()
    }
}

/// The one-character text of a decimal digit.
fn digit_str(d: u64) -> (s: &'static str)
    requires
        d < 10,
    ensures
        s@ == seq![digit_char(d as int)],
{
    proof {
        reveal_strlit("0");
        reveal_strlit("1");
        reveal_strlit("2");
        reveal_strlit("3");
        reveal_strlit("4");
        reveal_strlit("5");
        reveal_strlit("6");
        reveal_strlit("7");
        reveal_strlit("8");
        reveal_strlit("9");
    }
    if d == 0 {
        "0"
    } else if d == 1 {
        "1"
    } else if d == 2 {
        "2"
    } else if d == 3 {
        "3"
    } else if d == 4 {
        "4"
    } else if d == 5 {
        "5"
    } else if d == 6 {
        "6"
    } else if d == 7 {
        "7"
    } else if d == 8 {
        "8"
    } else {
        "9"
    }
}

/// Appends the decimal text of `n` to `out`.
pub fn push_u64(out: &mut String, n: u64)
    ensures
        final(out)@ == old(out)@ + nat_text(n as nat),
    decreases n,
{
    if n >= 10 {
        push_u64(out, n / 10);
    }
    let d: u64 = n % 10;
    out.append(digit_str(d));
    proof {
        if n >= 10 {
            assert(nat_text(n as nat) == nat_text((n / 10) as nat).push(digit_char(d as int)));
        }
    }
}

/// Appends the decimal text of `i` to `out`, with a leading `-` when
/// it is negative.
pub fn push_i64(out: &mut String, i: i64)
    ensures
        final(out)@ == old(out)@ + int_text(i as int),
{
    if i < 0 {
        out.append("-");
        proof {
            reveal_strlit("-");
        }
        let magnitude: u64 = if i == i64::MIN {
            9223372036854775808u64
        } else {
            (-i) as u64
        };
        push_u64(out, magnitude);
    } else {
        push_u64(out, i as u64);
    }
}

/// The decimal text of `i`.
pub fn i64_text(i: i64) -> (s: String)
    ensures
        s@ == int_text(i as int),
{
    let mut s = String::new();
    push_i64(&mut s, i);
    s
}

/// Appends `parts` joined by `sep` to `out`.
pub fn push_joined(out: &mut String, parts: &Vec<String>, sep: &str)
    ensures
        final(out)@ == old(out)@ + join(parts@.map_values(|p: String| p@), sep@),
{
    let ghost start = out@;
    let ghost views = parts@.map_values(|p: String| p@);
    let n = parts.len();
    let mut i: usize = 0;
    while i < n
        invariant
            n == parts.len(),
            i <= n,
            views == parts@.map_values(|p: String| p@),
            out@ == start + join(views.take(i as int), sep@),
        decreases n - i,
    {
        proof {
            assert(views.take(i + 1).drop_last() =~= views.take(i as int));
            assert(views.take(i + 1).last() == parts@[i as int]@);
        }
        if i > 0 {
            out.append(sep);
        } else {
            assert(views.take(1) =~= seq![parts@[0]@]);
        }
        out.append(parts[i].as_str());
        i = i + 1;
    }
    assert(views.take(n as int) =~= views);
}

/// Appends the decimal texts of `values`, joined by `sep`, to `out`.
pub fn push_joined_i64(out: &mut String, values: &Vec<i64>, sep: &str)
    ensures
        final(out)@ == old(out)@ + join(values@.map_values(|v: i64| int_text(v as int)), sep@),
{
    let ghost start = out@;
    let ghost views = values@.map_values(|v: i64| int_text(v as int));
    let n = values.len();
    let mut i: usize = 0;
    while i < n
        invariant
            n == values.len(),
            i <= n,
            views == values@.map_values(|v: i64| int_text(v as int)),
            out@ == start + join(views.take(i as int), sep@),
        decreases n - i,
    {
        proof {
            assert(views.take(i + 1).drop_last() =~= views.take(i as int));
            assert(views.take(i + 1).last() == int_text(values@[i as int] as int));
        }
        if i > 0 {
            out.append(sep);
        } else {
            assert(views.take(1) =~= seq![int_text(values@[0] as int)]);
        }
        push_i64(out, values[i]);
        i = i + 1;
    }
    assert(views.take(n as int) =~= views);
}


/// The value of a decimal digit character; 10 for any other character.
pub open spec fn digit_value(c: char) -> nat {
    if c == '0' {
        0
    } else if c == '1' {
        1
    } else if c == '2' {
        2
    } else if c == '3' {
        3
    } else if c == '4' {
        4
    } else if c == '5' {
        5
    } else if c == '6' {
        6
    } else if c == '7' {
        7
    } else if c == '8' {
        8
    } else if c == '9' {
        9
    } else {
        10
    }
}

/// The number that a sequence of decimal digits denotes.
pub open spec fn digits_value(s: Seq<char>) -> nat
    decreases s.len(),
{
    if s.len() == 0 {
        0
    } else {
        10 * digits_value(s.drop_last()) + digit_value(s.last())
    }
}

proof fn lemma_nat_text_shape(n: nat)
    ensures
        nat_text(n).len() > 0,
        digits_value(nat_text(n)) == n,
        digit_value(nat_text(n)[0]) < 10,
        forall|i: int| 0 <= i < nat_text(n).len() ==> digit_value(#[trigger] nat_text(n)[i]) < 10,
    decreases n,
{
    if n >= 10 {
        lemma_nat_text_shape(n / 10);
        let t = nat_text(n);
        assert(t.drop_last() =~= nat_text(n / 10));
        assert(t[0] == nat_text(n / 10)[0]);
        assert(t.last() == digit_char((n % 10) as int));
        assert(digit_value(digit_char((n % 10) as int)) == n % 10);
        assert(digits_value(t) == 10 * (n / 10) + n % 10);
    } else {
        assert(digit_value(digit_char(n as int)) == n);
        assert(nat_text(n).drop_last() =~= Seq::<char>::empty());
        assert(digits_value(Seq::<char>::empty()) == 0);
    }
}

/// Law: the decimal text of an integer names it: two integers with the
/// same text are equal, so ids rendered into a query stay distinct.
pub proof fn lemma_int_text_injective(a: int, b: int)
    requires
        int_text(a) == int_text(b),
    ensures
        a == b,
{
    if a < 0 && b < 0 {
        let ta = nat_text((-a) as nat);
        let tb = nat_text((-b) as nat);
        assert((seq!['-'] + ta).drop_first() =~= ta);
        assert((seq!['-'] + tb).drop_first() =~= tb);
        lemma_nat_text_shape((-a) as nat);
        lemma_nat_text_shape((-b) as nat);
    } else if a >= 0 && b >= 0 {
        lemma_nat_text_shape(a as nat);
        lemma_nat_text_shape(b as nat);
    } else if a < 0 {
        lemma_nat_text_shape(b as nat);
        assert(int_text(a)[0] == '-');
    } else {
        lemma_nat_text_shape(a as nat);
        assert(int_text(b)[0] == '-');
    }
}

/// Law: the decimal text of a natural number is a non-empty run of
/// digits whose value is the number.
pub proof fn lemma_nat_text_denotes(n: nat)
    ensures
        nat_text(n).len() > 0,
        digits_value(nat_text(n)) == n,
        forall|i: int| 0 <= i < nat_text(n).len() ==> digit_value(#[trigger] nat_text(n)[i]) < 10,
{
    lemma_nat_text_shape(n);
}


/// How many times `c` occurs in `s`.
pub open spec fn count_char(s: Seq<char>, c: char) -> nat
    decreases s.len(),
{
    if s.len() == 0 {
        0
    } else {
        count_char(s.drop_last(), c) + if s.last() == c {
            1nat
        } else {
            0nat
        }
    }
}

proof fn lemma_count_concat(a: Seq<char>, b: Seq<char>, c: char)
    ensures
        count_char(a + b, c) == count_char(a, c) + count_char(b, c),
    decreases b.len(),
{
    if b.len() == 0 {
        assert(a + b =~= a);
    } else {
        lemma_count_concat(a, b.drop_last(), c);
        assert((a + b).drop_last() =~= a + b.drop_last());
    }
}

proof fn lemma_count_absent(s: Seq<char>, c: char)
    requires
        forall|i: int| 0 <= i < s.len() ==> s[i] != c,
    ensures
        count_char(s, c) == 0,
    decreases s.len(),
{
    if s.len() > 0 {
        lemma_count_absent(s.drop_last(), c);
    }
}

/// Law: the decimal text of an integer holds no comma.
pub proof fn lemma_int_text_has_no_comma(i: int)
    ensures
        count_char(int_text(i), ',') == 0,
        forall|k: int| 0 <= k < int_text(i).len() ==> int_text(i)[k] != ',',
{
    if i < 0 {
        lemma_nat_text_shape((-i) as nat);
        let t = nat_text((-i) as nat);
        assert forall|k: int| 0 <= k < int_text(i).len() implies int_text(i)[k] != ',' by {
            if k > 0 {
                assert(int_text(i)[k] == t[k - 1]);
                assert(digit_value(t[k - 1]) < 10);
            }
        }
    } else {
        lemma_nat_text_shape(i as nat);
        assert forall|k: int| 0 <= k < int_text(i).len() implies int_text(i)[k] != ',' by {
            assert(digit_value(nat_text(i as nat)[k]) < 10);
        }
    }
    lemma_count_absent(int_text(i), ',');
}

/// Law: joining comma-free texts with a comma gives one comma fewer
/// than there are texts, so each text stands as one comma-separated item.
pub proof fn lemma_join_comma_count(parts: Seq<Seq<char>>)
    requires
        parts.len() > 0,
        forall|k: int| 0 <= k < parts.len() ==> count_char(#[trigger] parts[k], ',') == 0,
    ensures
        count_char(join(parts, ","@), ',') + 1 == parts.len(),
    decreases parts.len(),
{
    reveal_strlit(",");
    if parts.len() > 1 {
        let prev = parts.drop_last();
        assert forall|k: int| 0 <= k < prev.len() implies count_char(#[trigger] prev[k], ',') == 0 by {
            assert(prev[k] == parts[k]);
        }
        lemma_join_comma_count(prev);
        lemma_count_concat(join(prev, ","@), ","@, ',');
        lemma_count_concat(join(prev, ","@) + ","@, parts.last(), ',');
        assert(","@ =~= seq![',']);
        assert(count_char(seq![','], ',') == 1) by {
            assert(seq![','].drop_last() =~= Seq::<char>::empty());
            assert(count_char(Seq::<char>::empty(), ',') == 0);
            assert(seq![','].last() == ',');
        }
        assert(count_char(parts.last(), ',') == 0);
    }
}

} // verus!
