//! Building blocks of the JSON text that the library writes: decimal numbers,
//! comma-separated lists, objects and arrays.

use vstd::prelude::*;
use crate::json::{json_quoted, no_newline, quote};

verus! {

/// The character of a decimal digit.
pub open spec fn digit(d: nat) -> char {
    if d == 0 { '0' }
    else if d == 1 { '1' }
    else if d == 2 { '2' }
    else if d == 3 { '3' }
    else if d == 4 { '4' }
    else if d == 5 { '5' }
    else if d == 6 { '6' }
    else if d == 7 { '7' }
    else if d == 8 { '8' }
    else { '9' }
}

/// The decimal notation of a natural number, without leading zeros.
pub open spec fn decimal(n: nat) -> Seq<char>
    decreases n,
{
    if n < 10 {
        seq![digit(n)]
    } else {
        decimal(n / 10).push(digit(n % 10))
    }
}

/// The items, separated by commas.
pub open spec fn joined(items: Seq<Seq<char>>) -> Seq<char>
    decreases items.len(),
{
    if items.len() == 0 {
        Seq::empty()
    } else if items.len() == 1 {
        items[0]
    } else {
        joined(items.drop_last()) + seq![','] + items.last()
    }
}

/// One member of a JSON object: the quoted key, a colon and the value's text.
pub open spec fn member_text(m: (Seq<char>, Seq<char>)) -> Seq<char> {
    json_quoted(m.0) + seq![':'] + m.1
}

/// A JSON object with the given members, in the given order.
pub open spec fn object_text(members: Seq<(Seq<char>, Seq<char>)>) -> Seq<char> {
    seq!['{'] + joined(members.map_values(|m: (Seq<char>, Seq<char>)| member_text(m))) + seq!['}']
}

/// A JSON array of natural numbers.
pub open spec fn array_text(items: Seq<nat>) -> Seq<char> {
    seq!['['] + joined(items.map_values(|n: nat| decimal(n))) + seq![']']
}

/// Keys and values of an object, paired by position.
pub open spec fn pairs(keys: Seq<&str>, values: Seq<String>) -> Seq<(Seq<char>, Seq<char>)> {
    Seq::new(keys.len(), |i: int| (keys[i]@, values[i]@))
}

/// Joining texts without line breaks gives none.
pub proof fn lemma_no_newline_concat(a: Seq<char>, b: Seq<char>)
    requires
        no_newline(a),
        no_newline(b),
    ensures
        no_newline(a + b),
{
    assert forall|i: int| 0 <= i < (a + b).len() implies (a + b)[i] != '\n' by {
        if i >= a.len() {
            assert((a + b)[i] == b[i - a.len()]);
        }
    }
}

/// A decimal number has no line break.
pub proof fn lemma_decimal_no_newline(n: nat)
    ensures
        no_newline(decimal(n)),
    decreases n,
{
    if n >= 10 {
        lemma_decimal_no_newline(n / 10);
        lemma_no_newline_concat(decimal(n / 10), seq![digit(n % 10)]);
        assert(decimal(n) =~= decimal(n / 10) + seq![digit(n % 10)]);
    }
}

proof fn lemma_joined_step(items: Seq<Seq<char>>, i: int)
    requires
        0 <= i < items.len(),
    ensures
        i == 0 ==> joined(items.take(i + 1)) == items[i],
        i > 0 ==> joined(items.take(i + 1)) == joined(items.take(i)) + seq![','] + items[i],
{
    let t = items.take(i + 1);
    assert(t.drop_last() =~= items.take(i));
    assert(t.last() == items[i]);
}

fn digit_text(d: u64) -> (r: &'static str)
    requires
        d < 10,
    ensures
        r@ == seq![digit(d as nat)],
{
    proof {
        reveal_strlit("0");
        reveal_strlit("1");
        reveal_strlit("2");
        reveal_strlit("3");
        reveal_strlit("4");
        reveal_strlit("5");
        reveal_strlit("6");
        reveal_strlit("7");
        reveal_strlit("8");
        reveal_strlit("9");
    }
    if d == 0 { "0" }
    else if d == 1 { "1" }
    else if d == 2 { "2" }
    else if d == 3 { "3" }
    else if d == 4 { "4" }
    else if d == 5 { "5" }
    else if d == 6 { "6" }
    else if d == 7 { "7" }
    else if d == 8 { "8" }
    else { "9" }
}

/// Appends the decimal notation of `n`.
pub fn push_decimal(out: &mut String, n: u64)
    ensures
        final(out)@ == old(out)@ + decimal(n as nat),
    decreases n,
{
    if n >= 10 {
        push_decimal(out, n / 10);
    }
    out.append(digit_text(n % 10));
    proof {
        if n >= 10 {
            assert(decimal(n as nat) == decimal((n / 10) as nat).push(digit((n % 10) as nat)));
        }
    }
    assert(out@ =~= old(out)@ + decimal(n as nat));
}

/// Writes a JSON object whose members are the keys, each with the JSON text
/// at the same position in `values`.
pub fn write_object(keys: &Vec<&str>, values: &Vec<String>) -> (r: String)
    requires
        keys.len() == values.len(),
    ensures
        r@ == object_text(pairs(keys@, values@)),
        (forall|i: int| 0 <= i < values.len() ==> no_newline(#[trigger] values@[i]@)) ==> no_newline(r@),
{
    let ghost clean = forall|i: int| 0 <= i < values.len() ==> no_newline(#[trigger] values@[i]@);
    let ghost ms = pairs(keys@, values@).map_values(|m: (Seq<char>, Seq<char>)| member_text(m));
    let mut out = String::new();
    out.append("{");
    proof {
        reveal_strlit("{");
        reveal_strlit(",");
        reveal_strlit(":");
        reveal_strlit("}");
    }
    assert(out@ =~= seq!['{'] + joined(ms.take(0)));
    let mut i: usize = 0;
    while i < keys.len()
        invariant
            i <= keys.len() == values.len(),
            ms == pairs(keys@, values@).map_values(|m: (Seq<char>, Seq<char>)| member_text(m)),
            ms.len() == keys.len(),
            out@ == seq!['{'] + joined(ms.take(i as int)),
            clean == forall|j: int| 0 <= j < values.len() ==> no_newline(#[trigger] values@[j]@),
            clean ==> no_newline(out@),
        decreases keys.len() - i,
    {
        proof {
            reveal_strlit(",");
            reveal_strlit(":");
        }
        let ghost before = out@;
        if i > 0 {
            out.append(",");
        }
        let ghost mid = out@;
        let mut m = quote(keys[i]);
        let ghost qk = m@;
        m.append(":");
        m.append(values[i].as_str());
        proof {
            if clean {
                assert(no_newline(values@[i as int]@));
                lemma_no_newline_concat(qk, seq![':']);
                lemma_no_newline_concat(qk + seq![':'], values@[i as int]@);
                assert(m@ =~= qk + seq![':'] + values@[i as int]@);
                if i > 0 {
                    lemma_no_newline_concat(before, seq![',']);
                    assert(mid =~= before + seq![',']);
                }
                lemma_no_newline_concat(mid, m@);
            }
        }
        assert(pairs(keys@, values@)[i as int] == (keys@[i as int]@, values@[i as int]@));
        assert(m@ =~= ms[i as int]);
        out.append(m.as_str());
        proof {
            lemma_joined_step(ms, i as int);
            if i > 0 {
                assert(out@ =~= before + seq![','] + ms[i as int]);
            } else {
                assert(out@ =~= before + ms[i as int]);
            }
        }
        i = i + 1;
        assert(out@ =~= seq!['{'] + joined(ms.take(i as int)));
    }
    let ghost body = out@;
    out.append("}");
    proof {
        if clean {
            lemma_no_newline_concat(body, seq!['}']);
            assert(out@ =~= body + seq!['}']);
        }
    }
    assert(ms.take(keys.len() as int) =~= ms);
    assert(out@ =~= object_text(pairs(keys@, values@)));
    out
}

/// Writes a JSON array of unsigned integers.
pub fn write_array(items: &Vec<usize>) -> (r: String)
    ensures
        r@ == array_text(items@.map_values(|n: usize| n as nat)),
        no_newline(r@),
{
    let ghost ds = items@.map_values(|n: usize| n as nat).map_values(|n: nat| decimal(n));
    let mut out = String::new();
    out.append("[");
    proof {
        reveal_strlit("[");
        reveal_strlit(",");
        reveal_strlit("]");
    }
    assert(out@ =~= seq!['['] + joined(ds.take(0)));
    let mut i: usize = 0;
    while i < items.len()
        invariant
            i <= items.len(),
            ds == items@.map_values(|n: usize| n as nat).map_values(|n: nat| decimal(n)),
            ds.len() == items.len(),
            out@ == seq!['['] + joined(ds.take(i as int)),
            no_newline(out@),
        decreases items.len() - i,
    {
        proof {
            reveal_strlit(",");
        }
        let ghost before = out@;
        if i > 0 {
            out.append(",");
        }
        let ghost mid = out@;
        push_decimal(&mut out, items[i] as u64);
        proof {
            if i > 0 {
                lemma_no_newline_concat(before, seq![',']);
                assert(mid =~= before + seq![',']);
            }
            lemma_decimal_no_newline(items@[i as int] as nat);
            lemma_no_newline_concat(mid, decimal(items@[i as int] as nat));
            lemma_joined_step(ds, i as int);
            assert(ds[i as int] == decimal(items@[i as int] as nat));
            if i > 0 {
                assert(out@ =~= before + seq![','] + ds[i as int]);
            } else {
                assert(out@ =~= before + ds[i as int]);
            }
        }
        i = i + 1;
        assert(out@ =~= seq!['['] + joined(ds.take(i as int)));
    }
    let ghost body = out@;
    out.append("]");
    proof {
        lemma_no_newline_concat(body, seq![']']);
        assert(out@ =~= body + seq![']']);
    }
    assert(ds.take(items.len() as int) =~= ds);
    assert(out@ =~= array_text(items@.map_values(|n: usize| n as nat)));
    out
}

} // verus!
