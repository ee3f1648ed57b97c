//! Text building blocks: joining texts with a separator, decimal numerals and the
//! JSON values of the broker's replies.

use crate::outside::{json_string, json_string_text};
use vstd::prelude::*;

verus! {

/// The texts of `items` joined by `sep`, as `[String]::join(sep)` joins
/// them.
pub open spec fn join_with(items: Seq<Seq<char>>, sep: Seq<char>) -> Seq<char>
    decreases items.len(),
{
    if items.len() == 0 {
        Seq::empty()
    } else if items.len() == 1 {
        items[0]
    } else {
        join_with(items.drop_last(), sep) + sep + items.last()
    }
}

/// Joins the texts of `items` with `sep`.
pub fn join_strings(items: &Vec<String>, sep: &str) -> (r: String)
    ensures
        r@ == join_with(items.deep_view(), sep@),
{
    let ghost words = items.deep_view();
    let mut r = String::new();
    let n: usize = items.len();
    for i in 0..n
        invariant
            n == items.len(),
            words == items.deep_view(),
            words.len() == n,
            r@ == join_with(words.take(i as int), sep@),
    {
        assert(words.take((i + 1) as int).drop_last() =~= words.take(i as int));
        if i > 0 {
            r.append(sep);
        }
        r.append(items[i].as_str());
        assert(words[i as int] == items[i as int]@);
        proof {
            if i == 0 {
                assert(r@ =~= words.take(1)[0]);
            }
        }
    }
    assert(words.take(n as int) =~= words);
    r
}

/// The character of the decimal digit `d`.
pub open spec fn digit_char(d: nat) -> char {
    (48 + d) as char
}

/// The decimal numeral of `n`, with no leading zero.
pub open spec fn decimal_text(n: nat) -> Seq<char>
    decreases n,
{
    if n < 10 {
        seq![digit_char(n)]
    } else {
        decimal_text(n / 10) + seq![digit_char(n % 10)]
    }
}

fn digit(d: u32) -> (r: &'static str)
    requires
        d < 10,
    ensures
        r@ == seq![digit_char(d as nat)],
{
    proof {
        reveal_strlit("0");
        reveal_strlit("1");
        reveal_strlit("2");
        reveal_strlit("3");
        reveal_strlit("4");
        reveal_strlit("5");
        reveal_strlit("6");
        reveal_strlit("7");
        reveal_strlit("8");
        reveal_strlit("9");
    }
    match d {
        0 => "0",
        1 => "1",
        2 => "2",
        3 => "3",
        4 => "4",
        5 => "5",
        6 => "6",
        7 => "7",
        8 => "8",
        _ => "9",
    }
}

/// The decimal numeral of `n`, as `u32::to_string` writes it.
pub fn decimal(n: u32) -> (r: String)
    ensures
        r@ == decimal_text(n as nat),
    decreases n,
{
    if n < 10 {
        String::from_str(digit(n))
    } else {
        let mut r = decimal(n / 10);
        r.append(digit(n % 10));
        r
    }
}

/// The JSON value of an optional text: `null`, or the string literal.
pub open spec fn json_opt_string_text(o: Option<Seq<char>>) -> Seq<char> {
    match o {
        Some(s) => json_string_text(s),
        None => "null"@,
    }
}

/// The JSON value of an optional number: `null`, or the numeral.
pub open spec fn json_opt_u32_text(o: Option<u32>) -> Seq<char> {
    match o {
        Some(n) => decimal_text(n as nat),
        None => "null"@,
    }
}

/// The JSON string literal of `s`.
pub fn json_str(s: &str) -> (r: String)
    ensures
        r@ == json_string_text(s@),
{
    match json_string(s) {
        Ok(t) => t,
        Err(_) => {
            proof {
                assert(false);
            }
            String::new()
        },
    }
}

/// The JSON value of an optional text.
pub fn json_opt_string(o: &Option<String>) -> (r: String)
    ensures
        r@ == json_opt_string_text(o.deep_view()),
{
    match o {
        Some(s) => json_str(s.as_str()),
        None => String::from_str("null"),
    }
}

/// The JSON value of an optional number.
pub fn json_opt_u32(o: Option<u32>) -> (r: String)
    ensures
        r@ == json_opt_u32_text(o),
{
    match o {
        Some(n) => decimal(n),
        None => String::from_str("null"),
    }
}

/// The total length of the texts of `items`.
pub open spec fn total_len(items: Seq<Seq<char>>) -> int
    decreases items.len(),
{
    if items.len() == 0 {
        0
    } else {
        total_len(items.drop_last()) + items.last().len()
    }
}

/// Joining keeps every item: joining one more item `x` to a non-empty list
/// appends the separator and `x` to the joined text; a single item joins to
/// itself, and no items to the empty text.
pub proof fn law_join_appends(items: Seq<Seq<char>>, sep: Seq<char>, x: Seq<char>)
    ensures
        items.len() > 0 ==> join_with(items.push(x), sep) == join_with(items, sep) + sep + x,
        join_with(seq![x], sep) == x,
        join_with(Seq::<Seq<char>>::empty(), sep) == Seq::<char>::empty(),
{
    assert(items.push(x).drop_last() =~= items);
    assert(items.push(x).last() == x);
}

/// The joined text is as long as all the items together and one separator
/// between each two of them.
pub proof fn law_join_length(items: Seq<Seq<char>>, sep: Seq<char>)
    requires
        items.len() > 0,
    ensures
        join_with(items, sep).len() == total_len(items) + (items.len() - 1) * sep.len(),
    decreases items.len(),
{
    if items.len() > 1 {
        law_join_length(items.drop_last(), sep);
        let n = items.len() as int;
        let m = sep.len() as int;
        assert((n - 2) * m + m == (n - 1) * m) by (nonlinear_arith);
        assert(items.drop_last().len() == n - 1);
    } else {
        assert(items.drop_last().len() == 0);
        assert(total_len(items.drop_last()) == 0);
        assert((items.len() - 1) * sep.len() == 0) by (nonlinear_arith)
            requires
                items.len() == 1,
        ;
    }
}

} // verus!
