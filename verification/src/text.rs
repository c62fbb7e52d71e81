//! Characters, decimal numerals and substring search.

use vstd::prelude::*;
use vstd::string::StringExecFns;

verus! {

/// The characters of `s`, in order.
pub fn chars_of(s: &str) -> (out: Vec<char>)
    ensures
        out@ == s@,
{
    broadcast use vstd::string::group_string_axioms;

    let mut out: Vec<char> = Vec::new();
    let chars = s.chars();
    for c in it: chars
        invariant
            it.seq() == s@,
            out@ == s@.take(it.index() as int),
    {
        out.push(c);
    }
    out
}

/// The numeral of a single digit.
pub open spec fn digit_char(d: nat) -> char
    recommends
        d < 10,
{
    if d == 0 {
        '0'
    } else if d == 1 {
        '1'
    } else if d == 2 {
        '2'
    } else if d == 3 {
        '3'
    } else if d == 4 {
        '4'
    } else if d == 5 {
        '5'
    } else if d == 6 {
        '6'
    } else if d == 7 {
        '7'
    } else if d == 8 {
        '8'
    } else {
        '9'
    }
}

/// The decimal numeral of `n`: no sign, no leading zero, `0` for zero.
pub open spec fn decimal_digits(n: nat) -> Seq<char>
    decreases n,
{
    if n < 10 {
        seq![digit_char(n)]
    } else {
        decimal_digits(n / 10).push(digit_char(n % 10))
    }
}

fn digit_text(d: u16) -> (text: &'static str)
    requires
        d < 10,
    ensures
        text@ == seq![digit_char(d as nat)],
{
    proof {
        reveal_strlit("0");
        reveal_strlit("1");
        reveal_strlit("2");
        reveal_strlit("3");
        reveal_strlit("4");
        reveal_strlit("5");
        reveal_strlit("6");
        reveal_strlit("7");
        reveal_strlit("8");
        reveal_strlit("9");
    }
    let text = if d == 0 {
        "0"
    } else if d == 1 {
        "1"
    } else if d == 2 {
        "2"
    } else if d == 3 {
        "3"
    } else if d == 4 {
        "4"
    } else if d == 5 {
        "5"
    } else if d == 6 {
        "6"
    } else if d == 7 {
        "7"
    } else if d == 8 {
        "8"
    } else {
        "9"
    };
    text
}

/// Writes `n` in decimal.
pub fn decimal(n: u16) -> (text: String)
    ensures
        text@ == decimal_digits(n as nat),
    decreases n,
{
    if n < 10 {
        digit_text(n).to_owned()
    } else {
        let mut text = decimal(n / 10);
        text.append(digit_text(n % 10));
        text
    }
}

/// No two numbers share a numeral.
pub proof fn lemma_decimal_digits_injective(a: nat, b: nat)
    requires
        decimal_digits(a) == decimal_digits(b),
    ensures
        a == b,
    decreases a,
{
    lemma_decimal_digits_len(a / 10);
    lemma_decimal_digits_len(b / 10);
    if a < 10 && b < 10 {
        assert(decimal_digits(a)[0] == digit_char(a));
        assert(decimal_digits(b)[0] == digit_char(b));
    } else if a >= 10 && b >= 10 {
        let front_a = decimal_digits(a / 10);
        let front_b = decimal_digits(b / 10);
        let last_a = digit_char(a % 10);
        let last_b = digit_char(b % 10);
        assert(front_a.push(last_a).last() == last_a);
        assert(front_b.push(last_b).last() == last_b);
        assert(front_a =~= front_a.push(last_a).drop_last());
        assert(front_b =~= front_b.push(last_b).drop_last());
        lemma_decimal_digits_injective(a / 10, b / 10);
    } else if a < 10 {
        assert(decimal_digits(a).len() == 1);
        assert(decimal_digits(b).len() == decimal_digits(b / 10).len() + 1);
    } else {
        assert(decimal_digits(b).len() == 1);
        assert(decimal_digits(a).len() == decimal_digits(a / 10).len() + 1);
    }
}

/// A numeral is never empty.
pub proof fn lemma_decimal_digits_len(n: nat)
    ensures
        decimal_digits(n).len() >= 1,
    decreases n,
{
    if n >= 10 {
        lemma_decimal_digits_len(n / 10);
    }
}

/// Whether `needle` stands in `hay` at index `at`.
pub open spec fn occurs_at(hay: Seq<char>, needle: Seq<char>, at: int) -> bool {
    0 <= at && at + needle.len() <= hay.len() && hay.subrange(at, at + needle.len()) == needle
}

/// Whether `at` is the least index from `from` on at which `needle` stands
/// in `hay`.
pub open spec fn is_first_match(hay: Seq<char>, needle: Seq<char>, from: int, at: int) -> bool {
    &&& from <= at
    &&& occurs_at(hay, needle, at)
    &&& forall|k: int| from <= k < at ==> !occurs_at(hay, needle, k)
}

/// Whether `needle` stands nowhere in `hay` from index `from` on.
pub open spec fn no_match(hay: Seq<char>, needle: Seq<char>, from: int) -> bool {
    forall|k: int| from <= k ==> !occurs_at(hay, needle, k)
}

/// The least index from `from` on at which `needle` stands in `hay`.
pub open spec fn first_match(hay: Seq<char>, needle: Seq<char>, from: int) -> Option<int> {
    if exists|at: int| is_first_match(hay, needle, from, at) {
        Some(choose|at: int| is_first_match(hay, needle, from, at))
    } else {
        None
    }
}

/// There is one first match at most, and `first_match` names it.
pub proof fn lemma_first_match_unique(hay: Seq<char>, needle: Seq<char>, from: int, at: int)
    requires
        is_first_match(hay, needle, from, at),
    ensures
        first_match(hay, needle, from) == Some(at),
{
    let chosen = choose|k: int| is_first_match(hay, needle, from, k);
    assert(is_first_match(hay, needle, from, chosen));
    assert(chosen == at);
}

/// Where nothing matches, `first_match` finds nothing.
pub proof fn lemma_no_match_none(hay: Seq<char>, needle: Seq<char>, from: int)
    requires
        no_match(hay, needle, from),
    ensures
        first_match(hay, needle, from) is None,
{
    assert forall|at: int| !is_first_match(hay, needle, from, at) by {
        assert(!(from <= at && occurs_at(hay, needle, at)));
    }
}

/// Whether `needle` stands in `hay` at index `at`.
pub fn starts_at(hay: &[char], needle: &[char], at: usize) -> (found: bool)
    ensures
        found == occurs_at(hay@, needle@, at as int),
{
    if needle.len() > hay.len() || at > hay.len() - needle.len() {
        return false;
    }
    let mut i: usize = 0;
    while i < needle.len()
        invariant
            i <= needle.len(),
            at + needle.len() <= hay.len(),
            hay@.subrange(at as int, at + i) == needle@.take(i as int),
        decreases needle.len() - i,
    {
        if hay[at + i] != needle[i] {
            assert(hay@.subrange(at as int, at + needle.len())[i as int] != needle@[i as int]);
            return false;
        }
        assert(hay@.subrange(at as int, at + i + 1) =~= hay@.subrange(at as int, at + i).push(
            hay@[at + i],
        ));
        assert(needle@.take(i + 1) =~= needle@.take(i as int).push(needle@[i as int]));
        i += 1;
    }
    assert(needle@.take(needle.len() as int) =~= needle@);
    true
}

/// The first place from `from` on at which `needle` stands in `hay`.
pub fn find(hay: &[char], needle: &[char], from: usize) -> (found: Option<usize>)
    ensures
        match found {
            Some(at) => is_first_match(hay@, needle@, from as int, at as int),
            None => no_match(hay@, needle@, from as int),
        },
{
    if needle.len() > hay.len() {
        return None;
    }
    let last = hay.len() - needle.len();
    let mut at: usize = from;
    while at <= last
        invariant
            from <= at,
            last == hay.len() - needle.len(),
            forall|k: int| from <= k < at ==> !occurs_at(hay@, needle@, k),
        decreases last + 1 - at,
    {
        if starts_at(hay, needle, at) {
            return Some(at);
        }
        if at == last {
            return None;
        }
        at += 1;
    }
    None
}

} // verus!
