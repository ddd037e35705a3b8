//! Identifier texts.
//!
//! A policy is named `policy_` and a claim `claim_`, each followed by its
//! serial number in decimal. Distinct numbers give distinct texts, which is
//! what makes a fresh number a fresh identifier.

use vstd::prelude::*;
use vstd::string::*;

verus! {

/// The character that writes the digit `d`.
pub open spec fn digit_char(d: nat) -> char {
    if d == 0 {
        '0'
    } else if d == 1 {
        '1'
    } else if d == 2 {
        '2'
    } else if d == 3 {
        '3'
    } else if d == 4 {
        '4'
    } else if d == 5 {
        '5'
    } else if d == 6 {
        '6'
    } else if d == 7 {
        '7'
    } else if d == 8 {
        '8'
    } else {
        '9'
    }
}

/// The digit that `c` writes; 0 for any other character.
pub open spec fn digit_value(c: char) -> nat {
    if c == '1' {
        1
    } else if c == '2' {
        2
    } else if c == '3' {
        3
    } else if c == '4' {
        4
    } else if c == '5' {
        5
    } else if c == '6' {
        6
    } else if c == '7' {
        7
    } else if c == '8' {
        8
    } else if c == '9' {
        9
    } else {
        0
    }
}

/// `n` in decimal, most significant digit first, without leading zeros.
pub open spec fn decimal(n: nat) -> Seq<char>
    decreases n,
{
    if n < 10 {
        seq![digit_char(n)]
    } else {
        decimal(n / 10).push(digit_char(n % 10))
    }
}

/// The number that a row of digits writes.
pub open spec fn decimal_value(digits: Seq<char>) -> nat
    decreases digits.len(),
{
    if digits.len() == 0 {
        0
    } else {
        decimal_value(digits.drop_last()) * 10 + digit_value(digits.last())
    }
}

/// The identifier of the `n`-th policy.
pub open spec fn policy_id_text(n: nat) -> Seq<char> {
    "policy_"@ + decimal(n)
}

/// The identifier of the `n`-th claim.
pub open spec fn claim_id_text(n: nat) -> Seq<char> {
    "claim_"@ + decimal(n)
}

/// Reading a number's decimal text gives the number back.
pub proof fn decimal_round_trip(n: nat)
    ensures
        decimal_value(decimal(n)) == n,
    decreases n,
{
    if n < 10 {
        assert(decimal_value(decimal(n).drop_last()) == 0);
    } else {
        decimal_round_trip(n / 10);
        assert(decimal(n).drop_last() =~= decimal(n / 10));
    }
}

/// Two numbers with the same decimal text are the same number.
pub proof fn decimal_is_injective(a: nat, b: nat)
    requires
        decimal(a) == decimal(b),
    ensures
        a == b,
{
    decimal_round_trip(a);
    decimal_round_trip(b);
}

/// Two policies with the same identifier have the same serial number.
pub proof fn policy_ids_are_distinct(a: nat, b: nat)
    requires
        policy_id_text(a) == policy_id_text(b),
    ensures
        a == b,
{
    let prefix = "policy_"@;
    assert(policy_id_text(a).skip(prefix.len() as int) =~= decimal(a));
    assert(policy_id_text(b).skip(prefix.len() as int) =~= decimal(b));
    decimal_is_injective(a, b);
}

/// Two claims with the same identifier have the same serial number.
pub proof fn claim_ids_are_distinct(a: nat, b: nat)
    requires
        claim_id_text(a) == claim_id_text(b),
    ensures
        a == b,
{
    let prefix = "claim_"@;
    assert(claim_id_text(a).skip(prefix.len() as int) =~= decimal(a));
    assert(claim_id_text(b).skip(prefix.len() as int) =~= decimal(b));
    decimal_is_injective(a, b);
}

/// No policy shares its identifier with a claim.
pub proof fn policy_id_is_no_claim_id(p: nat, c: nat)
    ensures
        policy_id_text(p) != claim_id_text(c),
{
    reveal_strlit("policy_");
    reveal_strlit("claim_");
    assert(policy_id_text(p)[0] == 'p');
    assert(claim_id_text(c)[0] == 'c');
}

/// An identifier is never the empty text.
pub proof fn ids_are_not_empty(n: nat)
    ensures
        policy_id_text(n).len() > 0,
        claim_id_text(n).len() > 0,
{
}

/// The one-character text of a digit.
fn digit_str(d: u64) -> (text: &'static str)
    requires
        d < 10,
    ensures
        text@ == seq![digit_char(d as nat)],
{
    proof {
        reveal_strlit("0");
        reveal_strlit("1");
        reveal_strlit("2");
        reveal_strlit("3");
        reveal_strlit("4");
        reveal_strlit("5");
        reveal_strlit("6");
        reveal_strlit("7");
        reveal_strlit("8");
        reveal_strlit("9");
    }
    if d == 0 {
        "0"
    } else if d == 1 {
        "1"
    } else if d == 2 {
        "2"
    } else if d == 3 {
        "3"
    } else if d == 4 {
        "4"
    } else if d == 5 {
        "5"
    } else if d == 6 {
        "6"
    } else if d == 7 {
        "7"
    } else if d == 8 {
        "8"
    } else {
        "9"
    }
}

/// Writes `n` in decimal behind what `text` holds.
fn append_decimal(text: &mut String, n: u64)
    ensures
        final(text)@ == old(text)@ + decimal(n as nat),
    decreases n,
{
    if n >= 10 {
        append_decimal(text, n / 10);
    }
    text.append(digit_str(n % 10));
}

/// The identifier of the `n`-th policy.
pub fn policy_id(n: u64) -> (id: String)
    ensures
        id@ == policy_id_text(n as nat),
{
    let mut id = String::from_str("policy_");
    append_decimal(&mut id, n);
    id
}

/// The identifier of the `n`-th claim.
pub fn claim_id(n: u64) -> (id: String)
    ensures
        id@ == claim_id_text(n as nat),
{
    let mut id = String::from_str("claim_");
    append_decimal(&mut id, n);
    id
}

} // verus!
