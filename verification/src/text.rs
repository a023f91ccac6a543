use vstd::prelude::*;
use vstd::string::StringExecFns;

verus! {

/// The character of decimal digit `d`.
pub open spec fn digit_char(d: nat) -> char {
    if d == 0 { '0' }
    else if d == 1 { '1' }
    else if d == 2 { '2' }
    else if d == 3 { '3' }
    else if d == 4 { '4' }
    else if d == 5 { '5' }
    else if d == 6 { '6' }
    else if d == 7 { '7' }
    else if d == 8 { '8' }
    else { '9' }
}

/// The decimal digits of `n`, most significant first, without leading zeros.
pub open spec fn decimal(n: nat) -> Seq<char>
    decreases n,
{
    if n < 10 {
        seq![digit_char(n)]
    } else {
        decimal(n / 10).push(digit_char(n % 10))
    }
}

/// The log line for a fight between actors `a` and `b`, with their health
/// afterwards.
pub open spec fn actor_collision_text(a: nat, b: nat, health_a: nat, health_b: nat) -> Seq<char> {
    "Collision between World "@ + decimal(a) + " and "@ + decimal(b) + ". New Health:"@
        + decimal(health_a) + " and "@ + decimal(health_b)
}

/// The log line for actor `a` running into world tile `b`.
pub open spec fn world_collision_text(a: nat, b: nat) -> Seq<char> {
    "Collision between Actors "@ + decimal(a) + " and "@ + decimal(b) + "."@
}

/// The decimal text of `n`, as `ToString` on an unsigned integer writes it
/// (no sign, no leading zeros).
#[verifier::external_body]
pub(crate) fn decimal_string(n: u64) -> (r: String)
    ensures
        r@ == decimal(n as nat),
{
    n.to_string()
}

/// The log line for a fight between actors `a` and `b`, with their health
/// afterwards.
pub fn actor_collision_message(a: usize, b: usize, health_a: u8, health_b: u8) -> (r: String)
    ensures
        r@ == actor_collision_text(a as nat, b as nat, health_a as nat, health_b as nat),
{
    let mut s = String::from_str("Collision between World ");
    s.append(decimal_string(a as u64).as_str());
    s.append(" and ");
    s.append(decimal_string(b as u64).as_str());
    s.append(". New Health:");
    s.append(decimal_string(health_a as u64).as_str());
    s.append(" and ");
    s.append(decimal_string(health_b as u64).as_str());
    s
}

/// The log line for actor `a` running into world tile `b`.
pub fn world_collision_message(a: usize, b: usize) -> (r: String)
    ensures
        r@ == world_collision_text(a as nat, b as nat),
{
    let mut s = String::from_str("Collision between Actors ");
    s.append(decimal_string(a as u64).as_str());
    s.append(" and ");
    s.append(decimal_string(b as u64).as_str());
    s.append(".");
    s
}

} // verus!
