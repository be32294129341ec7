//! An agent's budget: token and cost limits and what has been consumed.
//!
//! Costs are counted in micro-dollars (millionths of a US dollar), the
//! granularity at which the kernel prices model usage.
use crate::clock::Id;
use crate::error::{DomainError, DomainResult, is_budget_exceeded};
use crate::text::{decimal, push_char, push_decimal};
use vstd::prelude::*;

verus! {

/// The resource limits of an agent and its usage so far.
#[derive(Clone, Copy, Debug, PartialEq, Eq, Structural)]
pub struct Budget {
    /// The most the agent may spend, in micro-dollars.
    pub max_cost_micros: u64,
    /// The most tokens the agent may use.
    pub max_tokens: u32,
    /// What the agent has spent, in micro-dollars.
    pub current_cost_micros: u64,
    /// The tokens the agent has used.
    pub current_tokens: u32,
}

/// A fresh budget with the given limits and nothing consumed.
pub open spec fn fresh_budget(max_cost_micros: u64, max_tokens: u32) -> Budget {
    Budget { max_cost_micros, max_tokens, current_cost_micros: 0, current_tokens: 0 }
}

/// Whether consuming `tokens` and `cost` from `b` stays within both limits.
pub open spec fn consume_allowed(b: Budget, tokens: nat, cost: nat) -> bool {
    b.current_tokens + tokens <= b.max_tokens && b.current_cost_micros + cost
        <= b.max_cost_micros
}

/// The budget after consuming `tokens` and `cost`, when that is allowed.
pub open spec fn consumed(b: Budget, tokens: nat, cost: nat) -> Budget {
    Budget {
        current_tokens: (b.current_tokens + tokens) as u32,
        current_cost_micros: (b.current_cost_micros + cost) as u64,
        ..b
    }
}

/// What consuming yields: the new budget, or `None` where a limit would be
/// exceeded (and the budget stays as it was).
pub open spec fn consume_outcome(b: Budget, tokens: nat, cost: nat) -> Option<Budget> {
    if consume_allowed(b, tokens, cost) {
        Some(consumed(b, tokens, cost))
    } else {
        None
    }
}

/// The tokens still available (zero when usage has reached the limit).
pub open spec fn remaining_tokens_of(b: Budget) -> nat {
    if b.current_tokens >= b.max_tokens {
        0
    } else {
        (b.max_tokens - b.current_tokens) as nat
    }
}

/// The micro-dollars still available (zero when spending has reached the
/// limit).
pub open spec fn remaining_cost_of(b: Budget) -> nat {
    if b.current_cost_micros >= b.max_cost_micros {
        0
    } else {
        (b.max_cost_micros - b.current_cost_micros) as nat
    }
}

/// `m` micro-dollars in units of a hundred micro-dollars (the fourth
/// decimal of a dollar), rounded to the nearest unit and ties to the even
/// unit.
pub open spec fn hundreds_rounded(m: nat) -> nat {
    let q = m / 100;
    let r = m % 100;
    if r > 50 || (r == 50 && q % 2 == 1) {
        q + 1
    } else {
        q
    }
}

/// `m` micro-dollars as dollars with four decimals, rounded to nearest with
/// ties to even, e.g. `0.0050`.
pub open spec fn usd4(m: nat) -> Seq<char> {
    let q = hundreds_rounded(m);
    decimal(q / 10000) + seq!['.'] + four_digits(q % 10000)
}

/// The four decimal digits of `n < 10000`, with leading zeros.
pub open spec fn four_digits(n: nat) -> Seq<char> {
    seq![
        crate::text::digit_char(n / 1000),
        crate::text::digit_char((n / 100) % 10),
        crate::text::digit_char((n / 10) % 10),
        crate::text::digit_char(n % 10),
    ]
}

/// The detail of the error for an exceeded token limit.
pub open spec fn token_limit_message(limit: nat, attempted: nat) -> Seq<char> {
    "Token limit "@ + decimal(limit) + " exceeded (attempted to use "@ + decimal(attempted)
        + ")"@
}

/// The detail of the error for an exceeded cost limit.
pub open spec fn cost_limit_message(limit: nat, attempted: nat) -> Seq<char> {
    "Cost limit $"@ + usd4(limit) + " exceeded (attempted to spend $"@ + usd4(attempted) + ")"@
}

fn push_usd4(out: &mut String, m: u128)
    ensures
        final(out)@ == old(out)@ + usd4(m as nat),
{
    let r = m % 100;
    let q = if r > 50 || (r == 50 && (m / 100) % 2 == 1) {
        m / 100 + 1
    } else {
        m / 100
    };
    push_decimal(out, q / 10000);
    push_char(out, '.');
    let f = q % 10000;
    push_char(out, digit_of(f / 1000));
    push_char(out, digit_of((f / 100) % 10));
    push_char(out, digit_of((f / 10) % 10));
    push_char(out, digit_of(f % 10));
    assert(final(out)@ =~= old(out)@ + usd4(m as nat));
}

fn digit_of(d: u128) -> (c: char)
    requires
        d < 10,
    ensures
        c == crate::text::digit_char(d as nat),
{
    match d {
        0 => '0',
        1 => '1',
        2 => '2',
        3 => '3',
        4 => '4',
        5 => '5',
        6 => '6',
        7 => '7',
        8 => '8',
        _ => '9',
    }
}

fn token_limit_detail(limit: u32, attempted: u32) -> (s: String)
    ensures
        s@ == token_limit_message(limit as nat, attempted as nat),
{
    let mut s = String::from_str("Token limit ");
    push_decimal(&mut s, limit as u128);
    s.append(" exceeded (attempted to use ");
    push_decimal(&mut s, attempted as u128);
    s.append(")");
    s
}

fn cost_limit_detail(limit: u64, attempted: u128) -> (s: String)
    ensures
        s@ == cost_limit_message(limit as nat, attempted as nat),
{
    let mut s = String::from_str("Cost limit $");
    push_usd4(&mut s, limit as u128);
    s.append(" exceeded (attempted to spend $");
    push_usd4(&mut s, attempted);
    s.append(")");
    s
}

impl Budget {
    /// A budget with the given limits and nothing consumed.
    pub fn new(max_cost_micros: u64, max_tokens: u32) -> (b: Budget)
        ensures
            b == fresh_budget(max_cost_micros, max_tokens),
    {
        Budget { max_cost_micros, max_tokens, current_cost_micros: 0, current_tokens: 0 }
    }

    /// Records the use of `tokens` tokens costing `cost_micros`, checking
    /// the token limit first and then the cost limit. On either refusal the
    /// budget stays as it was and the error names the agent, the limit and
    /// the total that was attempted.
    pub fn consume(&mut self, agent_id: Id, tokens: u32, cost_micros: u64) -> (r: DomainResult<
        (),
    >)
        requires
            old(self).current_tokens + tokens <= u32::MAX,
        ensures
            r is Ok <==> consume_allowed(*old(self), tokens as nat, cost_micros as nat),
            r is Ok ==> *final(self) == consumed(*old(self), tokens as nat, cost_micros as nat),
            r is Err ==> *final(self) == *old(self),
            old(self).current_tokens + tokens > old(self).max_tokens ==> (r matches Err(e)
                && is_budget_exceeded(
                e,
                agent_id,
                token_limit_message(
                    old(self).max_tokens as nat,
                    (old(self).current_tokens + tokens) as nat,
                ),
            )),
            old(self).current_tokens + tokens <= old(self).max_tokens
                && old(self).current_cost_micros + cost_micros > old(self).max_cost_micros
                ==> (r matches Err(e) && is_budget_exceeded(
                e,
                agent_id,
                cost_limit_message(
                    old(self).max_cost_micros as nat,
                    (old(self).current_cost_micros + cost_micros) as nat,
                ),
            )),
    {
        let new_tokens = self.current_tokens + tokens;
        let new_cost = self.current_cost_micros as u128 + cost_micros as u128;
        if new_tokens > self.max_tokens {
            return Err(
                DomainError::BudgetExceeded(agent_id, token_limit_detail(self.max_tokens, new_tokens)),
            );
        }
        if new_cost > self.max_cost_micros as u128 {
            return Err(
                DomainError::BudgetExceeded(agent_id, cost_limit_detail(self.max_cost_micros, new_cost)),
            );
        }
        self.current_tokens = new_tokens;
        self.current_cost_micros = new_cost as u64;
        Ok(())
    }

    /// The tokens still available; zero once usage has reached the limit.
    pub fn remaining_tokens(&self) -> (r: u32)
        ensures
            r == remaining_tokens_of(*self),
    {
        if self.current_tokens >= self.max_tokens {
            0
        } else {
            self.max_tokens - self.current_tokens
        }
    }

    /// The micro-dollars still available; zero once spending has reached
    /// the limit.
    pub fn remaining_cost(&self) -> (r: u64)
        ensures
            r == remaining_cost_of(*self),
    {
        if self.current_cost_micros >= self.max_cost_micros {
            0
        } else {
            self.max_cost_micros - self.current_cost_micros
        }
    }
}

/// A consumption the budget accepts never takes usage past either limit,
/// and leaves the limits themselves as they were.
pub proof fn law_consume_stays_within_limits(b: Budget, tokens: nat, cost: nat)
    requires
        consume_outcome(b, tokens, cost) is Some,
    ensures
        ({
            let after = consume_outcome(b, tokens, cost).unwrap();
            &&& after.current_tokens <= after.max_tokens
            &&& after.current_cost_micros <= after.max_cost_micros
            &&& after.max_tokens == b.max_tokens
            &&& after.max_cost_micros == b.max_cost_micros
        }),
{
}

/// What remains after an accepted consumption is what remained before,
/// less what was consumed.
pub proof fn law_consume_reduces_remaining(b: Budget, tokens: nat, cost: nat)
    requires
        b.current_tokens <= b.max_tokens,
        b.current_cost_micros <= b.max_cost_micros,
        consume_outcome(b, tokens, cost) is Some,
    ensures
        remaining_tokens_of(consume_outcome(b, tokens, cost).unwrap()) == remaining_tokens_of(b)
            - tokens,
        remaining_cost_of(consume_outcome(b, tokens, cost).unwrap()) == remaining_cost_of(b)
            - cost,
{
}

/// Consuming in two steps that are both accepted ends where consuming the
/// sum in one step ends; and whenever the sum is accepted, so is its first
/// part.
pub proof fn law_consume_additive(b: Budget, t1: nat, c1: nat, t2: nat, c2: nat)
    ensures
        consume_outcome(b, t1, c1) is Some && consume_outcome(
            consume_outcome(b, t1, c1).unwrap(),
            t2,
            c2,
        ) is Some ==> consume_outcome(b, t1 + t2, c1 + c2) == consume_outcome(
            consume_outcome(b, t1, c1).unwrap(),
            t2,
            c2,
        ),
        consume_outcome(b, t1 + t2, c1 + c2) is Some ==> consume_outcome(b, t1, c1) is Some,
{
}

/// A fresh budget has all of its limits left.
pub proof fn law_fresh_budget_remaining(max_cost_micros: u64, max_tokens: u32)
    ensures
        remaining_tokens_of(fresh_budget(max_cost_micros, max_tokens)) == max_tokens,
        remaining_cost_of(fresh_budget(max_cost_micros, max_tokens)) == max_cost_micros,
{
}

/// A charge is accepted exactly when both the tokens and the cost still fit
/// within their limits afterwards, and an accepted charge adds exactly what
/// was charged to the usage.
pub proof fn law_consume_accepts_exactly_what_fits(b: Budget, tokens: nat, cost: nat)
    ensures
        (consume_outcome(b, tokens, cost) is Some) <==> (b.current_tokens + tokens
            <= b.max_tokens && b.current_cost_micros + cost <= b.max_cost_micros),
        consume_outcome(b, tokens, cost) matches Some(after) ==> after.current_tokens
            == b.current_tokens + tokens && after.current_cost_micros == b.current_cost_micros
            + cost && after.max_tokens == b.max_tokens && after.max_cost_micros
            == b.max_cost_micros,
{
}

/// What remains plus what was used is the limit while usage is within it,
/// and nothing remains once usage has reached it.
pub proof fn law_remaining_complements_usage(b: Budget)
    ensures
        b.current_tokens <= b.max_tokens ==> remaining_tokens_of(b) + b.current_tokens
            == b.max_tokens,
        b.current_tokens >= b.max_tokens ==> remaining_tokens_of(b) == 0,
        b.current_cost_micros <= b.max_cost_micros ==> remaining_cost_of(b)
            + b.current_cost_micros == b.max_cost_micros,
        b.current_cost_micros >= b.max_cost_micros ==> remaining_cost_of(b) == 0,
{
}

/// The fourth decimal of a cost is the nearest one, and a tie goes to the
/// even one.
pub proof fn law_cost_rounds_to_nearest_even(m: nat)
    ensures
        100 * hundreds_rounded(m) <= m + 50,
        m <= 100 * hundreds_rounded(m) + 50,
        m % 100 == 50 ==> hundreds_rounded(m) % 2 == 0,
{
}

} // verus!
