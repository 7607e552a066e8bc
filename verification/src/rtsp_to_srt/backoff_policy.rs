//! Exponential backoff between reconnection attempts.

use crate::rtsp_to_srt::errors::DomainError;
use crate::time_span::TimeSpan;
use vstd::arithmetic::power::pow;
use vstd::prelude::*;

verus! {

/// The factor by which a delay grows, as the ratio of two whole numbers.
///
/// A ratio states the factor exactly: one and a half is `3 / 2`.
#[derive(Clone, Copy, Debug, PartialEq, Eq, Structural)]
pub struct Multiplier {
    pub numerator: u64,
    pub denominator: u64,
}

impl Multiplier {
    /// The ratio is a number, and that number is greater than one.
    pub open spec fn exceeds_one(self) -> bool {
        0 < self.denominator < self.numerator
    }

    /// The factor `numerator / denominator`.
    pub fn new(numerator: u64, denominator: u64) -> (multiplier: Multiplier)
        ensures
            multiplier.numerator == numerator,
            multiplier.denominator == denominator,
    {
        Multiplier { numerator, denominator }
    }

    /// Whether the factor is greater than one.
    pub fn is_above_one(&self) -> (above: bool)
        ensures
            above == self.exceeds_one(),
    {
        0 < self.denominator && self.denominator < self.numerator
    }
}

/// What a backoff policy is, in numbers: two delays in nanoseconds and the
/// ratio by which a delay grows.
pub struct BackoffModel {
    pub initial_delay: nat,
    pub max_delay: nat,
    pub numerator: nat,
    pub denominator: nat,
}

impl BackoffModel {
    /// The multiplier is greater than one.
    pub open spec fn valid(self) -> bool {
        0 < self.denominator < self.numerator
    }

    /// `delay` times the multiplier, in whole nanoseconds: a product that
    /// is not whole is rounded up to the next nanosecond.
    pub open spec fn scaled(self, delay: nat) -> nat {
        ((delay * self.numerator + self.denominator - 1) / (self.denominator as int)) as nat
    }

    /// The delay that follows `delay`: the scaled delay, capped at the
    /// maximum.
    pub open spec fn next_delay(self, delay: nat) -> nat {
        if self.scaled(delay) <= self.max_delay {
            self.scaled(delay)
        } else {
            self.max_delay
        }
    }

    /// The delay in force after `failures` failures in a row, the first of
    /// which waits for the initial delay.
    pub open spec fn delay_after(self, failures: nat) -> nat
        decreases failures,
    {
        if failures == 0 {
            self.initial_delay
        } else {
            self.next_delay(self.delay_after((failures - 1) as nat))
        }
    }
}

/// Backoff configuration for reconnection attempts.
///
/// A policy holds a multiplier greater than one. It does not ask that the
/// maximum delay be at least the initial one: a policy with a larger
/// initial delay waits that long once and the maximum from then on. The
/// bridge's settings refuse such a pair before a policy is made of them.
#[derive(Clone, Copy, Debug, PartialEq)]
pub struct BackoffPolicy {
    initial_delay: TimeSpan,
    max_delay: TimeSpan,
    multiplier: Multiplier,
}

impl View for BackoffPolicy {
    type V = BackoffModel;

    closed spec fn view(&self) -> BackoffModel {
        BackoffModel {
            initial_delay: self.initial_delay@,
            max_delay: self.max_delay@,
            numerator: self.multiplier.numerator as nat,
            denominator: self.multiplier.denominator as nat,
        }
    }
}

impl BackoffPolicy {
    /// Every policy has a multiplier greater than one.
    #[verifier::type_invariant]
    closed spec fn multiplier_exceeds_one(&self) -> bool {
        self.multiplier.exceeds_one()
    }

    /// The model of a policy made of these three parts.
    pub open spec fn model_of(
        initial_delay: TimeSpan,
        max_delay: TimeSpan,
        multiplier: Multiplier,
    ) -> BackoffModel {
        BackoffModel {
            initial_delay: initial_delay@,
            max_delay: max_delay@,
            numerator: multiplier.numerator as nat,
            denominator: multiplier.denominator as nat,
        }
    }

    /// `result` is what making a policy of these three parts gives: the
    /// policy where the multiplier is greater than one, and
    /// `InvalidBackoffMultiplier` where it is not.
    pub open spec fn made_of(
        initial_delay: TimeSpan,
        max_delay: TimeSpan,
        multiplier: Multiplier,
        result: Result<BackoffPolicy, DomainError>,
    ) -> bool {
        match result {
            Ok(policy) => multiplier.exceeds_one() && policy@ == Self::model_of(
                initial_delay,
                max_delay,
                multiplier,
            ),
            Err(error) => !multiplier.exceeds_one() && error is InvalidBackoffMultiplier,
        }
    }

    /// A policy of these three parts, where the multiplier is greater than
    /// one; `InvalidBackoffMultiplier` where it is one or less, or no number
    /// at all.
    pub fn new(initial_delay: TimeSpan, max_delay: TimeSpan, multiplier: Multiplier) -> (result:
        Result<BackoffPolicy, DomainError>)
        ensures
            Self::made_of(initial_delay, max_delay, multiplier, result),
            result matches Ok(policy) ==> policy@.valid(),
    {
        if !multiplier.is_above_one() {
            return Err(DomainError::InvalidBackoffMultiplier);
        }
        Ok(BackoffPolicy { initial_delay, max_delay, multiplier })
    }

    /// The delay before the first retry.
    pub fn initial_delay(&self) -> (delay: TimeSpan)
        ensures
            delay@ == self@.initial_delay,
    {
        self.initial_delay
    }

    /// The delay that no retry exceeds.
    pub fn max_delay(&self) -> (delay: TimeSpan)
        ensures
            delay@ == self@.max_delay,
    {
        self.max_delay
    }

    /// The factor by which the delay grows from one failure to the next.
    pub fn multiplier(&self) -> (multiplier: Multiplier)
        ensures
            multiplier.numerator == self@.numerator,
            multiplier.denominator == self@.denominator,
            multiplier.exceeds_one(),
    {
        proof {
            use_type_invariant(self);
        }
        self.multiplier
    }

    /// The delay that follows `current`: `current` times the multiplier,
    /// capped at the maximum delay.
    pub fn next_delay(&self, current: TimeSpan) -> (next: TimeSpan)
        ensures
            self@.valid(),
            next@ == self@.next_delay(current@),
    {
        proof {
            use_type_invariant(self);
        }
        let delay: u128 = current.as_nanos() as u128;
        let numerator: u128 = self.multiplier.numerator as u128;
        let denominator: u128 = self.multiplier.denominator as u128;
        assert(delay * numerator <= 0xffff_ffff_ffff_ffff * 0xffff_ffff_ffff_ffff)
            by (nonlinear_arith)
            requires
                delay <= 0xffff_ffff_ffff_ffff,
                numerator <= 0xffff_ffff_ffff_ffff,
        ;
        let product: u128 = delay * numerator;
        let scaled: u128 = (product + (denominator - 1)) / denominator;
        if scaled <= self.max_delay.as_nanos() as u128 {
            TimeSpan::from_nanos(scaled as u64)
        } else {
            self.max_delay
        }
    }
}

impl Default for BackoffPolicy {
    /// One second at first, doubling, thirty seconds at most.
    fn default() -> (policy: BackoffPolicy)
        ensures
            policy@ == (BackoffModel {
                initial_delay: 1_000_000_000,
                max_delay: 30_000_000_000,
                numerator: 2,
                denominator: 1,
            }),
    {
        BackoffPolicy {
            initial_delay: TimeSpan::from_secs(1),
            max_delay: TimeSpan::from_secs(30),
            multiplier: Multiplier::new(2, 1),
        }
    }
}

/// Rounding: `scaled(delay)` is the least whole number of nanoseconds that
/// is not below `delay * numerator / denominator`.
pub proof fn lemma_scaled_is_least_whole(model: BackoffModel, delay: nat)
    requires
        model.valid(),
    ensures
        model.scaled(delay) * model.denominator >= delay * model.numerator,
        (model.scaled(delay) - 1) * model.denominator < delay * model.numerator,
{
    let product: int = (delay * model.numerator) as int;
    let divisor: int = model.denominator as int;
    let padded: int = product + divisor - 1;
    assert(product >= 0) by (nonlinear_arith)
        requires
            product == delay * model.numerator,
    ;
    vstd::arithmetic::div_mod::lemma_fundamental_div_mod(padded, divisor);
    vstd::arithmetic::div_mod::lemma_mod_bound(padded, divisor);
    vstd::arithmetic::div_mod::lemma_div_pos_is_pos(padded, divisor);
    let quotient: int = padded / divisor;
    assert(model.scaled(delay) == quotient);
    assert(quotient * divisor == divisor * quotient) by (nonlinear_arith);
    assert((quotient - 1) * divisor == quotient * divisor - divisor) by (nonlinear_arith);
}

/// Growth: a delay never shrinks below itself when it is scaled.
pub proof fn lemma_scaled_not_below(model: BackoffModel, delay: nat)
    requires
        model.valid(),
    ensures
        model.scaled(delay) >= delay,
        delay > 0 ==> model.scaled(delay) > delay,
{
    lemma_scaled_is_least_whole(model, delay);
    let scaled: int = model.scaled(delay) as int;
    let numerator: int = model.numerator as int;
    let denominator: int = model.denominator as int;
    assert(scaled >= delay && (delay > 0 ==> scaled > delay)) by (nonlinear_arith)
        requires
            0 < denominator < numerator,
            delay >= 0,
            scaled >= 0,
            scaled * denominator >= delay * numerator,
    {
        if delay > 0 {
            assert(delay * numerator > delay * denominator);
            assert(scaled * denominator > delay * denominator);
            if scaled <= delay {
                assert(scaled * denominator <= delay * denominator);
            }
        }
    }
}

/// A delay within the maximum is followed by one that is no shorter and
/// still within the maximum.
pub proof fn lemma_next_delay_between(model: BackoffModel, delay: nat)
    requires
        model.valid(),
        delay <= model.max_delay,
    ensures
        delay <= model.next_delay(delay) <= model.max_delay,
{
    lemma_scaled_not_below(model, delay);
}

/// Whatever the delay, the one that follows it is within the maximum.
pub proof fn lemma_next_delay_capped(model: BackoffModel, delay: nat)
    ensures
        model.next_delay(delay) <= model.max_delay,
{
}

/// The maximum delay is followed by itself.
pub proof fn lemma_max_delay_is_fixed(model: BackoffModel)
    requires
        model.valid(),
    ensures
        model.next_delay(model.max_delay) == model.max_delay,
{
    lemma_scaled_not_below(model, model.max_delay);
}

/// Where the initial delay is within the maximum, the delays of successive
/// failures never decrease and never exceed the maximum.
pub proof fn lemma_delays_never_decrease(model: BackoffModel, failures: nat)
    requires
        model.valid(),
        model.initial_delay <= model.max_delay,
    ensures
        model.delay_after(failures) <= model.delay_after(failures + 1),
        model.delay_after(failures + 1) <= model.max_delay,
        model.delay_after(failures) <= model.max_delay,
    decreases failures,
{
    if failures > 0 {
        lemma_delays_never_decrease(model, (failures - 1) as nat);
    }
    lemma_next_delay_between(model, model.delay_after(failures));
}

/// Once the delay has reached the maximum it stays there.
pub proof fn lemma_delay_stays_at_max(model: BackoffModel, reached: nat, later: nat)
    requires
        model.valid(),
        reached <= later,
        model.delay_after(reached) == model.max_delay,
    ensures
        model.delay_after(later) == model.max_delay,
    decreases later - reached,
{
    if reached < later {
        lemma_delay_stays_at_max(model, reached, (later - 1) as nat);
        lemma_max_delay_is_fixed(model);
    }
}

/// Until the maximum is reached, the delay after `failures` failures is at
/// least the initial delay times the multiplier to the power `failures`.
pub proof fn lemma_delay_grows_geometrically(model: BackoffModel, failures: nat)
    requires
        model.valid(),
    ensures
        model.delay_after(failures) >= model.max_delay || model.delay_after(failures) * pow(
            model.denominator as int,
            failures,
        ) >= model.initial_delay * pow(model.numerator as int, failures),
    decreases failures,
{
    let numerator: int = model.numerator as int;
    let denominator: int = model.denominator as int;
    reveal(pow);
    if failures == 0 {
        assert(pow(numerator, 0) == 1);
        assert(pow(denominator, 0) == 1);
    } else {
        let before: nat = (failures - 1) as nat;
        let previous: int = model.delay_after(before) as int;
        let current: int = model.delay_after(failures) as int;
        lemma_delay_grows_geometrically(model, before);
        lemma_scaled_is_least_whole(model, previous as nat);
        lemma_scaled_not_below(model, previous as nat);
        if current < model.max_delay {
            // No cap was applied at this step, nor was the delay at the cap before it.
            assert(current == model.scaled(previous as nat));
            assert(previous < model.max_delay);
            let grown: int = pow(denominator, before);
            let owed: int = pow(numerator, before);
            vstd::arithmetic::power::lemma_pow_positive(denominator, before);
            vstd::arithmetic::power::lemma_pow_positive(numerator, before);
            assert(pow(denominator, failures) == denominator * grown);
            assert(pow(numerator, failures) == numerator * owed);
            let start: int = model.initial_delay as int;
            assert(current * (denominator * grown) >= start * (numerator * owed))
                by (nonlinear_arith)
                requires
                    current * denominator >= previous * numerator,
                    previous * grown >= start * owed,
                    grown > 0,
                    owed > 0,
                    numerator > 0,
                    denominator > 0,
                    start >= 0,
                    previous >= 0,
                    current >= 0,
            {
                assert(current * denominator * grown >= previous * numerator * grown);
                assert(previous * grown * numerator >= start * owed * numerator);
                assert(previous * numerator * grown == previous * grown * numerator);
                assert(current * (denominator * grown) == current * denominator * grown);
                assert(start * (numerator * owed) == start * owed * numerator);
            }
        }
    }
}

/// The delay reaches the maximum as soon as the initial delay times the
/// multiplier to the power `failures` has reached it: with `initial_delay
/// * (numerator / denominator)^failures >= max_delay`, written without a
/// division, the delay after `failures` failures is the maximum. The least
/// such number of failures is the logarithm of `max_delay / initial_delay`
/// to the base of the multiplier, rounded up.
///
/// An initial delay above the maximum is cut to it by the first step, not
/// before: that case is covered from one failure on.
pub proof fn lemma_delay_reaches_max(model: BackoffModel, failures: nat)
    requires
        model.valid(),
        model.initial_delay <= model.max_delay || failures >= 1,
        model.initial_delay * pow(model.numerator as int, failures) >= model.max_delay * pow(
            model.denominator as int,
            failures,
        ),
    ensures
        model.delay_after(failures) == model.max_delay,
{
    let reached: int = model.delay_after(failures) as int;
    let limit: int = model.max_delay as int;
    if failures >= 1 {
        lemma_next_delay_capped(model, model.delay_after((failures - 1) as nat));
    }
    assert(reached <= limit);
    lemma_delay_grows_geometrically(model, failures);
    if reached < limit {
        let grown: int = pow(model.denominator as int, failures);
        vstd::arithmetic::power::lemma_pow_positive(model.denominator as int, failures);
        assert(reached >= limit) by (nonlinear_arith)
            requires
                grown > 0,
                reached * grown >= limit * grown,
        ;
    }
}

} // verus!
