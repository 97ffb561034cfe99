//! Admission control for new client connections: a GCRA rate limiter that
//! either admits a connection or says how long until it would.
use std::time::Duration;
use vstd::prelude::*;

use governor::clock::{Clock, QuantaInstant};
use governor::{DefaultDirectRateLimiter, NotUntil, Quota};

verus! {

#[verifier::external_type_specification]
#[verifier::external_body]
pub struct ExQuota(governor::Quota);

#[verifier::external_type_specification]
#[verifier::external_body]
pub struct ExQuantaInstant(governor::clock::QuantaInstant);

/// governor's unkeyed in-memory rate limiter on its default clock, kept in
/// a private field so that only the functions below touch it.
#[verifier::external_body]
pub struct Limiter {
    inner: DefaultDirectRateLimiter,
}

/// governor's `NotUntil`: the answer of a limiter that had no free cell.
#[verifier::external_body]
pub struct Refusal {
    inner: NotUntil<QuantaInstant>,
}

/// The largest `replenish * max_burst`, in nanoseconds (about 146 years),
/// that governor's GCRA arithmetic, done in plain `u64`, can hold with room
/// for the clock.
pub const MAX_SPAN_NANOS: u64 = 0x4000_0000_0000_0000;

/// The replenish period of a quota, in nanoseconds.
pub uninterp spec fn quota_period(q: Quota) -> nat;

/// The burst capacity of a quota, in cells.
pub uninterp spec fn quota_burst(q: Quota) -> nat;

/// The replenish period that a limiter was built with, in nanoseconds.
pub uninterp spec fn limiter_period(l: Limiter) -> nat;

/// The burst capacity that a limiter was built with, in cells.
pub uninterp spec fn limiter_burst(l: Limiter) -> nat;

/// How many cells a limiter has let through since it was built.
pub uninterp spec fn limiter_taken(l: Limiter) -> nat;

/// The replenish period of the limiter that gave a refusal.
pub uninterp spec fn refusal_period(r: Refusal) -> nat;

/// Relies on governor's `Quota::with_period`: no quota for a zero period,
/// else one cell per period with a burst of one.
#[verifier::external_body]
fn quota_with_period(period_nanos: u64) -> (r: Option<Quota>)
    ensures
        r is None <==> period_nanos == 0,
        r matches Some(q) ==> quota_period(q) == period_nanos && quota_burst(q) == 1,
{
    Quota::with_period(Duration::from_nanos(period_nanos))
}

/// Relies on governor's `Quota::allow_burst`: the same period with a burst
/// capacity of `max_burst` cells.
#[verifier::external_body]
fn quota_allow_burst(quota: Quota, max_burst: u32) -> (r: Quota)
    requires
        max_burst > 0,
    ensures
        quota_period(r) == quota_period(quota),
        quota_burst(r) == max_burst,
{
    quota.allow_burst(std::num::NonZeroU32::new(max_burst).unwrap())
}

/// Relies on governor's `RateLimiter::direct`: a fresh unkeyed in-memory
/// limiter for `quota`. Building it computes `period * (burst - 1)` in
/// `u64`, hence the bound.
#[verifier::external_body]
fn limiter_direct(quota: Quota) -> (r: Limiter)
    requires
        quota_period(quota) > 0,
        quota_burst(quota) > 0,
        quota_period(quota) * quota_burst(quota) <= MAX_SPAN_NANOS,
    ensures
        limiter_period(r) == quota_period(quota),
        limiter_burst(r) == quota_burst(quota),
        limiter_taken(r) == 0,
{
    Limiter { inner: governor::RateLimiter::direct(quota) }
}

/// Relies on governor's `RateLimiter::check` (GCRA `test_and_update`): it
/// lets a cell through, or refuses without changing the limiter's state.
/// While fewer than `burst` cells have been let through, the theoretical
/// arrival time stays within `burst - 1` periods of the clock, so the cell
/// is let through whatever the time.
#[verifier::external_body]
fn limiter_check(limiter: &mut Limiter) -> (r: Result<(), Refusal>)
    requires
        limiter_period(*old(limiter)) > 0,
        limiter_period(*old(limiter)) * limiter_burst(*old(limiter)) <= MAX_SPAN_NANOS,
    ensures
        limiter_period(*final(limiter)) == limiter_period(*old(limiter)),
        limiter_burst(*final(limiter)) == limiter_burst(*old(limiter)),
        r is Ok ==> limiter_taken(*final(limiter)) == limiter_taken(*old(limiter)) + 1,
        r is Err ==> limiter_taken(*final(limiter)) == limiter_taken(*old(limiter)),
        limiter_taken(*old(limiter)) < limiter_burst(*old(limiter)) ==> r is Ok,
        r matches Err(f) ==> refusal_period(f) == limiter_period(*old(limiter)),
{
    limiter.inner.check().map_err(|inner| Refusal { inner })
}

/// Relies on governor's `NotUntil::wait_time_from`, from the limiter's own
/// clock read now: the time until the refused cell would conform. A refused
/// cell conforms at most one period after the refusal, and the clock has
/// not gone back since.
#[verifier::external_body]
fn refusal_wait_nanos(limiter: &Limiter, refusal: &Refusal) -> (r: u64)
    ensures
        r <= refusal_period(*refusal),
{
    refusal.inner.wait_time_from(limiter.inner.clock().now()).as_nanos() as u64
}

/// Why a barrier could not be built.
#[derive(Debug, PartialEq, Eq, Structural)]
pub enum BarrierError {
    /// The burst capacity was zero.
    InvalidMaxBurst,
    /// The replenish period was zero.
    InvalidReplenish,
}

/// A GCRA rate limiter on accepted connections: `replenish_nanos` is the
/// time it takes to regenerate one cell, `max_burst` the number of cells
/// that can be taken at once from idle. It belongs to the accept loop alone.
pub struct Barrier {
    limiter: Limiter,
    replenish_nanos: u64,
    max_burst: u32,
}

impl Barrier {
    /// The period that regenerates one cell, in nanoseconds.
    pub closed spec fn spec_replenish_nanos(&self) -> nat {
        self.replenish_nanos as nat
    }

    /// The burst capacity, in cells.
    pub closed spec fn spec_max_burst(&self) -> nat {
        self.max_burst as nat
    }

    /// How many probes have taken a cell since the barrier was built.
    pub closed spec fn cells_taken(&self) -> nat {
        limiter_taken(self.limiter)
    }

    /// Both parameters are positive, their product within bounds, and the
    /// limiter was built with them.
    pub closed spec fn wf(&self) -> bool {
        &&& self.replenish_nanos > 0
        &&& self.max_burst > 0
        &&& self.replenish_nanos * self.max_burst <= MAX_SPAN_NANOS
        &&& limiter_period(self.limiter) == self.replenish_nanos
        &&& limiter_burst(self.limiter) == self.max_burst
    }

    /// Builds a barrier that regenerates one cell every `replenish_nanos`
    /// nanoseconds and holds at most `max_burst` cells. A zero period is
    /// refused first, then a zero burst. The new barrier is idle.
    pub fn build(replenish_nanos: u64, max_burst: u32) -> (r: Result<Barrier, BarrierError>)
        requires
            replenish_nanos * max_burst <= MAX_SPAN_NANOS,
        ensures
            replenish_nanos == 0 ==> r == Err::<Barrier, BarrierError>(
                BarrierError::InvalidReplenish,
            ),
            replenish_nanos > 0 && max_burst == 0 ==> r == Err::<Barrier, BarrierError>(
                BarrierError::InvalidMaxBurst,
            ),
            replenish_nanos > 0 && max_burst > 0 ==> (r matches Ok(b) && b.wf()
                && b.spec_replenish_nanos() == replenish_nanos
                && b.spec_max_burst() == max_burst && b.cells_taken() == 0),
    {
        let quota = match quota_with_period(replenish_nanos) {
            Some(q) => q,
            None => return Err(BarrierError::InvalidReplenish),
        };
        if max_burst == 0 {
            return Err(BarrierError::InvalidMaxBurst);
        }
        let quota = quota_allow_burst(quota, max_burst);
        Ok(Barrier { limiter: limiter_direct(quota), replenish_nanos, max_burst })
    }

    /// The period that regenerates one cell, in nanoseconds.
    pub fn replenish_nanos(&self) -> (r: u64)
        ensures
            r == self.spec_replenish_nanos(),
    {
        self.replenish_nanos
    }

    /// The burst capacity, in cells.
    pub fn max_burst(&self) -> (r: u32)
        ensures
            r == self.spec_max_burst(),
    {
        self.max_burst
    }

    /// Probes the barrier: `None` when a cell was free and has been taken,
    /// else `Some(wait)`, the nanoseconds until one will be, and no cell is
    /// taken. While fewer than `max_burst` cells have been taken the probe
    /// passes; past that, the clock decides.
    pub fn jammed(&mut self) -> (r: Option<u64>)
        requires
            old(self).wf(),
        ensures
            final(self).wf(),
            final(self).spec_replenish_nanos() == old(self).spec_replenish_nanos(),
            final(self).spec_max_burst() == old(self).spec_max_burst(),
            r is None <==> final(self).cells_taken() == old(self).cells_taken() + 1,
            r is Some ==> final(self).cells_taken() == old(self).cells_taken(),
            old(self).cells_taken() < old(self).spec_max_burst() ==> r is None,
            r matches Some(w) ==> w <= old(self).spec_replenish_nanos(),
    {
        match limiter_check(&mut self.limiter) {
            Ok(()) => None,
            Err(refusal) => Some(refusal_wait_nanos(&self.limiter, &refusal)),
        }
    }
}

} // verus!
