//! The hybrid liquidity engine: part of each escrow is pooled, half of the
//! fees of a completed contract are recycled into the pool for a week, and the
//! pool's utilization (pooled funds against escrowed funds) steers the platform fee.
use crate::common;
use vstd::prelude::*;

verus! {

/// Percentage of an escrowed down payment that is pooled.
pub const POOL_CONTRIBUTION_RATIO: i128 = 30;
/// How long recycled fees stay in the pool, in seconds.
pub const FEE_RECYCLE_DURATION: u64 = 604_800;
/// Utilization (percent) below which the platform fee carries a surcharge.
pub const MIN_POOL_UTILIZATION: i128 = 20;
/// Utilization (percent) above which the platform fee is discounted.
pub const MAX_POOL_UTILIZATION: i128 = 80;
/// Surcharge (percentage points) on the platform fee of an under-used pool.
pub const LIQUIDITY_SURCHARGE: i128 = 5;
/// Discount (percentage points) on the platform fee of a well-used pool.
pub const LIQUIDITY_DISCOUNT: i128 = 5;
/// Utilization assumed when nothing is escrowed or pooled.
pub const NEUTRAL_UTILIZATION: i128 = 50;

/// The pool's figures.
#[derive(Clone, Copy, Debug, PartialEq, Eq, Structural)]
pub struct LiquidityPoolState {
    pub total_pooled: i128,
    pub total_recycled_fees: i128,
    pub active_contributors: u32,
    pub pool_utilization: i128,
    pub last_updated: u64,
}

/// Published when part of an escrow is pooled.
#[derive(Clone, Copy, Debug, PartialEq, Eq, Structural)]
pub struct LiquidityContributed {
    pub contract_id: u64,
    pub amount: i128,
    pub total_pooled: i128,
}

/// Published when a contract's pooled part leaves the pool.
#[derive(Clone, Copy, Debug, PartialEq, Eq, Structural)]
pub struct LiquidityWithdrawn {
    pub contract_id: u64,
    pub amount: i128,
    pub total_pooled: i128,
}

/// Published when fees are recycled into the pool.
#[derive(Clone, Copy, Debug, PartialEq, Eq, Structural)]
pub struct FeesRecycled {
    pub amount: i128,
    pub recycle_end: u64,
}

/// Published when the pool's utilization changes.
#[derive(Clone, Copy, Debug, PartialEq, Eq, Structural)]
pub struct PoolRebalanced {
    pub old_utilization: i128,
    pub new_utilization: i128,
    pub fee_adjustment: i128,
}

/// An event of the liquidity engine.
#[derive(Clone, Copy, Debug, PartialEq, Eq, Structural)]
pub enum PoolEvent {
    Contributed(LiquidityContributed),
    Withdrawn(LiquidityWithdrawn),
    Recycled(FeesRecycled),
    Rebalanced(PoolRebalanced),
}

/// Fees recycled into the pool, and the time from which they may leave it.
#[derive(Clone, Copy, Debug, PartialEq, Eq, Structural)]
pub struct RecycledBatch {
    pub amount: i128,
    pub recycle_end: u64,
}

/// The engine's stored state: the pool's figures, and the batch of recycled fees with
/// the time it leaves the pool. Each is absent until written.
#[derive(Clone, Copy, Debug, PartialEq, Eq, Structural)]
pub struct LiquidityEngine {
    pub metrics: Option<LiquidityPoolState>,
    pub recycled: Option<RecycledBatch>,
}

/// The pool's figures, or a neutral empty pool at time `now` when none are stored.
pub open spec fn pool_or_default(metrics: Option<LiquidityPoolState>, now: u64) -> LiquidityPoolState {
    match metrics {
        Some(p) => p,
        None => LiquidityPoolState {
            total_pooled: 0,
            total_recycled_fees: 0,
            active_contributors: 0,
            pool_utilization: NEUTRAL_UTILIZATION,
            last_updated: now,
        },
    }
}

/// The pool's figures at time `now`.
pub fn pool_state(metrics: Option<LiquidityPoolState>, now: u64) -> (p: LiquidityPoolState)
    ensures
        p == pool_or_default(metrics, now),
{
    match metrics {
        Some(p) => p,
        None => LiquidityPoolState {
            total_pooled: 0,
            total_recycled_fees: 0,
            active_contributors: 0,
            pool_utilization: NEUTRAL_UTILIZATION,
            last_updated: now,
        },
    }
}

/// Pooled funds as a percentage (rounded toward zero) of the escrowed funds `total_escrow`
/// (positive): `None` when the product leaves the range of an `i128`.
pub open spec fn ratio(total_pooled: int, total_escrow: int) -> Option<int> {
    if common::fits_i128(total_pooled * 100) {
        Some(common::tdiv(total_pooled * 100, total_escrow))
    } else {
        None
    }
}

fn ratio_of(total_pooled: i128, total_escrow: i128) -> (r: Option<i128>)
    requires
        total_escrow > 0,
    ensures
        match ratio(total_pooled as int, total_escrow as int) {
            Some(x) => r == Some(x as i128) && x == r.unwrap() as int,
            None => r is None,
        },
{
    match total_pooled.checked_mul(100) {
        Some(p) => Some(p / total_escrow),
        None => None,
    }
}

/// The fee adjustment (percentage points) that a utilization calls for.
pub open spec fn fee_adjustment(utilization: int) -> int {
    if utilization < MIN_POOL_UTILIZATION {
        LIQUIDITY_SURCHARGE as int
    } else if utilization > MAX_POOL_UTILIZATION {
        -LIQUIDITY_DISCOUNT
    } else {
        0
    }
}

/// The events of a step as a sequence.
pub open spec fn events_of(e: Option<PoolEvent>) -> Seq<PoolEvent> {
    match e {
        Some(x) => seq![x],
        None => Seq::empty(),
    }
}

impl LiquidityEngine {
    /// Pools part of an escrowed `escrow_amount` for contract `contract_id`. `total_escrow` is
    /// the sum of the escrow of all running contracts, `None` when that sum leaves the range
    /// of an `i128`. Gives the new state, the pooled amount and the event, or `None` when a
    /// figure leaves its integer range.
    pub open spec fn contribution(
        self,
        contract_id: u64,
        escrow_amount: i128,
        total_escrow: Option<i128>,
        now: u64,
    ) -> Option<(LiquidityEngine, i128, Option<PoolEvent>)> {
        if !common::fits_i128(escrow_amount * POOL_CONTRIBUTION_RATIO) {
            None
        } else {
            let c = common::tdiv(escrow_amount * POOL_CONTRIBUTION_RATIO, 100);
            if c <= 0 {
                Some((self, 0, None))
            } else {
                let p = pool_or_default(self.metrics, now);
                let tp = p.total_pooled + c;
                if !common::fits_i128(tp) || p.active_contributors + 1 > u32::MAX {
                    None
                } else {
                    match total_escrow {
                        None => None,
                        Some(te) => {
                            let util = if te > 0 {
                                ratio(tp, te as int)
                            } else {
                                Some(p.pool_utilization as int)
                            };
                            match util {
                                None => None,
                                Some(u) => {
                                    let np = LiquidityPoolState {
                                        total_pooled: tp as i128,
                                        active_contributors: (p.active_contributors + 1) as u32,
                                        pool_utilization: u as i128,
                                        last_updated: now,
                                        ..p
                                    };
                                    Some(
                                        (
                                            LiquidityEngine { metrics: Some(np), ..self },
                                            c as i128,
                                            Some(
                                                PoolEvent::Contributed(
                                                    LiquidityContributed {
                                                        contract_id,
                                                        amount: c as i128,
                                                        total_pooled: tp as i128,
                                                    },
                                                ),
                                            ),
                                        ),
                                    )
                                },
                            }
                        },
                    }
                }
            }
        }
    }

    /// Pools part of an escrowed amount; see [`LiquidityEngine::contribution`].
    pub fn contribute_to_pool(
        self,
        contract_id: u64,
        escrow_amount: i128,
        total_escrow: Option<i128>,
        now: u64,
    ) -> (r: Option<(LiquidityEngine, i128, Option<PoolEvent>)>)
        ensures
            r == self.contribution(contract_id, escrow_amount, total_escrow, now),
    {
        let scaled = match escrow_amount.checked_mul(POOL_CONTRIBUTION_RATIO) {
            Some(x) => x,
            None => {
                return None;
            },
        };
        let contribution = scaled / 100;
        if contribution <= 0 {
            return Some((self, 0, None));
        }
        let mut pool = pool_state(self.metrics, now);
        pool.total_pooled = match pool.total_pooled.checked_add(contribution) {
            Some(x) => x,
            None => {
                return None;
            },
        };
        pool.active_contributors = match pool.active_contributors.checked_add(1) {
            Some(x) => x,
            None => {
                return None;
            },
        };
        let te = match total_escrow {
            Some(t) => t,
            None => {
                return None;
            },
        };
        if te > 0 {
            pool.pool_utilization = match ratio_of(pool.total_pooled, te) {
                Some(u) => u,
                None => {
                    return None;
                },
            };
        }
        pool.last_updated = now;
        let event = PoolEvent::Contributed(
            LiquidityContributed { contract_id, amount: contribution, total_pooled: pool.total_pooled },
        );
        Some((LiquidityEngine { metrics: Some(pool), ..self }, contribution, Some(event)))
    }

    /// Takes contract `contract_id`'s pooled `amount` out of the pool (never below zero).
    pub open spec fn withdrawal(
        self,
        contract_id: u64,
        amount: i128,
        total_escrow: Option<i128>,
        now: u64,
    ) -> Option<(LiquidityEngine, Option<PoolEvent>)> {
        if amount <= 0 {
            Some((self, None))
        } else {
            let p = pool_or_default(self.metrics, now);
            let d = p.total_pooled - amount;
            if !common::fits_i128(d) {
                None
            } else {
                let tp = if d > 0 {
                    d
                } else {
                    0
                };
                let ac = if p.active_contributors > 0 {
                    p.active_contributors - 1
                } else {
                    0
                };
                match total_escrow {
                    None => None,
                    Some(te) => {
                        let util = if te > 0 {
                            ratio(tp, te as int)
                        } else {
                            Some(NEUTRAL_UTILIZATION as int)
                        };
                        match util {
                            None => None,
                            Some(u) => {
                                let np = LiquidityPoolState {
                                    total_pooled: tp as i128,
                                    active_contributors: ac as u32,
                                    pool_utilization: u as i128,
                                    last_updated: now,
                                    ..p
                                };
                                Some(
                                    (
                                        LiquidityEngine { metrics: Some(np), ..self },
                                        Some(
                                            PoolEvent::Withdrawn(
                                                LiquidityWithdrawn {
                                                    contract_id,
                                                    amount,
                                                    total_pooled: tp as i128,
                                                },
                                            ),
                                        ),
                                    ),
                                )
                            },
                        }
                    },
                }
            }
        }
    }

    /// Takes a contract's pooled part out of the pool; see [`LiquidityEngine::withdrawal`].
    pub fn withdraw_from_pool(
        self,
        contract_id: u64,
        contributed_amount: i128,
        total_escrow: Option<i128>,
        now: u64,
    ) -> (r: Option<(LiquidityEngine, Option<PoolEvent>)>)
        ensures
            r == self.withdrawal(contract_id, contributed_amount, total_escrow, now),
    {
        if contributed_amount <= 0 {
            return Some((self, None));
        }
        let mut pool = pool_state(self.metrics, now);
        let d = match pool.total_pooled.checked_sub(contributed_amount) {
            Some(x) => x,
            None => {
                return None;
            },
        };
        pool.total_pooled = if d > 0 {
            d
        } else {
            0
        };
        pool.active_contributors = pool.active_contributors.saturating_sub(1);
        let te = match total_escrow {
            Some(t) => t,
            None => {
                return None;
            },
        };
        pool.pool_utilization = if te > 0 {
            match ratio_of(pool.total_pooled, te) {
                Some(u) => u,
                None => {
                    return None;
                },
            }
        } else {
            NEUTRAL_UTILIZATION
        };
        pool.last_updated = now;
        let event = PoolEvent::Withdrawn(
            LiquidityWithdrawn {
                contract_id,
                amount: contributed_amount,
                total_pooled: pool.total_pooled,
            },
        );
        Some((LiquidityEngine { metrics: Some(pool), ..self }, Some(event)))
    }

    /// Recycles `fee_amount` into the pool until a recycling period from `now` has passed;
    /// the new batch takes the place of any earlier one.
    pub open spec fn recycling(self, fee_amount: i128, total_escrow: Option<i128>, now: u64) -> Option<
        (LiquidityEngine, Option<PoolEvent>),
    > {
        if fee_amount <= 0 {
            Some((self, None))
        } else {
            let p = pool_or_default(self.metrics, now);
            let tr = p.total_recycled_fees + fee_amount;
            let tp = p.total_pooled + fee_amount;
            if !common::fits_i128(tr) || !common::fits_i128(tp) {
                None
            } else {
                match total_escrow {
                    None => None,
                    Some(te) => {
                        let util = if te > 0 {
                            ratio(tp, te as int)
                        } else {
                            Some(p.pool_utilization as int)
                        };
                        match util {
                            None => None,
                            Some(u) => if now + FEE_RECYCLE_DURATION > u64::MAX {
                                None
                            } else {
                                let end = (now + FEE_RECYCLE_DURATION) as u64;
                                let np = LiquidityPoolState {
                                    total_pooled: tp as i128,
                                    total_recycled_fees: tr as i128,
                                    pool_utilization: u as i128,
                                    last_updated: now,
                                    ..p
                                };
                                Some(
                                    (
                                        LiquidityEngine {
                                            metrics: Some(np),
                                            recycled: Some(RecycledBatch { amount: fee_amount, recycle_end: end }),
                                        },
                                        Some(
                                            PoolEvent::Recycled(
                                                FeesRecycled { amount: fee_amount, recycle_end: end },
                                            ),
                                        ),
                                    ),
                                )
                            },
                        }
                    },
                }
            }
        }
    }

    /// Recycles fees into the pool; see [`LiquidityEngine::recycling`].
    pub fn recycle_fees(self, fee_amount: i128, total_escrow: Option<i128>, now: u64) -> (r: Option<
        (LiquidityEngine, Option<PoolEvent>),
    >)
        ensures
            r == self.recycling(fee_amount, total_escrow, now),
    {
        if fee_amount <= 0 {
            return Some((self, None));
        }
        let mut pool = pool_state(self.metrics, now);
        pool.total_recycled_fees = match pool.total_recycled_fees.checked_add(fee_amount) {
            Some(x) => x,
            None => {
                return None;
            },
        };
        pool.total_pooled = match pool.total_pooled.checked_add(fee_amount) {
            Some(x) => x,
            None => {
                return None;
            },
        };
        let te = match total_escrow {
            Some(t) => t,
            None => {
                return None;
            },
        };
        if te > 0 {
            pool.pool_utilization = match ratio_of(pool.total_pooled, te) {
                Some(u) => u,
                None => {
                    return None;
                },
            };
        }
        let recycle_end = match now.checked_add(FEE_RECYCLE_DURATION) {
            Some(x) => x,
            None => {
                return None;
            },
        };
        pool.last_updated = now;
        Some(
            (
                LiquidityEngine {
                    metrics: Some(pool),
                    recycled: Some(RecycledBatch { amount: fee_amount, recycle_end }),
                },
                Some(PoolEvent::Recycled(FeesRecycled { amount: fee_amount, recycle_end })),
            ),
        )
    }

    /// Once its period is over, takes the recycled batch out of the pool (neither figure
    /// going below zero) and forgets it. Gives the new state and the amount released.
    pub open spec fn release(self, total_escrow: Option<i128>, now: u64) -> Option<
        (LiquidityEngine, i128),
    > {
        match self.recycled {
            Some(batch) => if now >= batch.recycle_end {
                let amount = batch.amount;
                let p = pool_or_default(self.metrics, now);
                let r = p.total_recycled_fees - amount;
                let t = p.total_pooled - amount;
                if !common::fits_i128(r) || !common::fits_i128(t) {
                    None
                } else {
                    let tr = if r > 0 {
                        r
                    } else {
                        0
                    };
                    let tp = if t > 0 {
                        t
                    } else {
                        0
                    };
                    match total_escrow {
                        None => None,
                        Some(te) => {
                            let util = if te > 0 {
                                ratio(tp, te as int)
                            } else {
                                Some(NEUTRAL_UTILIZATION as int)
                            };
                            match util {
                                None => None,
                                Some(u) => Some(
                                    (
                                        LiquidityEngine {
                                            metrics: Some(
                                                LiquidityPoolState {
                                                    total_pooled: tp as i128,
                                                    total_recycled_fees: tr as i128,
                                                    pool_utilization: u as i128,
                                                    last_updated: now,
                                                    ..p
                                                },
                                            ),
                                            recycled: None,
                                        },
                                        amount,
                                    ),
                                ),
                            }
                        },
                    }
                }
            } else {
                Some((self, 0))
            },
            None => Some((self, 0)),
        }
    }

    /// Releases the recycled batch once its period is over; see [`LiquidityEngine::release`].
    pub fn release_recycled_fees(self, total_escrow: Option<i128>, now: u64) -> (r: Option<
        (LiquidityEngine, i128),
    >)
        ensures
            r == self.release(total_escrow, now),
    {
        let (amount, recycle_end) = match self.recycled {
            Some(b) => (b.amount, b.recycle_end),
            None => {
                return Some((self, 0));
            },
        };
        if now < recycle_end {
            return Some((self, 0));
        }
        let mut pool = pool_state(self.metrics, now);
        let r = match pool.total_recycled_fees.checked_sub(amount) {
            Some(x) => x,
            None => {
                return None;
            },
        };
        let t = match pool.total_pooled.checked_sub(amount) {
            Some(x) => x,
            None => {
                return None;
            },
        };
        pool.total_recycled_fees = if r > 0 {
            r
        } else {
            0
        };
        pool.total_pooled = if t > 0 {
            t
        } else {
            0
        };
        let te = match total_escrow {
            Some(x) => x,
            None => {
                return None;
            },
        };
        pool.pool_utilization = if te > 0 {
            match ratio_of(pool.total_pooled, te) {
                Some(u) => u,
                None => {
                    return None;
                },
            }
        } else {
            NEUTRAL_UTILIZATION
        };
        pool.last_updated = now;
        Some((LiquidityEngine { metrics: Some(pool), recycled: None }, amount))
    }

    /// Recomputes the pool's utilization; when it changes, stores it and reports the fee
    /// adjustment that the new utilization calls for.
    pub open spec fn rebalancing(self, total_escrow: Option<i128>, now: u64) -> Option<
        (LiquidityEngine, Option<PoolEvent>),
    > {
        let p = pool_or_default(self.metrics, now);
        let new_util = if p.total_pooled > 0 {
            match total_escrow {
                None => None,
                Some(te) => if te > 0 {
                    ratio(p.total_pooled as int, te as int)
                } else {
                    Some(NEUTRAL_UTILIZATION as int)
                },
            }
        } else {
            Some(NEUTRAL_UTILIZATION as int)
        };
        match new_util {
            None => None,
            Some(u) => if p.pool_utilization != u {
                Some(
                    (
                        LiquidityEngine {
                            metrics: Some(
                                LiquidityPoolState {
                                    pool_utilization: u as i128,
                                    last_updated: now,
                                    ..p
                                },
                            ),
                            ..self
                        },
                        Some(
                            PoolEvent::Rebalanced(
                                PoolRebalanced {
                                    old_utilization: p.pool_utilization,
                                    new_utilization: u as i128,
                                    fee_adjustment: fee_adjustment(u) as i128,
                                },
                            ),
                        ),
                    ),
                )
            } else {
                Some((self, None))
            },
        }
    }

    fn rebalance(self, total_escrow: Option<i128>, now: u64) -> (r: Option<
        (LiquidityEngine, Option<PoolEvent>),
    >)
        ensures
            r == self.rebalancing(total_escrow, now),
    {
        let pool = pool_state(self.metrics, now);
        let old_utilization = pool.pool_utilization;
        let new_utilization: i128 = if pool.total_pooled > 0 {
            let te = match total_escrow {
                Some(x) => x,
                None => {
                    return None;
                },
            };
            if te > 0 {
                match ratio_of(pool.total_pooled, te) {
                    Some(u) => u,
                    None => {
                        return None;
                    },
                }
            } else {
                NEUTRAL_UTILIZATION
            }
        } else {
            NEUTRAL_UTILIZATION
        };
        if old_utilization != new_utilization {
            let updated = LiquidityPoolState {
                pool_utilization: new_utilization,
                last_updated: now,
                ..pool
            };
            let adjustment: i128 = if new_utilization < MIN_POOL_UTILIZATION {
                LIQUIDITY_SURCHARGE
            } else if new_utilization > MAX_POOL_UTILIZATION {
                -LIQUIDITY_DISCOUNT
            } else {
                0
            };
            Some(
                (
                    LiquidityEngine { metrics: Some(updated), ..self },
                    Some(
                        PoolEvent::Rebalanced(
                            PoolRebalanced {
                                old_utilization,
                                new_utilization,
                                fee_adjustment: adjustment,
                            },
                        ),
                    ),
                ),
            )
        } else {
            Some((self, None))
        }
    }

    /// Settles the pool when a contract ends: releases a recycled batch whose period is
    /// over, recycles half of the contract's `fees_paid` (rounded toward zero), withdraws the
    /// contract's pooled part if it has one, and rebalances. Gives the new state and the
    /// events in order, or `None` when a figure leaves its integer range.
    pub open spec fn settlement(
        self,
        contract_id: u64,
        contributes_to_pool: bool,
        liquidity_contribution: i128,
        fees_paid: i128,
        total_escrow: Option<i128>,
        now: u64,
    ) -> Option<(LiquidityEngine, Seq<PoolEvent>)> {
        match self.release(total_escrow, now) {
            None => None,
            Some((e1, _)) => {
                let r2 = if fees_paid > 0 {
                    e1.recycling(common::tdiv(fees_paid as int, 2) as i128, total_escrow, now)
                } else {
                    Some((e1, None))
                };
                match r2 {
                    None => None,
                    Some((e2, ev1)) => {
                        let r3 = if contributes_to_pool && liquidity_contribution > 0 {
                            e2.withdrawal(contract_id, liquidity_contribution, total_escrow, now)
                        } else {
                            Some((e2, None))
                        };
                        match r3 {
                            None => None,
                            Some((e3, ev2)) => match e3.rebalancing(total_escrow, now) {
                                None => None,
                                Some((e4, ev3)) => Some(
                                    (e4, events_of(ev1) + events_of(ev2) + events_of(ev3)),
                                ),
                            },
                        }
                    },
                }
            },
        }
    }

    /// Settles the pool when a contract ends; see [`LiquidityEngine::settlement`].
    pub fn process_hybrid_liquidity(
        self,
        contract_id: u64,
        contributes_to_pool: bool,
        liquidity_contribution: i128,
        fees_paid: i128,
        total_escrow: Option<i128>,
        now: u64,
    ) -> (r: Option<(LiquidityEngine, Vec<PoolEvent>)>)
        ensures
            match self.settlement(
                contract_id,
                contributes_to_pool,
                liquidity_contribution,
                fees_paid,
                total_escrow,
                now,
            ) {
                None => r is None,
                Some((e, evs)) => r is Some && r.unwrap().0 == e && r.unwrap().1@ == evs,
            },
    {
        let mut events: Vec<PoolEvent> = Vec::new();
        let (e1, _released) = match self.release_recycled_fees(total_escrow, now) {
            Some(x) => x,
            None => {
                return None;
            },
        };
        let ghost ev_a: Option<PoolEvent> = None;
        let e2 = if fees_paid > 0 {
            match e1.recycle_fees(fees_paid / 2, total_escrow, now) {
                Some((e, ev)) => {
                    proof {
                        ev_a = ev;
                    }
                    if let Some(x) = ev {
                        events.push(x);
                    }
                    e
                },
                None => {
                    return None;
                },
            }
        } else {
            e1
        };
        assert(events@ == events_of(ev_a));
        let ghost ev_b: Option<PoolEvent> = None;
        let e3 = if contributes_to_pool && liquidity_contribution > 0 {
            match e2.withdraw_from_pool(contract_id, liquidity_contribution, total_escrow, now) {
                Some((e, ev)) => {
                    proof {
                        ev_b = ev;
                    }
                    if let Some(x) = ev {
                        events.push(x);
                    }
                    e
                },
                None => {
                    return None;
                },
            }
        } else {
            e2
        };
        assert(events@ =~= events_of(ev_a) + events_of(ev_b));
        let (e4, ev_c) = match e3.rebalance(total_escrow, now) {
            Some(x) => x,
            None => {
                return None;
            },
        };
        if let Some(x) = ev_c {
            events.push(x);
        }
        assert(events@ =~= events_of(ev_a) + events_of(ev_b) + events_of(ev_c));
        Some((e4, events))
    }
}

} // verus!

verus! {

/// Taking a contract's part out of the pool, or releasing recycled fees, never leaves the
/// pooled total below zero.
pub proof fn law_pool_never_negative(e: LiquidityEngine, contract_id: u64, amount: i128, total_escrow: Option<i128>, now: u64)
    ensures
        amount > 0 && e.withdrawal(contract_id, amount, total_escrow, now) is Some ==> e.withdrawal(
            contract_id,
            amount,
            total_escrow,
            now,
        ).unwrap().0.metrics.unwrap().total_pooled >= 0,
        e.release(total_escrow, now) is Some && e.release(total_escrow, now).unwrap().1 != 0
            ==> e.release(total_escrow, now).unwrap().0.metrics.unwrap().total_pooled >= 0
            && e.release(total_escrow, now).unwrap().0.metrics.unwrap().total_recycled_fees >= 0
            && e.release(total_escrow, now).unwrap().0.recycled is None,
{
}

/// Recycled fees stay in the pool for exactly the recycling period: before it ends nothing
/// is released, from its end on the whole batch is.
pub proof fn law_recycled_fees_held_for_period(e: LiquidityEngine, total_escrow: Option<i128>, now: u64)
    requires
        e.recycled is Some,
    ensures
        now < e.recycled.unwrap().recycle_end ==> e.release(total_escrow, now) == Some((e, 0i128)),
        now >= e.recycled.unwrap().recycle_end && e.release(total_escrow, now) is Some ==> e.release(
            total_escrow,
            now,
        ).unwrap().1 == e.recycled.unwrap().amount,
{
}

/// An empty pool is neutral: once nothing is pooled, rebalancing sets the utilization to
/// the neutral value.
pub proof fn law_empty_pool_is_neutral(e: LiquidityEngine, total_escrow: Option<i128>, now: u64)
    requires
        pool_or_default(e.metrics, now).total_pooled <= 0,
    ensures
        e.rebalancing(total_escrow, now) is Some,
        pool_or_default(e.rebalancing(total_escrow, now).unwrap().0.metrics, now).pool_utilization
            == NEUTRAL_UTILIZATION,
{
}

} // verus!
