//! Time-weighted price oracle kept in a fixed ring of observations.
use vstd::prelude::*;
use crate::error::GammaError;
use crate::key::Pubkey;

verus! {

/// Number of observations the ring holds.
pub const OBSERVATION_NUM: usize = 100;

/// One sample of the cumulative prices.
#[derive(Clone, Copy, Debug, PartialEq, Eq, Structural)]
pub struct Observation {
    /// Time of the sample, in seconds.
    pub block_timestamp: u64,
    /// Sum of token 0's Q32.32 price times elapsed seconds, modulo 2^128.
    pub cumulative_token_0_price_x32: u128,
    /// Sum of token 1's Q32.32 price times elapsed seconds, modulo 2^128.
    pub cumulative_token_1_price_x32: u128,
}

/// The oracle of one pool.
pub struct ObservationState {
    /// Whether any observation has been written.
    pub initialized: bool,
    /// Slot of the most recent observation.
    pub observation_index: u16,
    pub pool_id: Pubkey,
    /// The ring, always `OBSERVATION_NUM` long.
    pub observations: Vec<Observation>,
}

/// What an oracle holds, as mathematical values.
pub struct OracleView {
    pub initialized: bool,
    pub index: int,
    pub pool_id: Pubkey,
    pub observations: Seq<Observation>,
}

impl View for ObservationState {
    type V = OracleView;

    open spec fn view(&self) -> OracleView {
        OracleView {
            initialized: self.initialized,
            index: self.observation_index as int,
            pool_id: self.pool_id,
            observations: self.observations@,
        }
    }
}

impl OracleView {
    /// The ring has its full length and the index points into it.
    pub open spec fn wf(self) -> bool {
        self.observations.len() == OBSERVATION_NUM && 0 <= self.index < OBSERVATION_NUM
    }

    /// The most recent observation.
    pub open spec fn last(self) -> Observation {
        self.observations[self.index]
    }
}

/// Slot after `i` in the ring.
pub open spec fn next_index(i: int) -> int {
    if i == OBSERVATION_NUM - 1 {
        0
    } else {
        i + 1
    }
}

/// `a + b` modulo 2^128.
pub open spec fn wrap_add(a: int, b: int) -> int {
    (a + b) % (u128::MAX + 1)
}

/// Seconds from `from` to `to`, zero if the clock went back.
pub open spec fn elapsed(from: u64, to: u64) -> int {
    if to > from {
        to - from
    } else {
        0
    }
}

/// The oracle after recording prices `(p0, p1)` at time `t`, or `None` where
/// a price times the elapsed time does not fit in 128 bits.
pub open spec fn oracle_update(v: OracleView, t: u64, p0: u128, p1: u128) -> Option<OracleView> {
    if !v.initialized {
        Some(
            OracleView {
                initialized: true,
                observations: v.observations.update(
                    v.index,
                    Observation {
                        block_timestamp: t,
                        cumulative_token_0_price_x32: 0,
                        cumulative_token_1_price_x32: 0,
                    },
                ),
                ..v
            },
        )
    } else {
        let last = v.last();
        let dt = elapsed(last.block_timestamp, t);
        if dt == 0 {
            Some(v)
        } else if p0 * dt > u128::MAX || p1 * dt > u128::MAX {
            None
        } else {
            let ni = next_index(v.index);
            Some(
                OracleView {
                    index: ni,
                    observations: v.observations.update(
                        ni,
                        Observation {
                            block_timestamp: t,
                            cumulative_token_0_price_x32: wrap_add(
                                last.cumulative_token_0_price_x32 as int,
                                p0 * dt,
                            ) as u128,
                            cumulative_token_1_price_x32: wrap_add(
                                last.cumulative_token_1_price_x32 as int,
                                p1 * dt,
                            ) as u128,
                        },
                    ),
                    ..v
                },
            )
        }
    }
}

impl Default for ObservationState {
    fn default() -> (r: ObservationState)
        ensures
            r@.wf(),
            !r.initialized,
            r.observation_index == 0,
            r.pool_id == (Pubkey { w0: 0, w1: 0, w2: 0, w3: 0 }),
            forall|i: int|
                0 <= i < OBSERVATION_NUM ==> r.observations@[i] == (Observation {
                    block_timestamp: 0,
                    cumulative_token_0_price_x32: 0,
                    cumulative_token_1_price_x32: 0,
                }),
    {
        let mut observations: Vec<Observation> = Vec::new();
        let mut i: usize = 0;
        while i < OBSERVATION_NUM
            invariant
                i <= OBSERVATION_NUM,
                observations@.len() == i,
                forall|j: int|
                    0 <= j < i ==> observations@[j] == (Observation {
                        block_timestamp: 0,
                        cumulative_token_0_price_x32: 0,
                        cumulative_token_1_price_x32: 0,
                    }),
            decreases OBSERVATION_NUM - i,
        {
            observations.push(
                Observation {
                    block_timestamp: 0,
                    cumulative_token_0_price_x32: 0,
                    cumulative_token_1_price_x32: 0,
                },
            );
            i = i + 1;
        }
        ObservationState {
            initialized: false,
            observation_index: 0,
            pool_id: Pubkey::zero(),
            observations,
        }
    }
}

impl ObservationState {
    /// Record prices `(token_0_price_x32, token_1_price_x32)` at time
    /// `block_timestamp`: the first call seeds the current slot, a call at
    /// the time of the latest observation changes nothing, any later call
    /// writes the next slot with the cumulative prices advanced by price
    /// times elapsed seconds (modulo 2^128). On error nothing changes.
    pub fn update(
        &mut self,
        block_timestamp: u64,
        token_0_price_x32: u128,
        token_1_price_x32: u128,
    ) -> (r: Result<(), GammaError>)
        requires
            old(self)@.wf(),
        ensures
            final(self)@.wf(),
            match r {
                Ok(()) => oracle_update(
                    old(self)@,
                    block_timestamp,
                    token_0_price_x32,
                    token_1_price_x32,
                ) == Some(final(self)@),
                Err(e) => e == GammaError::MathOverflow && oracle_update(
                    old(self)@,
                    block_timestamp,
                    token_0_price_x32,
                    token_1_price_x32,
                ) is None && final(self)@ == old(self)@,
            },
    {
        let observation_index = self.observation_index as usize;
        if !self.initialized {
            self.initialized = true;
            self.observations.set(
                observation_index,
                Observation {
                    block_timestamp,
                    cumulative_token_0_price_x32: 0,
                    cumulative_token_1_price_x32: 0,
                },
            );
            return Ok(());
        }
        let last = self.observations[observation_index];
        let delta_time = block_timestamp.saturating_sub(last.block_timestamp);
        if delta_time == 0 {
            return Ok(());
        }
        let delta_0 = match token_0_price_x32.checked_mul(delta_time as u128) {
            Some(v) => v,
            None => return Err(GammaError::MathOverflow),
        };
        let delta_1 = match token_1_price_x32.checked_mul(delta_time as u128) {
            Some(v) => v,
            None => return Err(GammaError::MathOverflow),
        };
        let next: usize = if observation_index == OBSERVATION_NUM - 1 {
            0
        } else {
            observation_index + 1
        };
        self.observations.set(
            next,
            Observation {
                block_timestamp,
                cumulative_token_0_price_x32: last.cumulative_token_0_price_x32.wrapping_add(
                    delta_0,
                ),
                cumulative_token_1_price_x32: last.cumulative_token_1_price_x32.wrapping_add(
                    delta_1,
                ),
            },
        );
        self.observation_index = next as u16;
        Ok(())
    }
}

/// Recording twice at the same time leaves the oracle as the first
/// recording left it, whatever prices the second one carries.
pub proof fn lemma_update_idempotent(
    v: OracleView,
    t: u64,
    p0: u128,
    p1: u128,
    q0: u128,
    q1: u128,
)
    requires
        v.wf(),
        oracle_update(v, t, p0, p1) is Some,
    ensures
        oracle_update(oracle_update(v, t, p0, p1)->0, t, q0, q1) == oracle_update(v, t, p0, p1),
{
}

/// Between two increasing times, and where no wraparound occurs, each
/// cumulative price grows by exactly the price times the elapsed seconds.
pub proof fn lemma_cumulative_growth(v: OracleView, t: u64, p0: u128, p1: u128)
    requires
        v.wf(),
        v.initialized,
        v.last().block_timestamp < t,
        p0 * (t - v.last().block_timestamp) <= u128::MAX,
        p1 * (t - v.last().block_timestamp) <= u128::MAX,
        v.last().cumulative_token_0_price_x32 + p0 * (t - v.last().block_timestamp) <= u128::MAX,
        v.last().cumulative_token_1_price_x32 + p1 * (t - v.last().block_timestamp) <= u128::MAX,
    ensures
        ({
            let w = oracle_update(v, t, p0, p1);
            &&& w is Some
            &&& w->0.wf()
            &&& w->0.last().block_timestamp == t
            &&& w->0.last().cumulative_token_0_price_x32 == v.last().cumulative_token_0_price_x32
                + p0 * (t - v.last().block_timestamp)
            &&& w->0.last().cumulative_token_1_price_x32 == v.last().cumulative_token_1_price_x32
                + p1 * (t - v.last().block_timestamp)
        }),
{
    let dt = t - v.last().block_timestamp;
    let a0 = v.last().cumulative_token_0_price_x32 + p0 * dt;
    let a1 = v.last().cumulative_token_1_price_x32 + p1 * dt;
    assert(p0 * dt >= 0 && p1 * dt >= 0) by (nonlinear_arith)
        requires
            dt > 0,
    ;
    vstd::arithmetic::div_mod::lemma_small_mod(a0 as nat, (u128::MAX + 1) as nat);
    vstd::arithmetic::div_mod::lemma_small_mod(a1 as nat, (u128::MAX + 1) as nat);
}

} // verus!
