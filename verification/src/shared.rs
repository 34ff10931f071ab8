//! Building blocks shared by the aircraft systems. Durations are counted in
//! whole nanoseconds.

use vstd::prelude::*;

verus! {

/// A random byte from the operating system's random source, drawn by
/// `RngCore::try_fill_bytes` on `rand::rngs::OsRng`; `None` when the source
/// reports an error. Any byte may come back, and two calls may differ.
#[verifier::external_body]
pub(crate) fn random_number() -> Option<u8> {
    let mut byte = [0u8; 1];
    match rand::RngCore::try_fill_bytes(&mut rand::rngs::OsRng, &mut byte) {
        Ok(()) => Some(byte[0]),
        Err(_) => None,
    }
}

/// `a + b`, or `u64::MAX` when the sum does not fit. Durations in
/// nanoseconds saturate there, some 584 years on.
pub open spec fn saturating_sum(a: u64, b: u64) -> u64 {
    if a + b > u64::MAX {
        u64::MAX
    } else {
        (a + b) as u64
    }
}

/// Where the indicated airspeed stands relative to the speeds at which the
/// network changes its configuration.
#[derive(Clone, Copy, Debug, PartialEq, Eq, Structural)]
pub enum AirspeedBand {
    /// Below 50 knots.
    Below50Knots,
    /// At least 50 knots and below 100 knots.
    From50To100Knots,
    /// Exactly 100 knots.
    At100Knots,
    /// Above 100 knots.
    Above100Knots,
}

impl AirspeedBand {
    pub open spec fn above_100_knots(self) -> bool {
        self == AirspeedBand::Above100Knots
    }

    pub open spec fn below_100_knots(self) -> bool {
        self == AirspeedBand::Below50Knots || self == AirspeedBand::From50To100Knots
    }

    pub open spec fn below_50_knots(self) -> bool {
        self == AirspeedBand::Below50Knots
    }
}

/// The flight phases of the flight warning computer, numbered 1 to 10 in
/// this order.
#[derive(Clone, Copy, Debug, PartialEq, Eq, Structural)]
pub enum FwcFlightPhase {
    ElecPwr,
    FirstEngineStarted,
    FirstEngineTakeOffPower,
    AtOrAboveEightyKnots,
    LiftOff,
    AtOrAbove1500Feet,
    AtOrBelow800Feet,
    TouchDown,
    AtOrBelowEightyKnots,
    EnginesShutdown,
}

/// What a simulation tick provides to every system: the time that passed
/// since the previous tick, in nanoseconds.
pub struct UpdateContext {
    delta: u64,
}

impl UpdateContext {
    pub closed spec fn delta_nanos(&self) -> u64 {
        self.delta
    }

    pub fn new(delta: u64) -> (context: UpdateContext)
        ensures
            context.delta_nanos() == delta,
    {
        UpdateContext { delta }
    }

    /// The time that passed since the previous tick, in nanoseconds.
    pub fn delta(&self) -> (delta: u64)
        ensures
            delta == self.delta_nanos(),
    {
        self.delta
    }
}

/// The delay logic gate delays the true result of a given expression by the
/// given amount of time. False results are output immediately.
#[derive(Clone, Copy, Debug)]
pub struct DelayedTrueLogicGate {
    delay: u64,
    expression_result: bool,
    true_duration: u64,
}

impl DelayedTrueLogicGate {
    pub closed spec fn delay_nanos(&self) -> u64 {
        self.delay
    }

    /// The expression's result at the latest update.
    pub closed spec fn expression(&self) -> bool {
        self.expression_result
    }

    /// How long the expression has been true, not counting the tick in which
    /// it became true.
    pub closed spec fn true_for(&self) -> u64 {
        self.true_duration
    }

    pub open spec fn spec_output(&self) -> bool {
        self.expression() && self.delay_nanos() <= self.true_for()
    }

    pub fn new(delay: u64) -> (gate: DelayedTrueLogicGate)
        ensures
            gate.delay_nanos() == delay,
            !gate.expression(),
            gate.true_for() == 0,
    {
        DelayedTrueLogicGate { delay, expression_result: false, true_duration: 0 }
    }

    /// Feeds the expression's result for this tick.
    pub fn update(&mut self, context: &UpdateContext, expression_result: bool)
        ensures
            final(self).delay_nanos() == old(self).delay_nanos(),
            final(self).expression() == expression_result,
            final(self).true_for() == if old(self).expression() && expression_result {
                saturating_sum(old(self).true_for(), context.delta_nanos())
            } else {
                0
            },
            !expression_result ==> !final(self).spec_output(),
            old(self).spec_output() && expression_result ==> final(self).spec_output(),
    {
        // The tick in which the expression became true does not count.
        if self.expression_result && expression_result {
            self.true_duration = self.true_duration.saturating_add(context.delta());
        } else {
            self.true_duration = 0;
        }
        self.expression_result = expression_result;
    }

    pub fn output(&self) -> (output: bool)
        ensures
            output == self.spec_output(),
    {
        self.expression_result && self.delay <= self.true_duration
    }
}

/// Whether `next` is `gate` after a tick of `delta` with the given expression.
pub open spec fn gate_after(gate: DelayedTrueLogicGate, next: DelayedTrueLogicGate, delta: u64, expression: bool) -> bool {
    &&& next.delay_nanos() == gate.delay_nanos()
    &&& next.expression() == expression
    &&& next.true_for() == if gate.expression() && expression {
        saturating_sum(gate.true_for(), delta)
    } else {
        0
    }
}

/// Where the run of true results at the end of `exprs` starts; the length
/// of `exprs` when the last result is false or there is none.
pub open spec fn trailing_true_start(exprs: Seq<bool>) -> int
    decreases exprs.len(),
{
    if exprs.len() == 0 {
        0
    } else if !exprs.last() {
        exprs.len() as int
    } else {
        trailing_true_start(exprs.drop_last())
    }
}

/// The sum of `deltas[from]` up to, not including, `deltas[to]`.
pub open spec fn delta_sum(deltas: Seq<u64>, from: int, to: int) -> int
    decreases to - from,
{
    if from >= to {
        0
    } else {
        delta_sum(deltas, from, to - 1) + deltas[to - 1]
    }
}

proof fn lemma_delta_sum_nonnegative(deltas: Seq<u64>, a: int, b: int)
    ensures
        delta_sum(deltas, a, b) >= 0,
    decreases b - a,
{
    if a < b {
        lemma_delta_sum_nonnegative(deltas, a, b - 1);
    }
}

proof fn lemma_delta_sum_split(deltas: Seq<u64>, a: int, b: int, c: int)
    requires
        a <= b <= c,
    ensures
        delta_sum(deltas, a, c) == delta_sum(deltas, a, b) + delta_sum(deltas, b, c),
        delta_sum(deltas, a, b) >= 0,
        delta_sum(deltas, b, c) >= 0,
    decreases c - b,
{
    lemma_delta_sum_nonnegative(deltas, a, b);
    lemma_delta_sum_nonnegative(deltas, b, c);
    if b < c {
        lemma_delta_sum_split(deltas, a, b, c - 1);
    }
}

proof fn lemma_delta_sum_prefix(deltas: Seq<u64>, a: int, b: int)
    requires
        deltas.len() > 0,
        0 <= a,
        b < deltas.len(),
    ensures
        delta_sum(deltas.drop_last(), a, b) == delta_sum(deltas, a, b),
    decreases b - a,
{
    if a < b {
        lemma_delta_sum_prefix(deltas, a, b - 1);
    }
}

proof fn lemma_trailing_true_start(exprs: Seq<bool>)
    ensures
        0 <= trailing_true_start(exprs) <= exprs.len(),
        exprs.len() > 0 && exprs.last() ==> trailing_true_start(exprs) < exprs.len(),
    decreases exprs.len(),
{
    if exprs.len() > 0 {
        lemma_trailing_true_start(exprs.drop_last());
    }
}

proof fn lemma_gate_run(gates: Seq<DelayedTrueLogicGate>, deltas: Seq<u64>, exprs: Seq<bool>)
    requires
        gates.len() == exprs.len() + 1,
        deltas.len() == exprs.len(),
        !gates[0].expression(),
        gates[0].true_for() == 0,
        forall|i: int| 0 <= i < exprs.len() ==> gate_after(gates[i], gates[i + 1], #[trigger] deltas[i], exprs[i]),
        delta_sum(deltas, 0, deltas.len() as int) <= u64::MAX,
    ensures
        gates.last().delay_nanos() == gates[0].delay_nanos(),
        gates.last().expression() == (exprs.len() > 0 && exprs.last()),
        gates.last().true_for() == if exprs.len() > 0 && exprs.last() {
            delta_sum(deltas, trailing_true_start(exprs) + 1, exprs.len() as int)
        } else {
            0
        },
    decreases exprs.len(),
{
    let n = exprs.len() as int;
    if n > 0 {
        let m = n - 1;
        let gs = gates.drop_last();
        let ds = deltas.drop_last();
        let es = exprs.drop_last();
        assert forall|i: int| 0 <= i < es.len() implies gate_after(gs[i], gs[i + 1], #[trigger] ds[i], es[i]) by {
            assert(deltas[i] == ds[i]);
        }
        lemma_delta_sum_split(deltas, 0, m, n);
        lemma_delta_sum_prefix(deltas, 0, m);
        lemma_gate_run(gs, ds, es);
        assert(gate_after(gates[m], gates[n], deltas[m], exprs[m]));
        assert(gs.last() == gates[m]);
        lemma_trailing_true_start(es);
        lemma_trailing_true_start(exprs);
        let s = trailing_true_start(es);
        if exprs[m] && m > 0 && es.last() {
            assert(trailing_true_start(exprs) == s);
            lemma_delta_sum_prefix(deltas, s + 1, m);
            lemma_delta_sum_split(deltas, 0, s + 1, m);
            assert(delta_sum(deltas, s + 1, n) == delta_sum(deltas, s + 1, m) + deltas[m]);
            lemma_delta_sum_split(deltas, 0, s + 1, n);
        } else if exprs[m] {
            assert(trailing_true_start(exprs) == m);
        }
    }
}

/// A gate made with a delay and then fed a result `exprs[i]` in each tick
/// `deltas[i]` keeps its delay and outputs true exactly when the latest
/// result is true and the ticks after the one in which the results last
/// became true add up to at least the delay. A false result gives false at
/// once. (The ticks must add up to at most `u64::MAX` nanoseconds.)
pub proof fn law_gate_output_over_a_run(gates: Seq<DelayedTrueLogicGate>, deltas: Seq<u64>, exprs: Seq<bool>)
    requires
        gates.len() == exprs.len() + 1,
        deltas.len() == exprs.len(),
        !gates[0].expression(),
        gates[0].true_for() == 0,
        forall|i: int| 0 <= i < exprs.len() ==> gate_after(gates[i], gates[i + 1], #[trigger] deltas[i], exprs[i]),
        delta_sum(deltas, 0, deltas.len() as int) <= u64::MAX,
    ensures
        gates.last().delay_nanos() == gates[0].delay_nanos(),
        gates.last().spec_output() == (exprs.len() > 0 && exprs.last() && gates[0].delay_nanos() <= delta_sum(
            deltas,
            trailing_true_start(exprs) + 1,
            exprs.len() as int,
        )),
{
    lemma_gate_run(gates, deltas, exprs);
}

} // verus!
