//! The engine driven generators and their integrated drive generators (IDG).

use vstd::prelude::*;
use crate::electrical::{decimal, numbered_identifier, OriginWithRawPotentialPair, Potential, PotentialOrigin, PotentialSource};
use crate::shared::UpdateContext;
use crate::simulation::SimulatorWriter;

verus! {

broadcast use crate::electrical::potential::lemma_pair_of_fields;

/// The time an engine's corrected N2 has to stay at or above the power up
/// threshold before the IDG provides stable power.
pub const INTEGRATED_DRIVE_GENERATOR_STABILIZATION_TIME_IN_MILLISECONDS: u64 = 500;

/// Where an engine's corrected N2 stands relative to the IDG thresholds: at
/// or above the power up threshold (58 %), at or below the power down
/// threshold (56 %), or in between.
#[derive(Clone, Copy, Debug, PartialEq, Eq, Structural)]
pub enum CorrectedN2 {
    AtOrAbovePowerUpThreshold,
    BetweenThresholds,
    AtOrBelowPowerDownThreshold,
}

/// `value` limited to the range from `min` to `max`.
pub open spec fn spec_clamp(value: int, min: int, max: int) -> int {
    if value < min {
        min
    } else if value > max {
        max
    } else {
        value
    }
}

fn clamp(value: u64, min: u64, max: u64) -> (clamped: u64)
    requires
        min <= max,
    ensures
        clamped == spec_clamp(value as int, min as int, max as int),
{
    if value < min {
        min
    } else if value > max {
        max
    } else {
        value
    }
}

/// The whole milliseconds of a duration given in nanoseconds.
pub open spec fn whole_millis(nanos: u64) -> u64 {
    (nanos / 1_000_000) as u64
}

/// The time above the power up threshold after an update, given the time
/// before it, whether the IDG is connected, the corrected N2 and the whole
/// milliseconds that passed.
pub open spec fn next_time_above_threshold(time: u64, connected: bool, n2: CorrectedN2, delta_millis: u64) -> u64 {
    let stable = INTEGRATED_DRIVE_GENERATOR_STABILIZATION_TIME_IN_MILLISECONDS;
    if !connected {
        0
    } else {
        let new_time: int = if n2 == CorrectedN2::AtOrAbovePowerUpThreshold && time < stable {
            time + delta_millis
        } else if n2 == CorrectedN2::AtOrBelowPowerDownThreshold && time > 0 {
            time - if delta_millis < time { delta_millis as int } else { time as int }
        } else {
            time as int
        };
        spec_clamp(new_time, 0, stable as int) as u64
    }
}

/// The integrated drive generator couples an engine to its generator. Once
/// disconnected it cannot be reconnected. It provides stable power once the
/// engine's corrected N2 stayed at or above the power up threshold for the
/// stabilization time.
pub struct IntegratedDriveGenerator {
    is_connected_id: String,
    connected: bool,
    number: usize,
    time_above_threshold_in_milliseconds: u64,
}

impl IntegratedDriveGenerator {
    /// The time above the threshold never exceeds the stabilization time.
    #[verifier::type_invariant]
    closed spec fn time_within_stabilization(self) -> bool {
        self.time_above_threshold_in_milliseconds <= INTEGRATED_DRIVE_GENERATOR_STABILIZATION_TIME_IN_MILLISECONDS
    }

    pub closed spec fn is_connected_spec(&self) -> bool {
        self.connected
    }

    pub closed spec fn time_above_threshold(&self) -> u64 {
        self.time_above_threshold_in_milliseconds
    }

    pub closed spec fn generator_number(&self) -> usize {
        self.number
    }

    pub closed spec fn connected_id(&self) -> Seq<char> {
        self.is_connected_id@
    }

    /// Whether the IDG provides stable power output.
    pub open spec fn stable(&self) -> bool {
        self.time_above_threshold() == INTEGRATED_DRIVE_GENERATOR_STABILIZATION_TIME_IN_MILLISECONDS
    }

    /// A new IDG is connected and has not been above the threshold yet.
    pub fn new(number: usize) -> (idg: IntegratedDriveGenerator)
        ensures
            idg.is_connected_spec(),
            idg.time_above_threshold() == 0,
            idg.generator_number() == number,
            idg.connected_id() == "ELEC_ENG_GEN_"@ + decimal(number as nat) + "_IDG_IS_CONNECTED"@,
    {
        IntegratedDriveGenerator {
            is_connected_id: numbered_identifier("ELEC_ENG_GEN_", number, "_IDG_IS_CONNECTED"),
            connected: true,
            number,
            time_above_threshold_in_milliseconds: 0,
        }
    }

    /// Disconnects the IDG when its push button is released, then updates
    /// the time the engine has been above the power up threshold.
    pub fn update(&mut self, context: &UpdateContext, corrected_n2: CorrectedN2, idg_push_button_released: bool)
        ensures
            final(self).is_connected_spec() == (old(self).is_connected_spec() && !idg_push_button_released),
            final(self).time_above_threshold() == next_time_above_threshold(
                old(self).time_above_threshold(),
                final(self).is_connected_spec(),
                corrected_n2,
                whole_millis(context.delta_nanos()),
            ),
            final(self).generator_number() == old(self).generator_number(),
            final(self).connected_id() == old(self).connected_id(),
    {
        proof {
            use_type_invariant(&*self);
        }
        if idg_push_button_released {
            // The IDG cannot be reconnected.
            self.connected = false;
        }
        self.update_stable_time(context, corrected_n2);
    }

    fn update_stable_time(&mut self, context: &UpdateContext, corrected_n2: CorrectedN2)
        ensures
            final(self).is_connected_spec() == old(self).is_connected_spec(),
            final(self).time_above_threshold() == next_time_above_threshold(
                old(self).time_above_threshold(),
                old(self).is_connected_spec(),
                corrected_n2,
                whole_millis(context.delta_nanos()),
            ),
            final(self).generator_number() == old(self).generator_number(),
            final(self).connected_id() == old(self).connected_id(),
    {
        proof {
            use_type_invariant(&*self);
        }
        if !self.connected {
            self.time_above_threshold_in_milliseconds = 0;
            return;
        }
        let delta_millis: u64 = context.delta() / 1_000_000;
        let time = self.time_above_threshold_in_milliseconds;
        let mut new_time = time;
        if corrected_n2 == CorrectedN2::AtOrAbovePowerUpThreshold
            && time < INTEGRATED_DRIVE_GENERATOR_STABILIZATION_TIME_IN_MILLISECONDS {
            new_time = time + delta_millis;
        } else if corrected_n2 == CorrectedN2::AtOrBelowPowerDownThreshold && time > 0 {
            new_time = time - if delta_millis < time { delta_millis } else { time };
        }
        self.time_above_threshold_in_milliseconds = clamp(
            new_time,
            0,
            INTEGRATED_DRIVE_GENERATOR_STABILIZATION_TIME_IN_MILLISECONDS,
        );
    }

    pub fn provides_stable_power_output(&self) -> (stable: bool)
        ensures
            stable == self.stable(),
            self.time_above_threshold() <= INTEGRATED_DRIVE_GENERATOR_STABILIZATION_TIME_IN_MILLISECONDS,
    {
        proof {
            use_type_invariant(self);
        }
        self.time_above_threshold_in_milliseconds
            == INTEGRATED_DRIVE_GENERATOR_STABILIZATION_TIME_IN_MILLISECONDS
    }

    pub fn is_connected(&self) -> (connected: bool)
        ensures
            connected == self.is_connected_spec(),
    {
        self.connected
    }

    /// Writes whether the IDG is connected.
    pub fn write(&self, writer: &mut SimulatorWriter)
        ensures
            final(writer)@ == old(writer)@.push((self.connected_id(), self.is_connected_spec())),
    {
        writer.write_bool(self.is_connected_id.as_str(), self.connected);
    }
}

/// A generator driven by an engine through its IDG. It provides potential
/// once its IDG provides stable power. The raw potential it provides is set
/// by whoever models its electrical output.
pub struct EngineGenerator<R> {
    number: usize,
    idg: IntegratedDriveGenerator,
    output_potential: R,
}

impl<R> EngineGenerator<R> {
    pub closed spec fn generator_number(&self) -> usize {
        self.number
    }

    pub closed spec fn drive(&self) -> IntegratedDriveGenerator {
        self.idg
    }

    pub closed spec fn raw_potential(&self) -> R {
        self.output_potential
    }

    /// Whether the generator provides potential.
    pub open spec fn supplies(&self) -> bool {
        self.drive().stable()
    }
}

impl<R: Copy> EngineGenerator<R> {
    pub fn new(number: usize, potential: R) -> (generator: EngineGenerator<R>)
        ensures
            generator.generator_number() == number,
            generator.drive().is_connected_spec(),
            generator.drive().time_above_threshold() == 0,
            generator.drive().generator_number() == number,
            generator.drive().connected_id() == "ELEC_ENG_GEN_"@ + decimal(number as nat) + "_IDG_IS_CONNECTED"@,
            generator.raw_potential() == potential,
    {
        EngineGenerator { number, idg: IntegratedDriveGenerator::new(number), output_potential: potential }
    }

    pub fn update(&mut self, context: &UpdateContext, corrected_n2: CorrectedN2, idg_push_button_released: bool)
        ensures
            final(self).drive().is_connected_spec() == (old(self).drive().is_connected_spec()
                && !idg_push_button_released),
            final(self).drive().time_above_threshold() == next_time_above_threshold(
                old(self).drive().time_above_threshold(),
                final(self).drive().is_connected_spec(),
                corrected_n2,
                whole_millis(context.delta_nanos()),
            ),
            final(self).drive().generator_number() == old(self).drive().generator_number(),
            final(self).drive().connected_id() == old(self).drive().connected_id(),
            final(self).generator_number() == old(self).generator_number(),
            final(self).raw_potential() == old(self).raw_potential(),
    {
        self.idg.update(context, corrected_n2, idg_push_button_released);
    }

    /// Sets the raw potential the generator provides while it supplies.
    pub fn set_output_potential(&mut self, potential: R)
        ensures
            final(self).raw_potential() == potential,
            final(self).drive() == old(self).drive(),
            final(self).generator_number() == old(self).generator_number(),
    {
        self.output_potential = potential;
    }

    pub fn provides_stable_power_output(&self) -> (stable: bool)
        ensures
            stable == self.supplies(),
    {
        self.idg.provides_stable_power_output()
    }

    pub fn idg_is_connected(&self) -> (connected: bool)
        ensures
            connected == self.drive().is_connected_spec(),
    {
        self.idg.is_connected()
    }

    /// Writes the state of the IDG.
    pub fn write(&self, writer: &mut SimulatorWriter)
        ensures
            final(writer)@ == old(writer)@.push((self.drive().connected_id(), self.drive().is_connected_spec())),
    {
        self.idg.write(writer);
    }
}

impl<R: Copy> PotentialSource<R> for EngineGenerator<R> {
    open spec fn output_pairs(&self) -> Seq<OriginWithRawPotentialPair<R>> {
        if self.supplies() {
            seq![OriginWithRawPotentialPair::pair_of(
                PotentialOrigin::EngineGenerator(self.generator_number()),
                self.raw_potential(),
            )]
        } else {
            Seq::empty()
        }
    }

    fn output(&self) -> (potential: Potential<R>) {
        if self.idg.provides_stable_power_output() {
            Potential::single(PotentialOrigin::EngineGenerator(self.number), self.output_potential)
        } else {
            Potential::none()
        }
    }
}


/// Whether `next` is `idg` after an update over a tick of `delta` nanoseconds,
/// with the engine's corrected N2 in `n2` and the IDG push button released
/// or not.
pub open spec fn idg_after(
    idg: IntegratedDriveGenerator,
    next: IntegratedDriveGenerator,
    delta: u64,
    n2: CorrectedN2,
    released: bool,
) -> bool {
    &&& next.is_connected_spec() == (idg.is_connected_spec() && !released)
    &&& next.time_above_threshold() == next_time_above_threshold(
        idg.time_above_threshold(),
        next.is_connected_spec(),
        n2,
        whole_millis(delta),
    )
    &&& next.generator_number() == idg.generator_number()
    &&& next.connected_id() == idg.connected_id()
}

/// Once its push button was released in some update, an IDG stays
/// disconnected and provides no stable power in every later state, whatever
/// the engine does and whether the button is released again.
pub proof fn law_idg_never_reconnects(
    idgs: Seq<IntegratedDriveGenerator>,
    deltas: Seq<u64>,
    n2s: Seq<CorrectedN2>,
    releases: Seq<bool>,
    i: int,
)
    requires
        idgs.len() == releases.len() + 1,
        deltas.len() == releases.len(),
        n2s.len() == releases.len(),
        forall|k: int| 0 <= k < releases.len() ==> idg_after(idgs[k], idgs[k + 1], deltas[k], n2s[k], #[trigger] releases[k]),
        0 <= i < releases.len(),
        releases[i],
    ensures
        forall|j: int| i < j < idgs.len() ==> !(#[trigger] idgs[j]).is_connected_spec() && !idgs[j].stable(),
{
    assert forall|j: int| i < j < idgs.len() implies !(#[trigger] idgs[j]).is_connected_spec() && !idgs[j].stable() by {
        lemma_idg_stays_disconnected(idgs, deltas, n2s, releases, i, j);
    }
}

proof fn lemma_idg_stays_disconnected(
    idgs: Seq<IntegratedDriveGenerator>,
    deltas: Seq<u64>,
    n2s: Seq<CorrectedN2>,
    releases: Seq<bool>,
    i: int,
    j: int,
)
    requires
        idgs.len() == releases.len() + 1,
        deltas.len() == releases.len(),
        n2s.len() == releases.len(),
        forall|k: int| 0 <= k < releases.len() ==> idg_after(idgs[k], idgs[k + 1], deltas[k], n2s[k], #[trigger] releases[k]),
        0 <= i < releases.len(),
        releases[i],
        i < j < idgs.len(),
    ensures
        !idgs[j].is_connected_spec(),
        !idgs[j].stable(),
    decreases j - i,
{
    assert(idg_after(idgs[j - 1], idgs[j], deltas[j - 1], n2s[j - 1], releases[j - 1]));
    if j - 1 > i {
        lemma_idg_stays_disconnected(idgs, deltas, n2s, releases, i, j - 1);
    }
}

/// The time above the power-up threshold grows only while corrected N2 is at
/// or above that threshold, falls only while it is at or below the power-down
/// threshold, and between the thresholds stays as it was (or drops to zero
/// when the IDG is disconnected).
pub proof fn law_time_above_threshold_grows_only_above_the_power_up_threshold(
    time: u64,
    connected: bool,
    n2: CorrectedN2,
    delta_millis: u64,
)
    requires
        time <= INTEGRATED_DRIVE_GENERATOR_STABILIZATION_TIME_IN_MILLISECONDS,
    ensures
        next_time_above_threshold(time, connected, n2, delta_millis) > time ==> n2 == CorrectedN2::AtOrAbovePowerUpThreshold,
        next_time_above_threshold(time, connected, n2, delta_millis) < time ==> (!connected || n2
            == CorrectedN2::AtOrBelowPowerDownThreshold),
        connected && n2 == CorrectedN2::BetweenThresholds ==> next_time_above_threshold(time, connected, n2, delta_millis)
            == time,
        next_time_above_threshold(time, connected, n2, delta_millis)
            <= INTEGRATED_DRIVE_GENERATOR_STABILIZATION_TIME_IN_MILLISECONDS,
{
}

/// An IDG that starts with no time above the threshold and is never fed a
/// corrected N2 at or above the power-up threshold never provides stable
/// power.
pub proof fn law_idg_never_stable_without_reaching_the_power_up_threshold(
    idgs: Seq<IntegratedDriveGenerator>,
    deltas: Seq<u64>,
    n2s: Seq<CorrectedN2>,
    releases: Seq<bool>,
)
    requires
        idgs.len() == releases.len() + 1,
        deltas.len() == releases.len(),
        n2s.len() == releases.len(),
        forall|k: int| 0 <= k < releases.len() ==> idg_after(idgs[k], idgs[k + 1], deltas[k], n2s[k], #[trigger] releases[k]),
        forall|k: int| 0 <= k < n2s.len() ==> #[trigger] n2s[k] != CorrectedN2::AtOrAbovePowerUpThreshold,
        idgs[0].time_above_threshold() == 0,
    ensures
        forall|j: int| 0 <= j < idgs.len() ==> (#[trigger] idgs[j]).time_above_threshold() == 0 && !idgs[j].stable(),
{
    assert forall|j: int| 0 <= j < idgs.len() implies (#[trigger] idgs[j]).time_above_threshold() == 0 && !idgs[j].stable() by {
        lemma_idg_time_stays_zero(idgs, deltas, n2s, releases, j);
    }
}

proof fn lemma_idg_time_stays_zero(
    idgs: Seq<IntegratedDriveGenerator>,
    deltas: Seq<u64>,
    n2s: Seq<CorrectedN2>,
    releases: Seq<bool>,
    j: int,
)
    requires
        idgs.len() == releases.len() + 1,
        deltas.len() == releases.len(),
        n2s.len() == releases.len(),
        forall|k: int| 0 <= k < releases.len() ==> idg_after(idgs[k], idgs[k + 1], deltas[k], n2s[k], #[trigger] releases[k]),
        forall|k: int| 0 <= k < n2s.len() ==> #[trigger] n2s[k] != CorrectedN2::AtOrAbovePowerUpThreshold,
        idgs[0].time_above_threshold() == 0,
        0 <= j < idgs.len(),
    ensures
        idgs[j].time_above_threshold() == 0,
    decreases j,
{
    if j > 0 {
        lemma_idg_time_stays_zero(idgs, deltas, n2s, releases, j - 1);
        assert(idg_after(idgs[j - 1], idgs[j], deltas[j - 1], n2s[j - 1], releases[j - 1]));
        assert(n2s[j - 1] != CorrectedN2::AtOrAbovePowerUpThreshold);
    }
}

} // verus!
