//! Converters between alternating and direct current: the transformer
//! rectifiers (AC to DC) and the static inverter (DC to AC).

use vstd::prelude::*;
use crate::electrical::{OriginWithRawPotentialPair, Potential, PotentialOrigin, PotentialSource};

verus! {

broadcast use crate::electrical::potential::lemma_pair_of_fields;

/// A transformer rectifier provides potential of its own origin while it
/// receives potential and has not failed.
pub struct TransformerRectifier<R> {
    number: usize,
    input: Potential<R>,
    failed: bool,
    output_potential: R,
}

impl<R> TransformerRectifier<R> {
    pub closed spec fn rectifier_number(&self) -> usize {
        self.number
    }

    pub closed spec fn input_pairs(&self) -> Seq<OriginWithRawPotentialPair<R>> {
        self.input.pairs()
    }

    pub closed spec fn has_failed(&self) -> bool {
        self.failed
    }

    pub closed spec fn raw_potential(&self) -> R {
        self.output_potential
    }
}

impl<R: Copy> TransformerRectifier<R> {
    pub fn new(number: usize, potential: R) -> (tr: TransformerRectifier<R>)
        ensures
            tr.rectifier_number() == number,
            tr.input_pairs() == Seq::<OriginWithRawPotentialPair<R>>::empty(),
            !tr.has_failed(),
            tr.raw_potential() == potential,
    {
        TransformerRectifier { number, input: Potential::none(), failed: false, output_potential: potential }
    }

    /// Fails the transformer rectifier: it provides no potential from then on.
    pub fn fail(&mut self)
        ensures
            final(self).has_failed(),
            final(self).rectifier_number() == old(self).rectifier_number(),
            final(self).input_pairs() == old(self).input_pairs(),
            final(self).raw_potential() == old(self).raw_potential(),
    {
        self.failed = true;
    }

    pub fn input_potential(&self) -> (potential: Potential<R>)
        ensures
            potential.pairs() == self.input_pairs(),
    {
        self.input
    }

    /// Receives the given source's potential.
    pub fn powered_by<T: PotentialSource<R>>(&mut self, source: &T)
        ensures
            final(self).input_pairs() == source.output_pairs(),
            final(self).rectifier_number() == old(self).rectifier_number(),
            final(self).has_failed() == old(self).has_failed(),
            final(self).raw_potential() == old(self).raw_potential(),
    {
        self.input = source.output();
    }

    /// Receives the given source's potential when it receives none yet.
    pub fn or_powered_by<T: PotentialSource<R>>(&mut self, source: &T)
        ensures
            final(self).input_pairs() == if old(self).input_pairs().len() == 0 {
                source.output_pairs()
            } else {
                old(self).input_pairs()
            },
            final(self).rectifier_number() == old(self).rectifier_number(),
            final(self).has_failed() == old(self).has_failed(),
            final(self).raw_potential() == old(self).raw_potential(),
    {
        if self.input.is_unpowered() {
            self.powered_by(source);
        }
    }

    /// Sets the raw potential it provides while powered.
    pub fn set_output_potential(&mut self, potential: R)
        ensures
            final(self).raw_potential() == potential,
            final(self).rectifier_number() == old(self).rectifier_number(),
            final(self).input_pairs() == old(self).input_pairs(),
            final(self).has_failed() == old(self).has_failed(),
    {
        self.output_potential = potential;
    }
}

impl<R: Copy> PotentialSource<R> for TransformerRectifier<R> {
    open spec fn output_pairs(&self) -> Seq<OriginWithRawPotentialPair<R>> {
        if !self.has_failed() && self.input_pairs().len() > 0 {
            seq![OriginWithRawPotentialPair::pair_of(
                PotentialOrigin::TransformerRectifier(self.rectifier_number()),
                self.raw_potential(),
            )]
        } else {
            Seq::empty()
        }
    }

    fn output(&self) -> (potential: Potential<R>) {
        if self.failed {
            Potential::none()
        } else if self.input.is_powered() {
            Potential::single(PotentialOrigin::TransformerRectifier(self.number), self.output_potential)
        } else {
            Potential::none()
        }
    }
}

/// The static inverter provides potential of its own origin while it
/// receives potential.
pub struct StaticInverter<R> {
    input: Potential<R>,
    output_potential: R,
}

impl<R> StaticInverter<R> {
    pub closed spec fn input_pairs(&self) -> Seq<OriginWithRawPotentialPair<R>> {
        self.input.pairs()
    }

    pub closed spec fn raw_potential(&self) -> R {
        self.output_potential
    }
}

impl<R: Copy> StaticInverter<R> {
    pub fn new(potential: R) -> (inverter: StaticInverter<R>)
        ensures
            inverter.input_pairs() == Seq::<OriginWithRawPotentialPair<R>>::empty(),
            inverter.raw_potential() == potential,
    {
        StaticInverter { input: Potential::none(), output_potential: potential }
    }

    pub fn input_potential(&self) -> (potential: Potential<R>)
        ensures
            potential.pairs() == self.input_pairs(),
    {
        self.input
    }

    /// Receives the given source's potential.
    pub fn powered_by<T: PotentialSource<R>>(&mut self, source: &T)
        ensures
            final(self).input_pairs() == source.output_pairs(),
            final(self).raw_potential() == old(self).raw_potential(),
    {
        self.input = source.output();
    }

    /// Receives the given source's potential when it receives none yet.
    pub fn or_powered_by<T: PotentialSource<R>>(&mut self, source: &T)
        ensures
            final(self).input_pairs() == if old(self).input_pairs().len() == 0 {
                source.output_pairs()
            } else {
                old(self).input_pairs()
            },
            final(self).raw_potential() == old(self).raw_potential(),
    {
        if self.input.is_unpowered() {
            self.powered_by(source);
        }
    }

    /// Sets the raw potential it provides while powered.
    pub fn set_output_potential(&mut self, potential: R)
        ensures
            final(self).raw_potential() == potential,
            final(self).input_pairs() == old(self).input_pairs(),
    {
        self.output_potential = potential;
    }
}

impl<R: Copy> PotentialSource<R> for StaticInverter<R> {
    open spec fn output_pairs(&self) -> Seq<OriginWithRawPotentialPair<R>> {
        if self.input_pairs().len() > 0 {
            seq![OriginWithRawPotentialPair::pair_of(PotentialOrigin::StaticInverter, self.raw_potential())]
        } else {
            Seq::empty()
        }
    }

    fn output(&self) -> (potential: Potential<R>) {
        if self.input.is_powered() {
            Potential::single(PotentialOrigin::StaticInverter, self.output_potential)
        } else {
            Potential::none()
        }
    }
}

} // verus!
