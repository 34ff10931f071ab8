//! Electric potential made available by one or more origins.

use vstd::prelude::*;
use vstd::seq_lib::lemma_seq_contains_after_push;

verus! {

/// The origin of electric potential within an electrical system.
#[derive(Clone, Copy, Debug, PartialEq, Eq, Structural, Hash)]
pub enum PotentialOrigin {
    NoOrigin,
    EngineGenerator(usize),
    ApuGenerator(usize),
    External,
    EmergencyGenerator,
    Battery(usize),
    TransformerRectifier(usize),
    StaticInverter,
}

/// An origin together with the raw potential it provides. Two pairs are
/// equal when their origins are equal, whatever their raw potentials.
#[derive(Clone, Copy, Debug)]
pub struct OriginWithRawPotentialPair<R> {
    origin: PotentialOrigin,
    raw: R,
}

impl<R> OriginWithRawPotentialPair<R> {
    pub closed spec fn origin_of(&self) -> PotentialOrigin {
        self.origin
    }

    pub closed spec fn raw_of(&self) -> R {
        self.raw
    }

    /// The pair of an origin and a raw potential.
    pub closed spec fn pair_of(origin: PotentialOrigin, raw: R) -> OriginWithRawPotentialPair<R> {
        OriginWithRawPotentialPair { origin, raw }
    }
}

/// A pair holds the origin and raw potential it was made of.
pub broadcast proof fn lemma_pair_of_fields<R>(origin: PotentialOrigin, raw: R)
    ensures
        (#[trigger] OriginWithRawPotentialPair::pair_of(origin, raw)).origin_of() == origin,
        OriginWithRawPotentialPair::pair_of(origin, raw).raw_of() == raw,
{
}

impl<R: Copy> OriginWithRawPotentialPair<R> {
    pub fn new(origin: PotentialOrigin, raw: R) -> (pair: OriginWithRawPotentialPair<R>)
        ensures
            pair.origin_of() == origin,
            pair.raw_of() == raw,
    {
        OriginWithRawPotentialPair { origin, raw }
    }

    pub fn origin(&self) -> (origin: PotentialOrigin)
        ensures
            origin == self.origin_of(),
    {
        self.origin
    }

    pub fn raw(&self) -> (raw: R)
        ensures
            raw == self.raw_of(),
    {
        self.raw
    }
}

impl<R: Copy> PartialEq for OriginWithRawPotentialPair<R> {
    fn eq(&self, other: &Self) -> (equal: bool) {
        self.origin == other.origin
    }
}

impl<R: Copy> vstd::std_specs::cmp::PartialEqSpecImpl for OriginWithRawPotentialPair<R> {
    open spec fn obeys_eq_spec() -> bool {
        true
    }

    open spec fn eq_spec(&self, other: &Self) -> bool {
        self.origin_of() == other.origin_of()
    }
}

impl<R: Copy> Eq for OriginWithRawPotentialPair<R> {}

/// The (origin, raw potential) pairs held in a sequence of optional pairs,
/// in order, leaving out the empty places.
pub open spec fn present<R>(elements: Seq<Option<OriginWithRawPotentialPair<R>>>) -> Seq<
    OriginWithRawPotentialPair<R>,
>
    decreases elements.len(),
{
    if elements.len() == 0 {
        Seq::empty()
    } else {
        let rest = present(elements.drop_last());
        match elements.last() {
            Some(pair) => rest.push(pair),
            None => rest,
        }
    }
}

/// The origins of a sequence of pairs, in order.
pub open spec fn origins<R>(pairs: Seq<OriginWithRawPotentialPair<R>>) -> Seq<PotentialOrigin> {
    pairs.map_values(|p: OriginWithRawPotentialPair<R>| p.origin_of())
}

/// No origin occurs twice among the pairs.
pub open spec fn distinct_origins<R>(pairs: Seq<OriginWithRawPotentialPair<R>>) -> bool {
    forall|i: int, j: int|
        0 <= i < j < pairs.len() ==> #[trigger] pairs[i].origin_of() != #[trigger] pairs[j].origin_of()
}

/// The pairs with the first pair of each origin kept, in order; a pair whose
/// origin occurred before is left out.
pub open spec fn unique_by_origin<R>(pairs: Seq<OriginWithRawPotentialPair<R>>) -> Seq<
    OriginWithRawPotentialPair<R>,
>
    decreases pairs.len(),
{
    if pairs.len() == 0 {
        Seq::empty()
    } else {
        let kept = unique_by_origin(pairs.drop_last());
        if origins(kept).contains(pairs.last().origin_of()) {
            kept
        } else {
            kept.push(pairs.last())
        }
    }
}

/// Electric potential made available by up to three origins. An origin
/// occurs at most once; its raw potential is carried along but plays no part
/// in deciding whether something is powered.
#[derive(Copy, Debug)]
pub struct Potential<R> {
    elements: [Option<OriginWithRawPotentialPair<R>>; 3],
}

/// The three places of a potential holding `pairs`: the pairs in order,
/// then empty places.
pub open spec fn packed_places<R>(pairs: Seq<OriginWithRawPotentialPair<R>>) -> Seq<
    Option<OriginWithRawPotentialPair<R>>,
> {
    Seq::new(3, |j: int| if j < pairs.len() { Some(pairs[j]) } else { None })
}

impl<R> Potential<R> {
    #[verifier::type_invariant]
    closed spec fn wf(self) -> bool {
        &&& distinct_origins(present(self.elements@))
        &&& self.elements@ == packed_places(present(self.elements@))
    }

    /// The three places holding the origins and their raw potentials.
    pub closed spec fn places(self) -> Seq<Option<OriginWithRawPotentialPair<R>>> {
        self.elements@
    }
}

impl<R> Potential<R> {
    /// The origins providing this potential, each with its raw potential, in order.
    pub closed spec fn pairs(self) -> Seq<OriginWithRawPotentialPair<R>> {
        present(self.elements@)
    }

    pub open spec fn powered(self) -> bool {
        self.pairs().len() > 0
    }
}

impl<R: Copy> Clone for Potential<R> {
    fn clone(&self) -> (copy: Self)
        ensures
            copy == *self,
    {
        *self
    }
}

impl<R: Copy> Potential<R> {
    pub fn none() -> (potential: Potential<R>)
        ensures
            potential.pairs() == Seq::<OriginWithRawPotentialPair<R>>::empty(),
            potential.places() == packed_places(potential.pairs()),
    {
        let elements: [Option<OriginWithRawPotentialPair<R>>; 3] = [None, None, None];
        proof {
            reveal_with_fuel(present, 4);
        }
        assert(present(elements@) =~= Seq::<OriginWithRawPotentialPair<R>>::empty());
        assert(elements@ =~= packed_places(present(elements@)));
        Potential { elements }
    }


    pub fn single(origin: PotentialOrigin, raw: R) -> (potential: Potential<R>)
        ensures
            potential.pairs() == seq![OriginWithRawPotentialPair::pair_of(origin, raw)],
            potential.pairs().len() == 1,
            potential.pairs()[0].origin_of() == origin,
            potential.pairs()[0].raw_of() == raw,
            potential.places() == packed_places(potential.pairs()),
    {
        let elements: [Option<OriginWithRawPotentialPair<R>>; 3] = [
            Some(OriginWithRawPotentialPair::new(origin, raw)),
            None,
            None,
        ];
        proof {
            reveal_with_fuel(present, 4);
        }
        assert(present(elements@) =~= seq![OriginWithRawPotentialPair { origin, raw }]);
        assert(elements@ =~= packed_places(present(elements@)));
        Potential { elements }
    }

    /// The pairs of this potential, in order.
    fn collect(&self) -> (pairs: Vec<OriginWithRawPotentialPair<R>>)
        ensures
            pairs@ == self.pairs(),
    {
        let mut pairs: Vec<OriginWithRawPotentialPair<R>> = Vec::new();
        let mut i: usize = 0;
        assert(self.elements@.take(0) =~= Seq::<Option<OriginWithRawPotentialPair<R>>>::empty());
        while i < 3
            invariant
                0 <= i <= 3,
                pairs@ == present(self.elements@.take(i as int)),
            decreases 3 - i,
        {
            assert(self.elements@.take(i + 1).drop_last() =~= self.elements@.take(i as int));
            if let Some(pair) = self.elements[i] {
                pairs.push(pair);
            }
            i += 1;
        }
        assert(self.elements@.take(3) =~= self.elements@);
        pairs
    }

    /// Combines this potential with another. Origins of the other potential
    /// that this potential already has are left out; the raw potential of
    /// this potential is kept for them.
    pub fn merge(&self, other: &Potential<R>) -> (merged: Potential<R>)
        requires
            unique_by_origin(self.pairs() + other.pairs()).len() <= 3,
        ensures
            merged.pairs() == unique_by_origin(self.pairs() + other.pairs()),
            distinct_origins(merged.pairs()),
            merged.places() == packed_places(merged.pairs()),
    {
        let mut all = self.collect();
        let mut theirs = other.collect();
        all.append(&mut theirs);
        let ghost everything = all@;
        assert(everything == self.pairs() + other.pairs());

        let mut elements: [Option<OriginWithRawPotentialPair<R>>; 3] = [None, None, None];
        let mut n: usize = 0;
        let mut i: usize = 0;
        let ghost mut kept: Seq<OriginWithRawPotentialPair<R>> = Seq::empty();
        assert(everything.take(0) =~= Seq::<OriginWithRawPotentialPair<R>>::empty());
        while i < all.len()
            invariant
                all@ == everything,
                0 <= i <= all.len(),
                unique_by_origin(everything).len() <= 3,
                kept == unique_by_origin(everything.take(i as int)),
                n == kept.len(),
                n <= 3,
                forall|j: int| 0 <= j < n ==> elements@[j] == Some(#[trigger] kept[j]),
                forall|j: int| n <= j < 3 ==> #[trigger] elements@[j] is None,
            decreases all.len() - i,
        {
            let pair = all[i];
            assert(everything.take(i + 1).drop_last() =~= everything.take(i as int));
            assert(everything.take(i + 1).last() == pair);
            let mut found = false;
            let mut j: usize = 0;
            while j < n
                invariant
                    0 <= j <= n <= 3,
                    n == kept.len(),
                    forall|k: int| 0 <= k < n ==> elements@[k] == Some(#[trigger] kept[k]),
                    found <==> exists|k: int| 0 <= k < j && #[trigger] kept[k].origin_of() == pair.origin_of(),
                decreases n - j,
            {
                assert(elements@[j as int] == Some(kept[j as int]));
                if let Some(existing) = elements[j] {
                    assert(existing == kept[j as int]);
                    let same = existing.origin == pair.origin;
                    assert(same == (existing.origin_of() == pair.origin_of()));
                    if same {
                        found = true;
                    }
                    assert(found <==> exists|k: int|
                        0 <= k < j + 1 && #[trigger] kept[k].origin_of() == pair.origin_of());
                }
                j += 1;
            }
            proof {
                lemma_contains_origin(kept, pair.origin_of());
                lemma_unique_prefix_len(everything, i as int + 1, everything.len() as int);
                assert(everything.take(everything.len() as int) =~= everything);
            }
            if !found {
                elements[n] = Some(pair);
                proof {
                    kept = kept.push(pair);
                }
                n += 1;
            }
            i += 1;
        }
        assert(everything.take(all.len() as int) =~= everything);
        proof {
            lemma_present_of_packed(elements@, kept);
            lemma_unique_is_distinct(everything);
        }
        assert(elements@ =~= packed_places(present(elements@)));
        Potential { elements }
    }

    /// Whether the given origin, and no other, provides this potential.
    pub fn is_single(&self, origin: PotentialOrigin) -> (single: bool)
        ensures
            single == (self.pairs().len() == 1 && self.pairs()[0].origin_of() == origin),
    {
        let pairs = self.collect();
        pairs.len() == 1 && pairs[0].origin == origin
    }

    /// Whether a single engine generator, and no other origin, provides this potential.
    pub fn is_single_engine_generator(&self) -> (single: bool)
        ensures
            single == (self.pairs().len() == 1 && self.pairs()[0].origin_of() is EngineGenerator),
    {
        let pairs = self.collect();
        pairs.len() == 1 && match pairs[0].origin {
            PotentialOrigin::EngineGenerator(_) => true,
            _ => false,
        }
    }

    /// Whether exactly two origins provide this potential, each of them `a` or `b`.
    pub fn is_pair(&self, a: PotentialOrigin, b: PotentialOrigin) -> (pair: bool)
        ensures
            pair == (self.pairs().len() == 2 && (self.pairs()[0].origin_of() == a
                || self.pairs()[0].origin_of() == b) && (self.pairs()[1].origin_of() == a
                || self.pairs()[1].origin_of() == b)),
    {
        let pairs = self.collect();
        let result = pairs.len() == 2 && (pairs[0].origin == a || pairs[0].origin == b) && (
        pairs[1].origin == a || pairs[1].origin == b);
        result
    }

    /// Indicates if the instance provides electric potential.
    pub fn is_powered(&self) -> (powered: bool)
        ensures
            powered == self.powered(),
    {
        let pairs = self.collect();
        pairs.len() > 0
    }

    /// Indicates if the instance does not provide electric potential.
    pub fn is_unpowered(&self) -> (unpowered: bool)
        ensures
            unpowered == !self.powered(),
    {
        !self.is_powered()
    }

    /// The places holding the origins and their raw potentials.
    pub fn origins_with_raw_potential(&self) -> (elements: &[Option<OriginWithRawPotentialPair<R>>; 3])
        ensures
            present(elements@) == self.pairs(),
            elements@ == self.places(),
            elements@ == packed_places(self.pairs()),
    {
        proof {
            use_type_invariant(self);
        }
        &self.elements
    }
}

/// Whether a sequence of pairs holds the given origin.
proof fn lemma_contains_origin<R>(pairs: Seq<OriginWithRawPotentialPair<R>>, origin: PotentialOrigin)
    ensures
        origins(pairs).contains(origin) <==> exists|k: int|
            0 <= k < pairs.len() && #[trigger] pairs[k].origin_of() == origin,
{
    if origins(pairs).contains(origin) {
        let k = choose|k: int| 0 <= k < origins(pairs).len() && origins(pairs)[k] == origin;
        assert(pairs[k].origin_of() == origin);
    }
    if exists|k: int| 0 <= k < pairs.len() && #[trigger] pairs[k].origin_of() == origin {
        let k = choose|k: int| 0 <= k < pairs.len() && #[trigger] pairs[k].origin_of() == origin;
        assert(origins(pairs)[k] == origin);
    }
}

/// Keeping the first pair of each origin of a longer prefix keeps at least as many pairs.
pub proof fn lemma_unique_prefix_len<R>(pairs: Seq<OriginWithRawPotentialPair<R>>, k: int, m: int)
    requires
        0 <= k <= m <= pairs.len(),
    ensures
        unique_by_origin(pairs.take(k)).len() <= unique_by_origin(pairs.take(m)).len(),
    decreases m - k,
{
    if k < m {
        lemma_unique_prefix_len(pairs, k, m - 1);
        assert(pairs.take(m).drop_last() =~= pairs.take(m - 1));
    }
}

/// Keeping the first pair of each origin keeps at most all the pairs.
pub proof fn lemma_unique_len<R>(pairs: Seq<OriginWithRawPotentialPair<R>>)
    ensures
        unique_by_origin(pairs).len() <= pairs.len(),
    decreases pairs.len(),
{
    if pairs.len() > 0 {
        lemma_unique_len(pairs.drop_last());
    }
}

/// Keeping the first pair of each origin leaves no origin twice.
pub proof fn lemma_unique_is_distinct<R>(pairs: Seq<OriginWithRawPotentialPair<R>>)
    ensures
        distinct_origins(unique_by_origin(pairs)),
    decreases pairs.len(),
{
    if pairs.len() > 0 {
        lemma_unique_is_distinct(pairs.drop_last());
        let kept = unique_by_origin(pairs.drop_last());
        lemma_contains_origin(kept, pairs.last().origin_of());
    }
}

/// A packed array (the pairs first, then empty places) holds exactly its pairs.
proof fn lemma_present_of_packed<R>(
    elements: Seq<Option<OriginWithRawPotentialPair<R>>>,
    pairs: Seq<OriginWithRawPotentialPair<R>>,
)
    requires
        pairs.len() <= elements.len(),
        forall|j: int| 0 <= j < pairs.len() ==> elements[j] == Some(#[trigger] pairs[j]),
        forall|j: int| pairs.len() <= j < elements.len() ==> #[trigger] elements[j] is None,
    ensures
        present(elements) == pairs,
    decreases elements.len(),
{
    if elements.len() > 0 {
        if pairs.len() == elements.len() {
            lemma_present_of_packed(elements.drop_last(), pairs.drop_last());
            assert(present(elements.drop_last()).push(pairs.last()) =~= pairs);
        } else {
            lemma_present_of_packed(elements.drop_last(), pairs);
        }
    } else {
        assert(pairs =~= Seq::<OriginWithRawPotentialPair<R>>::empty());
    }
}


/// Keeping the first pair of each origin changes nothing when no origin occurs twice.
pub proof fn lemma_unique_of_distinct<R>(pairs: Seq<OriginWithRawPotentialPair<R>>)
    requires
        distinct_origins(pairs),
    ensures
        unique_by_origin(pairs) == pairs,
    decreases pairs.len(),
{
    if pairs.len() > 0 {
        let rest = pairs.drop_last();
        assert(distinct_origins(rest));
        lemma_unique_of_distinct(rest);
        lemma_contains_origin(rest, pairs.last().origin_of());
        assert(rest.push(pairs.last()) =~= pairs);
    } else {
        assert(pairs =~= Seq::<OriginWithRawPotentialPair<R>>::empty());
    }
}

/// An origin is among the kept pairs exactly when it is among the pairs, and
/// the pair kept for it is the first pair of that origin.
pub proof fn lemma_unique_keeps_origins<R>(pairs: Seq<OriginWithRawPotentialPair<R>>, origin: PotentialOrigin)
    ensures
        origins(unique_by_origin(pairs)).contains(origin) <==> origins(pairs).contains(origin),
    decreases pairs.len(),
{
    if pairs.len() > 0 {
        let rest = pairs.drop_last();
        let x = pairs.last();
        lemma_unique_keeps_origins(rest, origin);
        assert(pairs =~= rest.push(x));
        assert(origins(rest.push(x)) =~= origins(rest).push(x.origin_of()));
        lemma_seq_contains_after_push(origins(rest), x.origin_of(), origin);
        let kept = unique_by_origin(rest);
        assert(origins(kept.push(x)) =~= origins(kept).push(x.origin_of()));
        lemma_seq_contains_after_push(origins(kept), x.origin_of(), origin);
    } else {
        assert(origins(pairs) =~= Seq::<PotentialOrigin>::empty());
        assert(origins(unique_by_origin(pairs)) =~= Seq::<PotentialOrigin>::empty());
    }
}

/// Merging with a potential that has no origin leaves the origins and raw
/// potentials as they were, whichever side the unpowered potential is on.
pub proof fn law_merge_with_unpowered_is_identity<R>(p: Seq<OriginWithRawPotentialPair<R>>)
    requires
        distinct_origins(p),
    ensures
        unique_by_origin(p + Seq::empty()) == p,
        unique_by_origin(Seq::empty() + p) == p,
{
    assert(p + Seq::<OriginWithRawPotentialPair<R>>::empty() =~= p);
    assert(Seq::<OriginWithRawPotentialPair<R>>::empty() + p =~= p);
    lemma_unique_of_distinct(p);
}

/// Merging a potential with one of the same single origin gives that single
/// origin, with the raw potential of the left-hand side.
pub proof fn law_merge_same_single_origin<R>(
    left: OriginWithRawPotentialPair<R>,
    right: OriginWithRawPotentialPair<R>,
)
    requires
        left.origin_of() == right.origin_of(),
    ensures
        unique_by_origin(seq![left] + seq![right]) == seq![left],
{
    let both = seq![left] + seq![right];
    assert(both.drop_last() =~= seq![left]);
    assert(both.last() == right);
    assert(seq![left].drop_last() =~= Seq::<OriginWithRawPotentialPair<R>>::empty());
    assert(seq![left].last() == left);
    assert(origins(Seq::<OriginWithRawPotentialPair<R>>::empty()) =~= Seq::<PotentialOrigin>::empty());
    assert(Seq::<OriginWithRawPotentialPair<R>>::empty().push(left) =~= seq![left]);
    reveal_with_fuel(unique_by_origin, 3);
    assert(unique_by_origin(Seq::<OriginWithRawPotentialPair<R>>::empty()) =~= Seq::<OriginWithRawPotentialPair<R>>::empty());
    assert(!origins(Seq::<OriginWithRawPotentialPair<R>>::empty()).contains(left.origin_of()));
    assert(unique_by_origin(seq![left]) =~= seq![left]);
    assert(origins(seq![left])[0] == right.origin_of());
}

/// The merge of two potentials is provided by exactly the origins that
/// provide either of them, and it is powered exactly when either is powered.
pub proof fn law_merge_is_union_of_origins<R>(
    left: Seq<OriginWithRawPotentialPair<R>>,
    right: Seq<OriginWithRawPotentialPair<R>>,
    origin: PotentialOrigin,
)
    ensures
        origins(unique_by_origin(left + right)).contains(origin) <==> (origins(left).contains(origin)
            || origins(right).contains(origin)),
        (unique_by_origin(left + right).len() > 0) <==> (left.len() > 0 || right.len() > 0),
{
    lemma_unique_keeps_origins(left + right, origin);
    lemma_contains_origin(left + right, origin);
    lemma_contains_origin(left, origin);
    lemma_contains_origin(right, origin);
    if origins(left + right).contains(origin) {
        let k = choose|k: int| 0 <= k < (left + right).len() && #[trigger] (left + right)[k].origin_of() == origin;
        if k >= left.len() {
            assert(right[k - left.len()].origin_of() == origin);
        }
    }
    if origins(right).contains(origin) {
        let k = choose|k: int| 0 <= k < right.len() && #[trigger] right[k].origin_of() == origin;
        assert((left + right)[k + left.len()].origin_of() == origin);
    }
    if origins(left).contains(origin) {
        let k = choose|k: int| 0 <= k < left.len() && #[trigger] left[k].origin_of() == origin;
        assert((left + right)[k].origin_of() == origin);
    }
    if left.len() > 0 || right.len() > 0 {
        let any = (left + right)[0].origin_of();
        lemma_unique_keeps_origins(left + right, any);
        lemma_contains_origin(left + right, any);
        lemma_contains_origin(unique_by_origin(left + right), any);
    }
    if unique_by_origin(left + right).len() > 0 {
        let any = unique_by_origin(left + right)[0].origin_of();
        lemma_unique_keeps_origins(left + right, any);
        lemma_contains_origin(unique_by_origin(left + right), any);
        lemma_contains_origin(left + right, any);
    }
}

/// Merging a potential with itself changes nothing.
pub proof fn law_merge_is_idempotent<R>(p: Seq<OriginWithRawPotentialPair<R>>)
    requires
        distinct_origins(p),
    ensures
        unique_by_origin(p + p) == p,
    decreases p.len(),
{
    assert forall|i: int| 0 <= i < p.len() implies origins(p).contains(#[trigger] p[i].origin_of()) by {
        assert(origins(p)[i] == p[i].origin_of());
    }
    lemma_unique_append_known(p, p);
}

/// Appending pairs whose origins are already kept changes nothing.
proof fn lemma_unique_append_known<R>(
    p: Seq<OriginWithRawPotentialPair<R>>,
    q: Seq<OriginWithRawPotentialPair<R>>,
)
    requires
        distinct_origins(p),
        forall|i: int| 0 <= i < q.len() ==> origins(p).contains(#[trigger] q[i].origin_of()),
    ensures
        unique_by_origin(p + q) == p,
    decreases q.len(),
{
    if q.len() == 0 {
        assert(p + q =~= p);
        lemma_unique_of_distinct(p);
    } else {
        lemma_unique_append_known(p, q.drop_last());
        assert((p + q).drop_last() =~= p + q.drop_last());
        assert((p + q).last() == q.last());
        assert(origins(p).contains(q[q.len() - 1].origin_of()));
    }
}


/// Keeping the first pair of each origin of kept pairs followed by more pairs
/// is the same as keeping the first pair of each origin of all of them.
pub proof fn lemma_unique_of_unique_prefix<R>(
    s: Seq<OriginWithRawPotentialPair<R>>,
    t: Seq<OriginWithRawPotentialPair<R>>,
)
    ensures
        unique_by_origin(unique_by_origin(s) + t) == unique_by_origin(s + t),
    decreases t.len(),
{
    if t.len() == 0 {
        assert(unique_by_origin(s) + t =~= unique_by_origin(s));
        assert(s + t =~= s);
        lemma_unique_is_distinct(s);
        lemma_unique_of_distinct(unique_by_origin(s));
    } else {
        lemma_unique_of_unique_prefix(s, t.drop_last());
        assert((unique_by_origin(s) + t).drop_last() =~= unique_by_origin(s) + t.drop_last());
        assert((s + t).drop_last() =~= s + t.drop_last());
        assert((unique_by_origin(s) + t).last() == t.last());
        assert((s + t).last() == t.last());
    }
}

/// Something that provides electric potential: an origin, or a conductor
/// passing on the potential it receives.
pub trait PotentialSource<R: Copy> {
    /// The origins, with their raw potentials, of the potential provided.
    spec fn output_pairs(&self) -> Seq<OriginWithRawPotentialPair<R>>;

    fn output(&self) -> (potential: Potential<R>)
        ensures
            potential.pairs() == self.output_pairs(),
    ;

    /// Indicates if the instance provides electric potential.
    fn is_powered(&self) -> (powered: bool)
        ensures
            powered == (self.output_pairs().len() > 0),
    {
        self.output().is_powered()
    }

    /// Indicates if the instance does not provide electric potential.
    fn is_unpowered(&self) -> (unpowered: bool)
        ensures
            unpowered == (self.output_pairs().len() == 0),
    {
        self.output().is_unpowered()
    }
}

impl<R: Copy> PotentialSource<R> for Potential<R> {
    open spec fn output_pairs(&self) -> Seq<OriginWithRawPotentialPair<R>> {
        self.pairs()
    }

    fn output(&self) -> (potential: Potential<R>) {
        *self
    }
}

} // verus!
