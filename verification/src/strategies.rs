use crate::scalar::Scalar;
use crate::shared_types::components::{CurrentVelocity, IntendedVelocity, Thruster};
use crate::shared_types::{
    diff_cancels, dot_product, generic_of, lemma_dot_with_zero, vec6_diff, vec6_zero,
    zero_absorbs, ForceAxis, Relative6DVector, Vec6,
};
use std::collections::HashMap;
use std::hash::Hash;
use vstd::prelude::*;
use vstd::std_specs::hash::obeys_key_model;

verus! {

broadcast use vstd::std_specs::hash::group_hash_axioms;

/// What a strategy gets to see of one thruster.
#[derive(Debug)]
pub struct ThrusterInfo<'w, S: Scalar> {
    pub thruster: &'w Thruster<S>,
    pub force_axis: &'w ForceAxis<S>,
}

/// What a strategy gets to see of the vehicle: where it is going and where
/// it should be going.
#[derive(Debug)]
pub struct ParentInfo<'w, S> {
    pub current_velocity: &'w CurrentVelocity<S>,
    pub intended_velocity: &'w IntendedVelocity<S>,
}

impl<'w, S: Scalar> ParentInfo<'w, S> {
    /// The correction that the thrusters should bring about: the intended
    /// velocity less the current one, component by component.
    pub open spec fn aim(&self) -> Vec6<S> {
        vec6_diff(generic_of(self.intended_velocity), generic_of(self.current_velocity))
    }

    /// The wanted correction, computed anew from the two velocities on every
    /// call.
    pub fn difference(&self) -> (r: Vec6<S>)
        ensures
            r == self.aim(),
    {
        self.intended_velocity.get_generic() - self.current_velocity.get_generic()
    }
}

/// A way of turning the wanted correction into one strength for each
/// thruster. A strategy only computes: it reads what it is given and returns
/// a new mapping with exactly the identifiers that it was handed.
///
/// Identifiers are whatever the host keys its thrusters by, as long as equal
/// identifiers hash alike every time.
pub trait PureStrategy<ID: Hash + Eq + Copy, S: Scalar> {
    /// One strength for each thruster in `blocks`, under the thruster's own
    /// identifier. No thrusters give no strengths.
    fn calculate<'w>(
        &self,
        blocks: HashMap<ID, ThrusterInfo<'w, S>>,
        parent: ParentInfo<'w, S>,
    ) -> (result: HashMap<ID, S>)
        requires
            obeys_key_model::<ID>(),
        ensures
            result@.dom() == blocks@.dom(),
            blocks@.dom().is_empty() ==> result@ == Map::<ID, S>::empty(),
    ;
}

/// The scores of the exact-axis strategy: each thruster gets the dot product
/// of its force axis with the wanted correction, unclamped.
pub open spec fn exact_axis_scores<ID, S: Scalar>(
    blocks: Map<ID, ThrusterInfo<'_, S>>,
    parent: ParentInfo<'_, S>,
) -> Map<ID, S> {
    blocks.map_values(
        |info: ThrusterInfo<'_, S>| dot_product(generic_of(info.force_axis), parent.aim()),
    )
}

/// Scores each thruster by how far its axis points along the wanted
/// correction. A thruster that pushes the right way scores high, one that
/// pushes the wrong way scores below zero. The scores are handed back as they
/// are: bringing them into the range from zero to one is left to
/// `Thruster::set_current_status`, where they end up.
pub struct ExactAxisStrategy;

impl<ID: Hash + Eq + Copy, S: Scalar> PureStrategy<ID, S> for ExactAxisStrategy {
    fn calculate<'w>(
        &self,
        blocks: HashMap<ID, ThrusterInfo<'w, S>>,
        parent: ParentInfo<'w, S>,
    ) -> (result: HashMap<ID, S>)
        ensures
            result@ == exact_axis_scores(blocks@, parent),
    {
        let mut result: HashMap<ID, S> = HashMap::with_capacity(blocks.len());
        let aim = parent.difference();
        for entry in it: blocks.iter()
            invariant
                obeys_key_model::<ID>(),
                aim == parent.aim(),
                forall|id: ID| #[trigger]
                    result@.contains_key(id) <==> exists|j: int|
                        0 <= j < it.index() && *it.seq()[j].0 == id,
                forall|id: ID|
                    result@.contains_key(id) ==> #[trigger] result@[id] == dot_product(
                        generic_of(blocks@[id].force_axis),
                        parent.aim(),
                    ),
        {
            let (id, info) = entry;
            result.insert(*id, info.force_axis.dot(&aim));
        }
        assert(result@ =~= exact_axis_scores(blocks@, parent));
        result
    }
}

/// A thruster whose force axis is all zeros scores zero under the exact-axis
/// strategy, whatever the wanted correction is, as long as zero swallows it.
pub proof fn lemma_zero_axis_scores_zero<ID, S: Scalar>(
    blocks: Map<ID, ThrusterInfo<'_, S>>,
    parent: ParentInfo<'_, S>,
    id: ID,
)
    requires
        blocks.contains_key(id),
        generic_of(blocks[id].force_axis) == vec6_zero::<S>(),
        zero_absorbs(parent.aim()),
    ensures
        exact_axis_scores(blocks, parent)[id] == S::zero_value(),
{
    lemma_dot_with_zero(parent.aim());
}

/// Where the vehicle already moves as intended, and that velocity less
/// itself is zero, the wanted correction is the zero vector, and every
/// thruster whose axis zero swallows scores zero under the exact-axis
/// strategy.
pub proof fn lemma_matching_velocities_score_zero<ID, S: Scalar>(
    blocks: Map<ID, ThrusterInfo<'_, S>>,
    parent: ParentInfo<'_, S>,
    id: ID,
)
    requires
        generic_of(parent.intended_velocity) == generic_of(parent.current_velocity),
        diff_cancels(generic_of(parent.current_velocity)),
        blocks.contains_key(id),
        zero_absorbs(generic_of(blocks[id].force_axis)),
    ensures
        parent.aim() == vec6_zero::<S>(),
        exact_axis_scores(blocks, parent)[id] == S::zero_value(),
{
    lemma_dot_with_zero(generic_of(blocks[id].force_axis));
}

} // verus!
