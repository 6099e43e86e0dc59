//! Verification policies: two constraint groups and their evaluation against
//! fetched trusted layers.

use vstd::prelude::*;

use crate::constraint::IdentityConstraint;
use crate::layers::TrustedLayer;
use crate::model::{
    constraint_matches, constraint_satisfied, group_all_satisfied, group_any_satisfied,
    policy_satisfied, PolicyModel,
};

verus! {

/// Two constraint groups combined by policy semantics: every `all_of`
/// constraint must be matched by some layer and at least one `any_of`
/// constraint must be matched, each group only when present.
#[derive(Debug)]
pub struct VerificationPolicy {
    pub all_of: Option<Vec<IdentityConstraint>>,
    pub any_of: Option<Vec<IdentityConstraint>>,
}

impl DeepView for VerificationPolicy {
    type V = PolicyModel;

    open spec fn deep_view(&self) -> PolicyModel {
        PolicyModel { all_of: self.all_of.deep_view(), any_of: self.any_of.deep_view() }
    }
}

/// Some fetched layer satisfies the constraint.
pub fn constraint_satisfied_by(
    c: &IdentityConstraint,
    layers: &Vec<TrustedLayer>,
    keyless_capable: bool,
) -> (r: bool)
    ensures
        r == constraint_satisfied(c.deep_view(), layers.deep_view(), keyless_capable),
{
    let mut j: usize = 0;
    while j < layers.len()
        invariant
            0 <= j <= layers@.len(),
            forall|k: int| 0 <= k < j ==> !constraint_matches(
                c.deep_view(),
                #[trigger] layers.deep_view()[k],
                keyless_capable,
            ),
        decreases layers@.len() - j,
    {
        let matched = c.matches_layer(&layers[j], keyless_capable);
        proof {
            assert(layers.deep_view()[j as int] == layers@[j as int].deep_view());
        }
        if matched {
            return true;
        }
        j = j + 1;
    }
    proof {
        if constraint_satisfied(c.deep_view(), layers.deep_view(), keyless_capable) {
            let k = choose|k: int|
                0 <= k < layers.deep_view().len() && constraint_matches(
                    c.deep_view(),
                    layers.deep_view()[k],
                    keyless_capable,
                );
            assert(!constraint_matches(c.deep_view(), layers.deep_view()[k], keyless_capable));
        }
    }
    false
}

/// Every constraint of the group is satisfied by some layer.
fn group_all_satisfied_by(
    cs: &Vec<IdentityConstraint>,
    layers: &Vec<TrustedLayer>,
    keyless_capable: bool,
) -> (r: bool)
    ensures
        r == group_all_satisfied(cs.deep_view(), layers.deep_view(), keyless_capable),
{
    let mut i: usize = 0;
    while i < cs.len()
        invariant
            0 <= i <= cs@.len(),
            forall|k: int| 0 <= k < i ==> constraint_satisfied(
                #[trigger] cs.deep_view()[k],
                layers.deep_view(),
                keyless_capable,
            ),
        decreases cs@.len() - i,
    {
        let ok = constraint_satisfied_by(&cs[i], layers, keyless_capable);
        proof {
            assert(cs.deep_view()[i as int] == cs@[i as int].deep_view());
        }
        if !ok {
            return false;
        }
        i = i + 1;
    }
    true
}

/// At least one constraint of the group is satisfied by some layer.
fn group_any_satisfied_by(
    cs: &Vec<IdentityConstraint>,
    layers: &Vec<TrustedLayer>,
    keyless_capable: bool,
) -> (r: bool)
    ensures
        r == group_any_satisfied(cs.deep_view(), layers.deep_view(), keyless_capable),
{
    let mut i: usize = 0;
    while i < cs.len()
        invariant
            0 <= i <= cs@.len(),
            forall|k: int| 0 <= k < i ==> !constraint_satisfied(
                #[trigger] cs.deep_view()[k],
                layers.deep_view(),
                keyless_capable,
            ),
        decreases cs@.len() - i,
    {
        let ok = constraint_satisfied_by(&cs[i], layers, keyless_capable);
        proof {
            assert(cs.deep_view()[i as int] == cs@[i as int].deep_view());
        }
        if ok {
            return true;
        }
        i = i + 1;
    }
    proof {
        if group_any_satisfied(cs.deep_view(), layers.deep_view(), keyless_capable) {
            let k = choose|k: int|
                0 <= k < cs.deep_view().len() && constraint_satisfied(
                    #[trigger] cs.deep_view()[k],
                    layers.deep_view(),
                    keyless_capable,
                );
            assert(!constraint_satisfied(cs.deep_view()[k], layers.deep_view(), keyless_capable));
        }
    }
    false
}

impl VerificationPolicy {
    /// Whether the fetched layers satisfy this policy under the given trust
    /// root capability.
    pub fn satisfied_by(&self, layers: &Vec<TrustedLayer>, keyless_capable: bool) -> (r: bool)
        ensures
            r == policy_satisfied(self.deep_view(), layers.deep_view(), keyless_capable),
    {
        let all_ok = match &self.all_of {
            Option::None => true,
            Option::Some(cs) => group_all_satisfied_by(cs, layers, keyless_capable),
        };
        let any_ok = match &self.any_of {
            Option::None => true,
            Option::Some(cs) => group_any_satisfied_by(cs, layers, keyless_capable),
        };
        all_ok && any_ok
    }
}

} // verus!
