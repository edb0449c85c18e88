//! Branch classification: each merge candidate is paired with the verdict
//! of the protection rules, preserving the order and the length of the
//! input, and the classified list is partitioned into the branches that may
//! be deleted and the ones that are only reported.

use vstd::prelude::*;

use crate::patterns::{is_protected_name, name_is_protected, sources_of, ProtectionPattern};

verus! {

/// A merge candidate: its name and whether a protection pattern matches it.
pub struct Branch {
    pub name: String,
    pub protected: bool,
}

impl Clone for Branch {
    fn clone(&self) -> (r: Self)
        ensures
            r == *self,
    {
        Branch { name: self.name.clone(), protected: self.protected }
    }
}

/// Pairs every candidate name with the verdict of the protection rules:
/// the output has one branch per input name, in input order, and a branch
/// is protected exactly when its name matches at least one pattern.
pub fn classify(names: &Vec<String>, patterns: &Vec<ProtectionPattern>) -> (r: Vec<Branch>)
    ensures
        r@.len() == names@.len(),
        forall|i: int| 0 <= i < r@.len() ==> (#[trigger] r@[i]).name@ == names@[i]@,
        forall|i: int| 0 <= i < r@.len() ==> (#[trigger] r@[i]).protected == name_is_protected(
            names@[i]@,
            sources_of(patterns@),
        ),
{
    let mut r: Vec<Branch> = Vec::new();
    let mut i: usize = 0;
    while i < names.len()
        invariant
            i <= names@.len(),
            r@.len() == i,
            forall|k: int| 0 <= k < i ==> (#[trigger] r@[k]).name@ == names@[k]@,
            forall|k: int| 0 <= k < i ==> (#[trigger] r@[k]).protected == name_is_protected(
                names@[k]@,
                sources_of(patterns@),
            ),
        decreases names@.len() - i,
    {
        let protected = is_protected_name(names[i].as_str(), patterns);
        r.push(Branch { name: names[i].clone(), protected });
        i = i + 1;
    }
    r
}

/// The branches that deletion may touch: all of them when protected
/// branches are included, otherwise only the unprotected ones; input order
/// is kept.
pub open spec fn deletable_of(branches: Seq<Branch>, include_protected: bool) -> Seq<Branch>
    decreases branches.len(),
{
    if branches.len() == 0 {
        Seq::empty()
    } else {
        let rest = deletable_of(branches.drop_last(), include_protected);
        if include_protected || !branches.last().protected {
            rest.push(branches.last())
        } else {
            rest
        }
    }
}

/// The branches that are only reported: the protected ones, when protected
/// branches are not included; input order is kept.
pub open spec fn shielded_of(branches: Seq<Branch>, include_protected: bool) -> Seq<Branch>
    decreases branches.len(),
{
    if branches.len() == 0 {
        Seq::empty()
    } else {
        let rest = shielded_of(branches.drop_last(), include_protected);
        if !include_protected && branches.last().protected {
            rest.push(branches.last())
        } else {
            rest
        }
    }
}

/// Splits a classified list into the reported-only branches and the
/// deletable ones.
pub fn partition(branches: &Vec<Branch>, include_protected: bool) -> (r: (Vec<Branch>, Vec<
    Branch,
>))
    ensures
        r.0@ == shielded_of(branches@, include_protected),
        r.1@ == deletable_of(branches@, include_protected),
{
    let mut shielded: Vec<Branch> = Vec::new();
    let mut deletable: Vec<Branch> = Vec::new();
    let mut i: usize = 0;
    proof {
        assert(branches@.take(0) =~= Seq::<Branch>::empty());
    }
    while i < branches.len()
        invariant
            i <= branches@.len(),
            shielded@ == shielded_of(branches@.take(i as int), include_protected),
            deletable@ == deletable_of(branches@.take(i as int), include_protected),
        decreases branches@.len() - i,
    {
        proof {
            assert(branches@.take(i + 1).drop_last() =~= branches@.take(i as int));
            assert(branches@.take(i + 1).last() == branches@[i as int]);
        }
        if !include_protected && branches[i].protected {
            shielded.push(branches[i].clone());
        } else {
            deletable.push(branches[i].clone());
        }
        i = i + 1;
    }
    proof {
        assert(branches@.take(branches@.len() as int) =~= branches@);
    }
    (shielded, deletable)
}

/// With protected branches excluded, the deletable set never holds a
/// protected branch; every shielded branch is protected; and together they
/// account for every input branch.
pub proof fn lemma_partition_respects_protection(branches: Seq<Branch>, include_protected: bool)
    ensures
        !include_protected ==> forall|i: int|
            0 <= i < deletable_of(branches, false).len() ==> !(#[trigger] deletable_of(
                branches,
                false,
            )[i]).protected,
        forall|i: int|
            0 <= i < shielded_of(branches, include_protected).len() ==> (#[trigger] shielded_of(
                branches,
                include_protected,
            )[i]).protected,
        include_protected ==> shielded_of(branches, include_protected).len() == 0,
        deletable_of(branches, include_protected).len() + shielded_of(
            branches,
            include_protected,
        ).len() == branches.len(),
    decreases branches.len(),
{
    if branches.len() == 0 {
    } else {
        lemma_partition_respects_protection(branches.drop_last(), include_protected);
        let s = shielded_of(branches, include_protected);
        let sp = shielded_of(branches.drop_last(), include_protected);
        let d = deletable_of(branches, include_protected);
        let dp = deletable_of(branches.drop_last(), include_protected);
        assert forall|i: int| 0 <= i < s.len() implies (#[trigger] s[i]).protected by {
            if !include_protected && branches.last().protected {
                if i < sp.len() {
                    assert(s[i] == sp[i]);
                } else {
                    assert(s[i] == branches.last());
                }
            } else {
                assert(s[i] == sp[i]);
            }
        }
        if !include_protected {
            assert forall|i: int| 0 <= i < d.len() implies !(#[trigger] d[i]).protected by {
                if !branches.last().protected {
                    if i < dp.len() {
                        assert(d[i] == dp[i]);
                    } else {
                        assert(d[i] == branches.last());
                    }
                } else {
                    assert(d[i] == dp[i]);
                }
            }
        }
    }
}

} // verus!
