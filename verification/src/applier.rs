//! The change applier: it decomposes a change batch into the exact ordered
//! sequence of backend calls, deletions first, skipping targets whose
//! record type the adapter does not manage.
//!
//! The plan is pure data; executing the calls (and aborting on the first
//! backend failure) is the caller's loop. Every call in the plan, its
//! payload, and its position are pinned down by the spec functions here.

use crate::codec::backend_data_for;
use crate::codec::is_supported;
use crate::codec::is_supported_type;
use crate::codec::to_backend_payload;
use crate::models::Changes;
use crate::models::Endpoint;
use crate::models::additions_of;
use crate::models::deletions_of;
use crate::technitium::models::AddRecordPayload;
use crate::technitium::models::AddRecordPayloadRecordData;
use crate::technitium::models::DeleteRecordPayload;
use crate::technitium::models::DeleteRecordPayloadRecordData;
use crate::technitium::models::add_data_from;
use crate::technitium::models::delete_data_from;
use vstd::pervasive::unreached;
use vstd::prelude::*;

verus! {

/// One backend call of a change plan.
#[derive(Debug, Clone, PartialEq, Eq)]
pub enum PlannedCall {
    Delete(DeleteRecordPayload),
    Add(AddRecordPayload),
}

/// One target skipped because its record type is not managed; surfaced
/// for a warning, never as a failure.
#[derive(Debug, Clone, PartialEq, Eq)]
pub struct SkippedChange {
    /// True when the skipped target belonged to the deletion set.
    pub deletion: bool,
    pub dns_name: String,
    pub record_type: String,
}

/// A decomposed change batch: the backend calls in issue order, the
/// targets skipped with a warning, and whether the batch was empty.
#[derive(Debug, Clone, PartialEq, Eq)]
pub struct ChangePlan {
    pub calls: Vec<PlannedCall>,
    pub skipped: Vec<SkippedChange>,
    pub noop: bool,
}

/// The delete call for one target of an endpoint.
pub open spec fn delete_call_for(ep: Endpoint, target: String) -> PlannedCall {
    PlannedCall::Delete(
        DeleteRecordPayload {
            domain: ep.dns_name,
            data: delete_data_from(backend_data_for(ep.record_type@, target)->0),
            zone: None,
        },
    )
}

/// The add call for one target of an endpoint, carrying its TTL when one
/// was supplied.
pub open spec fn add_call_for(ep: Endpoint, target: String) -> PlannedCall {
    PlannedCall::Add(
        AddRecordPayload {
            domain: ep.dns_name,
            data: add_data_from(backend_data_for(ep.record_type@, target)->0),
            zone: None,
            ttl: ep.record_ttl,
            overwrite: None,
            comments: None,
            expiry_ttl: None,
        },
    )
}

/// The delete calls of one endpoint: one per target, or none when its
/// record type is not managed.
pub open spec fn delete_calls_for(ep: Endpoint) -> Seq<PlannedCall> {
    if is_supported_type(ep.record_type@) {
        Seq::new(ep.targets@.len(), |i: int| delete_call_for(ep, ep.targets@[i]))
    } else {
        Seq::empty()
    }
}

/// The add calls of one endpoint: one per target, or none when its record
/// type is not managed.
pub open spec fn add_calls_for(ep: Endpoint) -> Seq<PlannedCall> {
    if is_supported_type(ep.record_type@) {
        Seq::new(ep.targets@.len(), |i: int| add_call_for(ep, ep.targets@[i]))
    } else {
        Seq::empty()
    }
}

/// The skip entries of one endpoint: one per target when its record type
/// is not managed, else none.
pub open spec fn skips_for(deletion: bool, ep: Endpoint) -> Seq<SkippedChange> {
    if is_supported_type(ep.record_type@) {
        Seq::empty()
    } else {
        Seq::new(
            ep.targets@.len(),
            |i: int|
                SkippedChange { deletion, dns_name: ep.dns_name, record_type: ep.record_type },
        )
    }
}

/// The delete calls of a list of endpoints, in input order.
pub open spec fn delete_calls(eps: Seq<Endpoint>) -> Seq<PlannedCall>
    decreases eps.len(),
{
    if eps.len() == 0 {
        Seq::empty()
    } else {
        delete_calls(eps.drop_last()) + delete_calls_for(eps.last())
    }
}

/// The add calls of a list of endpoints, in input order.
pub open spec fn add_calls(eps: Seq<Endpoint>) -> Seq<PlannedCall>
    decreases eps.len(),
{
    if eps.len() == 0 {
        Seq::empty()
    } else {
        add_calls(eps.drop_last()) + add_calls_for(eps.last())
    }
}

/// The skip entries of a list of endpoints, in input order.
pub open spec fn skips(deletion: bool, eps: Seq<Endpoint>) -> Seq<SkippedChange>
    decreases eps.len(),
{
    if eps.len() == 0 {
        Seq::empty()
    } else {
        skips(deletion, eps.drop_last()) + skips_for(deletion, eps.last())
    }
}

/// The whole plan of a change batch: every deletion before every
/// addition, each set in input order.
pub open spec fn plan_calls(c: Changes) -> Seq<PlannedCall> {
    delete_calls(deletions_of(c)) + add_calls(additions_of(c))
}

/// The skip entries of a change batch, deletion set first.
pub open spec fn plan_skips(c: Changes) -> Seq<SkippedChange> {
    skips(true, deletions_of(c)) + skips(false, additions_of(c))
}

/// Splitting a list splits its delete calls.
pub proof fn lemma_delete_calls_concat(a: Seq<Endpoint>, b: Seq<Endpoint>)
    ensures
        delete_calls(a + b) == delete_calls(a) + delete_calls(b),
    decreases b.len(),
{
    if b.len() == 0 {
        assert(a + b =~= a);
        assert(delete_calls(a) + delete_calls(b) =~= delete_calls(a));
    } else {
        lemma_delete_calls_concat(a, b.drop_last());
        assert((a + b).drop_last() =~= a + b.drop_last());
        assert(delete_calls(a) + delete_calls(b) =~= delete_calls(a) + delete_calls(b.drop_last())
            + delete_calls_for(b.last()));
    }
}

/// Splitting a list splits its add calls.
pub proof fn lemma_add_calls_concat(a: Seq<Endpoint>, b: Seq<Endpoint>)
    ensures
        add_calls(a + b) == add_calls(a) + add_calls(b),
    decreases b.len(),
{
    if b.len() == 0 {
        assert(a + b =~= a);
        assert(add_calls(a) + add_calls(b) =~= add_calls(a));
    } else {
        lemma_add_calls_concat(a, b.drop_last());
        assert((a + b).drop_last() =~= a + b.drop_last());
        assert(add_calls(a) + add_calls(b) =~= add_calls(a) + add_calls(b.drop_last())
            + add_calls_for(b.last()));
    }
}

/// Splitting a list splits its skip entries.
pub proof fn lemma_skips_concat(deletion: bool, a: Seq<Endpoint>, b: Seq<Endpoint>)
    ensures
        skips(deletion, a + b) == skips(deletion, a) + skips(deletion, b),
    decreases b.len(),
{
    if b.len() == 0 {
        assert(a + b =~= a);
        assert(skips(deletion, a) + skips(deletion, b) =~= skips(deletion, a));
    } else {
        lemma_skips_concat(deletion, a, b.drop_last());
        assert((a + b).drop_last() =~= a + b.drop_last());
        assert(skips(deletion, a) + skips(deletion, b) =~= skips(deletion, a) + skips(
            deletion,
            b.drop_last(),
        ) + skips_for(deletion, b.last()));
    }
}

/// Appends the delete calls and skip entries of these endpoints.
fn plan_deletions_into(
    eps: &Vec<Endpoint>,
    calls: &mut Vec<PlannedCall>,
    skipped: &mut Vec<SkippedChange>,
)
    ensures
        final(calls)@ == old(calls)@ + delete_calls(eps@),
        final(skipped)@ == old(skipped)@ + skips(true, eps@),
{
    assert(delete_calls(eps@.take(0)) =~= Seq::<PlannedCall>::empty());
    assert(skips(true, eps@.take(0)) =~= Seq::<SkippedChange>::empty());
    for i in 0..eps.len()
        invariant
            calls@ == old(calls)@ + delete_calls(eps@.take(i as int)),
            skipped@ == old(skipped)@ + skips(true, eps@.take(i as int)),
    {
        let ep = &eps[i];
        if is_supported(ep.record_type.as_str()) {
            assert(delete_calls_for(eps@[i as int]).take(0) =~= Seq::<PlannedCall>::empty());
            for j in 0..ep.targets.len()
                invariant
                    0 <= i < eps@.len(),
                    ep == &eps@[i as int],
                    is_supported_type(ep.record_type@),
                    calls@ == old(calls)@ + delete_calls(eps@.take(i as int)) + delete_calls_for(
                        eps@[i as int],
                    ).take(j as int),
                    skipped@ == old(skipped)@ + skips(true, eps@.take(i as int)),
            {
                let target = ep.targets[j].clone();
                let data = match to_backend_payload(ep.record_type.as_str(), target) {
                    Ok(d) => d,
                    Err(_) => unreached(),
                };
                calls.push(
                    PlannedCall::Delete(
                        DeleteRecordPayload {
                            domain: ep.dns_name.clone(),
                            data: DeleteRecordPayloadRecordData::from(data),
                            zone: None,
                        },
                    ),
                );
                proof {
                    assert(delete_calls_for(eps@[i as int]).take(j + 1) =~= delete_calls_for(
                        eps@[i as int],
                    ).take(j as int).push(delete_call_for(eps@[i as int], eps@[i as int].targets@[j as int])));
                }
            }
            proof {
                assert(delete_calls_for(eps@[i as int]).take(ep.targets@.len() as int)
                    =~= delete_calls_for(eps@[i as int]));
                assert(eps@.take(i + 1).drop_last() =~= eps@.take(i as int));
                assert(delete_calls(eps@.take(i + 1)) =~= delete_calls(eps@.take(i as int))
                    + delete_calls_for(eps@[i as int]));
                assert(skips_for(true, eps@[i as int]) =~= Seq::<SkippedChange>::empty());
                assert(skips(true, eps@.take(i + 1)) =~= skips(true, eps@.take(i as int)));
                assert(calls@ == old(calls)@ + delete_calls(eps@.take(i + 1)));
            }
        } else {
            assert(skips_for(true, eps@[i as int]).take(0) =~= Seq::<SkippedChange>::empty());
            for j in 0..ep.targets.len()
                invariant
                    0 <= i < eps@.len(),
                    ep == &eps@[i as int],
                    !is_supported_type(ep.record_type@),
                    calls@ == old(calls)@ + delete_calls(eps@.take(i as int)),
                    skipped@ == old(skipped)@ + skips(true, eps@.take(i as int)) + skips_for(
                        true,
                        eps@[i as int],
                    ).take(j as int),
            {
                skipped.push(
                    SkippedChange {
                        deletion: true,
                        dns_name: ep.dns_name.clone(),
                        record_type: ep.record_type.clone(),
                    },
                );
                proof {
                    assert(skips_for(true, eps@[i as int]).take(j + 1) =~= skips_for(
                        true,
                        eps@[i as int],
                    ).take(j as int).push(
                        SkippedChange {
                            deletion: true,
                            dns_name: eps@[i as int].dns_name,
                            record_type: eps@[i as int].record_type,
                        },
                    ));
                }
            }
            proof {
                assert(skips_for(true, eps@[i as int]).take(ep.targets@.len() as int) =~= skips_for(
                    true,
                    eps@[i as int],
                ));
                assert(eps@.take(i + 1).drop_last() =~= eps@.take(i as int));
                assert(skips(true, eps@.take(i + 1)) =~= skips(true, eps@.take(i as int))
                    + skips_for(true, eps@[i as int]));
                assert(delete_calls_for(eps@[i as int]) =~= Seq::<PlannedCall>::empty());
                assert(delete_calls(eps@.take(i + 1)) =~= delete_calls(eps@.take(i as int)));
                assert(skipped@ == old(skipped)@ + skips(true, eps@.take(i + 1)));
            }
        }
    }
    proof {
        assert(eps@.take(eps@.len() as int) =~= eps@);
    }
}

/// Appends the add calls and skip entries of these endpoints.
fn plan_additions_into(
    eps: &Vec<Endpoint>,
    calls: &mut Vec<PlannedCall>,
    skipped: &mut Vec<SkippedChange>,
)
    ensures
        final(calls)@ == old(calls)@ + add_calls(eps@),
        final(skipped)@ == old(skipped)@ + skips(false, eps@),
{
    assert(add_calls(eps@.take(0)) =~= Seq::<PlannedCall>::empty());
    assert(skips(false, eps@.take(0)) =~= Seq::<SkippedChange>::empty());
    for i in 0..eps.len()
        invariant
            calls@ == old(calls)@ + add_calls(eps@.take(i as int)),
            skipped@ == old(skipped)@ + skips(false, eps@.take(i as int)),
    {
        let ep = &eps[i];
        if is_supported(ep.record_type.as_str()) {
            assert(add_calls_for(eps@[i as int]).take(0) =~= Seq::<PlannedCall>::empty());
            for j in 0..ep.targets.len()
                invariant
                    0 <= i < eps@.len(),
                    ep == &eps@[i as int],
                    is_supported_type(ep.record_type@),
                    calls@ == old(calls)@ + add_calls(eps@.take(i as int)) + add_calls_for(
                        eps@[i as int],
                    ).take(j as int),
                    skipped@ == old(skipped)@ + skips(false, eps@.take(i as int)),
            {
                let target = ep.targets[j].clone();
                let data = match to_backend_payload(ep.record_type.as_str(), target) {
                    Ok(d) => d,
                    Err(_) => unreached(),
                };
                calls.push(
                    PlannedCall::Add(
                        AddRecordPayload {
                            domain: ep.dns_name.clone(),
                            data: AddRecordPayloadRecordData::from(data),
                            zone: None,
                            ttl: ep.record_ttl,
                            overwrite: None,
                            comments: None,
                            expiry_ttl: None,
                        },
                    ),
                );
                proof {
                    assert(add_calls_for(eps@[i as int]).take(j + 1) =~= add_calls_for(
                        eps@[i as int],
                    ).take(j as int).push(add_call_for(eps@[i as int], eps@[i as int].targets@[j as int])));
                }
            }
            proof {
                assert(add_calls_for(eps@[i as int]).take(ep.targets@.len() as int) =~= add_calls_for(
                    eps@[i as int],
                ));
                assert(eps@.take(i + 1).drop_last() =~= eps@.take(i as int));
                assert(add_calls(eps@.take(i + 1)) =~= add_calls(eps@.take(i as int))
                    + add_calls_for(eps@[i as int]));
                assert(skips_for(false, eps@[i as int]) =~= Seq::<SkippedChange>::empty());
                assert(skips(false, eps@.take(i + 1)) =~= skips(false, eps@.take(i as int)));
                assert(calls@ == old(calls)@ + add_calls(eps@.take(i + 1)));
            }
        } else {
            assert(skips_for(false, eps@[i as int]).take(0) =~= Seq::<SkippedChange>::empty());
            for j in 0..ep.targets.len()
                invariant
                    0 <= i < eps@.len(),
                    ep == &eps@[i as int],
                    !is_supported_type(ep.record_type@),
                    calls@ == old(calls)@ + add_calls(eps@.take(i as int)),
                    skipped@ == old(skipped)@ + skips(false, eps@.take(i as int)) + skips_for(
                        false,
                        eps@[i as int],
                    ).take(j as int),
            {
                skipped.push(
                    SkippedChange {
                        deletion: false,
                        dns_name: ep.dns_name.clone(),
                        record_type: ep.record_type.clone(),
                    },
                );
                proof {
                    assert(skips_for(false, eps@[i as int]).take(j + 1) =~= skips_for(
                        false,
                        eps@[i as int],
                    ).take(j as int).push(
                        SkippedChange {
                            deletion: false,
                            dns_name: eps@[i as int].dns_name,
                            record_type: eps@[i as int].record_type,
                        },
                    ));
                }
            }
            proof {
                assert(skips_for(false, eps@[i as int]).take(ep.targets@.len() as int)
                    =~= skips_for(false, eps@[i as int]));
                assert(eps@.take(i + 1).drop_last() =~= eps@.take(i as int));
                assert(skips(false, eps@.take(i + 1)) =~= skips(false, eps@.take(i as int))
                    + skips_for(false, eps@[i as int]));
                assert(add_calls_for(eps@[i as int]) =~= Seq::<PlannedCall>::empty());
                assert(add_calls(eps@.take(i + 1)) =~= add_calls(eps@.take(i as int)));
                assert(skipped@ == old(skipped)@ + skips(false, eps@.take(i + 1)));
            }
        }
    }
    proof {
        assert(eps@.take(eps@.len() as int) =~= eps@);
    }
}

/// Decomposes a change batch: `delete` then `update_old` become delete
/// calls, `create` then `update_new` become add calls, all deletions
/// before all additions; targets of an unmanaged record type become skip
/// entries instead of calls. An empty batch plans no call at all.
pub fn plan_changes(changes: &Changes) -> (plan: ChangePlan)
    ensures
        plan.calls@ == plan_calls(*changes),
        plan.skipped@ == plan_skips(*changes),
        plan.noop == (deletions_of(*changes).len() == 0 && additions_of(*changes).len() == 0),
        plan.noop ==> plan.calls@ == Seq::<PlannedCall>::empty(),
{
    let mut calls: Vec<PlannedCall> = Vec::new();
    let mut skipped: Vec<SkippedChange> = Vec::new();
    let mut any_deletion = false;
    let mut any_addition = false;
    match &changes.delete {
        Some(v) => {
            any_deletion = v.len() > 0;
            plan_deletions_into(v, &mut calls, &mut skipped);
        },
        None => {},
    }
    match &changes.update_old {
        Some(v) => {
            any_deletion = any_deletion || v.len() > 0;
            plan_deletions_into(v, &mut calls, &mut skipped);
        },
        None => {},
    }
    proof {
        lemma_delete_calls_concat(
            crate::models::opt_endpoints(changes.delete),
            crate::models::opt_endpoints(changes.update_old),
        );
        lemma_skips_concat(
            true,
            crate::models::opt_endpoints(changes.delete),
            crate::models::opt_endpoints(changes.update_old),
        );
        assert(calls@ =~= delete_calls(deletions_of(*changes)));
        assert(skipped@ =~= skips(true, deletions_of(*changes)));
    }
    match &changes.create {
        Some(v) => {
            any_addition = v.len() > 0;
            plan_additions_into(v, &mut calls, &mut skipped);
        },
        None => {},
    }
    match &changes.update_new {
        Some(v) => {
            any_addition = any_addition || v.len() > 0;
            plan_additions_into(v, &mut calls, &mut skipped);
        },
        None => {},
    }
    proof {
        lemma_add_calls_concat(
            crate::models::opt_endpoints(changes.create),
            crate::models::opt_endpoints(changes.update_new),
        );
        lemma_skips_concat(
            false,
            crate::models::opt_endpoints(changes.create),
            crate::models::opt_endpoints(changes.update_new),
        );
        assert(calls@ =~= plan_calls(*changes));
        assert(skipped@ =~= plan_skips(*changes));
    }
    let noop = !any_deletion && !any_addition;
    proof {
        if noop {
            assert(deletions_of(*changes) =~= Seq::<Endpoint>::empty());
            assert(additions_of(*changes) =~= Seq::<Endpoint>::empty());
            assert(plan_calls(*changes) =~= Seq::<PlannedCall>::empty());
        }
    }
    ChangePlan { calls, skipped, noop }
}

/// Every delete call of a list of endpoints is a deletion.
pub proof fn lemma_delete_calls_all_deletes(eps: Seq<Endpoint>)
    ensures
        forall|i: int| 0 <= i < delete_calls(eps).len() ==> delete_calls(eps)[i] is Delete,
    decreases eps.len(),
{
    if eps.len() > 0 {
        lemma_delete_calls_all_deletes(eps.drop_last());
    }
}

/// Every add call of a list of endpoints is an addition.
pub proof fn lemma_add_calls_all_adds(eps: Seq<Endpoint>)
    ensures
        forall|i: int| 0 <= i < add_calls(eps).len() ==> add_calls(eps)[i] is Add,
    decreases eps.len(),
{
    if eps.len() > 0 {
        lemma_add_calls_all_adds(eps.drop_last());
    }
}

/// Ordering: in every plan, the calls split at one point — every call
/// before it is a delete and every call from it on is an add, so every
/// deletion is issued before any addition.
pub proof fn lemma_deletions_precede_additions(c: Changes)
    ensures
        forall|i: int|
            0 <= i < plan_calls(c).len() ==> (plan_calls(c)[i] is Delete <==> i < delete_calls(
                deletions_of(c),
            ).len()),
{
    lemma_delete_calls_all_deletes(deletions_of(c));
    lemma_add_calls_all_adds(additions_of(c));
}

/// Unsupported type: an entry whose record type is not managed
/// contributes no call — the plan's calls are exactly those of the list
/// with that entry removed, so the rest of the batch is unaffected.
pub proof fn lemma_unsupported_entry_skipped(eps: Seq<Endpoint>, i: int)
    requires
        0 <= i < eps.len(),
        !is_supported_type(eps[i].record_type@),
    ensures
        delete_calls(eps.remove(i)) == delete_calls(eps),
        add_calls(eps.remove(i)) == add_calls(eps),
    decreases eps.len(),
{
    if i == eps.len() - 1 {
        assert(eps.remove(i) =~= eps.drop_last());
        assert(delete_calls_for(eps.last()) =~= Seq::<PlannedCall>::empty());
        assert(add_calls_for(eps.last()) =~= Seq::<PlannedCall>::empty());
        assert(delete_calls(eps) =~= delete_calls(eps.drop_last()));
        assert(add_calls(eps) =~= add_calls(eps.drop_last()));
    } else {
        let shorter = eps.remove(i);
        assert(shorter.drop_last() =~= eps.drop_last().remove(i));
        assert(shorter.last() == eps.last());
        lemma_unsupported_entry_skipped(eps.drop_last(), i);
    }
}

} // verus!
