use vstd::prelude::*;
use crate::address_space::{AddressSpace, NodeClass, NodeId, Variant};
use crate::methods::{
    spec_threshold_arg, spec_valid_set_threshold_args, CallMethodResult, SetThresholdMethod,
    StatusCode,
};
use crate::store::{Row, TankStore};

verus! {

/// One deferred write of a freshly read or freshly written value into the
/// node model: the unit of work of the mirror-synchronisation task. Handlers
/// schedule these instead of re-entering the node model's lock themselves.
#[derive(Clone, PartialEq, Debug)]
pub struct MirrorUpdate {
    pub node: NodeId,
    pub value: Variant,
    pub source_timestamp: u64,
    pub server_timestamp: u64,
}

/// Some update in the sequence is aimed at this node.
pub open spec fn spec_targets_node(updates: Seq<MirrorUpdate>, id: NodeId) -> bool {
    exists|k: int| 0 <= k < updates.len() && updates[k].node == id
}

/// The consumer side of the deferred mirror synchronisation: writes each
/// update's value into its Variable node. An update aimed at a missing node
/// or at a non-Variable is skipped — mirror failures are not propagated, as
/// in the handlers' fire-and-forget design — and the count of applied updates
/// is returned. Every update aimed at an existing Variable node lands, and
/// nothing else in the graph moves.
pub fn apply_mirror_updates(space: &mut AddressSpace, updates: &Vec<MirrorUpdate>) -> (applied:
    usize)
    requires
        old(space).wf(),
        forall|i: int, j: int|
            0 <= i < j < updates@.len() ==> updates@[i].node != updates@[j].node,
    ensures
        final(space).wf(),
        applied <= updates@.len(),
        final(space).namespaces == old(space).namespaces,
        forall|id: NodeId| final(space).spec_has_node(id) <==> old(space).spec_has_node(id),
        forall|k: int|
            0 <= k < updates@.len() && old(space).spec_has_node(#[trigger] updates@[k].node) && old(space).spec_node(updates@[k].node).class == NodeClass::Variable ==> final(space).spec_variable_value(updates@[k].node) == Some(updates@[k].value),
        forall|id: NodeId|
            !spec_targets_node(updates@, id) && old(space).spec_has_node(id) ==> final(space).spec_node(id) == old(space).spec_node(id),
{
    let mut applied: usize = 0;
    let mut j: usize = 0;
    while j < updates.len()
        invariant
            space.wf(),
            j <= updates@.len(),
            applied <= j,
            space.namespaces == old(space).namespaces,
            forall|i: int, k: int|
                0 <= i < k < updates@.len() ==> updates@[i].node != updates@[k].node,
            forall|id: NodeId| space.spec_has_node(id) <==> old(space).spec_has_node(id),
            forall|k: int|
                0 <= k < j && old(space).spec_has_node(#[trigger] updates@[k].node) && old(space).spec_node(updates@[k].node).class == NodeClass::Variable ==> space
                    .spec_variable_value(updates@[k].node) == Some(updates@[k].value),
            forall|id: NodeId|
                !spec_targets_node(updates@.take(j as int), id) && old(space).spec_has_node(id)
                    ==> space.spec_node(id) == old(space).spec_node(id),
        decreases updates@.len() - j,
    {
        let u = &updates[j];
        let ghost pre = *space;
        let r = space.set_variable_value(
            u.node,
            u.value.copy_value(),
            u.source_timestamp,
            u.server_timestamp,
        );
        if r.is_ok() {
            applied = applied + 1;
        }
        proof {
            assert(updates@.take(j as int + 1) == updates@.take(j as int).push(updates@[j as int]));
            // a node none of the first j+1 updates target is untouched
            assert forall|id: NodeId|
                !spec_targets_node(updates@.take(j as int + 1), id) && old(space).spec_has_node(id)
                implies space.spec_node(id) == old(space).spec_node(id) by {
                assert(!spec_targets_node(updates@.take(j as int), id)) by {
                    if spec_targets_node(updates@.take(j as int), id) {
                        let w = choose|k: int|
                            0 <= k < updates@.take(j as int).len() && updates@.take(j as int)[k].node == id;
                        assert(updates@.take(j as int + 1)[w].node == id);
                    }
                }
                assert(id != updates@[j as int].node) by {
                    if id == updates@[j as int].node {
                        assert(updates@.take(j as int + 1)[j as int].node == id);
                    }
                }
                assert(pre.spec_node(id) == old(space).spec_node(id));
            }
            // values the earlier updates installed stay put
            assert forall|k: int|
                0 <= k < j + 1 && old(space).spec_has_node(#[trigger] updates@[k].node) && old(space).spec_node(updates@[k].node).class == NodeClass::Variable implies space
                .spec_variable_value(updates@[k].node) == Some(updates@[k].value) by {
                if k < j {
                    assert(updates@[k].node != updates@[j as int].node);
                    assert(pre.spec_variable_value(updates@[k].node) == Some(updates@[k].value));
                    assert(space.spec_node(updates@[k].node) == pre.spec_node(updates@[k].node));
                } else {
                    // the j-th update: its node was untouched so far, so it is
                    // still the Variable it was at entry, and the write landed
                    assert(!spec_targets_node(updates@.take(j as int), updates@[j as int].node))
                        by {
                        if spec_targets_node(updates@.take(j as int), updates@[j as int].node) {
                            let w = choose|i: int|
                                0 <= i < updates@.take(j as int).len() && updates@.take(j as int)[i].node == updates@[j as int].node;
                            assert(updates@[w].node != updates@[j as int].node);
                        }
                    }
                    assert(pre.spec_node(updates@[j as int].node) == old(space).spec_node(
                        updates@[j as int].node,
                    ));
                    assert(r is Ok);
                }
            }
        }
        j = j + 1;
    }
    applied
}

/// Mirror eventual consistency, made checkable: a successful threshold change
/// followed by the application of the one mirror update it scheduled leaves
/// the Threshold node holding exactly the new value. In the running system
/// the update is applied asynchronously; this function is the handler and the
/// mirror consumer composed, so the "eventually" of the law is the moment the
/// deferred update has run.
pub fn set_threshold_and_sync(
    handler: &SetThresholdMethod,
    store: &mut TankStore,
    space: &mut AddressSpace,
    input_arguments: &Option<Vec<Variant>>,
    now: u64,
) -> (r: Result<CallMethodResult, StatusCode>)
    requires
        old(store).wf(),
        old(store).thresholds.next_id < u64::MAX,
        old(space).wf(),
        old(space).spec_has_node(handler.threshold_node),
        old(space).spec_node(handler.threshold_node).class == NodeClass::Variable,
    ensures
        final(store).wf(),
        final(space).wf(),
        r is Ok <==> spec_valid_set_threshold_args(*input_arguments),
        !spec_valid_set_threshold_args(*input_arguments) ==> {
            &&& r == Err::<CallMethodResult, StatusCode>(StatusCode::BadInvalidArgument)
            &&& *final(store) == *old(store)
            &&& *final(space) == *old(space)
        },
        spec_valid_set_threshold_args(*input_arguments) ==> ({
            let value = spec_threshold_arg(*input_arguments);
            &&& final(store).thresholds.rows@ == old(store).thresholds.rows@.push(
                Row { id: old(store).thresholds.next_id, value },
            )
            &&& final(store).levels == old(store).levels
            &&& final(store).valves == old(store).valves
            &&& final(space).spec_variable_value(handler.threshold_node) == Some(
                Variant::Int32(value),
            )
            &&& r.unwrap().status_code == StatusCode::Good
        }),
{
    let outcome = match handler.call_on_store(store, input_arguments, now) {
        Ok(p) => p,
        Err(e) => {
            return Err(e);
        }
    };
    let (result, updates) = outcome;
    apply_mirror_updates(space, &updates);
    proof {
        let value = spec_threshold_arg(*input_arguments);
        assert(updates@[0].node == handler.threshold_node);
        assert(updates@[0].value == Variant::Int32(value));
    }
    Ok(result)
}

} // verus!
