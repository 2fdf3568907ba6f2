//! The consumer's command handling: each bus command updates the resource
//! cache, submits a draw, or closes the active frame. The caller performs the
//! returned graphics operations and subscription changes.
use vstd::prelude::*;
use crate::buffers::AttributeBuffer;
use crate::cache::{CacheError, ResourceCache, buffer_refusal};
use crate::command::{CmdData, Command, CommandModel, ResourceModel, Resource, strings_view};
use crate::draw::{assemble, first_indices, resolve_inputs, slot_for};
use crate::gate::{FrameGate, TopicChange};
use crate::gpu::{BindingState, GpuOp, TRIANGLES, draw_count};
use crate::shader::ShaderProgram;
use crate::topic::frame_topic_spec;

verus! {

#[derive(Debug)]
pub struct Consumer {
    pub cache: ResourceCache,
    pub gate: FrameGate,
    pub bindings: BindingState,
    pub program: ShaderProgram,
}

/// What handling one command asks of the caller.
#[derive(Debug)]
pub struct Step {
    /// Graphics operations, in order.
    pub ops: Vec<GpuOp>,
    /// Subscription changes, for a done sentinel.
    pub topics: Option<TopicChange>,
    /// Whether the frame is complete and may be presented.
    pub end_frame: bool,
}

/// The slots that a draw binds: those of the resolved inputs' names.
pub open spec fn bound_slots(
    program: ShaderProgram,
    resolved: Seq<(Seq<char>, AttributeBuffer)>,
    slots: nat,
) -> Set<int> {
    Set::new(
        |s: int|
            exists|j: int| 0 <= j < resolved.len() && #[trigger] slot_for(program, resolved[j].0, slots) == Some(s),
    )
}

/// Whether `topics` moves the barrier subscription from frame `prev` (if any)
/// to frame `n`.
pub open spec fn moves_barrier(topics: Option<TopicChange>, prev: Option<u32>, n: u32) -> bool {
    match topics {
        Some(tc) => tc.subscribe@ == frame_topic_spec(n as nat) && match prev {
            Some(f) => tc.unsubscribe matches Some(t) && t@ == frame_topic_spec(f as nat),
            None => tc.unsubscribe is None,
        },
        None => false,
    }
}

impl Step {
    /// A step that asks for nothing.
    pub open spec fn is_idle(&self) -> bool {
        self.ops@.len() == 0 && self.topics is None && !self.end_frame
    }
}

impl Consumer {
    pub open spec fn wf(&self) -> bool {
        self.cache.wf() && self.bindings.attrs@.len() <= u32::MAX
    }

    /// A consumer drawing with `program`, with `slots` attribute slots, an empty
    /// cache and no active frame.
    pub fn new(program: ShaderProgram, slots: u32) -> (r: Consumer)
        ensures
            r.wf(),
            r.program == program,
            r.gate.current_frame is None,
            r.bindings.attrs@.len() == slots,
            r.bindings.enabled() == Set::<int>::empty(),
            forall|ns: Seq<char>, name: Seq<char>| r.cache.attr_lookup(ns, name) is None,
            forall|ns: Seq<char>, name: Seq<char>| r.cache.index_lookup(ns, name) is None,
    {
        let bindings = BindingState::new(slots);
        assert(bindings.enabled() =~= Set::<int>::empty());
        Consumer { cache: ResourceCache::new(), gate: FrameGate::new(), bindings, program }
    }

    /// Handles one command.
    pub fn handle_command(&mut self, cmd: Command) -> (r: Result<Step, CacheError>)
        requires
            old(self).wf(),
        ensures
            final(self).wf(),
            final(self).program == old(self).program,
            match cmd@ {
                CommandModel::Empty => r matches Ok(st) && st.is_idle() && *final(self) == *old(self),
                CommandModel::SetResource(s) => match s.resource {
                    None => r matches Ok(st) && st.is_idle() && *final(self) == *old(self),
                    Some(ResourceModel::Buffer { dim, data }) => match buffer_refusal(
                        old(self).cache,
                        s.namespace,
                        s.name,
                        dim,
                    ) {
                        Some(e) => r matches Err(x) && x == e && *final(self) == *old(self),
                        None => {
                            &&& r matches Ok(st) && !st.end_frame && st.topics is None
                            &&& final(self).cache.attr_lookup(s.namespace, s.name) matches Some(nb)
                                && nb.size == dim && nb.data@ == data
                            &&& final(self).cache.attr_copies(s.namespace, s.name) == 1
                            &&& forall|ns: Seq<char>, nm: Seq<char>|
                                !(ns == s.namespace && nm == s.name) ==> final(self).cache.attr_lookup(
                                    ns,
                                    nm,
                                ) == old(self).cache.attr_lookup(ns, nm)
                            &&& final(self).cache.indices == old(self).cache.indices
                            &&& final(self).gate == old(self).gate
                            &&& final(self).bindings == old(self).bindings
                        },
                    },
                    Some(ResourceModel::Indices { data }) => {
                        &&& r matches Ok(st) && !st.end_frame && st.topics is None
                        &&& final(self).cache.index_lookup(s.namespace, s.name) matches Some(nb)
                            && nb.data@ == data && nb.count == data.len() && nb.topology
                            == TRIANGLES
                        &&& forall|ns: Seq<char>, nm: Seq<char>|
                            !(ns == s.namespace && nm == s.name) ==> final(self).cache.index_lookup(
                                ns,
                                nm,
                            ) == old(self).cache.index_lookup(ns, nm)
                        &&& final(self).cache.attributes == old(self).cache.attributes
                        &&& final(self).gate == old(self).gate
                        &&& final(self).bindings == old(self).bindings
                    },
                },
                CommandModel::Draw(d) => {
                    &&& r matches Ok(st) && !st.end_frame && st.topics is None && match first_indices(
                        old(self).cache,
                        d.attribute_namespaces,
                    ) {
                        None => st.ops@.len() == 0 && final(self).bindings == old(self).bindings,
                        Some(ib) => {
                            &&& draw_count(st.ops@) == 1
                            &&& st.ops@.last() == (GpuOp::DrawElements {
                                topology: ib.topology,
                                count: ib.count,
                            })
                            &&& final(self).bindings.attrs@.len() == old(self).bindings.attrs@.len()
                            &&& final(self).bindings.enabled() == bound_slots(
                                old(self).program,
                                resolve_inputs(
                                    old(self).cache,
                                    old(self).program.inputs@,
                                    d.attribute_namespaces,
                                ),
                                old(self).bindings.attrs@.len(),
                            )
                        },
                    }
                    &&& final(self).cache == old(self).cache
                    &&& final(self).gate == old(self).gate
                },
                CommandModel::Done(n) => {
                    &&& r matches Ok(st) && st.end_frame && st.ops@.len() == 0 && moves_barrier(
                        st.topics,
                        old(self).gate.current_frame,
                        n,
                    )
                    &&& final(self).gate.current_frame == Some(n)
                    &&& final(self).cache == old(self).cache
                    &&& final(self).bindings == old(self).bindings
                },
            },
    {
        match cmd.cmd_data {
            None => Ok(Step { ops: Vec::new(), topics: None, end_frame: false }),
            Some(CmdData::SetResource(s)) => match s.resource {
                None => Ok(Step { ops: Vec::new(), topics: None, end_frame: false }),
                Some(Resource::Buffer(b)) => {
                    match self.cache.upsert_buffer(&s.namespace, &s.name, b.dim, &b.data) {
                        Ok(ops) => Ok(Step { ops, topics: None, end_frame: false }),
                        Err(e) => Err(e),
                    }
                },
                Some(Resource::Indices(ix)) => {
                    let ops = self.cache.upsert_indices(&s.namespace, &s.name, TRIANGLES, &ix.data);
                    Ok(Step { ops, topics: None, end_frame: false })
                },
            },
            Some(CmdData::Draw(d)) => {
                let mut ops: Vec<GpuOp> = Vec::new();
                let ghost slots = self.bindings.attrs@.len();
                let call = assemble(&self.cache, &self.program, &d.attribute_namespaces);
                call.draw(&mut self.bindings, &mut ops);
                proof {
                    let resolved = resolve_inputs(
                        self.cache,
                        self.program.inputs@,
                        strings_view(d.attribute_namespaces@),
                    );
                    assert forall|t: int| call.resolved(slots).contains(t) <==> bound_slots(
                        self.program,
                        resolved,
                        slots,
                    ).contains(t) by {
                        if call.resolved(slots).contains(t) {
                            let j = choose|j: int|
                                0 <= j < call.attribs@.len() && #[trigger] call.attr_slot(j, slots)
                                    == Some(t);
                            assert(slot_for(self.program, resolved[j].0, slots) == Some(t));
                        }
                        if bound_slots(self.program, resolved, slots).contains(t) {
                            let j = choose|j: int|
                                0 <= j < resolved.len() && #[trigger] slot_for(
                                    self.program,
                                    resolved[j].0,
                                    slots,
                                ) == Some(t);
                            assert(call.attr_slot(j, slots) == Some(t));
                        }
                    }
                    assert(call.resolved(slots) =~= bound_slots(self.program, resolved, slots));
                }
                Ok(Step { ops, topics: None, end_frame: false })
            },
            Some(CmdData::Done(d)) => {
                let tc = self.gate.on_done(d.frame_number);
                Ok(Step { ops: Vec::new(), topics: Some(tc), end_frame: true })
            },
        }
    }
}

} // verus!
