//! One draw submission: a program, an index buffer and the attribute buffers
//! resolved for the program's inputs.
use vstd::prelude::*;
use crate::buffers::{AttributeBuffer, IndexBuffer};
use crate::gpu::{BindingState, GpuOp, draw_count, lemma_draw_count_push};
use crate::cache::ResourceCache;
use crate::command::strings_view;
use crate::shader::{ShaderAttributeInfo, ShaderProgram, location_of};

verus! {

pub struct DrawCall<'a> {
    pub program: Option<&'a ShaderProgram>,
    pub indices: Option<&'a IndexBuffer>,
    pub attribs: Vec<(&'a String, &'a AttributeBuffer)>,
}

/// The slot of `program`'s input `name`, if it declares one below `slots`.
pub open spec fn slot_for(program: ShaderProgram, name: Seq<char>, slots: nat) -> Option<int> {
    match location_of(program.inputs@, name) {
        Some(loc) => if loc < slots {
            Some(loc as int)
        } else {
            None
        },
        None => None,
    }
}

impl<'a> DrawCall<'a> {
    /// The slot that attribute `j` goes to under the set program, if the
    /// program declares it and the binding state has that slot.
    pub open spec fn attr_slot(&self, j: int, slots: nat) -> Option<int> {
        match self.program {
            Some(p) => slot_for(*p, self.attribs@[j].0@, slots),
            None => None,
        }
    }

    /// The attribute slots that this draw binds, out of `slots`.
    pub open spec fn resolved(&self, slots: nat) -> Set<int> {
        Set::new(
            |s: int| exists|j: int| 0 <= j < self.attribs@.len() && #[trigger] self.attr_slot(j, slots) == Some(s),
        )
    }

    /// Whether the draw has what it needs: a program and an index buffer.
    pub open spec fn ready(&self) -> bool {
        self.program is Some && self.indices is Some
    }

    /// A draw call with nothing set.
    pub fn new() -> (r: DrawCall<'a>)
        ensures
            r.program is None,
            r.indices is None,
            r.attribs@.len() == 0,
    {
        DrawCall { program: None, indices: None, attribs: Vec::new() }
    }

    /// Draws with `indices`.
    pub fn set_indices(&mut self, indices: &'a IndexBuffer)
        ensures
            final(self).indices == Some(indices),
            final(self).program == old(self).program,
            final(self).attribs == old(self).attribs,
    {
        self.indices = Some(indices);
    }

    /// Draws with `program`.
    pub fn set_program(&mut self, program: &'a ShaderProgram)
        ensures
            final(self).program == Some(program),
            final(self).indices == old(self).indices,
            final(self).attribs == old(self).attribs,
    {
        self.program = Some(program);
    }

    /// Adds the attribute buffer `attrs` for the input `name`.
    pub fn add_attrs(&mut self, name: &'a String, attrs: &'a AttributeBuffer)
        ensures
            final(self).attribs@ == old(self).attribs@.push((name, attrs)),
            final(self).program == old(self).program,
            final(self).indices == old(self).indices,
    {
        self.attribs.push((name, attrs));
    }

    /// Submits the draw. Without a program or an index buffer nothing happens.
    /// Otherwise the program is made active, each attribute is bound to its
    /// slot, every other slot is disabled, and the indices are drawn once.
    pub fn draw(&self, state: &mut BindingState, ops: &mut Vec<GpuOp>)
        requires
            old(state).attrs@.len() <= u32::MAX,
        ensures
            !self.ready() ==> *final(state) == *old(state) && final(ops)@ == old(ops)@,
            self.ready() ==> {
                &&& final(state).attrs@.len() == old(state).attrs@.len()
                &&& final(state).enabled() == self.resolved(old(state).attrs@.len())
                &&& forall|s: int|
                    0 <= s < final(state).attrs@.len() && final(state).attrs@[s] is Some ==> exists|
                        j: int,
                    |
                        0 <= j < self.attribs@.len() && #[trigger] self.attr_slot(
                            j,
                            old(state).attrs@.len(),
                        ) == Some(s) && final(state).attrs@[s] == Some(self.attribs@[j].1.buffer)
                &&& final(state).program == Some(self.program.unwrap().prog)
                &&& final(state).indices == Some(self.indices.unwrap().buffer)
                &&& draw_count(final(ops)@) == draw_count(old(ops)@) + 1
                &&& final(ops)@.last() == (GpuOp::DrawElements {
                    topology: self.indices.unwrap().topology,
                    count: self.indices.unwrap().count,
                })
            },
    {
        let prog = match self.program {
            Some(p) => p,
            None => return,
        };
        let indices = match self.indices {
            Some(x) => x,
            None => return,
        };
        let ghost slots = old(state).attrs@.len();
        let ghost ops0 = old(ops)@;
        prog.bind(state, ops);
        proof {
            if ops@ != ops0 {
                lemma_draw_count_push(ops0, GpuOp::UseProgram { program: prog.prog });
            }
        }
        let nslots = state.attrs.len();
        let mut keep: Vec<bool> = Vec::new();
        let mut k: usize = 0;
        while k < nslots
            invariant
                k <= nslots,
                keep@.len() == k,
                forall|s: int| 0 <= s < k ==> !keep@[s],
            decreases nslots - k,
        {
            keep.push(false);
            k = k + 1;
        }
        let mut i: usize = 0;
        while i < self.attribs.len()
            invariant
                self.program == Some(prog),
                nslots == slots,
                state.attrs@.len() == slots,
                keep@.len() == slots,
                state.program == Some(prog.prog),
                state.indices == old(state).indices,
                i <= self.attribs@.len(),
                draw_count(ops@) == draw_count(ops0),
                forall|s: int|
                    0 <= s < slots ==> (keep@[s] <==> exists|j: int|
                        0 <= j < i && #[trigger] self.attr_slot(j, slots) == Some(s)),
                forall|s: int|
                    0 <= s < slots && keep@[s] ==> exists|j: int|
                        0 <= j < i && #[trigger] self.attr_slot(j, slots) == Some(s)
                            && state.attrs@[s] == Some(self.attribs@[j].1.buffer),
            decreases self.attribs.len() - i,
        {
            let ghost attrs_before = state.attrs@;
            let ghost keep_before = keep@;
            let (name, buf) = self.attribs[i];
            match prog.get_attr(name) {
                Some(loc) => {
                    if (loc as usize) < nslots {
                        let ghost before = ops@;
                        buf.bind_to_current_vao(loc, state, ops);
                        proof {
                            if ops@ != before {
                                if ops@.len() == before.len() + 1 {
                                    lemma_draw_count_push(before, ops@.last());
                                    assert(ops@ =~= before.push(ops@.last()));
                                } else {
                                    let mid = before.push(GpuOp::DisableAttribute { slot: loc });
                                    lemma_draw_count_push(before, GpuOp::DisableAttribute { slot: loc });
                                    lemma_draw_count_push(mid, ops@.last());
                                    assert(ops@ =~= mid.push(ops@.last()));
                                }
                            }
                        }
                        keep.set(loc as usize, true);
                        proof {
                            assert(self.attr_slot(i as int, slots) == Some(loc as int));
                        }
                    } else {
                        assert(self.attr_slot(i as int, slots) is None);
                    }
                },
                None => {
                    assert(self.attr_slot(i as int, slots) is None);
                },
            }
            proof {
                assert forall|s: int|
                    0 <= s < slots implies (keep@[s] <==> exists|j: int|
                        0 <= j < i + 1 && #[trigger] self.attr_slot(j, slots) == Some(s)) by {
                    if keep@[s] && self.attr_slot(i as int, slots) != Some(s) {
                        assert(keep_before[s]);
                        let j = choose|j: int| 0 <= j < i && #[trigger] self.attr_slot(j, slots) == Some(s);
                        assert(0 <= j < i + 1);
                    }
                    if !keep@[s] {
                        assert forall|j: int| 0 <= j < i + 1 implies #[trigger] self.attr_slot(j, slots)
                            != Some(s) by {
                            if j == i {
                            }
                        }
                    }
                }
                assert forall|s: int|
                    0 <= s < slots && keep@[s] implies exists|j: int|
                        0 <= j < i + 1 && #[trigger] self.attr_slot(j, slots) == Some(s)
                            && state.attrs@[s] == Some(self.attribs@[j].1.buffer) by {
                    if self.attr_slot(i as int, slots) == Some(s) {
                        assert(0 <= i < i + 1 && self.attr_slot(i as int, slots) == Some(s)
                            && state.attrs@[s] == Some(self.attribs@[i as int].1.buffer));
                    } else {
                        assert(keep_before[s]);
                        let j = choose|j: int|
                            0 <= j < i && #[trigger] self.attr_slot(j, slots) == Some(s)
                                && attrs_before[s] == Some(self.attribs@[j].1.buffer);
                        assert(0 <= j < i + 1);
                    }
                }
            }
            i = i + 1;
        }
        let mut s: usize = 0;
        while s < nslots
            invariant
                self.program == Some(prog),
                nslots == slots,
                state.attrs@.len() == slots,
                keep@.len() == slots,
                state.program == Some(prog.prog),
                state.indices == old(state).indices,
                s <= slots,
                slots <= u32::MAX,
                draw_count(ops@) == draw_count(ops0),
                forall|t: int|
                    0 <= t < slots ==> (keep@[t] <==> exists|j: int|
                        0 <= j < self.attribs@.len() && #[trigger] self.attr_slot(j, slots) == Some(t)),
                forall|t: int|
                    0 <= t < slots && keep@[t] ==> exists|j: int|
                        0 <= j < self.attribs@.len() && #[trigger] self.attr_slot(j, slots) == Some(t)
                            && state.attrs@[t] == Some(self.attribs@[j].1.buffer),
                forall|t: int| 0 <= t < s && !keep@[t] ==> state.attrs@[t] is None,
            decreases nslots - s,
        {
            if !keep[s] {
                state.attrs.set(s, None);
                let ghost before = ops@;
                ops.push(GpuOp::DisableAttribute { slot: s as u32 });
                proof {
                    lemma_draw_count_push(before, GpuOp::DisableAttribute { slot: s as u32 });
                }
            }
            s = s + 1;
        }
        let ghost before = ops@;
        indices.draw(state, ops);
        proof {
            if ops@.len() == before.len() + 1 {
                lemma_draw_count_push(before, ops@.last());
                assert(ops@ =~= before.push(ops@.last()));
            } else {
                let mid = before.push(GpuOp::BindIndices { buffer: indices.buffer });
                lemma_draw_count_push(before, GpuOp::BindIndices { buffer: indices.buffer });
                lemma_draw_count_push(mid, ops@.last());
                assert(ops@ =~= mid.push(ops@.last()));
            }
            assert forall|t: int| self.resolved(slots).contains(t) implies state.enabled().contains(t) by {
                let j = choose|j: int| 0 <= j < self.attribs@.len() && #[trigger] self.attr_slot(j, slots) == Some(t);
                assert(0 <= t < slots);
                assert(keep@[t]);
            }
            assert forall|t: int| state.enabled().contains(t) implies self.resolved(slots).contains(t) by {
                assert(keep@[t]);
            }
            assert(state.enabled() =~= self.resolved(slots));
            assert forall|t: int|
                0 <= t < state.attrs@.len() && state.attrs@[t] is Some implies exists|j: int|
                    0 <= j < self.attribs@.len() && #[trigger] self.attr_slot(j, slots) == Some(t)
                        && state.attrs@[t] == Some(self.attribs@[j].1.buffer) by {
                assert(keep@[t]);
            }
        }
    }
}

/// `indices`: the name under which a namespace holds its index buffer.
pub open spec fn indices_name() -> Seq<char> {
    seq!['i', 'n', 'd', 'i', 'c', 'e', 's']
}

/// The attribute buffer `name` of the first namespace in `ns` that has one.
pub open spec fn first_attr(cache: ResourceCache, ns: Seq<Seq<char>>, name: Seq<char>) -> Option<
    AttributeBuffer,
>
    decreases ns.len(),
{
    if ns.len() == 0 {
        None
    } else if cache.attr_lookup(ns[0], name) is Some {
        cache.attr_lookup(ns[0], name)
    } else {
        first_attr(cache, ns.drop_first(), name)
    }
}

/// The index buffer `indices` of the first namespace in `ns` that has one.
pub open spec fn first_indices(cache: ResourceCache, ns: Seq<Seq<char>>) -> Option<IndexBuffer>
    decreases ns.len(),
{
    if ns.len() == 0 {
        None
    } else if cache.index_lookup(ns[0], indices_name()) is Some {
        cache.index_lookup(ns[0], indices_name())
    } else {
        first_indices(cache, ns.drop_first())
    }
}

/// For each of `inputs` in order that some namespace of `ns` provides, its name
/// and the buffer found.
pub open spec fn resolve_inputs(
    cache: ResourceCache,
    inputs: Seq<ShaderAttributeInfo>,
    ns: Seq<Seq<char>>,
) -> Seq<(Seq<char>, AttributeBuffer)>
    decreases inputs.len(),
{
    if inputs.len() == 0 {
        Seq::empty()
    } else {
        let prev = resolve_inputs(cache, inputs.drop_last(), ns);
        match first_attr(cache, ns, inputs.last().name@) {
            Some(b) => prev.push((inputs.last().name@, b)),
            None => prev,
        }
    }
}

/// The attribute buffer `name` of the first namespace in `namespaces` that has one.
pub fn find_buffer<'a>(cache: &'a ResourceCache, namespaces: &Vec<String>, name: &String) -> (r:
    Option<&'a AttributeBuffer>)
    requires
        cache.wf(),
    ensures
        r matches Some(b) ==> first_attr(*cache, strings_view(namespaces@), name@) == Some(*b),
        r is None ==> first_attr(*cache, strings_view(namespaces@), name@) is None,
{
    let ghost all = strings_view(namespaces@);
    let mut i: usize = 0;
    assert(all.subrange(0, all.len() as int) =~= all);
    while i < namespaces.len()
        invariant
            cache.wf(),
            all == strings_view(namespaces@),
            i <= namespaces@.len(),
            first_attr(*cache, all, name@) == first_attr(
                *cache,
                all.subrange(i as int, all.len() as int),
                name@,
            ),
        decreases namespaces.len() - i,
    {
        let ghost rest = all.subrange(i as int, all.len() as int);
        assert(rest[0] == namespaces@[i as int]@);
        match cache.lookup_buffer(&namespaces[i], name) {
            Some(b) => {
                return Some(b);
            },
            None => {},
        }
        assert(rest.drop_first() =~= all.subrange(i + 1, all.len() as int));
        i = i + 1;
    }
    None
}

/// The index buffer `indices` of the first namespace in `namespaces` that has one.
pub fn find_index_buffer<'a>(cache: &'a ResourceCache, namespaces: &Vec<String>) -> (r: Option<
    &'a IndexBuffer,
>)
    requires
        cache.wf(),
    ensures
        r matches Some(b) ==> first_indices(*cache, strings_view(namespaces@)) == Some(*b),
        r is None ==> first_indices(*cache, strings_view(namespaces@)) is None,
{
    let key = "indices".to_owned();
    proof {
        reveal_strlit("indices");
        assert(key@ =~= indices_name());
    }
    let ghost all = strings_view(namespaces@);
    let mut i: usize = 0;
    assert(all.subrange(0, all.len() as int) =~= all);
    while i < namespaces.len()
        invariant
            cache.wf(),
            key@ == indices_name(),
            all == strings_view(namespaces@),
            i <= namespaces@.len(),
            first_indices(*cache, all) == first_indices(
                *cache,
                all.subrange(i as int, all.len() as int),
            ),
        decreases namespaces.len() - i,
    {
        let ghost rest = all.subrange(i as int, all.len() as int);
        assert(rest[0] == namespaces@[i as int]@);
        match cache.lookup_indices(&namespaces[i], &key) {
            Some(b) => {
                return Some(b);
            },
            None => {},
        }
        assert(rest.drop_first() =~= all.subrange(i + 1, all.len() as int));
        i = i + 1;
    }
    None
}

/// The draw call for a draw request over `namespaces`: the index buffer
/// `indices` of the first namespace that has one, and for each input of
/// `program` in order, the buffer of that name in the first namespace that has
/// one. Inputs that no namespace provides are left out.
pub fn assemble<'a>(
    cache: &'a ResourceCache,
    program: &'a ShaderProgram,
    namespaces: &Vec<String>,
) -> (r: DrawCall<'a>)
    requires
        cache.wf(),
    ensures
        r.program == Some(program),
        r.indices matches Some(b) ==> first_indices(*cache, strings_view(namespaces@)) == Some(*b),
        r.indices is None ==> first_indices(*cache, strings_view(namespaces@)) is None,
        r.attribs@.len() == resolve_inputs(*cache, program.inputs@, strings_view(namespaces@)).len(),
        forall|j: int|
            0 <= j < r.attribs@.len() ==> r.attribs@[j].0@ == (#[trigger] resolve_inputs(
                *cache,
                program.inputs@,
                strings_view(namespaces@),
            )[j]).0 && *r.attribs@[j].1 == resolve_inputs(
                *cache,
                program.inputs@,
                strings_view(namespaces@),
            )[j].1,
{
    let ghost ns = strings_view(namespaces@);
    let mut call = DrawCall::new();
    match find_index_buffer(cache, namespaces) {
        Some(b) => call.set_indices(b),
        None => {},
    }
    call.set_program(program);
    let mut i: usize = 0;
    while i < program.inputs.len()
        invariant
            cache.wf(),
            ns == strings_view(namespaces@),
            i <= program.inputs@.len(),
            call.program == Some(program),
            call.indices matches Some(b) ==> first_indices(*cache, ns) == Some(*b),
            call.indices is None ==> first_indices(*cache, ns) is None,
            call.attribs@.len() == resolve_inputs(*cache, program.inputs@.subrange(0, i as int), ns).len(),
            forall|j: int|
                0 <= j < call.attribs@.len() ==> call.attribs@[j].0@ == (#[trigger] resolve_inputs(
                    *cache,
                    program.inputs@.subrange(0, i as int),
                    ns,
                )[j]).0 && *call.attribs@[j].1 == resolve_inputs(
                    *cache,
                    program.inputs@.subrange(0, i as int),
                    ns,
                )[j].1,
        decreases program.inputs.len() - i,
    {
        let ghost pre = program.inputs@.subrange(0, i as int);
        let ghost cur = program.inputs@.subrange(0, i + 1);
        assert(cur.drop_last() =~= pre);
        assert(cur.last() == program.inputs@[i as int]);
        let name = &program.inputs[i].name;
        match find_buffer(cache, namespaces, name) {
            Some(b) => {
                call.add_attrs(name, b);
            },
            None => {},
        }
        i = i + 1;
    }
    assert(program.inputs@.subrange(0, program.inputs@.len() as int) =~= program.inputs@);
    call
}

} // verus!
