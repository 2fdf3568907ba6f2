//! Vertex attribute buffers and index buffers: what each holds, and the
//! operations that upload, bind and draw them.
use vstd::prelude::*;
use crate::command::{copy_words, valid_dim};
use crate::gpu::{BindingState, GpuOp, TRIANGLES};

verus! {

/// Whether `op` uploads `data` into attribute buffer `buffer`.
pub open spec fn uploads_attributes(op: GpuOp, buffer: usize, data: Seq<u32>) -> bool {
    match op {
        GpuOp::UploadAttributes { buffer: b, data: d } => b == buffer && d@ == data,
        _ => false,
    }
}

/// Whether `op` uploads `data` into index buffer `buffer`.
pub open spec fn uploads_indices(op: GpuOp, buffer: usize, data: Seq<u32>) -> bool {
    match op {
        GpuOp::UploadIndices { buffer: b, data: d } => b == buffer && d@ == data,
        _ => false,
    }
}

/// A vertex attribute buffer: `count` elements of `size` floats each, whose
/// bit patterns are `data`.
#[derive(Debug)]
pub struct AttributeBuffer {
    pub buffer: usize,
    pub size: u32,
    pub count: usize,
    pub data: Vec<u32>,
}

impl AttributeBuffer {
    /// The element width is fixed at creation and `count` matches `data`.
    pub open spec fn wf(&self) -> bool {
        valid_dim(self.size) && self.count == self.data@.len() / (self.size as nat)
    }

    /// An empty attribute buffer with handle `buffer` and element width `dim`.
    pub fn new(buffer: usize, dim: u32) -> (r: AttributeBuffer)
        requires
            valid_dim(dim),
        ensures
            r.wf(),
            r.buffer == buffer,
            r.size == dim,
            r.count == 0,
            r.data@ == Seq::<u32>::empty(),
    {
        AttributeBuffer { buffer, size: dim, count: 0, data: Vec::new() }
    }

    /// The number of floats per element.
    pub fn get_dim(&self) -> (r: usize)
        ensures
            r == self.size,
    {
        self.size as usize
    }

    /// Replaces the whole contents with `data`, returning the upload to perform.
    pub fn fill(&mut self, data: &Vec<u32>) -> (op: GpuOp)
        requires
            old(self).wf(),
        ensures
            final(self).wf(),
            final(self).buffer == old(self).buffer,
            final(self).size == old(self).size,
            final(self).data@ == data@,
            final(self).count == data@.len() / (old(self).size as nat),
            uploads_attributes(op, old(self).buffer, data@),
    {
        self.count = data.len() / (self.size as usize);
        self.data = copy_words(data);
        GpuOp::UploadAttributes { buffer: self.buffer, data: copy_words(data) }
    }

    /// Binds this buffer to attribute slot `attr` and enables the slot, unless it
    /// is already bound there.
    pub fn bind_to_current_vao(&self, attr: u32, state: &mut BindingState, ops: &mut Vec<GpuOp>)
        requires
            attr < old(state).attrs@.len(),
        ensures
            final(state).attrs@ == old(state).attrs@.update(attr as int, Some(self.buffer)),
            final(state).program == old(state).program,
            final(state).indices == old(state).indices,
            old(state).attrs@[attr as int] == Some(self.buffer) ==> final(ops)@ == old(ops)@,
            old(state).attrs@[attr as int] is None ==> final(ops)@ == old(ops)@.push(
                GpuOp::BindAttribute { slot: attr, buffer: self.buffer, dim: self.size },
            ),
            old(state).attrs@[attr as int] is Some && old(state).attrs@[attr as int] != Some(
                self.buffer,
            ) ==> final(ops)@ == old(ops)@.push(GpuOp::DisableAttribute { slot: attr }).push(
                GpuOp::BindAttribute { slot: attr, buffer: self.buffer, dim: self.size },
            ),
    {
        match state.attrs[attr as usize] {
            Some(b) => {
                if b == self.buffer {
                    assert(old(state).attrs@.update(attr as int, Some(self.buffer))
                        =~= old(state).attrs@);
                    return;
                }
            },
            None => {},
        }
        state.clear_attr(attr, ops);
        state.attrs.set(attr as usize, Some(self.buffer));
        ops.push(GpuOp::BindAttribute { slot: attr, buffer: self.buffer, dim: self.size });
        assert(state.attrs@ =~= old(state).attrs@.update(attr as int, Some(self.buffer)));
    }
}

/// An index buffer: `count` indices, drawn as `topology`.
#[derive(Debug)]
pub struct IndexBuffer {
    pub buffer: usize,
    pub count: usize,
    pub topology: u32,
    pub data: Vec<u32>,
}

impl IndexBuffer {
    /// `count` matches `data`.
    pub open spec fn wf(&self) -> bool {
        self.count == self.data@.len()
    }

    /// An empty index buffer with handle `buffer`, drawn as a triangle list.
    pub fn new(buffer: usize) -> (r: IndexBuffer)
        ensures
            r.wf(),
            r.buffer == buffer,
            r.count == 0,
            r.topology == TRIANGLES,
            r.data@ == Seq::<u32>::empty(),
    {
        IndexBuffer { buffer, count: 0, topology: TRIANGLES, data: Vec::new() }
    }

    /// Replaces the whole contents with `data`, drawn as `topology`, returning
    /// the upload to perform.
    pub fn fill(&mut self, topology: u32, data: &Vec<u32>) -> (op: GpuOp)
        ensures
            final(self).wf(),
            final(self).buffer == old(self).buffer,
            final(self).topology == topology,
            final(self).data@ == data@,
            final(self).count == data@.len(),
            uploads_indices(op, old(self).buffer, data@),
    {
        self.count = data.len();
        self.topology = topology;
        self.data = copy_words(data);
        GpuOp::UploadIndices { buffer: self.buffer, data: copy_words(data) }
    }

    /// Binds this buffer, unless it is bound already, and draws all its indices.
    pub fn draw(&self, state: &mut BindingState, ops: &mut Vec<GpuOp>)
        ensures
            final(state).indices == Some(self.buffer),
            final(state).attrs == old(state).attrs,
            final(state).program == old(state).program,
            old(state).indices == Some(self.buffer) ==> final(ops)@ == old(ops)@.push(
                GpuOp::DrawElements { topology: self.topology, count: self.count },
            ),
            old(state).indices != Some(self.buffer) ==> final(ops)@ == old(ops)@.push(
                GpuOp::BindIndices { buffer: self.buffer },
            ).push(GpuOp::DrawElements { topology: self.topology, count: self.count }),
    {
        let bound = match state.indices {
            Some(b) => b == self.buffer,
            None => false,
        };
        if !bound {
            state.indices = Some(self.buffer);
            ops.push(GpuOp::BindIndices { buffer: self.buffer });
        }
        ops.push(GpuOp::DrawElements { topology: self.topology, count: self.count });
    }
}

} // verus!
