//! Graphics operations that the library asks the backend to perform, and the
//! binding state that the render path owns (bound program, enabled attribute
//! slots, bound index buffer).
//!
//! Buffer handles are positions in the resource cache's tables: attribute
//! buffers and index buffers are numbered separately.
use vstd::prelude::*;

verus! {

/// Topology of indexed drawing as the graphics API numbers it: triangle list.
pub const TRIANGLES: u32 = 4;

#[derive(Debug, PartialEq)]
pub enum GpuOp {
    /// Allocate the backend buffer for attribute buffer `buffer`.
    CreateAttributeBuffer { buffer: usize },
    /// Allocate the backend buffer for index buffer `buffer`.
    CreateIndexBuffer { buffer: usize },
    /// Upload `data` (f32 bit patterns) into attribute buffer `buffer`.
    UploadAttributes { buffer: usize, data: Vec<u32> },
    /// Upload `data` into index buffer `buffer`.
    UploadIndices { buffer: usize, data: Vec<u32> },
    /// Make `program` the active shader program.
    UseProgram { program: u32 },
    /// Point attribute slot `slot` at attribute buffer `buffer` with `dim`
    /// floats per element, and enable the slot.
    BindAttribute { slot: u32, buffer: usize, dim: u32 },
    /// Disable attribute slot `slot`.
    DisableAttribute { slot: u32 },
    /// Bind index buffer `buffer` for drawing.
    BindIndices { buffer: usize },
    /// Draw `count` indices of the bound index buffer as `topology`.
    DrawElements { topology: u32, count: usize },
}

/// Whether `op` is a draw submission.
pub open spec fn is_draw(op: GpuOp) -> bool {
    op is DrawElements
}

/// The number of draw submissions in `ops`.
pub open spec fn draw_count(ops: Seq<GpuOp>) -> nat
    decreases ops.len(),
{
    if ops.len() == 0 {
        0
    } else {
        draw_count(ops.drop_last()) + if is_draw(ops.last()) {
            1nat
        } else {
            0nat
        }
    }
}

/// Appending `op` adds one draw exactly when `op` is a draw.
pub proof fn lemma_draw_count_push(ops: Seq<GpuOp>, op: GpuOp)
    ensures
        draw_count(ops.push(op)) == draw_count(ops) + if is_draw(op) {
            1nat
        } else {
            0nat
        },
{
    assert(ops.push(op).drop_last() =~= ops);
}

/// The backend binding state, owned by one render path.
#[derive(Debug, PartialEq)]
pub struct BindingState {
    /// The active program, if one was made active.
    pub program: Option<u32>,
    /// For each attribute slot, the attribute buffer bound to it while it is enabled.
    pub attrs: Vec<Option<usize>>,
    /// The bound index buffer, if any.
    pub indices: Option<usize>,
}

impl BindingState {
    /// A fresh state with `slots` attribute slots, all disabled, and nothing bound.
    pub fn new(slots: u32) -> (r: BindingState)
        ensures
            r.program is None,
            r.indices is None,
            r.attrs@.len() == slots,
            forall|i: int| 0 <= i < slots ==> r.attrs@[i] is None,
    {
        let mut attrs: Vec<Option<usize>> = Vec::new();
        let mut i: usize = 0;
        while i < slots as usize
            invariant
                i <= slots,
                attrs@.len() == i,
                forall|j: int| 0 <= j < i ==> attrs@[j] is None,
            decreases slots as usize - i,
        {
            attrs.push(None);
            i = i + 1;
        }
        BindingState { program: None, attrs, indices: None }
    }

    /// The set of enabled attribute slots.
    pub open spec fn enabled(&self) -> Set<int> {
        Set::new(|i: int| 0 <= i < self.attrs@.len() && self.attrs@[i] is Some)
    }

    /// Whether attribute slot `slot` is enabled.
    pub fn is_enabled(&self, slot: usize) -> (r: bool)
        ensures
            r == self.enabled().contains(slot as int),
    {
        slot < self.attrs.len() && self.attrs[slot].is_some()
    }

    /// Disables `slot` if it is enabled, recording the operation in `ops`.
    pub fn clear_attr(&mut self, slot: u32, ops: &mut Vec<GpuOp>)
        requires
            slot < old(self).attrs@.len(),
        ensures
            final(self).attrs@ == old(self).attrs@.update(slot as int, None),
            final(self).program == old(self).program,
            final(self).indices == old(self).indices,
            old(self).attrs@[slot as int] is Some ==> final(ops)@ == old(ops)@.push(
                GpuOp::DisableAttribute { slot },
            ),
            old(self).attrs@[slot as int] is None ==> final(ops)@ == old(ops)@,
    {
        if self.attrs[slot as usize].is_some() {
            self.attrs.set(slot as usize, None);
            ops.push(GpuOp::DisableAttribute { slot });
        } else {
            assert(old(self).attrs@.update(slot as int, None) =~= old(self).attrs@);
        }
    }
}

} // verus!
