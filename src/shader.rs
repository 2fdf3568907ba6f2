//! Shader programs as the draw path sees them: a backend program handle and
//! the declared vertex inputs, each with its slot and element width.
use vstd::prelude::*;
use crate::gpu::{BindingState, GpuOp};

verus! {

/// The graphics API's type codes for `float` and `vec2` to `vec4`.
pub const FLOAT: u32 = 0x1406;
pub const FLOAT_VEC2: u32 = 0x8B50;
pub const FLOAT_VEC3: u32 = 0x8B51;
pub const FLOAT_VEC4: u32 = 0x8B52;

/// One declared vertex input: its name, its attribute slot, and its width.
#[derive(Debug)]
pub struct ShaderAttributeInfo {
    pub name: String,
    pub location: u32,
    pub dim: usize,
}

#[derive(Debug)]
pub struct ShaderProgram {
    pub prog: u32,
    pub inputs: Vec<ShaderAttributeInfo>,
}

/// The element width of the vertex input type `data_type`, for the float types.
pub open spec fn dim_of(data_type: u32) -> Option<usize> {
    if data_type == FLOAT {
        Some(1usize)
    } else if data_type == FLOAT_VEC2 {
        Some(2usize)
    } else if data_type == FLOAT_VEC3 {
        Some(3usize)
    } else if data_type == FLOAT_VEC4 {
        Some(4usize)
    } else {
        None
    }
}

/// The element width of the vertex input type `data_type`, for the float types.
pub fn dim_of_type(data_type: u32) -> (r: Option<usize>)
    ensures
        r == dim_of(data_type),
{
    if data_type == FLOAT {
        Some(1)
    } else if data_type == FLOAT_VEC2 {
        Some(2)
    } else if data_type == FLOAT_VEC3 {
        Some(3)
    } else if data_type == FLOAT_VEC4 {
        Some(4)
    } else {
        None
    }
}

/// The description of an active vertex input that the backend reported with
/// `data_type` and array `size`: only single float scalars and vectors are
/// accepted.
pub fn active_attribute(name: String, location: u32, data_type: u32, size: i32) -> (r: Option<
    ShaderAttributeInfo,
>)
    ensures
        (r is Some) == (dim_of(data_type) is Some && size == 1),
        r matches Some(a) ==> a.name@ == name@ && a.location == location && Some(a.dim) == dim_of(
            data_type,
        ),
{
    if size != 1 {
        return None;
    }
    match dim_of_type(data_type) {
        Some(dim) => Some(ShaderAttributeInfo { name, location, dim }),
        None => None,
    }
}

/// The slot of the first input named `name` in `inputs`.
pub open spec fn location_of(inputs: Seq<ShaderAttributeInfo>, name: Seq<char>) -> Option<u32>
    decreases inputs.len(),
{
    if inputs.len() == 0 {
        None
    } else if inputs[0].name@ == name {
        Some(inputs[0].location)
    } else {
        location_of(inputs.drop_first(), name)
    }
}

impl ShaderProgram {
    /// The program `prog` with the declared inputs `inputs`.
    pub fn new(prog: u32, inputs: Vec<ShaderAttributeInfo>) -> (r: ShaderProgram)
        ensures
            r.prog == prog,
            r.inputs == inputs,
    {
        ShaderProgram { prog, inputs }
    }

    /// The attribute slot of the input `name`, if the program declares it.
    pub fn get_attr(&self, name: &String) -> (r: Option<u32>)
        ensures
            r == location_of(self.inputs@, name@),
    {
        let mut i: usize = 0;
        assert(self.inputs@.subrange(0, self.inputs@.len() as int) =~= self.inputs@);
        while i < self.inputs.len()
            invariant
                i <= self.inputs@.len(),
                location_of(self.inputs@, name@) == location_of(
                    self.inputs@.subrange(i as int, self.inputs@.len() as int),
                    name@,
                ),
            decreases self.inputs.len() - i,
        {
            let ghost rest = self.inputs@.subrange(i as int, self.inputs@.len() as int);
            if self.inputs[i].name == *name {
                return Some(self.inputs[i].location);
            }
            assert(rest.drop_first() =~= self.inputs@.subrange(i + 1, self.inputs@.len() as int));
            i = i + 1;
        }
        None
    }

    /// Makes this program active, unless it is already.
    pub fn bind(&self, state: &mut BindingState, ops: &mut Vec<GpuOp>)
        ensures
            final(state).program == Some(self.prog),
            final(state).attrs == old(state).attrs,
            final(state).indices == old(state).indices,
            old(state).program == Some(self.prog) ==> final(ops)@ == old(ops)@,
            old(state).program != Some(self.prog) ==> final(ops)@ == old(ops)@.push(
                GpuOp::UseProgram { program: self.prog },
            ),
    {
        let bound = match state.program {
            Some(p) => p == self.prog,
            None => false,
        };
        if !bound {
            state.program = Some(self.prog);
            ops.push(GpuOp::UseProgram { program: self.prog });
        }
    }
}

} // verus!
