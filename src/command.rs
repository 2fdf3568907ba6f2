//! The command protocol: resource upserts, draw requests and frame-done
//! sentinels, as the library sees them once the codec has decoded them.
//! Float payloads travel as their IEEE-754 bit patterns (`f32::to_bits`).
use vstd::prelude::*;

verus! {

/// Vertex attribute data: `dim` components per element, each an `f32`
/// given by its bit pattern.
#[derive(Debug, PartialEq)]
pub struct Buffer {
    pub dim: u32,
    pub data: Vec<u32>,
}

/// Index data for indexed drawing.
#[derive(Debug, PartialEq)]
pub struct Indices {
    pub data: Vec<u32>,
}

#[derive(Debug, PartialEq)]
pub enum Resource {
    Buffer(Buffer),
    Indices(Indices),
}

/// Creates or replaces the resource `name` in `namespace`.
#[derive(Debug, PartialEq)]
pub struct SetResource {
    pub name: String,
    pub namespace: String,
    pub resource: Option<Resource>,
}

/// Draws with the bound program, looking up inputs in `attribute_namespaces`
/// in order. Program and uniform references are carried but not used.
#[derive(Debug, PartialEq)]
pub struct Draw {
    pub program_name: String,
    pub program_namespace: String,
    pub attribute_namespaces: Vec<String>,
    pub uniform_namespaces: Vec<String>,
}

/// Ends the current frame; `frame_number` is the frame that becomes active.
#[derive(Debug, PartialEq)]
pub struct Done {
    pub frame_number: u32,
}

#[derive(Debug, PartialEq)]
pub enum CmdData {
    SetResource(SetResource),
    Draw(Draw),
    Done(Done),
}

/// One bus message. `cmd_data` is `None` for an empty or unreadable payload.
#[derive(Debug, PartialEq)]
pub struct Command {
    pub cmd_data: Option<CmdData>,
}

/// What a resource payload holds.
pub enum ResourceModel {
    Buffer { dim: u32, data: Seq<u32> },
    Indices { data: Seq<u32> },
}

/// What a `SetResource` holds.
pub struct SetResourceModel {
    pub name: Seq<char>,
    pub namespace: Seq<char>,
    pub resource: Option<ResourceModel>,
}

/// What a `Draw` holds.
pub struct DrawModel {
    pub program_name: Seq<char>,
    pub program_namespace: Seq<char>,
    pub attribute_namespaces: Seq<Seq<char>>,
    pub uniform_namespaces: Seq<Seq<char>>,
}

/// What a command holds.
pub enum CommandModel {
    Empty,
    SetResource(SetResourceModel),
    Draw(DrawModel),
    Done(u32),
}

/// The views of a sequence of strings.
pub open spec fn strings_view(v: Seq<String>) -> Seq<Seq<char>> {
    v.map_values(|s: String| s@)
}

impl View for Resource {
    type V = ResourceModel;

    open spec fn view(&self) -> ResourceModel {
        match self {
            Resource::Buffer(b) => ResourceModel::Buffer { dim: b.dim, data: b.data@ },
            Resource::Indices(i) => ResourceModel::Indices { data: i.data@ },
        }
    }
}

impl View for SetResource {
    type V = SetResourceModel;

    open spec fn view(&self) -> SetResourceModel {
        SetResourceModel {
            name: self.name@,
            namespace: self.namespace@,
            resource: match self.resource {
                Some(r) => Some(r@),
                None => None,
            },
        }
    }
}

impl View for Draw {
    type V = DrawModel;

    open spec fn view(&self) -> DrawModel {
        DrawModel {
            program_name: self.program_name@,
            program_namespace: self.program_namespace@,
            attribute_namespaces: strings_view(self.attribute_namespaces@),
            uniform_namespaces: strings_view(self.uniform_namespaces@),
        }
    }
}

impl View for Command {
    type V = CommandModel;

    open spec fn view(&self) -> CommandModel {
        match self.cmd_data {
            None => CommandModel::Empty,
            Some(CmdData::SetResource(s)) => CommandModel::SetResource(s@),
            Some(CmdData::Draw(d)) => CommandModel::Draw(d@),
            Some(CmdData::Done(d)) => CommandModel::Done(d.frame_number),
        }
    }
}

/// Whether `dim` is an element width that a vertex attribute can have.
pub open spec fn valid_dim(dim: u32) -> bool {
    1 <= dim <= 4
}

/// Whether `dim` is an element width that a vertex attribute can have (1 to 4).
pub fn is_valid_dim(dim: u32) -> (r: bool)
    ensures
        r == valid_dim(dim),
{
    1 <= dim && dim <= 4
}

/// A copy of a sequence of words.
pub fn copy_words(v: &Vec<u32>) -> (r: Vec<u32>)
    ensures
        r@ == v@,
{
    let mut r: Vec<u32> = Vec::new();
    let mut i: usize = 0;
    while i < v.len()
        invariant
            i <= v@.len(),
            r@ == v@.subrange(0, i as int),
        decreases v.len() - i,
    {
        r.push(v[i]);
        i = i + 1;
        assert(r@ =~= v@.subrange(0, i as int));
    }
    assert(v@.subrange(0, v@.len() as int) =~= v@);
    r
}

/// A copy of a sequence of strings.
pub fn copy_strings(v: &Vec<String>) -> (r: Vec<String>)
    ensures
        strings_view(r@) == strings_view(v@),
{
    let mut r: Vec<String> = Vec::new();
    let mut i: usize = 0;
    while i < v.len()
        invariant
            i <= v@.len(),
            r@.len() == i,
            forall|j: int| 0 <= j < i ==> r@[j]@ == v@[j]@,
        decreases v.len() - i,
    {
        r.push(v[i].clone());
        i = i + 1;
    }
    assert(strings_view(r@) =~= strings_view(v@));
    r
}

impl Resource {
    /// A copy of this payload.
    pub fn copy(&self) -> (r: Resource)
        ensures
            r@ == self@,
    {
        match self {
            Resource::Buffer(b) => Resource::Buffer(Buffer { dim: b.dim, data: copy_words(&b.data) }),
            Resource::Indices(i) => Resource::Indices(Indices { data: copy_words(&i.data) }),
        }
    }
}

impl SetResource {
    /// A copy of this command body.
    pub fn copy(&self) -> (r: SetResource)
        ensures
            r@ == self@,
    {
        let resource = match &self.resource {
            Some(res) => Some(res.copy()),
            None => None,
        };
        SetResource { name: self.name.clone(), namespace: self.namespace.clone(), resource }
    }
}

impl Draw {
    /// A copy of this command body.
    pub fn copy(&self) -> (r: Draw)
        ensures
            r@ == self@,
    {
        Draw {
            program_name: self.program_name.clone(),
            program_namespace: self.program_namespace.clone(),
            attribute_namespaces: copy_strings(&self.attribute_namespaces),
            uniform_namespaces: copy_strings(&self.uniform_namespaces),
        }
    }
}

impl Command {
    /// A `SetResource` command.
    pub fn set_resource(s: SetResource) -> (r: Command)
        ensures
            r@ == CommandModel::SetResource(s@),
    {
        Command { cmd_data: Some(CmdData::SetResource(s)) }
    }

    /// A `Draw` command.
    pub fn draw(d: Draw) -> (r: Command)
        ensures
            r@ == CommandModel::Draw(d@),
    {
        Command { cmd_data: Some(CmdData::Draw(d)) }
    }

    /// A `Done` command for `frame_number`.
    pub fn done(frame_number: u32) -> (r: Command)
        ensures
            r@ == CommandModel::Done(frame_number),
    {
        Command { cmd_data: Some(CmdData::Done(Done { frame_number })) }
    }
}

} // verus!
