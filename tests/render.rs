use mzmr::cache::CacheError;
use mzmr::command::{Buffer, CmdData, Command, Done, Draw, Indices, Resource, SetResource};
use mzmr::consumer::Consumer;
use mzmr::draw::{assemble, find_buffer, find_index_buffer, DrawCall};
use mzmr::gate::FrameGate;
use mzmr::gpu::{BindingState, GpuOp, TRIANGLES};
use mzmr::cache::ResourceCache;
use mzmr::shader::{
    active_attribute, dim_of_type, ShaderAttributeInfo, ShaderProgram, FLOAT, FLOAT_VEC2,
    FLOAT_VEC3, FLOAT_VEC4,
};

fn s(x: &str) -> String {
    x.to_string()
}

fn bits(v: &[f32]) -> Vec<u32> {
    v.iter().map(|x| x.to_bits()).collect()
}

fn input(name: &str, location: u32, dim: usize) -> ShaderAttributeInfo {
    ShaderAttributeInfo { name: s(name), location, dim }
}

fn program() -> ShaderProgram {
    ShaderProgram::new(7, vec![input("position", 0, 2), input("color", 1, 3)])
}

fn set_buffer(ns: &str, name: &str, dim: u32, data: Vec<u32>) -> Command {
    Command::set_resource(SetResource {
        name: s(name),
        namespace: s(ns),
        resource: Some(Resource::Buffer(Buffer { dim, data })),
    })
}

fn set_indices(ns: &str, name: &str, data: Vec<u32>) -> Command {
    Command::set_resource(SetResource {
        name: s(name),
        namespace: s(ns),
        resource: Some(Resource::Indices(Indices { data })),
    })
}

fn draw(namespaces: &[&str]) -> Command {
    Command::draw(Draw {
        program_name: s(""),
        program_namespace: s(""),
        attribute_namespaces: namespaces.iter().map(|n| s(n)).collect(),
        uniform_namespaces: vec![],
    })
}

fn draws(ops: &[GpuOp]) -> usize {
    ops.iter().filter(|op| matches!(op, GpuOp::DrawElements { .. })).count()
}

#[test]
fn float_types_give_dimensions() {
    assert_eq!(dim_of_type(FLOAT), Some(1));
    assert_eq!(dim_of_type(FLOAT_VEC2), Some(2));
    assert_eq!(dim_of_type(FLOAT_VEC3), Some(3));
    assert_eq!(dim_of_type(FLOAT_VEC4), Some(4));
    assert_eq!(dim_of_type(0x1404), None);
}

#[test]
fn active_attribute_accepts_single_floats() {
    let a = active_attribute(s("uv"), 2, FLOAT_VEC2, 1).unwrap();
    assert_eq!((a.name.as_str(), a.location, a.dim), ("uv", 2, 2));
    assert!(active_attribute(s("uv"), 2, FLOAT_VEC2, 2).is_none());
    assert!(active_attribute(s("m"), 0, 0x8B5C, 1).is_none());
}

#[test]
fn get_attr_finds_first_declared() {
    let p = ShaderProgram::new(1, vec![input("a", 4, 1), input("b", 2, 2), input("a", 9, 1)]);
    assert_eq!(p.get_attr(&s("a")), Some(4));
    assert_eq!(p.get_attr(&s("b")), Some(2));
    assert_eq!(p.get_attr(&s("c")), None);
}

#[test]
fn program_bind_only_when_changed() {
    let p = program();
    let mut st = BindingState::new(2);
    let mut ops = Vec::new();
    p.bind(&mut st, &mut ops);
    p.bind(&mut st, &mut ops);
    assert_eq!(ops, vec![GpuOp::UseProgram { program: 7 }]);
    assert_eq!(st.program, Some(7));
}

#[test]
fn done_moves_barrier_from_previous_frame() {
    let mut g = FrameGate { current_frame: Some(4) };
    let tc = g.on_done(5);
    assert_eq!(tc.unsubscribe, Some(b"render/frame/4/".to_vec()));
    assert_eq!(tc.subscribe, b"render/frame/5/".to_vec());
    assert_eq!(g.current_frame, Some(5));
}

#[test]
fn first_done_only_subscribes() {
    let mut g = FrameGate::new();
    let tc = g.on_done(5);
    assert_eq!(tc.unsubscribe, None);
    assert_eq!(tc.subscribe, b"render/frame/5/".to_vec());
    assert_eq!(g.current_frame, Some(5));
}

#[test]
fn draw_without_indices_or_program_does_nothing() {
    let mut st = BindingState::new(4);
    let mut ops = Vec::new();
    let call = DrawCall::new();
    call.draw(&mut st, &mut ops);
    assert!(ops.is_empty());
    let p = program();
    let mut call = DrawCall::new();
    call.set_program(&p);
    call.draw(&mut st, &mut ops);
    assert!(ops.is_empty());
    assert_eq!(st, BindingState::new(4));
}

#[test]
fn namespaces_are_searched_in_order() {
    let mut c = ResourceCache::new();
    c.upsert_buffer(&s("b"), &s("position"), 2, &vec![1, 1]).unwrap();
    c.upsert_buffer(&s("a"), &s("position"), 2, &vec![2, 2]).unwrap();
    c.upsert_indices(&s("b"), &s("indices"), TRIANGLES, &vec![0]);
    let ns = vec![s("a"), s("b")];
    assert_eq!(find_buffer(&c, &ns, &s("position")).unwrap().data, vec![2, 2]);
    assert!(find_buffer(&c, &ns, &s("color")).is_none());
    assert_eq!(find_index_buffer(&c, &ns).unwrap().count, 1);
    assert!(find_index_buffer(&c, &vec![s("a")]).is_none());
    let p = program();
    let call = assemble(&c, &p, &ns);
    assert_eq!(call.attribs.len(), 1);
    assert_eq!(call.attribs[0].0.as_str(), "position");
    assert_eq!(call.attribs[0].1.buffer, 1);
    assert!(call.indices.is_some());
}

#[test]
fn omitted_input_slot_is_disabled_after_draw() {
    let mut c = Consumer::new(program(), 16);
    c.handle_command(set_buffer("a", "position", 2, vec![0; 6])).unwrap();
    c.handle_command(set_buffer("a", "color", 3, vec![0; 9])).unwrap();
    c.handle_command(set_indices("a", "indices", vec![0, 1, 2])).unwrap();
    c.handle_command(set_buffer("b", "position", 2, vec![0; 6])).unwrap();
    c.handle_command(set_indices("b", "indices", vec![0, 1, 2])).unwrap();

    let a = c.handle_command(draw(&["a"])).unwrap();
    assert_eq!(draws(&a.ops), 1);
    assert!(c.bindings.is_enabled(0));
    assert!(c.bindings.is_enabled(1));
    assert_eq!(c.bindings.attrs[0], Some(0));
    assert_eq!(c.bindings.attrs[1], Some(1));

    let b = c.handle_command(draw(&["b"])).unwrap();
    assert_eq!(draws(&b.ops), 1);
    assert!(c.bindings.is_enabled(0));
    assert!(!c.bindings.is_enabled(1));
    assert!(b.ops.contains(&GpuOp::DisableAttribute { slot: 1 }));
    assert!(b.ops.contains(&GpuOp::BindAttribute { slot: 0, buffer: 2, dim: 2 }));
    let enabled: Vec<usize> = (0..16).filter(|i| c.bindings.is_enabled(*i)).collect();
    assert_eq!(enabled, vec![0]);
}

#[test]
fn draw_without_index_buffer_is_no_op() {
    let mut c = Consumer::new(program(), 16);
    c.handle_command(set_buffer("a", "position", 2, vec![0; 6])).unwrap();
    let st = c.handle_command(draw(&["a"])).unwrap();
    assert!(st.ops.is_empty());
    assert!(!st.end_frame);
    assert!(!c.bindings.is_enabled(0));
}

#[test]
fn empty_commands_are_no_ops() {
    let mut c = Consumer::new(program(), 4);
    let st = c.handle_command(Command { cmd_data: None }).unwrap();
    assert!(st.ops.is_empty() && st.topics.is_none() && !st.end_frame);
    let st = c
        .handle_command(Command {
            cmd_data: Some(CmdData::SetResource(SetResource {
                name: s("n"),
                namespace: s("ns"),
                resource: None,
            })),
        })
        .unwrap();
    assert!(st.ops.is_empty() && st.topics.is_none() && !st.end_frame);
    assert!(c.cache.attributes.is_empty() && c.cache.indices.is_empty());
}

#[test]
fn consumer_reports_schema_violation() {
    let mut c = Consumer::new(program(), 4);
    c.handle_command(set_buffer("a", "position", 2, vec![1, 2])).unwrap();
    let r = c.handle_command(set_buffer("a", "position", 4, vec![1, 2, 3, 4]));
    assert_eq!(r.unwrap_err(), CacheError::SchemaViolation { stored: 2, given: 4 });
    assert_eq!(c.cache.lookup_buffer(&s("a"), &s("position")).unwrap().data, vec![1, 2]);
}

#[test]
fn consumer_done_ends_frame() {
    let mut c = Consumer::new(program(), 4);
    let st = c
        .handle_command(Command { cmd_data: Some(CmdData::Done(Done { frame_number: 4 })) })
        .unwrap();
    assert!(st.end_frame);
    let tc = st.topics.unwrap();
    assert_eq!(tc.unsubscribe, None);
    assert_eq!(tc.subscribe, b"render/frame/4/".to_vec());
    let st = c.handle_command(Command::done(5)).unwrap();
    let tc = st.topics.unwrap();
    assert_eq!(tc.unsubscribe, Some(b"render/frame/4/".to_vec()));
    assert_eq!(tc.subscribe, b"render/frame/5/".to_vec());
    assert_eq!(c.gate.current_frame, Some(5));
}

#[test]
fn end_to_end_triangle() {
    let mut c = Consumer::new(program(), 16);
    let mut all = Vec::new();
    let cmds = vec![
        set_buffer("tri", "position", 2, bits(&[-0.5, -0.5, 0.5, 0.5])),
        set_indices("tri", "indices", vec![0, 1, 2]),
        draw(&["tri"]),
        Command::done(2),
    ];
    let mut ended = false;
    for cmd in cmds {
        let st = c.handle_command(cmd).unwrap();
        all.extend(st.ops);
        ended = st.end_frame;
    }
    assert!(ended);
    let pos = c.cache.lookup_buffer(&s("tri"), &s("position")).unwrap();
    assert_eq!(pos.get_dim(), 2);
    assert_eq!(pos.data, bits(&[-0.5, -0.5, 0.5, 0.5]));
    let ib = c.cache.lookup_indices(&s("tri"), &s("indices")).unwrap();
    assert_eq!(ib.count, 3);
    assert_eq!(draws(&all), 1);
    assert!(all.contains(&GpuOp::BindAttribute { slot: 0, buffer: pos.buffer, dim: 2 }));
    assert!(all.contains(&GpuOp::BindIndices { buffer: ib.buffer }));
    assert_eq!(all.last(), Some(&GpuOp::DrawElements { topology: TRIANGLES, count: 3 }));
    assert_eq!(c.gate.current_frame, Some(2));
}
