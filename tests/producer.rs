use mzmr::command::{Buffer, Command, Draw, Indices, Resource, SetResource};
use mzmr::producer::Producer;

fn s(x: &str) -> String {
    x.to_string()
}

fn the_draw() -> Draw {
    Draw {
        program_name: s(""),
        program_namespace: s(""),
        attribute_namespaces: vec![s("tri")],
        uniform_namespaces: vec![],
    }
}

fn resources() -> Vec<SetResource> {
    vec![
        SetResource {
            name: s("position"),
            namespace: s("tri"),
            resource: Some(Resource::Buffer(Buffer { dim: 2, data: vec![1, 2, 3, 4] })),
        },
        SetResource {
            name: s("indices"),
            namespace: s("tri"),
            resource: Some(Resource::Indices(Indices { data: vec![0, 1, 2] })),
        },
    ]
}

#[test]
fn registration_replays_resources_then_done() {
    let mut p = Producer::new(the_draw());
    for r in resources() {
        p.record_resource(r);
    }
    let step = p.on_subscribe(b"@00000000000000AB/");
    let mut expected: Vec<Command> = resources().into_iter().map(Command::set_resource).collect();
    expected.push(Command::done(1));
    assert_eq!(step.replay, expected);
    assert!(!step.proceed);
}

#[test]
fn render_subscriptions_get_no_replay() {
    let mut p = Producer::new(the_draw());
    for r in resources() {
        p.record_resource(r);
    }
    let step = p.on_subscribe(b"render/");
    assert!(step.replay.is_empty());
    assert!(!step.proceed);
    let step = p.on_subscribe(b"render/frame/1/");
    assert!(step.replay.is_empty());
    assert!(step.proceed);
}

#[test]
fn frames_advance_with_draw_then_done() {
    let mut p = Producer::new(the_draw());
    assert_eq!(p.frame, 1);
    let out = p.finish_frame();
    assert_eq!(out, vec![Command::draw(the_draw()), Command::done(2)]);
    assert_eq!(p.frame, 2);
    assert!(!p.on_subscribe(b"render/frame/1/").proceed);
    assert!(p.on_subscribe(b"render/frame/2/").proceed);
    let step = p.on_subscribe(b"@0000000000000001/");
    assert_eq!(step.replay, vec![Command::done(2)]);
}

#[test]
fn replay_precedes_any_draw() {
    let mut p = Producer::new(the_draw());
    p.record_resource(resources().remove(0));
    let step = p.on_subscribe(b"@0000000000000002/");
    let n = step.replay.len();
    assert_eq!(n, 2);
    assert!(step.replay.iter().all(|c| !matches!(c.cmd_data, Some(mzmr::command::CmdData::Draw(_)))));
    assert_eq!(step.replay[n - 1], Command::done(1));
}
