//! The producer's frame broadcast decisions: what a new subscriber is sent so
//! that it can build its cache, and when the current frame may be broadcast.
use vstd::prelude::*;
use crate::command::{Command, CommandModel, Draw, SetResource, SetResourceModel};
use crate::topic::{frame_suffix, ends_with, has_render_prefix, is_render_topic, names_frame};

verus! {

#[derive(Debug)]
pub struct Producer {
    /// The frame being prepared; the first is 1.
    pub frame: u32,
    /// Every resource command issued so far, in issue order.
    pub published: Vec<SetResource>,
    /// The draw request broadcast for every frame.
    pub draw: Draw,
}

/// What a subscription event asks of the producer.
#[derive(Debug)]
pub struct SubscribeStep {
    /// Commands to send on the subscribed topic, in order.
    pub replay: Vec<Command>,
    /// Whether the current frame's barrier was subscribed, so the frame may be
    /// broadcast.
    pub proceed: bool,
}

/// The commands that bootstrap a new subscriber at frame `frame`: every issued
/// resource command in order, then a done sentinel for `frame`.
pub open spec fn bootstrap(published: Seq<SetResourceModel>, frame: u32) -> Seq<CommandModel> {
    published.map_values(|s: SetResourceModel| CommandModel::SetResource(s)).push(
        CommandModel::Done(frame),
    )
}

/// The views of a sequence of resource commands.
pub open spec fn published_view(v: Seq<SetResource>) -> Seq<SetResourceModel> {
    v.map_values(|s: SetResource| s@)
}

/// The views of a sequence of commands.
pub open spec fn commands_view(v: Seq<Command>) -> Seq<CommandModel> {
    v.map_values(|c: Command| c@)
}

impl Producer {
    /// A producer at frame 1 that has issued nothing, drawing with `draw`.
    pub fn new(draw: Draw) -> (r: Producer)
        ensures
            r.frame == 1,
            r.published@.len() == 0,
            r.draw@ == draw@,
    {
        Producer { frame: 1, published: Vec::new(), draw }
    }

    /// Records the resource command `s` as issued, for later replay.
    pub fn record_resource(&mut self, s: SetResource)
        ensures
            published_view(final(self).published@) == published_view(old(self).published@).push(s@),
            final(self).frame == old(self).frame,
            final(self).draw@ == old(self).draw@,
    {
        self.published.push(s);
        assert(published_view(self.published@) =~= published_view(old(self).published@).push(s@));
    }

    /// The commands that bootstrap a new subscriber: every issued resource
    /// command in order, then a done sentinel for the current frame.
    pub fn handle_register(&self) -> (r: Vec<Command>)
        ensures
            commands_view(r@) == bootstrap(published_view(self.published@), self.frame),
    {
        let mut r: Vec<Command> = Vec::new();
        let mut i: usize = 0;
        while i < self.published.len()
            invariant
                i <= self.published@.len(),
                r@.len() == i,
                forall|j: int| 0 <= j < i ==> (#[trigger] r@[j])@ == CommandModel::SetResource(
                    self.published@[j]@,
                ),
            decreases self.published.len() - i,
        {
            r.push(Command::set_resource(self.published[i].copy()));
            i = i + 1;
        }
        r.push(Command::done(self.frame));
        assert(commands_view(r@) =~= bootstrap(published_view(self.published@), self.frame));
        r
    }

    /// Handles a subscription to `topic`. A topic outside `render/` is a new
    /// consumer's registration: it gets the bootstrap commands. A topic that
    /// ends with `<frame>/` releases the current frame.
    pub fn on_subscribe(&self, topic: &[u8]) -> (r: SubscribeStep)
        ensures
            !has_render_prefix(topic@) ==> commands_view(r.replay@) == bootstrap(
                published_view(self.published@),
                self.frame,
            ),
            has_render_prefix(topic@) ==> r.replay@.len() == 0,
            forall|i: int| 0 <= i < r.replay@.len() ==> !((#[trigger] r.replay@[i])@ is Draw),
            r.proceed == ends_with(topic@, frame_suffix(self.frame as nat)),
    {
        let replay = if is_render_topic(topic) {
            Vec::new()
        } else {
            self.handle_register()
        };
        proof {
            assert forall|i: int| 0 <= i < replay@.len() implies !((#[trigger] replay@[i])@ is Draw) by {
                assert(commands_view(replay@)[i] == replay@[i]@);
                let b = bootstrap(published_view(self.published@), self.frame);
                let n = self.published@.len() as int;
                if i < n {
                    assert(b[i] == CommandModel::SetResource(published_view(self.published@)[i]));
                } else {
                    assert(commands_view(replay@).len() == replay@.len());
                    assert(b.len() == n + 1);
                    assert(i == n);
                    assert(b[i] == CommandModel::Done(self.frame));
                }
            }
        }
        SubscribeStep { replay, proceed: names_frame(topic, self.frame) }
    }

    /// Broadcasts the current frame: its draw request, then a done sentinel that
    /// makes the next frame active; the next frame becomes current.
    pub fn finish_frame(&mut self) -> (r: Vec<Command>)
        requires
            old(self).frame < u32::MAX,
        ensures
            final(self).frame == old(self).frame + 1,
            published_view(final(self).published@) == published_view(old(self).published@),
            final(self).draw@ == old(self).draw@,
            commands_view(r@) == seq![
                CommandModel::Draw(old(self).draw@),
                CommandModel::Done((old(self).frame + 1) as u32),
            ],
    {
        let mut r: Vec<Command> = Vec::new();
        r.push(Command::draw(self.draw.copy()));
        r.push(Command::done(self.frame + 1));
        self.frame = self.frame + 1;
        assert(commands_view(r@) =~= seq![
            CommandModel::Draw(old(self).draw@),
            CommandModel::Done((old(self).frame + 1) as u32),
        ]);
        r
    }
}

} // verus!
