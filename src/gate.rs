//! The consumer's frame gate: which frame is active, and how a done sentinel
//! moves the barrier subscription to the next frame.
use vstd::prelude::*;
use crate::topic::{frame_topic, frame_topic_spec};

verus! {

#[derive(Clone, Copy, Debug, PartialEq, Eq)]
pub struct FrameGate {
    pub current_frame: Option<u32>,
}

/// The subscription changes that a done sentinel asks for.
#[derive(Debug)]
pub struct TopicChange {
    /// The barrier topic of the frame that ends, if one was active.
    pub unsubscribe: Option<Vec<u8>>,
    /// The barrier topic of the frame that becomes active.
    pub subscribe: Vec<u8>,
}

impl FrameGate {
    /// A gate with no active frame.
    pub fn new() -> (r: FrameGate)
        ensures
            r.current_frame is None,
    {
        FrameGate { current_frame: None }
    }

    /// Accepts `Done { frame_number }`: frame `frame_number` becomes active, the
    /// previous frame's barrier topic (if any) is dropped and the new one taken.
    pub fn on_done(&mut self, frame_number: u32) -> (r: TopicChange)
        ensures
            final(self).current_frame == Some(frame_number),
            r.subscribe@ == frame_topic_spec(frame_number as nat),
            match old(self).current_frame {
                Some(f) => r.unsubscribe matches Some(t) && t@ == frame_topic_spec(f as nat),
                None => r.unsubscribe is None,
            },
    {
        let unsubscribe = match self.current_frame {
            Some(f) => Some(frame_topic(f)),
            None => None,
        };
        let subscribe = frame_topic(frame_number);
        self.current_frame = Some(frame_number);
        TopicChange { unsubscribe, subscribe }
    }
}

} // verus!
