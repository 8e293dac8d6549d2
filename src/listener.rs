use vstd::prelude::*;
use std::ops::ControlFlow;

verus! {

/// The code and reason that a peer may attach to a close frame.
#[derive(Clone, Debug)]
pub struct CloseInfo {
    pub code: u16,
    pub reason: String,
}

/// One frame received from the client.
#[derive(Clone, Debug)]
pub enum Frame {
    Text(String),
    Binary(Vec<u8>),
    Ping(Vec<u8>),
    Pong(Vec<u8>),
    Close(Option<CloseInfo>),
}

/// Whether a frame ends the listener: only a close frame does, with or
/// without a reason.
pub open spec fn frame_flow(msg: Frame) -> ControlFlow<(), ()> {
    match msg {
        Frame::Close(_) => ControlFlow::Break(()),
        _ => ControlFlow::Continue(()),
    }
}

/// Classifies an inbound frame: `Break` on a close frame, `Continue` on any
/// other frame.
pub fn process_message(msg: &Frame) -> (r: ControlFlow<(), ()>)
    ensures
        r == frame_flow(*msg),
{
    match msg {
        Frame::Close(_) => ControlFlow::Break(()),
        _ => ControlFlow::Continue(()),
    }
}

/// What the inbound stream yields next: a frame, or its end (a closed stream
/// and a frame that failed to decode end it alike).
#[derive(Clone, Debug)]
pub enum Inbound {
    Frame(Frame),
    End,
}

/// The listener task's state: how many frames it has processed, and whether
/// it has stopped.
#[derive(Clone, Copy, Debug)]
pub struct Listener {
    pub count: u64,
    pub stopped: bool,
}

/// The listener after `item`: a frame is counted (saturating at `u64::MAX`) and
/// stops the listener if it is a close frame; the end of the stream stops it;
/// a stopped listener stays as it is.
pub open spec fn listener_after(l: Listener, item: Inbound) -> Listener {
    if l.stopped {
        l
    } else {
        match item {
            Inbound::Frame(f) => Listener {
                count: if l.count == u64::MAX { l.count } else { (l.count + 1) as u64 },
                stopped: frame_flow(f) == ControlFlow::<(), ()>::Break(()),
            },
            Inbound::End => Listener { count: l.count, stopped: true },
        }
    }
}

impl Listener {
    /// A listener that has seen no frame.
    pub fn new() -> (r: Listener)
        ensures
            r.count == 0,
            !r.stopped,
    {
        Listener { count: 0, stopped: false }
    }

    /// Feeds the next inbound item; `Break` tells the task to stop reading.
    pub fn on_inbound(&mut self, item: &Inbound) -> (r: ControlFlow<(), ()>)
        ensures
            *final(self) == listener_after(*old(self), *item),
            r == (if final(self).stopped {
                ControlFlow::<(), ()>::Break(())
            } else {
                ControlFlow::<(), ()>::Continue(())
            }),
    {
        if !self.stopped {
            match item {
                Inbound::Frame(f) => {
                    if self.count < u64::MAX {
                        self.count = self.count + 1;
                    }
                    let flow = process_message(f);
                    self.stopped = match flow {
                        ControlFlow::Break(_) => true,
                        ControlFlow::Continue(_) => false,
                    };
                },
                Inbound::End => {
                    self.stopped = true;
                },
            }
        }
        if self.stopped {
            ControlFlow::Break(())
        } else {
            ControlFlow::Continue(())
        }
    }
}

} // verus!
