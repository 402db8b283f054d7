//! The decisions of the watcher thread. The thread itself only waits for the
//! file system and posts; it never reads the file and never touches the
//! device.

use vstd::prelude::*;

verus! {

/// Tells the render loop that the shader file changed. It says neither what
/// changed nor how often.
#[derive(Clone, Copy, PartialEq, Eq, Debug, Structural)]
pub struct ReloadSignal;

/// What the file system watch delivers.
#[derive(PartialEq, Eq, Debug)]
pub enum Notice {
    /// Something happened to the watched file; what kind of thing is of no
    /// interest.
    Changed,
    /// The watch itself reports an error; the text says which.
    Fault(String),
}

/// What the watcher thread does with a notice.
#[derive(PartialEq, Eq, Debug)]
pub enum Relay {
    /// Post this signal to the render loop.
    Post(ReloadSignal),
    /// Write this text to standard error and go on watching.
    Log(String),
}

/// What became of a posted signal.
#[derive(PartialEq, Eq, Debug)]
pub enum Delivery {
    /// The render loop has it.
    Delivered,
    /// The render loop is gone, as it is while the process shuts down; the
    /// text says so.
    Refused(String),
}

/// How the watcher thread goes on after a post.
#[derive(PartialEq, Eq, Debug)]
pub enum Next {
    /// Wait for the next notice.
    Continue,
    /// Write this text to standard error and end the thread in good order.
    Stop(String),
}

/// What a notice is answered with: every change with one signal, whatever
/// its kind, and a fault with a line in the log.
pub open spec fn relayed(notice: Notice) -> Relay {
    match notice {
        Notice::Changed => Relay::Post(ReloadSignal),
        Notice::Fault(text) => Relay::Log(text),
    }
}

/// How the thread goes on after a post: it keeps watching while the render
/// loop listens, and ends once it does not.
pub open spec fn followed(delivery: Delivery) -> Next {
    match delivery {
        Delivery::Delivered => Next::Continue,
        Delivery::Refused(text) => Next::Stop(text),
    }
}

/// Decides what to do with a notice from the file system watch.
pub fn relay(notice: Notice) -> (relay: Relay)
    ensures
        relay == relayed(notice),
        (relay is Post) <==> (notice is Changed),
{
    match notice {
        Notice::Changed => Relay::Post(ReloadSignal),
        Notice::Fault(text) => Relay::Log(text),
    }
}

/// Decides how to go on once a signal has been posted. A refused signal ends
/// the thread, but never with a panic.
pub fn after_post(delivery: Delivery) -> (next: Next)
    ensures
        next == followed(delivery),
        (next is Stop) <==> (delivery is Refused),
{
    match delivery {
        Delivery::Delivered => Next::Continue,
        Delivery::Refused(text) => Next::Stop(text),
    }
}

} // verus!
