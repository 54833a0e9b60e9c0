use vstd::prelude::*;
use crossbeam_channel::{Receiver, Sender};

verus! {

/// The sending half of a crossbeam channel; Verus sees nothing inside it.
#[verifier::external_type_specification]
#[verifier::external_body]
#[verifier::reject_recursive_types(T)]
pub struct ExSender<T>(Sender<T>);

/// The receiving half of a crossbeam channel; Verus sees nothing inside it.
#[verifier::external_type_specification]
#[verifier::external_body]
#[verifier::reject_recursive_types(T)]
pub struct ExReceiver<T>(Receiver<T>);

/// `Clone` of `crossbeam_channel::Sender`: a new handle on the same channel. Nothing is stated
/// of it: Verus sees nothing inside a handle. (The crate aborts the process only when the number
/// of senders of one channel passes `isize::MAX`.)
pub assume_specification<T>[ <Sender<T> as Clone>::clone ](s: &Sender<T>) -> Sender<T>;

/// `Clone` of `crossbeam_channel::Receiver`: a new handle on the same channel. Nothing is stated
/// of it: Verus sees nothing inside a handle. (The crate aborts the process only when the number
/// of receivers of one channel passes `isize::MAX`.)
pub assume_specification<T>[ <Receiver<T> as Clone>::clone ](r: &Receiver<T>) -> Receiver<T>;

/// A sending handle on a channel, with the (proof-only) identity of the channel it belongs to.
/// Only `unbounded` makes one, and clones keep the identity.
#[verifier::reject_recursive_types(T)]
pub struct ChannelSender<T> {
    handle: Sender<T>,
    channel: Ghost<nat>,
}

/// A receiving handle on a channel, with the (proof-only) identity of the channel it belongs to.
/// Only `unbounded` makes one, and clones keep the identity.
#[verifier::reject_recursive_types(T)]
pub struct ChannelReceiver<T> {
    handle: Receiver<T>,
    channel: Ghost<nat>,
}

/// `crossbeam_channel::unbounded`: a new channel of unlimited capacity, as its two halves, which
/// carry the same channel identity. Nothing else is stated: Verus sees nothing inside a handle.
#[verifier::external_body]
pub fn unbounded<T>() -> (c: (ChannelSender<T>, ChannelReceiver<T>))
    ensures
        c.0.channel() == c.1.channel(),
{
    let (s, r) = crossbeam_channel::unbounded();
    (ChannelSender { handle: s, channel: Ghost(0) }, ChannelReceiver { handle: r, channel: Ghost(0) })
}

impl<T> ChannelSender<T> {
    /// The identity of the channel that this handle sends on.
    pub closed spec fn channel(&self) -> nat {
        self.channel@
    }

    /// The crossbeam handle, to send with.
    pub closed spec fn spec_handle(&self) -> Sender<T> {
        self.handle
    }

    /// The crossbeam handle, to send with.
    pub fn handle(&self) -> (h: &Sender<T>)
        ensures
            *h == self.spec_handle(),
    {
        &self.handle
    }
}

impl<T> ChannelReceiver<T> {
    /// The identity of the channel that this handle receives from.
    pub closed spec fn channel(&self) -> nat {
        self.channel@
    }

    /// The crossbeam handle, to receive with.
    pub closed spec fn spec_handle(&self) -> Receiver<T> {
        self.handle
    }

    /// The crossbeam handle, to receive with.
    pub fn handle(&self) -> (h: &Receiver<T>)
        ensures
            *h == self.spec_handle(),
    {
        &self.handle
    }
}

impl<T> Clone for ChannelSender<T> {
    /// Another handle on the same channel.
    fn clone(&self) -> (c: Self)
        ensures
            c.channel() == self.channel(),
    {
        ChannelSender { handle: self.handle.clone(), channel: self.channel }
    }
}

impl<T> Clone for ChannelReceiver<T> {
    /// Another handle on the same channel.
    fn clone(&self) -> (c: Self)
        ensures
            c.channel() == self.channel(),
    {
        ChannelReceiver { handle: self.handle.clone(), channel: self.channel }
    }
}

} // verus!
