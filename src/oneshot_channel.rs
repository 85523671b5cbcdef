//! The readiness flag of a channel that carries one message from one sender
//! to one receiver.
use std::sync::atomic::{AtomicBool, Ordering};
use vstd::prelude::*;

verus! {

/// The channel as seen by its two ends: the flag, and the slot it guards.
pub struct ChannelModel<V> {
    pub ready: bool,
    pub slot: Option<V>,
}

/// The flag is set exactly while the slot holds a message.
pub open spec fn channel_wf<V>(c: ChannelModel<V>) -> bool {
    c.ready <==> c.slot is Some
}

/// A fresh, or freshly reset, channel.
pub open spec fn channel_empty<V>() -> ChannelModel<V> {
    ChannelModel { ready: false, slot: None }
}

/// The sender writes the slot, then sets the flag.
pub open spec fn channel_send<V>(c: ChannelModel<V>, v: V) -> ChannelModel<V> {
    ChannelModel { ready: true, slot: Some(v) }
}

/// The receiver clears the flag; when it was set, it takes the message.
pub open spec fn channel_receive<V>(c: ChannelModel<V>) -> (Option<V>, ChannelModel<V>) {
    if c.ready {
        (c.slot, channel_empty())
    } else {
        (None, c)
    }
}

/// How many messages dropping the channel destroys: the one left in the slot.
pub open spec fn channel_drop_count<V>(c: ChannelModel<V>) -> nat {
    if c.ready { 1 } else { 0 }
}

/// Exactly-once delivery: after one send of `v` the receiver gets `v`, a
/// second receive gets nothing, and the message is destroyed once either
/// way, by the receiver's owner after a receive, or by the channel's drop
/// when it was never received.
pub proof fn lemma_oneshot_delivery<V>(v: V)
    ensures
        channel_wf(channel_send(channel_empty::<V>(), v)),
        channel_receive(channel_send(channel_empty::<V>(), v)).0 == Some(v),
        channel_receive(channel_receive(channel_send(channel_empty::<V>(), v)).1).0 is None,
        channel_drop_count(channel_receive(channel_send(channel_empty::<V>(), v)).1) == 0,
        channel_drop_count(channel_send(channel_empty::<V>(), v)) == 1,
{
}

/// The flag the sender stores: that of a channel holding a message.
pub fn ready_flag() -> (r: bool)
    ensures
        forall|c: ChannelModel<()>| #[trigger] channel_send(c, ()).ready == r,
{
    true
}

/// The flag the receiver swaps in: that of a channel after any receive.
pub fn cleared_flag() -> (r: bool)
    ensures
        forall|c: ChannelModel<()>| #[trigger] channel_receive(c).1.ready == r,
{
    false
}

pub struct OneshotChannel {
    ready: AtomicBool,
}

/// The sending end of `channel`.
pub struct Sender<'a> {
    pub channel: &'a OneshotChannel,
}

/// The receiving end of `channel`.
pub struct Receiver<'a> {
    pub channel: &'a OneshotChannel,
}

impl OneshotChannel {
    /// A channel that holds no message.
    pub fn new() -> (r: OneshotChannel) {
        OneshotChannel { ready: AtomicBool::new(false) }
    }

    /// Resets the channel, for reuse once both ends of an earlier split are
    /// gone, and hands out its two ends, both bound to this channel.
    pub fn split(&mut self) -> (r: (Sender<'_>, Receiver<'_>))
        ensures
            *r.0.channel == *final(self),
            *r.1.channel == *final(self),
    {
        *self = OneshotChannel::new();
        let this: &OneshotChannel = self;
        (Sender { channel: this }, Receiver { channel: this })
    }

    /// Whether the slot holds a message that nobody received, for the
    /// channel's owner to destroy it.
    pub fn holds_message(&mut self) -> bool {
        self.ready.load(Ordering::Relaxed)
    }
}

impl<'a> Sender<'a> {
    /// The sender's step, after it wrote the slot: sets the flag with release
    /// ordering.
    pub fn send(self) {
        self.channel.ready.store(ready_flag(), Ordering::Release);
    }
}

impl<'a> Receiver<'a> {
    /// One round of `receive`: clears the flag with acquire ordering; true
    /// when it was set, and the slot is then the receiver's to read.
    pub fn try_receive(&self) -> bool {
        self.channel.ready.swap(cleared_flag(), Ordering::Acquire)
    }
}

} // verus!
