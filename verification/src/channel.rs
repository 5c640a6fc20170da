//! The command channel: a bounded, ordered, multi-producer/single-consumer
//! queue of seal commands. Commands are consumed strictly in arrival order;
//! a full buffer pushes back on producers rather than dropping anything;
//! closing is terminal and drains what was still queued.

use vstd::prelude::*;
use crate::types::{ChannelError, SealCommand};

verus! {

/// A bounded FIFO buffer of seal commands with a terminal closed state.
#[derive(Debug)]
pub struct CommandChannel {
    /// The queued commands, arrival order, oldest first.
    pub queue: Vec<SealCommand>,
    /// Upper bound on the number of queued commands.
    pub capacity: usize,
    /// Whether the channel was closed; closing is terminal.
    pub closed: bool,
}

impl CommandChannel {
    /// Whether the buffer respects its bound.
    pub open spec fn wf(self) -> bool {
        self.queue@.len() <= self.capacity
    }

    /// An open, empty channel buffering at most `capacity` commands.
    pub fn new(capacity: usize) -> (c: CommandChannel)
        ensures
            c.wf(),
            c.queue@ =~= Seq::<SealCommand>::empty(),
            c.capacity == capacity,
            !c.closed,
    {
        CommandChannel { queue: Vec::new(), capacity, closed: false }
    }

    /// The number of commands waiting to be consumed.
    pub fn queued_count(&self) -> (n: usize)
        ensures
            n == self.queue@.len(),
    {
        self.queue.len()
    }

    /// Whether the channel was shut down.
    pub fn is_closed(&self) -> (r: bool)
        ensures
            r == self.closed,
    {
        self.closed
    }

    /// Appends a command. Fails on a closed channel, and on a full buffer
    /// signals backpressure — the producer must wait and retry; a command
    /// is never dropped once accepted.
    pub fn enqueue(&mut self, cmd: SealCommand) -> (r: Result<(), ChannelError>)
        requires
            old(self).wf(),
        ensures
            final(self).wf(),
            final(self).capacity == old(self).capacity,
            final(self).closed == old(self).closed,
            r == Err::<(), ChannelError>(ChannelError::Closed) <==> old(self).closed,
            r == Err::<(), ChannelError>(ChannelError::Full) <==> !old(self).closed
                && old(self).queue@.len() == old(self).capacity,
            r is Ok ==> final(self).queue@ == old(self).queue@.push(cmd),
            r is Err ==> final(self).queue@ == old(self).queue@,
    {
        if self.closed {
            return Err(ChannelError::Closed);
        }
        if self.queue.len() == self.capacity {
            return Err(ChannelError::Full);
        }
        self.queue.push(cmd);
        Ok(())
    }

    /// Takes the oldest queued command, or nothing when the buffer is
    /// empty (the consumer would suspend and resume in FIFO order).
    pub fn dequeue(&mut self) -> (r: Option<SealCommand>)
        requires
            old(self).wf(),
        ensures
            final(self).wf(),
            final(self).capacity == old(self).capacity,
            final(self).closed == old(self).closed,
            old(self).queue@.len() == 0 ==> r is None && final(self).queue@ == old(self).queue@,
            old(self).queue@.len() > 0 ==> r == Some(old(self).queue@[0]) && final(self).queue@
                == old(self).queue@.subrange(1, old(self).queue@.len() as int),
    {
        if self.queue.len() == 0 {
            return None;
        }
        let cmd = self.queue.remove(0);
        proof {
            assert(self.queue@ =~= old(self).queue@.subrange(1, old(self).queue@.len() as int));
        }
        Some(cmd)
    }

    /// Shuts the channel down and hands back every command still queued,
    /// in arrival order, so each can be drained with a shutdown reply.
    /// Closing is terminal: every later enqueue fails.
    pub fn close(&mut self) -> (drained: Vec<SealCommand>)
        requires
            old(self).wf(),
        ensures
            final(self).wf(),
            final(self).capacity == old(self).capacity,
            final(self).closed,
            final(self).queue@.len() == 0,
            drained@ == old(self).queue@,
    {
        self.closed = true;
        let drained = self.queue.split_off(0);
        proof {
            assert(drained@ =~= old(self).queue@);
        }
        drained
    }
}

} // verus!
