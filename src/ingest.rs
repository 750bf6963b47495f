//! The queue between the transports that produce events and the dispatcher
//! that consumes them, with shutdown; and what the webhook answers.

use std::collections::VecDeque;
use vstd::prelude::*;

verus! {

/// What the consumer gets when it asks for the next event.
#[derive(Debug)]
pub enum Next<T> {
    /// The oldest event that has not been handed out yet.
    Ready(T),
    /// Nothing is queued yet; more may come.
    Pending,
    /// The queue was shut down and everything queued has been handed out.
    Closed,
}

/// A first-in first-out queue of events. Once shut down it accepts nothing
/// more, but still hands out what it holds.
pub struct UpdateQueue<T> {
    pending: VecDeque<T>,
    accepting: bool,
}

impl<T> UpdateQueue<T> {
    /// The events queued and not yet handed out, oldest first.
    pub closed spec fn pending_items(&self) -> Seq<T> {
        self.pending@
    }

    /// Whether the queue still accepts events.
    pub closed spec fn is_accepting(&self) -> bool {
        self.accepting
    }

    /// An empty queue that accepts events.
    pub fn new() -> (r: UpdateQueue<T>)
        ensures
            r.pending_items() == Seq::<T>::empty(),
            r.is_accepting(),
    {
        UpdateQueue { pending: VecDeque::new(), accepting: true }
    }

    /// Whether the queue still accepts events; a long-poll transport pulls
    /// again only while it does.
    pub fn is_open(&self) -> (r: bool)
        ensures
            r == self.is_accepting(),
    {
        self.accepting
    }

    /// Appends `item` where the queue still accepts events; tells whether it did.
    pub fn push(&mut self, item: T) -> (accepted: bool)
        ensures
            accepted == old(self).is_accepting(),
            final(self).is_accepting() == old(self).is_accepting(),
            accepted ==> final(self).pending_items() == old(self).pending_items().push(item),
            !accepted ==> final(self).pending_items() == old(self).pending_items(),
    {
        if self.accepting {
            self.pending.push_back(item);
            true
        } else {
            false
        }
    }

    /// Appends a batch of events in the order given, where the queue still
    /// accepts events; returns how many were queued.
    pub fn push_batch(&mut self, items: Vec<T>) -> (n: usize)
        ensures
            final(self).is_accepting() == old(self).is_accepting(),
            old(self).is_accepting() ==> final(self).pending_items() == old(self).pending_items()
                + items@ && n == items@.len(),
            !old(self).is_accepting() ==> final(self).pending_items() == old(self).pending_items()
                && n == 0,
    {
        if !self.accepting {
            return 0;
        }
        let ghost start = self.pending@;
        let n = items.len();
        for item in it: items.into_iter()
            invariant
                self.accepting,
                it.seq() == items@,
                self.pending@ == start + it.seq().take(it.index() as int),
        {
            assert(it.seq().take(it.index() + 1) =~= it.seq().take(it.index() as int).push(item));
            self.pending.push_back(item);
        }
        assert(items@.take(items@.len() as int) =~= items@);
        n
    }

    /// Hands out the oldest queued event; where none is queued, says whether
    /// more may come.
    pub fn next(&mut self) -> (r: Next<T>)
        ensures
            final(self).is_accepting() == old(self).is_accepting(),
            old(self).pending_items().len() > 0 ==> r == Next::Ready(old(self).pending_items()[0])
                && final(self).pending_items() == old(self).pending_items().drop_first(),
            old(self).pending_items().len() == 0 ==> final(self).pending_items() == old(
                self,
            ).pending_items() && if old(self).is_accepting() {
                r is Pending
            } else {
                r is Closed
            },
    {
        match self.pending.pop_front() {
            Some(item) => Next::Ready(item),
            None => if self.accepting {
                Next::Pending
            } else {
                Next::Closed
            },
        }
    }

    /// Stops accepting events; what is queued stays to be handed out.
    pub fn shutdown(&mut self)
        ensures
            !final(self).is_accepting(),
            final(self).pending_items() == old(self).pending_items(),
    {
        self.accepting = false;
    }
}

/// How the webhook answered one request.
#[derive(Debug, Clone, Copy, PartialEq, Eq, Structural)]
pub struct WebhookReceipt {
    /// The HTTP status sent back to the platform.
    pub status: u16,
    /// Whether the event was queued for the dispatcher.
    pub forwarded: bool,
    /// Whether the body could not be decoded (the event is dropped and the
    /// failure logged).
    pub malformed: bool,
}

/// Handles one pushed request whose body decoded to `decoded` (`None` where
/// it could not be decoded). The platform always gets 200, so that it never
/// retries a body that retrying cannot mend; a decoded event is queued.
pub fn receive_webhook<T>(queue: &mut UpdateQueue<T>, decoded: Option<T>) -> (r: WebhookReceipt)
    ensures
        r.status == 200,
        r.malformed == decoded is None,
        r.forwarded == (decoded is Some && old(queue).is_accepting()),
        final(queue).is_accepting() == old(queue).is_accepting(),
        r.forwarded ==> final(queue).pending_items() == old(queue).pending_items().push(
            decoded->0,
        ),
        !r.forwarded ==> final(queue).pending_items() == old(queue).pending_items(),
{
    match decoded {
        Some(event) => {
            let forwarded = queue.push(event);
            WebhookReceipt { status: 200, forwarded, malformed: false }
        },
        None => WebhookReceipt { status: 200, forwarded: false, malformed: true },
    }
}

} // verus!
