//! The context: a node bundled with its event stream, from creation to
//! release.
//!
//! The node and the stream belong to the runtime that this library does not
//! see, so the context is generic in both. It is a linear value: it is made
//! once, lent to each call that uses it, and released by the one call that
//! takes it by value.

use crate::event::Event;
use vstd::prelude::*;

verus! {

/// A node together with the event stream that belongs to it.
///
/// The node lives in a box of its own, so that its address stays the same
/// however the context is moved.
pub struct DoraContext<N, S> {
    node: Box<N>,
    events: S,
    drained: bool,
}

impl<N, S> DoraContext<N, S> {
    /// The node.
    pub closed spec fn node(self) -> N {
        *self.node
    }

    /// The event stream.
    pub closed spec fn events(self) -> S {
        self.events
    }

    /// Whether the event stream has reported that it is closed for good.
    pub closed spec fn drained(self) -> bool {
        self.drained
    }

    /// The node, to transmit through.
    pub fn node_mut(&mut self) -> (node: &mut N)
        ensures
            *node == old(self).node(),
            final(self).node() == *final(node),
            final(self).events() == old(self).events(),
            final(self).drained() == old(self).drained(),
    {
        &mut *self.node
    }

    /// The event stream, to ask for what comes next.
    pub fn events_mut(&mut self) -> (events: &mut S)
        ensures
            *events == old(self).events(),
            final(self).events() == *final(events),
            final(self).node() == old(self).node(),
            final(self).drained() == old(self).drained(),
    {
        &mut self.events
    }

    /// Whether the event stream has reported that it is closed for good. Once
    /// it has, the stream is not to be asked again.
    pub fn is_drained(&self) -> (drained: bool)
        ensures
            drained == self.drained(),
    {
        self.drained
    }
}

/// What one request for the next event does, given whether the stream had
/// already reported its end and what the stream handed over: whether the stream
/// counts as ended afterwards, and what the caller gets.
pub open spec fn next_event_step<T>(drained: bool, received: Option<T>) -> (bool, Option<T>) {
    if drained {
        (true, None)
    } else {
        (received is None, received)
    }
}

/// Whether the stream counts as ended after a series of requests, the first of
/// which found it in the state `drained`.
pub open spec fn drained_after<T>(drained: bool, received: Seq<Option<T>>) -> bool
    decreases received.len(),
{
    if received.len() == 0 {
        drained
    } else {
        next_event_step(drained_after(drained, received.drop_last()), received.last()).0
    }
}

/// What request number `i` of a series gives the caller.
pub open spec fn yielded<T>(drained: bool, received: Seq<Option<T>>, i: int) -> Option<T>
    recommends
        0 <= i < received.len(),
{
    next_event_step(drained_after(drained, received.take(i)), received[i]).1
}

/// Makes the context from what the initialization of the node gave: the
/// context of the node and its stream, or `None` where the initialization
/// failed.
pub fn init_dora_context_from_env<N, S, E>(init: Result<(N, S), E>) -> (context: Option<
    DoraContext<N, S>,
>)
    ensures
        match init {
            Ok((node, events)) => context matches Some(context) && context.node() == node
                && context.events() == events && !context.drained(),
            Err(_) => context is None,
        },
{
    match init {
        Ok((node, events)) => Some(DoraContext { node: Box::new(node), events, drained: false }),
        Err(_) => None,
    }
}

/// Releases the context: the event stream is dropped, and the node is handed
/// back in its box for the caller to drop after it.
pub fn free_dora_context<N, S>(context: DoraContext<N, S>) -> (node: Box<N>)
    ensures
        *node == context.node(),
{
    // the stream goes out of scope here; the node leaves with the caller
    let DoraContext { node, events: _stream, drained: _ } = context;
    node
}

/// Settles one request for the next event, given what the event stream handed
/// over for it (`None`: the stream is closed for good). The caller gets the
/// event; once the stream has reported its end, it gets `None` whatever is
/// handed over.
pub fn dora_next_event<N, S>(context: &mut DoraContext<N, S>, received: Option<Event>) -> (event:
    Option<Event>)
    ensures
        (final(context).drained(), event) == next_event_step(old(context).drained(), received),
        final(context).node() == old(context).node(),
        final(context).events() == old(context).events(),
{
    if context.drained {
        None
    } else {
        if received.is_none() {
            context.drained = true;
        }
        received
    }
}

/// A stream that counts as ended stays so, whatever is handed over later.
pub proof fn lemma_drained_stays_drained<T>(received: Seq<Option<T>>)
    ensures
        drained_after(true, received),
    decreases received.len(),
{
    if received.len() > 0 {
        lemma_drained_stays_drained(received.drop_last());
    }
}

/// After the request that found the stream closed, the stream counts as ended
/// for every later request.
pub proof fn lemma_drained_after_close<T>(drained: bool, received: Seq<Option<T>>, k: int)
    requires
        0 <= k < received.len(),
        received[k] is None,
    ensures
        drained_after(drained, received),
    decreases received.len(),
{
    if k < received.len() - 1 {
        lemma_drained_after_close(drained, received.drop_last(), k);
    }
}

/// Once a request has found the stream closed, that request and every later
/// one give the caller `None`.
pub proof fn lemma_closed_stream_yields_nothing<T>(
    drained: bool,
    received: Seq<Option<T>>,
    k: int,
    i: int,
)
    requires
        0 <= k <= i < received.len(),
        received[k] is None,
    ensures
        yielded(drained, received, i) is None,
{
    if k < i {
        lemma_drained_after_close(drained, received.take(i), k);
    }
}

} // verus!
