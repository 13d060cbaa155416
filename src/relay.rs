//! The streaming relay: a pull loop that forwards each downstream chunk to
//! the caller as it comes, and closes for good on the end of the stream or on
//! the first read or write failure.
use vstd::prelude::*;

verus! {

/// What the host observed since the last step.
pub enum StreamEvent {
    /// The downstream stream yielded a chunk.
    Chunk(Vec<u8>),
    /// The downstream stream ended.
    End,
    /// Reading from the downstream stream failed.
    ReadFailed,
    /// Writing the last chunk to the caller failed.
    WriteFailed,
}

/// The mathematical form of a [`StreamEvent`].
pub ghost enum EventView {
    Chunk(Seq<u8>),
    End,
    ReadFailed,
    WriteFailed,
}

impl View for StreamEvent {
    type V = EventView;

    open spec fn view(&self) -> EventView {
        match self {
            StreamEvent::Chunk(c) => EventView::Chunk(c@),
            StreamEvent::End => EventView::End,
            StreamEvent::ReadFailed => EventView::ReadFailed,
            StreamEvent::WriteFailed => EventView::WriteFailed,
        }
    }
}

/// What the host is to do next.
pub enum RelayAction {
    /// Write these bytes to the caller, then report the next event.
    Send(Vec<u8>),
    /// Stop: release the downstream connection and send nothing more.
    Close,
}

/// The relay's state: open until it closes, closed for good after that.
pub struct Relay {
    pub closed: bool,
}

/// The chunks that an open relay forwards, in order, for the given events.
pub open spec fn relay_run(events: Seq<EventView>) -> Seq<Seq<u8>>
    decreases events.len(),
{
    if events.len() == 0 {
        Seq::empty()
    } else {
        match events[0] {
            EventView::Chunk(c) => seq![c] + relay_run(events.drop_first()),
            _ => Seq::empty(),
        }
    }
}

/// The view of a list of events.
pub open spec fn events_view(v: Seq<StreamEvent>) -> Seq<EventView> {
    v.map_values(|e: StreamEvent| e@)
}

/// The view of a list of chunks.
pub open spec fn chunks_view(v: Seq<Vec<u8>>) -> Seq<Seq<u8>> {
    v.map_values(|c: Vec<u8>| c@)
}

/// A downstream stream that yields the given chunks.
pub open spec fn chunk_events(chunks: Seq<Seq<u8>>) -> Seq<EventView> {
    chunks.map_values(|c: Seq<u8>| EventView::Chunk(c))
}

impl Relay {
    /// An open relay.
    pub fn new() -> (r: Relay)
        ensures
            !r.closed,
    {
        Relay { closed: false }
    }

    /// One turn of the loop: an open relay forwards a chunk verbatim and
    /// stays open; anything else, or any event once closed, closes it.
    pub fn step(&mut self, event: StreamEvent) -> (a: RelayAction)
        ensures
            match (old(self).closed, event@) {
                (false, EventView::Chunk(c)) => a matches RelayAction::Send(d) && d@ == c && !final(self).closed,
                _ => a is Close && final(self).closed,
            },
    {
        if self.closed {
            return RelayAction::Close;
        }
        match event {
            StreamEvent::Chunk(data) => RelayAction::Send(data),
            _ => {
                self.closed = true;
                RelayAction::Close
            },
        }
    }
}

/// Runs the relay over a finite list of events and returns what it wrote to
/// the caller, chunk by chunk.
pub fn relay_all(events: Vec<StreamEvent>) -> (sent: Vec<Vec<u8>>)
    ensures
        chunks_view(sent@) == relay_run(events_view(events@)),
{
    let ghost all = events_view(events@);
    let mut relay = Relay::new();
    let mut sent: Vec<Vec<u8>> = Vec::new();
    let mut pending = events;
    assert(all.subrange(0, all.len() as int) =~= all);
    while pending.len() > 0
        invariant
                        events_view(pending@) == all.subrange(all.len() - pending@.len(), all.len() as int),
            pending@.len() <= all.len(),
            all == events_view(events@),
            !relay.closed ==> chunks_view(sent@) + relay_run(
                all.subrange(all.len() - pending@.len(), all.len() as int),
            ) == relay_run(all),
            relay.closed ==> chunks_view(sent@) == relay_run(all),
        decreases pending@.len(),
    {
        let ghost rest = all.subrange(all.len() - pending@.len(), all.len() as int);
        let ghost before = chunks_view(sent@);
        let ghost evs = pending@;
        assert(events_view(evs)[0] == evs[0]@);
        let e = pending.remove(0);
        assert(rest[0] == e@);
        assert(events_view(pending@) =~= events_view(evs).drop_first());
        assert(rest.drop_first() =~= all.subrange(all.len() - pending@.len(), all.len() as int));
        let was_closed = relay.closed;
        match relay.step(e) {
            RelayAction::Send(d) => {
                sent.push(d);
                assert(chunks_view(sent@) =~= before.push(d@));
                assert(before.push(d@) + relay_run(rest.drop_first()) =~= before + (seq![d@] + relay_run(rest.drop_first())));
            },
            RelayAction::Close => {
                if !was_closed {
                    assert(relay_run(rest) =~= Seq::<Seq<u8>>::empty());
                    assert(before + relay_run(rest) =~= before);
                }
                assert(chunks_view(sent@) == before);
                assert(before == relay_run(all));
                return sent;
            },
        }
    }
    assert(all.subrange(all.len() - 0, all.len() as int) =~= Seq::<EventView>::empty());
    assert(chunks_view(sent@) + Seq::<Seq<u8>>::empty() =~= chunks_view(sent@));
    sent
}

/// A stream of chunks followed by its end is relayed chunk for chunk: the
/// caller receives the same chunks, with the same boundaries, and hence the
/// same bytes in the same order.
pub proof fn lemma_relay_round_trip(chunks: Seq<Seq<u8>>)
    ensures
        relay_run(chunk_events(chunks) + seq![EventView::End]) == chunks,
        relay_run(chunk_events(chunks) + seq![EventView::End]).flatten() == chunks.flatten(),
    decreases chunks.len(),
{
    let evs = chunk_events(chunks) + seq![EventView::End];
    if chunks.len() == 0 {
        assert(evs =~= seq![EventView::End]);
        assert(relay_run(evs) =~= chunks);
    } else {
        lemma_relay_round_trip(chunks.drop_first());
        assert(evs.drop_first() =~= chunk_events(chunks.drop_first()) + seq![EventView::End]);
        assert(evs[0] == EventView::Chunk(chunks[0]));
        assert(relay_run(evs) =~= chunks);
    }
}

} // verus!
