use vstd::prelude::*;
use crate::events::GuiEvent;
use crate::ui_state::{applied_all, effects_of, Effect, UiState};

verus! {

#[verifier::external_type_specification]
#[verifier::external_body]
#[verifier::reject_recursive_types(T)]
pub struct ExSender<T>(crossbeam_channel::Sender<T>);

#[verifier::external_type_specification]
#[verifier::external_body]
#[verifier::reject_recursive_types(T)]
pub struct ExReceiver<T>(crossbeam_channel::Receiver<T>);

/// The most events that one tick of the render loop drains.
pub const BATCH_LIMIT: usize = 10;

/// Relies on `crossbeam_channel::unbounded`: a fresh channel with no message in it.
#[verifier::external_body]
pub(crate) fn open_channel() -> (r: (crossbeam_channel::Sender<GuiEvent>, crossbeam_channel::Receiver<GuiEvent>)) {
    crossbeam_channel::unbounded()
}

/// The producing end of the event channel, with the log of every event it
/// has handed to the channel, oldest first.
pub struct EventSender {
    tx: crossbeam_channel::Sender<GuiEvent>,
    log: Ghost<Seq<GuiEvent>>,
}

impl EventSender {
    /// The events handed to the channel so far, in the order they were sent.
    pub closed spec fn sent(&self) -> Seq<GuiEvent> {
        self.log@
    }

    /// Wraps the producing end of a channel, with nothing sent yet.
    pub fn new(tx: crossbeam_channel::Sender<GuiEvent>) -> (r: EventSender)
        ensures
            r.sent() == Seq::<GuiEvent>::empty(),
    {
        EventSender { tx, log: Ghost(Seq::empty()) }
    }

    /// Relies on `crossbeam_channel::Sender::send`: on an unbounded channel it
    /// queues the message behind those sent before and returns; it fails only
    /// when every receiver is gone, and then hands the message back unsent.
    #[verifier::external_body]
    pub(crate) fn send(&mut self, e: GuiEvent) -> (r: Result<(), GuiEvent>)
        ensures
            r is Ok ==> final(self).sent() == old(self).sent().push(e),
            r matches Err(back) ==> back == e && final(self).sent() == old(self).sent(),
    {
        self.tx.send(e).map_err(|err| err.0)
    }
}

/// Relies on `crossbeam_channel::Receiver::try_recv`: it never blocks, and
/// gives the next queued message or nothing. What it gives depends on the
/// producers.
#[verifier::external_body]
pub(crate) fn receive_now(rx: &crossbeam_channel::Receiver<GuiEvent>) -> (r: Option<GuiEvent>) {
    rx.try_recv().ok()
}

/// Adds a received event to the batch; reports whether draining goes on,
/// which it does only when an event came.
pub fn take_received(batch: &mut Vec<GuiEvent>, got: Option<GuiEvent>) -> (more: bool)
    ensures
        got matches Some(e) ==> final(batch)@ == old(batch)@.push(e) && more,
        got is None ==> final(batch)@ == old(batch)@ && !more,
{
    match got {
        Some(e) => {
            batch.push(e);
            true
        },
        None => false,
    }
}

/// Takes up to `limit` queued events without blocking, in the order the
/// channel hands them out; it stops early once the channel is empty.
pub fn drain_batch(rx: &crossbeam_channel::Receiver<GuiEvent>, limit: usize) -> (r: Vec<GuiEvent>)
    ensures
        r@.len() <= limit,
{
    let mut batch: Vec<GuiEvent> = Vec::new();
    while batch.len() < limit
        invariant
            batch@.len() <= limit,
        decreases limit - batch@.len(),
    {
        let got = receive_now(rx);
        if !take_received(&mut batch, got) {
            break;
        }
    }
    batch
}

/// One tick of the render loop: drains at most `BATCH_LIMIT` events, applies
/// them to `state` in arrival order, and returns the host-side effects they
/// ask for, in order.
pub fn process_events(state: &mut UiState, rx: &crossbeam_channel::Receiver<GuiEvent>) -> (r: Vec<Effect>)
    ensures
        exists|batch: Seq<GuiEvent>|
            batch.len() <= BATCH_LIMIT
            && final(state)@ == applied_all(old(state)@, batch)
            && r@ == effects_of(batch),
{
    let batch = drain_batch(rx, BATCH_LIMIT);
    state.apply_batch(&batch)
}

} // verus!
