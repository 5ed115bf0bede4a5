//! The dispatcher: fan-out of one alert to every registered destination
//! queue.
//!
//! Each destination owns the receiving end of an unbounded channel; the
//! dispatcher holds the sending ends. A ghost history records, per
//! destination, the alerts its queue accepted, in order, so the fan-out
//! contract can say that one broadcast hands every destination exactly
//! one copy and that one dead destination never touches the others.

use vstd::prelude::*;

verus! {

use crate::alert::{AlertView, BvrChirpMessage};

#[verifier::external_type_specification]
#[verifier::external_body]
#[verifier::reject_recursive_types(T)]
pub struct ExSender<T>(crossbeam_channel::Sender<T>);

/// The sending end of one destination's delivery queue, with the
/// destination's name and the ghost history of alerts the queue accepted.
pub struct TxClient {
    pub name: String,
    pub tx: crossbeam_channel::Sender<BvrChirpMessage>,
    pub sent: Ghost<Seq<AlertView>>,
}

impl TxClient {
    /// Wraps one destination's queue sender, with an empty history.
    pub fn new(name: String, tx: crossbeam_channel::Sender<BvrChirpMessage>) -> (c: TxClient)
        ensures
            c.name == name,
            c.sent@ == Seq::<AlertView>::empty(),
    {
        TxClient { name, tx, sent: Ghost(Seq::empty()) }
    }

    /// Relies on `crossbeam_channel::Sender::send`: on `Ok` the message
    /// was placed in the channel, in send order; on `Err` the receiving
    /// end was dropped and nothing was placed. On an unbounded channel
    /// (the delivery queues are unbounded) `send` never blocks.
    #[verifier::external_body]
    fn send_alert(&mut self, msg: &BvrChirpMessage) -> (ok: bool)
        ensures
            final(self).name == old(self).name,
            final(self).tx == old(self).tx,
            ok ==> final(self).sent@ == old(self).sent@.push(msg@),
            !ok ==> final(self).sent@ == old(self).sent@,
    {
        self.tx.send(msg.clone()).is_ok()
    }
}

/// The fan-out broadcaster: holds one queue sender per registered
/// destination and routes every alert to all of them. Holds no alert
/// state of its own between broadcasts.
pub struct Dispatcher {
    pub clients: Vec<TxClient>,
}

impl Dispatcher {
    /// A dispatcher with no destinations registered.
    pub fn new() -> (d: Dispatcher)
        ensures
            d.clients@ == Seq::<TxClient>::empty(),
    {
        Dispatcher { clients: Vec::new() }
    }

    /// Registers a destination's queue sender, but only if the
    /// destination is enabled: a disabled destination is never
    /// registered and so never receives an alert.
    pub fn register(
        &mut self,
        name: String,
        enabled: bool,
        tx: crossbeam_channel::Sender<BvrChirpMessage>,
    ) -> (added: bool)
        ensures
            added == enabled,
            !enabled ==> final(self).clients@ == old(self).clients@,
            enabled ==> final(self).clients@ == old(self).clients@.push(
                (TxClient { name, tx, sent: Ghost(Seq::empty()) }),
            ),
    {
        if enabled {
            self.clients.push(TxClient { name, tx, sent: Ghost(Seq::empty()) });
            true
        } else {
            false
        }
    }

    /// How many destinations are registered.
    pub fn len(&self) -> (n: usize)
        ensures
            n == self.clients@.len(),
    {
        self.clients.len()
    }

    /// Broadcasts one alert: offers exactly one copy to every registered
    /// destination's queue, in registration order. `delivered[i]` reports
    /// whether destination `i` accepted it; a destination whose receiver
    /// is gone is merely marked undelivered, and neither stops the
    /// broadcast nor touches any other destination's queue.
    pub fn broadcast(&mut self, msg: &BvrChirpMessage) -> (delivered: Vec<bool>)
        ensures
            final(self).clients@.len() == old(self).clients@.len(),
            delivered@.len() == old(self).clients@.len(),
            forall|i: int|
                0 <= i < old(self).clients@.len() ==> #[trigger] final(self).clients@[i].name
                    == old(self).clients@[i].name,
            forall|i: int|
                0 <= i < old(self).clients@.len() ==> #[trigger] final(self).clients@[i].tx == old(
                    self,
                ).clients@[i].tx,
            forall|i: int|
                0 <= i < old(self).clients@.len() && delivered@[i]
                    ==> #[trigger] final(self).clients@[i].sent@ == old(
                    self,
                ).clients@[i].sent@.push(msg@),
            forall|i: int|
                0 <= i < old(self).clients@.len() && !delivered@[i]
                    ==> #[trigger] final(self).clients@[i].sent@ == old(self).clients@[i].sent@,
    {
        let n = self.clients.len();
        let mut delivered: Vec<bool> = Vec::new();
        let mut i: usize = 0;
        while i < n
            invariant
                n == self.clients@.len(),
                n == old(self).clients@.len(),
                i <= n,
                delivered@.len() == i,
                forall|j: int|
                    i <= j < n ==> #[trigger] self.clients@[j] == old(self).clients@[j],
                forall|j: int|
                    0 <= j < i ==> #[trigger] self.clients@[j].name == old(self).clients@[j].name,
                forall|j: int|
                    0 <= j < i ==> #[trigger] self.clients@[j].tx == old(self).clients@[j].tx,
                forall|j: int|
                    0 <= j < i && delivered@[j] ==> #[trigger] self.clients@[j].sent@ == old(
                        self,
                    ).clients@[j].sent@.push(msg@),
                forall|j: int|
                    0 <= j < i && !delivered@[j] ==> #[trigger] self.clients@[j].sent@ == old(
                        self,
                    ).clients@[j].sent@,
            decreases n - i,
        {
            let ok = self.clients[i].send_alert(msg);
            delivered.push(ok);
            i += 1;
        }
        delivered
    }
}

} // verus!
