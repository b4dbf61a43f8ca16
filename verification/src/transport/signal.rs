//! Unbounded queues of events, on `async_channel`.
//!
//! As with the queues of packets, each end keeps a log of what went through it, and the link
//! that tells which queue it is an end of; the sending end also keeps what it was asked to put in,
//! and the receiving end what each look into the queue has found. Several tasks may put events
//! into one queue, so nothing ties the log of one end to that of the other.
use async_channel::{unbounded, Receiver, Sender};
use vstd::prelude::*;
use crate::transport::error::{accepted, Error};

verus! {

/// `async_channel::Sender`, not looked into.
#[verifier::external_type_specification]
#[verifier::external_body]
#[verifier::reject_recursive_types(T)]
pub struct ExSender<T>(async_channel::Sender<T>);

/// `async_channel::Receiver`, not looked into.
#[verifier::external_type_specification]
#[verifier::external_body]
#[verifier::reject_recursive_types(T)]
pub struct ExReceiver<T>(async_channel::Receiver<T>);

/// The end of an event queue that events are put into.
#[verifier::reject_recursive_types(T)]
pub struct SignalSender<T> {
    tx: Sender<T>,
    link: Ghost<Sender<T>>,
    log: Ghost<Seq<T>>,
    attempts: Ghost<Seq<T>>,
}

/// The end of an event queue that events are taken out of.
#[verifier::reject_recursive_types(T)]
pub struct SignalReceiver<T> {
    rx: Receiver<T>,
    link: Ghost<Sender<T>>,
    log: Ghost<Seq<T>>,
    looks: Ghost<Seq<Option<T>>>,
}

/// Both ends of an event queue that nobody else has got hold of yet.
#[verifier::reject_recursive_types(T)]
pub(crate) struct NewSignal<T> {
    sender: SignalSender<T>,
    receiver: SignalReceiver<T>,
}

/// `async_channel::unbounded`: makes an event queue.
///
/// Claimed of it: the two ends belong to one queue, which nothing has gone through and nobody
/// has looked into yet.
#[verifier::external_body]
pub(crate) fn signal<T>() -> (new: NewSignal<T>)
    ensures
        new.sender().link() == new.receiver().link(),
        new.sender().log() == Seq::<T>::empty(),
        new.sender().attempts() == Seq::<T>::empty(),
        new.receiver().log() == Seq::<T>::empty(),
        new.receiver().looks() == Seq::<Option<T>>::empty(),
{
    let (tx, rx) = unbounded::<T>();
    let ghost link = tx;
    let (log, attempts) = (Ghost(Seq::empty()), Ghost(Seq::empty()));
    let sender = SignalSender { tx, link: Ghost(link), log, attempts };
    let (log, looks) = (Ghost(Seq::empty()), Ghost(Seq::empty()));
    NewSignal { sender, receiver: SignalReceiver { rx, link: Ghost(link), log, looks } }
}

impl<T> NewSignal<T> {
    /// The end that events are put into.
    pub closed spec fn sender(&self) -> SignalSender<T> {
        self.sender
    }

    /// The end that events are taken out of.
    pub closed spec fn receiver(&self) -> SignalReceiver<T> {
        self.receiver
    }

    /// `Sender::try_send`, while both ends are still here: puts an event into the queue.
    ///
    /// Claimed of it: the queue has taken the event. It would refuse one only if it were full,
    /// which an unbounded queue never is, or closed, which comes of closing it or of the loss of
    /// all ends of one side; and nobody but the owner of both ends could do either.
    #[verifier::external_body]
    pub(crate) fn try_send(&mut self, event: T) -> (sent: Result<(), T>)
        ensures
            sent is Ok,
            final(self).sender().link() == old(self).sender().link(),
            final(self).sender().log() == old(self).sender().log().push(event),
            final(self).sender().attempts() == old(self).sender().attempts().push(event),
            final(self).receiver() == old(self).receiver(),
    {
        self.sender.tx.try_send(event).map_err(|e| e.into_inner())
    }

    /// The two ends of the queue.
    pub(crate) fn ends(self) -> (ends: (SignalSender<T>, SignalReceiver<T>))
        ensures
            ends == (self.sender(), self.receiver()),
    {
        (self.sender, self.receiver)
    }
}

impl<T> SignalSender<T> {
    /// The sending end that the queue was made with, which stands for the queue.
    pub closed spec fn link(&self) -> Sender<T> {
        self.link@
    }

    /// The events that were put into the queue through this end, oldest first.
    pub closed spec fn log(&self) -> Seq<T> {
        self.log@
    }

    /// The events that this end was asked to put into the queue, whether or not the queue took
    /// them, oldest first.
    pub closed spec fn attempts(&self) -> Seq<T> {
        self.attempts@
    }

    /// `Clone` on `async_channel::Sender`: another sending end.
    ///
    /// Claimed of it: it is an end of the same queue, and nothing has gone through it yet.
    #[verifier::external_body]
    pub(crate) fn another(&self) -> (sender: SignalSender<T>)
        ensures
            sender.link() == self.link(),
            sender.log() == Seq::<T>::empty(),
            sender.attempts() == Seq::<T>::empty(),
    {
        let (log, attempts) = (Ghost(Seq::empty()), Ghost(Seq::empty()));
        SignalSender { tx: self.tx.clone(), link: Ghost(self.link@), log, attempts }
    }

    /// `Sender::try_send`: puts an event into the queue.
    ///
    /// Claimed of it: this is one attempt, with this event; either the queue has taken the event,
    /// or it has not and the event comes back. Whether the other end is gone depends on other
    /// tasks, so nothing is claimed of which of the two happens.
    #[verifier::external_body]
    fn try_send(&mut self, event: T) -> (sent: Result<(), T>)
        ensures
            final(self).link() == old(self).link(),
            final(self).attempts() == old(self).attempts().push(event),
            match sent {
                Ok(()) => final(self).log() == old(self).log().push(event),
                Err(refused) => final(self).log() == old(self).log() && refused == event,
            },
    {
        self.tx.try_send(event).map_err(|e| e.into_inner())
    }
}

impl<T> SignalSender<T> {
    /// Puts an event into the queue. Fails if the other end is gone.
    pub fn notify(&mut self, event: T) -> (done: Result<(), Error>)
        ensures
            final(self).link() == old(self).link(),
            final(self).attempts() == old(self).attempts().push(event),
            match done {
                Ok(()) => final(self).log() == old(self).log().push(event),
                Err(error) => error == Error::Channel && final(self).log() == old(self).log(),
            },
    {
        accepted(self.try_send(event))
    }
}

impl<T> SignalReceiver<T> {
    /// The sending end that the queue was made with, which stands for the queue.
    pub closed spec fn link(&self) -> Sender<T> {
        self.link@
    }

    /// The events that were taken out of the queue through this end, oldest first. What a task
    /// that waits on the channel below takes is not in it.
    pub closed spec fn log(&self) -> Seq<T> {
        self.log@
    }

    /// What each look into the queue through this end has found, oldest first. A task that waits
    /// on the channel below does not look through this end.
    pub closed spec fn looks(&self) -> Seq<Option<T>> {
        self.looks@
    }

    /// `Receiver::try_recv`: looks into the queue once, and takes the next event out, if there is
    /// one.
    ///
    /// Claimed of it: what it returns is what this look has found; if that is an event, it is the
    /// one event that was taken out. What is in the queue depends on other tasks, so nothing is
    /// claimed of what comes out.
    #[verifier::external_body]
    pub(crate) fn try_recv(&mut self) -> (received: Option<T>)
        ensures
            final(self).link() == old(self).link(),
            final(self).looks() == old(self).looks().push(received),
            match received {
                Some(event) => final(self).log() == old(self).log().push(event),
                None => final(self).log() == old(self).log(),
            },
    {
        self.rx.try_recv().ok()
    }

    /// The receiving end of the channel below, for a task that waits on it.
    pub fn receiver(&self) -> (rx: &Receiver<T>)
        ensures
            *rx == self.spec_receiver(),
    {
        &self.rx
    }

    /// The receiving end of the channel below.
    pub closed spec fn spec_receiver(&self) -> Receiver<T> {
        self.rx
    }
}

/// The event that a look into an event queue has taken out, if there was a look and it found one.
pub open spec fn heard_at<T>(look: Option<Option<T>>) -> Option<T> {
    match look {
        Some(found) => found,
        None => None,
    }
}

/// A look takes an event out exactly if it finds one.
pub proof fn law_a_look_hears_what_it_finds<T>(look: Option<Option<T>>, event: T)
    ensures
        heard_at(look) == Some(event) <==> look == Some(Some(event)),
        heard_at(look) is None <==> (look is None || look == Some(None::<T>)),
{
}

/// Every event is handed to the queue once, unchanged and behind those handed over before; if the
/// queue refuses it, its other end is said to be gone.
pub proof fn law_an_event_is_handed_over<T>(
    sender: &mut SignalSender<T>,
    event: T,
    done: Result<(), Error>,
)
    requires
        call_ensures(SignalSender::<T>::notify, (sender, event), done),
    ensures
        final(sender).link() == old(sender).link(),
        final(sender).attempts() == old(sender).attempts().push(event),
        match done {
            Ok(()) => final(sender).log() == old(sender).log().push(event),
            Err(Error::Channel) => final(sender).log() == old(sender).log(),
            Err(_) => false,
        },
{
}

}
