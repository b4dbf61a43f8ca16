//! Unbounded queues of packets between tasks, on `tokio::sync::mpsc`.
//!
//! Other tasks put packets in and take them out at any time, so nothing is said of what a queue
//! holds. Each end keeps a log of what went through it instead, and the link that tells which
//! queue it is an end of; the sending end also keeps what it was asked to put in, and the
//! receiving end what each look into the queue has found. Both logs follow the stream of the
//! queue, so that values come out as they went in.
use tokio::sync::mpsc::error::TryRecvError;
use tokio::sync::mpsc::{unbounded_channel, UnboundedReceiver, UnboundedSender};
use vstd::prelude::*;

verus! {

/// `tokio::sync::mpsc::UnboundedSender`, not looked into.
#[verifier::external_type_specification]
#[verifier::external_body]
#[verifier::reject_recursive_types(T)]
pub struct ExUnboundedSender<T>(tokio::sync::mpsc::UnboundedSender<T>);

/// `tokio::sync::mpsc::UnboundedReceiver`, not looked into.
#[verifier::external_type_specification]
#[verifier::external_body]
#[verifier::reject_recursive_types(T)]
pub struct ExUnboundedReceiver<T>(tokio::sync::mpsc::UnboundedReceiver<T>);

/// A type whose values hold nothing that exists in proofs only. What goes through a queue is of
/// such a type, so that it cannot depend on the stream of the queue.
pub(crate) trait Plain {

}

impl Plain for Vec<u8> {

}

/// Which queue it is.
#[verifier::reject_recursive_types(T)]
pub struct Link<T> {
    /// The sending half that the queue was made with.
    pub tx: UnboundedSender<T>,
    /// The values that the queue takes in the course of time, those to come included: the one at
    /// `i` is the one before which it has taken `i` others.
    pub stream: spec_fn(int) -> T,
}

/// Whether the values of a log are the first that a queue takes, in order.
pub open spec fn follows<T>(log: Seq<T>, link: Link<T>) -> bool {
    forall|i: int| 0 <= i < log.len() ==> #[trigger] log[i] == (link.stream)(i)
}

/// The end of a queue that values are put into. A queue has one only.
#[verifier::reject_recursive_types(T)]
pub struct Outbox<T> {
    tx: UnboundedSender<T>,
    link: Ghost<Link<T>>,
    log: Ghost<Seq<T>>,
    attempts: Ghost<Seq<T>>,
}

/// The end of a queue that values are taken out of. A queue has one only.
#[verifier::reject_recursive_types(T)]
pub struct Inbox<T> {
    rx: UnboundedReceiver<T>,
    link: Ghost<Link<T>>,
    log: Ghost<Seq<T>>,
    looks: Ghost<Seq<Look<T>>>,
    lent: Ghost<bool>,
}

/// A value that a queue did not take, because its other end is gone.
#[derive(Debug)]
pub struct Refused<T> {
    /// The value.
    pub value: T,
    /// The reason, for a message.
    pub display: String,
    /// The reason, for a log.
    pub debug: String,
}

/// Why nothing was taken out of a queue.
#[derive(Debug)]
pub enum NotReceived {
    /// There is nothing in it now.
    Empty,
    /// There is nothing in it, and nothing will come, for the reason given.
    Disconnected(String),
}

/// What a look into a queue has found.
pub type Look<T> = Result<T, NotReceived>;

/// `tokio::sync::mpsc::unbounded_channel`: makes a queue.
///
/// Claimed of it: the two halves are the ends of one queue, which nothing has gone through and
/// nobody has looked into yet.
#[verifier::external_body]
pub(crate) fn queue<T: Plain>() -> (ends: (Outbox<T>, Inbox<T>))
    ensures
        ends.0.link() == ends.1.link(),
        ends.0.log() == Seq::<T>::empty(),
        ends.0.attempts() == Seq::<T>::empty(),
        ends.1.log() == Seq::<T>::empty(),
        ends.1.looks() == Seq::<Look<T>>::empty(),
        !ends.1.is_lent(),
{
    let (tx, rx) = unbounded_channel::<T>();
    let ghost link = Link { tx, stream: arbitrary() };
    let (log, attempts) = (Ghost(Seq::empty()), Ghost(Seq::empty()));
    let outbox = Outbox { tx, link: Ghost(link), log, attempts };
    let (log, looks) = (Ghost(Seq::empty()), Ghost(Seq::empty()));
    (outbox, Inbox { rx, link: Ghost(link), log, looks, lent: Ghost(false) })
}

impl<T> Outbox<T> {
    /// Which queue this is an end of.
    pub closed spec fn link(&self) -> Link<T> {
        self.link@
    }

    /// The values that were put into the queue through this end, oldest first.
    pub closed spec fn log(&self) -> Seq<T> {
        self.log@
    }

    /// The values that this end was asked to put into the queue, whether or not the queue took
    /// them, oldest first.
    pub closed spec fn attempts(&self) -> Seq<T> {
        self.attempts@
    }

    /// `UnboundedSender::send`: puts a value into the queue.
    ///
    /// Claimed of it: this is one attempt, with this value; either the queue has taken the value,
    /// or it has not and the value comes back in the error; and the error reads "channel closed",
    /// for a log "SendError { .. }". Whether the other end is gone depends on other tasks, so
    /// nothing is claimed of which of the two happens. All that the queue takes comes through
    /// this end, so the log follows the stream.
    #[verifier::external_body]
    pub(crate) fn send(&mut self, value: T) -> (sent: Result<(), Refused<T>>)
        ensures
            final(self).link() == old(self).link(),
            final(self).attempts() == old(self).attempts().push(value),
            follows(final(self).log(), final(self).link()),
            match sent {
                Ok(()) => final(self).log() == old(self).log().push(value),
                Err(refused) => {
                    &&& final(self).log() == old(self).log()
                    &&& refused.value == value
                    &&& refused.display@ == "channel closed"@
                    &&& refused.debug@ == "SendError { .. }"@
                },
            },
    {
        match self.tx.send(value) {
            Ok(()) => Ok(()),
            Err(e) => {
                let (display, debug) = (format!("{}", e), format!("{:?}", e));
                Err(Refused { value: e.0, display, debug })
            },
        }
    }
}

impl<T> Inbox<T> {
    /// Which queue this is an end of.
    pub closed spec fn link(&self) -> Link<T> {
        self.link@
    }

    /// The values that were taken out of the queue through this end, oldest first. What a task
    /// that waits on the channel below takes is not in it.
    pub closed spec fn log(&self) -> Seq<T> {
        self.log@
    }

    /// What each look into the queue through this end has found, oldest first. A task that waits
    /// on the channel below does not look through this end.
    pub closed spec fn looks(&self) -> Seq<Look<T>> {
        self.looks@
    }

    /// Whether the channel below was ever handed out. Whoever had it may have taken values that
    /// are not in the log.
    pub closed spec fn is_lent(&self) -> bool {
        self.lent@
    }

    /// `UnboundedReceiver::try_recv`: looks into the queue once, and takes the next value out.
    ///
    /// Claimed of it: what it returns is what this look has found; if that is a value, it is the
    /// one value that was taken out; and the error on a queue whose other ends are all gone reads
    /// "receiving on a closed channel". Values come out in the order in which they went in, so
    /// the log follows the stream, unless others have taken values too. What is in the queue
    /// depends on other tasks, so nothing is claimed of whether a value comes out.
    #[verifier::external_body]
    pub(crate) fn try_recv(&mut self) -> (received: Result<T, NotReceived>)
        ensures
            final(self).link() == old(self).link(),
            final(self).looks() == old(self).looks().push(received),
            final(self).is_lent() == old(self).is_lent(),
            !final(self).is_lent() ==> follows(final(self).log(), final(self).link()),
            match received {
                Ok(value) => final(self).log() == old(self).log().push(value),
                Err(NotReceived::Empty) => final(self).log() == old(self).log(),
                Err(NotReceived::Disconnected(reason)) => final(self).log() == old(self).log()
                    && reason@ == "receiving on a closed channel"@,
            },
    {
        match self.rx.try_recv() {
            Ok(value) => Ok(value),
            Err(TryRecvError::Empty) => Err(NotReceived::Empty),
            Err(e @ TryRecvError::Disconnected) => Err(NotReceived::Disconnected(format!("{}", e))),
        }
    }

    /// The receiving half of the channel below.
    pub closed spec fn receiver(&self) -> UnboundedReceiver<T> {
        self.rx
    }

    /// The receiving half of the channel below, for a task that waits on it.
    pub fn receiver_mut(&mut self) -> (rx: &mut UnboundedReceiver<T>)
        ensures
            *rx == old(self).receiver(),
            final(self).receiver() == *final(rx),
            final(self).link() == old(self).link(),
            final(self).log() == old(self).log(),
            final(self).looks() == old(self).looks(),
            final(self).is_lent(),
    {
        self.lent = Ghost(true);
        &mut self.rx
    }
}

/// The value that a look into a queue has taken out, if there was a look and it found one.
pub open spec fn taken_at<T>(look: Option<Look<T>>) -> Option<T> {
    match look {
        Some(Ok(value)) => Some(value),
        _ => None,
    }
}

/// A log after it was written to at most once.
pub open spec fn extended<T>(log: Seq<T>, value: Option<T>) -> Seq<T> {
    match value {
        Some(v) => log.push(v),
        None => log,
    }
}

/// What a log was extended by between two moments, if it was.
pub open spec fn added<T>(before: Seq<T>, after: Seq<T>) -> Option<T> {
    if after.len() > before.len() {
        Some(after.last())
    } else {
        None
    }
}

/// Whether a log was written to at most once between two moments.
pub open spec fn extends<T>(before: Seq<T>, after: Seq<T>) -> bool {
    after == extended(before, added(before, after))
}

/// Values come out of a queue as they went in: the value that was taken out after some others is
/// the one that was put in after as many.
pub proof fn law_values_come_out_as_they_went_in<T>(put: Seq<T>, taken: Seq<T>, link: Link<T>)
    requires
        follows(put, link),
        follows(taken, link),
    ensures
        forall|i: int|
            0 <= i < put.len() && 0 <= i < taken.len() ==> #[trigger] taken[i] == put[i],
        taken.len() <= put.len() ==> taken == put.take(taken.len() as int),
{
    if taken.len() <= put.len() {
        assert(taken =~= put.take(taken.len() as int));
    }
}

/// A log is said to be extended exactly if it is as it was or has one value more at its end; and
/// what was added is that value.
pub proof fn law_a_log_grows_by_one_at_most<T>(before: Seq<T>, after: Seq<T>, value: T)
    ensures
        extends(before, after) <==> after == before || (after.len() == before.len() + 1
            && after.drop_last() == before),
        after == before ==> added(before, after) is None,
        after == before.push(value) ==> added(before, after) == Some(value),
        extended(before, Some(value)) == before.push(value),
        extended(before, None) == before,
{
    if after.len() == before.len() + 1 && after.drop_last() == before {
        assert(after =~= before.push(after.last()));
    }
    assert(before.push(value).drop_last() =~= before);
    assert(before.push(value).last() == value);
    if extends(before, after) && after.len() > before.len() {
        assert(after.drop_last() =~= before);
    }
}

/// A look takes a value out exactly if it finds one.
pub proof fn law_a_look_takes_what_it_finds<T>(look: Option<Look<T>>, value: T)
    ensures
        taken_at(look) == Some(value) <==> look == Some(Ok::<T, NotReceived>(value)),
        taken_at(look) is None <==> (look is None || look->Some_0 is Err),
{
}

/// A log that was extended is as it was, or has one value more at its end.
pub(crate) proof fn lemma_grown<T>(before: Seq<T>, after: Seq<T>)
    ensures
        extends(before, after) && added(before, after) is None ==> after == before,
        extends(before, after) && added(before, after) is Some ==> {
            &&& after.len() == before.len() + 1
            &&& after.drop_last() == before
            &&& after == before.push(after.last())
            &&& added(before, after) == Some(after.last())
        },
{
    if extends(before, after) && added(before, after) is Some {
        assert(after.drop_last() =~= before);
    }
}

}
