//! The notification bridge: engine notifications become messages, and the
//! encoded messages travel to one consumer through an unbounded FIFO channel
//! that closes when the producer ends and stops taking messages once the
//! consumer has gone.
use vstd::prelude::*;
use std::collections::VecDeque;
use crate::value::{is_object, text, Value};

verus! {

/// What happened to the record that a live query watches.
#[derive(Debug, Clone, Copy, PartialEq, Eq, Structural)]
pub enum Action {
    Create,
    Update,
    Delete,
    Killed,
}

/// The name of an action in a message.
pub open spec fn action_name(a: Action) -> Seq<char> {
    match a {
        Action::Create => "CREATE"@,
        Action::Update => "UPDATE"@,
        Action::Delete => "DELETE"@,
        Action::Killed => "KILLED"@,
    }
}

/// The name of an action in a message.
pub fn action_text(a: Action) -> (r: String)
    ensures
        r@ == action_name(a),
{
    match a {
        Action::Create => text("CREATE"),
        Action::Update => text("UPDATE"),
        Action::Delete => text("DELETE"),
        Action::Killed => text("KILLED"),
    }
}

/// A notification that the engine produced for a live query.
#[derive(Debug)]
pub struct Notification {
    /// The live query it belongs to.
    pub id: u128,
    pub action: Action,
    pub record: Value,
    pub result: Value,
}

/// Builds the message of a notification: `{id, action, record, result}`.
pub fn notification_message(n: Notification) -> (r: Value)
    ensures
        r matches Value::Object(e) && e@.len() == 4 && (e@[1].1 matches Value::Str(a) && a@
            == action_name(n.action)),
        exists|a: String|
            a@ == action_name(n.action) && is_object(
                r,
                seq!["id"@, "action"@, "record"@, "result"@],
                seq![Value::Uuid(n.id), Value::Str(a), n.record, n.result],
            ),
{
    let a = action_text(n.action);
    let ghost ga = a;
    let mut e: Vec<(String, Value)> = Vec::new();
    e.push((text("id"), Value::Uuid(n.id)));
    e.push((text("action"), Value::Str(a)));
    e.push((text("record"), n.record));
    e.push((text("result"), n.result));
    let r = Value::Object(e);
    proof {
        assert(is_object(
            r,
            seq!["id"@, "action"@, "record"@, "result"@],
            seq![Value::Uuid(n.id), Value::Str(ga), n.record, n.result],
        ));
    }
    r
}

/// What the consumer gets from one `recv`.
#[derive(Debug)]
pub enum Received {
    /// The next message, in the order sent.
    Message(Vec<u8>),
    /// Nothing is queued yet, and the producer still runs.
    Pending,
    /// The producer has ended and every message has been taken.
    Closed,
}

/// What the producer does after handing over one notification.
#[derive(Debug, Clone, Copy, PartialEq, Eq, Structural)]
pub enum PumpStep {
    Continue,
    Stop,
}

/// What one `forward` does: the consumer's side is untouched; with the
/// consumer gone the producer is told to stop and nothing is taken;
/// otherwise it goes on, and a message, where the encoding succeeded, is
/// queued at the back.
pub open spec fn forwarded(
    before: NotificationChannel,
    after: NotificationChannel,
    encoded: Option<Vec<u8>>,
    r: PumpStep,
) -> bool {
    &&& after.delivered() == before.delivered()
    &&& after.is_closed() == before.is_closed()
    &&& after.is_abandoned() == before.is_abandoned()
    &&& before.is_abandoned() ==> r is Stop && after.accepted() == before.accepted()
        && after.queued() == before.queued()
    &&& !before.is_abandoned() ==> r is Continue
    &&& !before.is_abandoned() && encoded is None ==> after.accepted() == before.accepted()
        && after.queued() == before.queued()
    &&& encoded matches Some(m) ==> (!before.is_abandoned() ==> after.accepted()
        == before.accepted().push(m) && after.queued() == before.queued().push(m))
}

/// A single-producer, single-consumer, unbounded FIFO channel of encoded messages.
pub struct NotificationChannel {
    queue: VecDeque<Vec<u8>>,
    producer_done: bool,
    consumer_gone: bool,
    accepted: Ghost<Seq<Vec<u8>>>,
    delivered: Ghost<Seq<Vec<u8>>>,
}

impl NotificationChannel {
    /// Every message that `send` took, in order.
    pub closed spec fn accepted(&self) -> Seq<Vec<u8>> {
        self.accepted@
    }

    /// Every message that `recv` handed out, in order.
    pub closed spec fn delivered(&self) -> Seq<Vec<u8>> {
        self.delivered@
    }

    /// The messages waiting for the consumer, oldest first.
    pub closed spec fn queued(&self) -> Seq<Vec<u8>> {
        self.queue@
    }

    /// Whether the producer has ended.
    pub closed spec fn is_closed(&self) -> bool {
        self.producer_done
    }

    /// Whether the consumer has gone.
    pub closed spec fn is_abandoned(&self) -> bool {
        self.consumer_gone
    }

    /// The invariant: what was delivered, then what waits, is what was
    /// accepted, unless the consumer has gone and the rest was dropped.
    pub closed spec fn wf(&self) -> bool {
        &&& self.delivered@.len() <= self.accepted@.len()
        &&& self.delivered@ == self.accepted@.take(self.delivered@.len() as int)
        &&& !self.consumer_gone ==> self.delivered@ + self.queue@ == self.accepted@
        &&& self.consumer_gone ==> self.queue@.len() == 0
    }

    /// An open channel with nothing in it.
    pub fn new() -> (r: Self)
        ensures
            r.wf(),
            r.accepted() == Seq::<Vec<u8>>::empty(),
            r.delivered() == Seq::<Vec<u8>>::empty(),
            r.queued() == Seq::<Vec<u8>>::empty(),
            !r.is_closed(),
            !r.is_abandoned(),
    {
        let r = NotificationChannel {
            queue: VecDeque::new(),
            producer_done: false,
            consumer_gone: false,
            accepted: Ghost(Seq::empty()),
            delivered: Ghost(Seq::empty()),
        };
        proof {
            assert(r.delivered@ + r.queue@ =~= r.accepted@);
            assert(r.accepted@.take(0) =~= r.delivered@);
        }
        r
    }

    /// Queues a message at the back. Fails, handing the message back, once
    /// the consumer has gone or the producer has ended.
    pub fn send(&mut self, msg: Vec<u8>) -> (r: Result<(), Vec<u8>>)
        requires
            old(self).wf(),
        ensures
            final(self).wf(),
            final(self).is_closed() == old(self).is_closed(),
            final(self).is_abandoned() == old(self).is_abandoned(),
            final(self).delivered() == old(self).delivered(),
            !old(self).is_abandoned() && !old(self).is_closed() ==> r is Ok && final(self).accepted() == old(self).accepted().push(msg) && final(self).queued() == old(self).queued().push(msg),
            old(self).is_abandoned() || old(self).is_closed() ==> r == Err::<(), Vec<u8>>(msg)
                && final(self).accepted() == old(self).accepted() && final(self).queued() == old(self).queued(),
    {
        if self.consumer_gone || self.producer_done {
            return Err(msg);
        }
        let ghost m = msg;
        self.queue.push_back(msg);
        self.accepted = Ghost(self.accepted@.push(m));
        proof {
            assert(self.delivered@ + self.queue@ =~= self.accepted@);
            assert(self.accepted@.take(self.delivered@.len() as int) =~= old(self).accepted@.take(
                self.delivered@.len() as int,
            ));
        }
        Ok(())
    }

    /// Marks the producer as ended; what is queued can still be taken.
    pub fn close(&mut self)
        requires
            old(self).wf(),
        ensures
            final(self).wf(),
            final(self).is_closed(),
            final(self).is_abandoned() == old(self).is_abandoned(),
            final(self).accepted() == old(self).accepted(),
            final(self).delivered() == old(self).delivered(),
            final(self).queued() == old(self).queued(),
    {
        self.producer_done = true;
    }

    /// Marks the consumer as gone and drops what is queued.
    pub fn abandon(&mut self)
        requires
            old(self).wf(),
        ensures
            final(self).wf(),
            final(self).is_abandoned(),
            final(self).is_closed() == old(self).is_closed(),
            final(self).accepted() == old(self).accepted(),
            final(self).delivered() == old(self).delivered(),
            final(self).queued() == Seq::<Vec<u8>>::empty(),
    {
        self.consumer_gone = true;
        self.queue.clear();
    }

    /// Takes the oldest queued message; says `Closed` once the producer has
    /// ended and nothing is left, and `Pending` while it may still send.
    pub fn recv(&mut self) -> (r: Received)
        requires
            old(self).wf(),
        ensures
            final(self).wf(),
            final(self).is_closed() == old(self).is_closed(),
            final(self).is_abandoned() == old(self).is_abandoned(),
            final(self).accepted() == old(self).accepted(),
            old(self).queued().len() > 0 ==> r == Received::Message(old(self).queued()[0])
                && final(self).queued() == old(self).queued().drop_first() && final(self).delivered() == old(self).delivered().push(old(self).queued()[0]),
            old(self).queued().len() == 0 ==> final(self).queued() == old(self).queued()
                && final(self).delivered() == old(self).delivered(),
            old(self).queued().len() == 0 && (old(self).is_closed() || old(self).is_abandoned())
                ==> r is Closed,
            old(self).queued().len() == 0 && !old(self).is_closed() && !old(self).is_abandoned()
                ==> r is Pending,
    {
        match self.queue.pop_front() {
            Some(m) => {
                let ghost gm = m;
                self.delivered = Ghost(self.delivered@.push(gm));
                proof {
                    let d = old(self).delivered@;
                    let q = old(self).queue@;
                    assert(d + q == self.accepted@);
                    assert(self.delivered@ + self.queue@ =~= d + q);
                    assert(self.accepted@.take(self.delivered@.len() as int) =~= self.delivered@)
                        by {
                        assert forall|i: int| 0 <= i < self.delivered@.len() implies
                        self.accepted@[i] == self.delivered@[i] by {
                            assert(self.accepted@ == (d + q));
                        }
                    }
                }
                Received::Message(m)
            },
            None => {
                if self.producer_done || self.consumer_gone {
                    Received::Closed
                } else {
                    Received::Pending
                }
            },
        }
    }

    /// Hands one encoded notification to the channel: an encoding that failed
    /// (`None`) is skipped and the stream goes on; a consumer that has gone
    /// ends the producer, quietly, with nothing sent.
    pub fn forward(&mut self, encoded: Option<Vec<u8>>) -> (r: PumpStep)
        requires
            old(self).wf(),
            !old(self).is_closed(),
        ensures
            final(self).wf(),
            forwarded(*old(self), *final(self), encoded, r),
    {
        if self.consumer_gone {
            return PumpStep::Stop;
        }
        match encoded {
            None => PumpStep::Continue,
            Some(m) => match self.send(m) {
                Ok(()) => PumpStep::Continue,
                Err(_) => PumpStep::Stop,
            },
        }
    }
}

/// Messages reach the consumer in the order they were sent, none skipped or
/// reordered: what has been received is always a prefix of what was sent, and
/// while the consumer listens, received followed by queued is exactly what
/// was sent.
pub proof fn lemma_delivery_in_order(c: NotificationChannel)
    requires
        c.wf(),
    ensures
        c.delivered().len() <= c.accepted().len(),
        forall|i: int| 0 <= i < c.delivered().len() ==> #[trigger] c.delivered()[i] == c.accepted()[i],
        !c.is_abandoned() ==> c.delivered() + c.queued() == c.accepted(),
{
    assert forall|i: int| 0 <= i < c.delivered().len() implies #[trigger] c.delivered()[i]
        == c.accepted()[i] by {
        assert(c.delivered() == c.accepted().take(c.delivered().len() as int));
    }
}

/// Once the consumer has gone, the producer stops at its next notification:
/// nothing more is taken, queued or delivered, and no error is raised.
pub proof fn lemma_abandoned_consumer_stops_producer(
    before: NotificationChannel,
    after: NotificationChannel,
    encoded: Option<Vec<u8>>,
    r: PumpStep,
)
    requires
        before.wf(),
        before.is_abandoned(),
        forwarded(before, after, encoded, r),
    ensures
        r == PumpStep::Stop,
        after.accepted() == before.accepted(),
        after.delivered() == before.delivered(),
        after.queued().len() == 0,
{
}

} // verus!
