//! The topic-addressed message bus. Producers append to incoming queues,
//! subscribers own outgoing queues registered under a topic, and the bus
//! step drains at most one pending message per incoming queue and forwards
//! it to every subscriber whose topic matches exactly.
//!
//! Contracts speak of queues through their views: a message is the pair of
//! its topic's characters and its payload bytes.

use vstd::prelude::*;

verus! {

/// The unit of exchange on the bus: a topic key and an opaque payload.
#[derive(Clone, Debug)]
pub struct MessageContent {
    pub topic: String,
    pub content: Vec<u8>,
}

/// The view of a message: its topic's characters and its payload bytes.
pub type MsgView = (Seq<char>, Seq<u8>);

pub open spec fn spec_msg(m: MessageContent) -> MsgView {
    (m.topic@, m.content@)
}

impl MessageContent {
    /// An independent copy carrying the same topic and the same bytes.
    pub fn duplicate(&self) -> (r: MessageContent)
        ensures
            spec_msg(r) == spec_msg(*self),
    {
        let mut bytes: Vec<u8> = Vec::new();
        let mut i: usize = 0;
        while i < self.content.len()
            invariant
                i <= self.content@.len(),
                bytes@ == self.content@.take(i as int),
            decreases self.content@.len() - i,
        {
            bytes.push(self.content[i]);
            proof {
                assert(bytes@ =~= self.content@.take(i + 1));
            }
            i = i + 1;
        }
        proof {
            assert(bytes@ =~= self.content@);
        }
        MessageContent { topic: self.topic.clone(), content: bytes }
    }
}

/// The bus state: one queue per producer endpoint and one queue per
/// subscription, the latter registered under its topic.
pub struct Messaging {
    pub incoming_messages: Vec<Vec<MessageContent>>,
    pub outcoming_messages: Vec<(String, Vec<MessageContent>)>,
}

impl Messaging {
    /// The incoming queues, as sequences of message views.
    pub open spec fn spec_in(self) -> Seq<Seq<MsgView>> {
        Seq::new(
            self.incoming_messages@.len(),
            |p: int| self.incoming_messages@[p]@.map_values(|m: MessageContent| spec_msg(m)),
        )
    }

    /// The registered topic of each subscription, in registration order.
    pub open spec fn spec_out_topics(self) -> Seq<Seq<char>> {
        Seq::new(self.outcoming_messages@.len(), |s: int| self.outcoming_messages@[s].0@)
    }

    /// The outgoing queues, as sequences of message views.
    pub open spec fn spec_out_queues(self) -> Seq<Seq<MsgView>> {
        Seq::new(
            self.outcoming_messages@.len(),
            |s: int| self.outcoming_messages@[s].1@.map_values(|m: MessageContent| spec_msg(m)),
        )
    }

    /// A bus with no endpoints yet.
    pub fn init() -> (r: Self)
        ensures
            r.incoming_messages@.len() == 0,
            r.outcoming_messages@.len() == 0,
    {
        Messaging { incoming_messages: Vec::new(), outcoming_messages: Vec::new() }
    }

    /// Open a producer endpoint: a fresh empty incoming queue, addressed by
    /// the returned index.
    pub fn create_topic(&mut self) -> (r: usize)
        ensures
            r == old(self).incoming_messages@.len(),
            final(self).incoming_messages@.len() == old(self).incoming_messages@.len() + 1,
            forall|p: int|
                0 <= p < old(self).incoming_messages@.len() ==> final(self).incoming_messages@[p]
                    == old(self).incoming_messages@[p],
            final(self).incoming_messages@[r as int]@.len() == 0,
            final(self).outcoming_messages == old(self).outcoming_messages,
    {
        let id = self.incoming_messages.len();
        self.incoming_messages.push(Vec::new());
        id
    }

    /// Subscribe to a topic: a fresh empty outgoing queue that will receive
    /// a copy of every message later routed under exactly that topic.
    pub fn subscribe_to_topic(&mut self, topic: String) -> (r: usize)
        ensures
            r == old(self).outcoming_messages@.len(),
            final(self).outcoming_messages@.len() == old(self).outcoming_messages@.len() + 1,
            forall|s: int|
                0 <= s < old(self).outcoming_messages@.len() ==> final(self).outcoming_messages@[s]
                    == old(self).outcoming_messages@[s],
            final(self).outcoming_messages@[r as int].0@ == topic@,
            final(self).outcoming_messages@[r as int].1@.len() == 0,
            final(self).incoming_messages == old(self).incoming_messages,
    {
        let id = self.outcoming_messages.len();
        self.outcoming_messages.push((topic, Vec::new()));
        id
    }

    /// Queue a message on a producer endpoint, to be routed by a later bus
    /// step.
    pub fn publish(&mut self, producer: usize, message: MessageContent)
        requires
            producer < old(self).incoming_messages@.len(),
        ensures
            final(self).incoming_messages@.len() == old(self).incoming_messages@.len(),
            forall|p: int|
                0 <= p < old(self).incoming_messages@.len() && p != producer ==> final(self).incoming_messages@[p] == old(self).incoming_messages@[p],
            final(self).incoming_messages@[producer as int]@ == old(self).incoming_messages@[producer as int]@.push(message),
            final(self).outcoming_messages == old(self).outcoming_messages,
    {
        let queue = &mut self.incoming_messages[producer];
        queue.push(message);
    }

    /// Poll a subscription: the oldest pending message, if any, leaves the
    /// queue and is returned.
    pub fn try_recv(&mut self, subscriber: usize) -> (r: Option<MessageContent>)
        requires
            subscriber < old(self).outcoming_messages@.len(),
        ensures
            final(self).incoming_messages == old(self).incoming_messages,
            final(self).outcoming_messages@.len() == old(self).outcoming_messages@.len(),
            forall|s: int|
                0 <= s < old(self).outcoming_messages@.len() && s != subscriber ==> final(self).outcoming_messages@[s] == old(self).outcoming_messages@[s],
            final(self).outcoming_messages@[subscriber as int].0 == old(self).outcoming_messages@[subscriber as int].0,
            old(self).outcoming_messages@[subscriber as int].1@.len() == 0 ==> r is None && final(self).outcoming_messages@[subscriber as int].1 == old(self).outcoming_messages@[subscriber as int].1,
            old(self).outcoming_messages@[subscriber as int].1@.len() > 0 ==> (r matches Some(m)
                && m == old(self).outcoming_messages@[subscriber as int].1@[0] && final(self).outcoming_messages@[subscriber as int].1@ == old(self).outcoming_messages@[subscriber as int].1@.drop_first()),
    {
        let entry = &mut self.outcoming_messages[subscriber];
        if entry.1.len() == 0 {
            None
        } else {
            Some(entry.1.remove(0))
        }
    }

    /// Route one message: append a copy to every subscription registered
    /// under exactly the message's topic, leaving all others untouched.
    pub fn broadcast(&mut self, message: &MessageContent)
        ensures
            final(self).incoming_messages == old(self).incoming_messages,
            final(self).spec_out_topics() == old(self).spec_out_topics(),
            final(self).spec_out_queues() == spec_deliver(
                old(self).spec_out_topics(),
                old(self).spec_out_queues(),
                spec_msg(*message),
            ),
    {
        let ghost old_topics = self.spec_out_topics();
        let ghost old_queues = self.spec_out_queues();
        let mut k: usize = 0;
        while k < self.outcoming_messages.len()
            invariant
                self.incoming_messages == old(self).incoming_messages,
                self.outcoming_messages@.len() == old(self).outcoming_messages@.len(),
                old_topics == old(self).spec_out_topics(),
                old_queues == old(self).spec_out_queues(),
                k <= self.outcoming_messages@.len(),
                self.spec_out_topics() == old_topics,
                forall|s: int|
                    0 <= s < k ==> self.spec_out_queues()[s] == spec_deliver(
                        old_topics,
                        old_queues,
                        spec_msg(*message),
                    )[s],
                forall|s: int|
                    k <= s < self.outcoming_messages@.len() ==> self.outcoming_messages@[s] == old(self).outcoming_messages@[s],
            decreases self.outcoming_messages@.len() - k,
        {
            let ghost prev = *self;
            let matches_topic = {
                let entry = &self.outcoming_messages[k];
                entry.0 == message.topic
            };
            if matches_topic {
                let copy = message.duplicate();
                let entry = &mut self.outcoming_messages[k];
                entry.1.push(copy);
                proof {
                    assert(old_topics[k as int] == spec_msg(*message).0);
                    assert(self.spec_out_queues()[k as int] =~= old_queues[k as int].push(
                        spec_msg(*message),
                    ));
                }
            } else {
                proof {
                    assert(old_topics[k as int] != spec_msg(*message).0);
                    assert(self.spec_out_queues()[k as int] =~= old_queues[k as int]);
                }
            }
            proof {
                assert(self.spec_out_topics() =~= old_topics);
                assert(self.spec_out_queues()[k as int] == spec_deliver(
                    old_topics,
                    old_queues,
                    spec_msg(*message),
                )[k as int]);
                assert forall|s: int| 0 <= s < k implies self.spec_out_queues()[s] == spec_deliver(
                    old_topics,
                    old_queues,
                    spec_msg(*message),
                )[s] by {
                    assert(prev.spec_out_queues()[s] == spec_deliver(
                        old_topics,
                        old_queues,
                        spec_msg(*message),
                    )[s]);
                    assert(self.outcoming_messages@[s] == prev.outcoming_messages@[s]);
                    assert(self.spec_out_queues()[s] =~= prev.spec_out_queues()[s]);
                }
            }
            k = k + 1;
        }
        proof {
            assert(final(self).spec_out_queues() =~= spec_deliver(
                old_topics,
                old_queues,
                spec_msg(*message),
            ));
        }
    }

    /// One iteration of the router loop: drain at most one pending message
    /// from each incoming queue, in queue order, and route each drained
    /// message to the matching subscriptions.
    pub fn step_bus(&mut self)
        ensures
            final(self).incoming_messages@.len() == old(self).incoming_messages@.len(),
            forall|p: int|
                0 <= p < old(self).incoming_messages@.len() ==> final(self).spec_in()[p] == (
                if old(self).spec_in()[p].len() > 0 {
                    old(self).spec_in()[p].drop_first()
                } else {
                    old(self).spec_in()[p]
                }),
            final(self).spec_out_topics() == old(self).spec_out_topics(),
            final(self).spec_out_queues() == spec_deliver_all(
                old(self).spec_out_topics(),
                old(self).spec_out_queues(),
                spec_heads(old(self).spec_in()),
            ),
    {
        let ghost old_in = old(self).spec_in();
        let ghost topics = old(self).spec_out_topics();
        let ghost start_queues = old(self).spec_out_queues();
        let mut p: usize = 0;
        while p < self.incoming_messages.len()
            invariant
                self.incoming_messages@.len() == old(self).incoming_messages@.len(),
                old_in == old(self).spec_in(),
                topics == old(self).spec_out_topics(),
                start_queues == old(self).spec_out_queues(),
                p <= self.incoming_messages@.len(),
                forall|q: int|
                    0 <= q < p ==> self.spec_in()[q] == (if old_in[q].len() > 0 {
                        old_in[q].drop_first()
                    } else {
                        old_in[q]
                    }),
                forall|q: int|
                    p <= q < self.incoming_messages@.len() ==> self.incoming_messages@[q] == old(self).incoming_messages@[q],
                self.spec_out_topics() == topics,
                self.spec_out_queues() == spec_deliver_all(
                    topics,
                    start_queues,
                    spec_heads(old_in.take(p as int)),
                ),
            decreases self.incoming_messages@.len() - p,
        {
            let ghost prev = *self;
            proof {
                assert(old_in.take(p + 1) =~= old_in.take(p as int).push(old_in[p as int]));
                lemma_heads_snoc(old_in.take(p as int), old_in[p as int]);
            }
            let queue_len = {
                let queue = &self.incoming_messages[p];
                queue.len()
            };
            if queue_len > 0 {
                let message = {
                    let queue = &mut self.incoming_messages[p];
                    queue.remove(0)
                };
                proof {
                    assert(old_in[p as int].len() > 0);
                    assert(prev.incoming_messages@[p as int] == old(self).incoming_messages@[p as int]);
                    assert(spec_msg(message) == old_in[p as int][0]);
                    assert(self.incoming_messages@[p as int]@.map_values(
                        |m: MessageContent| spec_msg(m),
                    ) =~= old_in[p as int].drop_first());
                    assert(spec_heads(old_in.take(p + 1)) =~= spec_heads(old_in.take(p as int)).push(
                        old_in[p as int][0],
                    ));
                    lemma_deliver_all_snoc(
                        topics,
                        start_queues,
                        spec_heads(old_in.take(p as int)),
                        old_in[p as int][0],
                    );
                    assert(self.spec_out_topics() =~= prev.spec_out_topics());
                    assert(self.spec_out_queues() =~= prev.spec_out_queues());
                }
                self.broadcast(&message);
            } else {
                proof {
                    assert(old_in[p as int].len() == 0);
                    assert(spec_heads(old_in.take(p + 1)) =~= spec_heads(old_in.take(p as int)));
                }
            }
            proof {
                assert forall|q: int| 0 <= q < p + 1 implies self.spec_in()[q] == (if old_in[q].len()
                    > 0 {
                    old_in[q].drop_first()
                } else {
                    old_in[q]
                }) by {
                    if q < p {
                        assert(prev.spec_in()[q] == (if old_in[q].len() > 0 {
                            old_in[q].drop_first()
                        } else {
                            old_in[q]
                        }));
                        assert(self.incoming_messages@[q] == prev.incoming_messages@[q]);
                        assert(self.spec_in()[q] =~= prev.spec_in()[q]);
                    } else {
                        assert(self.spec_in()[q] =~= self.incoming_messages@[q]@.map_values(
                            |m: MessageContent| spec_msg(m),
                        ));
                        if old_in[q].len() == 0 {
                            assert(self.incoming_messages@[q] == old(self).incoming_messages@[q]);
                            assert(self.spec_in()[q] =~= old_in[q]);
                        }
                    }
                }
            }
            p = p + 1;
        }
        proof {
            assert(old_in.take(old_in.len() as int) =~= old_in);
        }
    }
}

/// Routing one message view: every queue whose registered topic equals the
/// message's topic gains the message at its back; every other queue is
/// unchanged.
pub open spec fn spec_deliver(
    topics: Seq<Seq<char>>,
    queues: Seq<Seq<MsgView>>,
    m: MsgView,
) -> Seq<Seq<MsgView>>
    recommends
        topics.len() == queues.len(),
{
    Seq::new(
        queues.len(),
        |k: int|
            if topics[k] == m.0 {
                queues[k].push(m)
            } else {
                queues[k]
            },
    )
}

/// Routing a train of message views, oldest first.
pub open spec fn spec_deliver_all(
    topics: Seq<Seq<char>>,
    queues: Seq<Seq<MsgView>>,
    msgs: Seq<MsgView>,
) -> Seq<Seq<MsgView>>
    decreases msgs.len(),
{
    if msgs.len() <= 0 {
        queues
    } else {
        spec_deliver_all(topics, spec_deliver(topics, queues, msgs[0]), msgs.drop_first())
    }
}

/// The messages one router pass drains: the head of every nonempty
/// incoming queue, in queue order.
pub open spec fn spec_heads(qs: Seq<Seq<MsgView>>) -> Seq<MsgView>
    decreases qs.len(),
{
    if qs.len() <= 0 {
        Seq::empty()
    } else {
        (if qs[0].len() > 0 {
            seq![qs[0][0]]
        } else {
            Seq::empty()
        }) + spec_heads(qs.drop_first())
    }
}

proof fn lemma_heads_snoc(qs: Seq<Seq<MsgView>>, q: Seq<MsgView>)
    ensures
        spec_heads(qs.push(q)) == spec_heads(qs) + (if q.len() > 0 {
            seq![q[0]]
        } else {
            Seq::<MsgView>::empty()
        }),
    decreases qs.len(),
{
    reveal_with_fuel(spec_heads, 3);
    if qs.len() == 0 {
        assert(qs.push(q)[0] == q);
        assert(qs.push(q).drop_first() =~= Seq::<Seq<MsgView>>::empty());
        assert(spec_heads(qs.push(q)) =~= spec_heads(qs) + (if q.len() > 0 {
            seq![q[0]]
        } else {
            Seq::<MsgView>::empty()
        }));
    } else {
        assert(qs.push(q).drop_first() =~= qs.drop_first().push(q));
        lemma_heads_snoc(qs.drop_first(), q);
        assert(spec_heads(qs.push(q)) =~= spec_heads(qs) + (if q.len() > 0 {
            seq![q[0]]
        } else {
            Seq::<MsgView>::empty()
        }));
    }
}

proof fn lemma_deliver_all_snoc(
    topics: Seq<Seq<char>>,
    queues: Seq<Seq<MsgView>>,
    msgs: Seq<MsgView>,
    m: MsgView,
)
    ensures
        spec_deliver_all(topics, queues, msgs.push(m)) == spec_deliver(
            topics,
            spec_deliver_all(topics, queues, msgs),
            m,
        ),
    decreases msgs.len(),
{
    reveal_with_fuel(spec_deliver_all, 3);
    if msgs.len() == 0 {
        assert(msgs.push(m)[0] == m);
        assert(msgs.push(m).drop_first() =~= Seq::<MsgView>::empty());
    } else {
        assert(msgs.push(m)[0] == msgs[0]);
        assert(msgs.push(m).drop_first() =~= msgs.drop_first().push(m));
        lemma_deliver_all_snoc(topics, spec_deliver(topics, queues, msgs[0]), msgs.drop_first(), m);
    }
}

/// The round-trip law of the bus: routing a train of messages that all
/// carry topic `t` appends the whole train, in publication order, to every
/// subscription registered under `t`, and leaves every other subscription's
/// queue unchanged.
pub proof fn lemma_bus_round_trip(
    topics: Seq<Seq<char>>,
    queues: Seq<Seq<MsgView>>,
    msgs: Seq<MsgView>,
    t: Seq<char>,
)
    requires
        topics.len() == queues.len(),
        forall|x: int| 0 <= x < msgs.len() ==> (#[trigger] msgs[x]).0 == t,
    ensures
        spec_deliver_all(topics, queues, msgs).len() == queues.len(),
        forall|k: int|
            0 <= k < queues.len() && topics[k] == t ==> #[trigger] spec_deliver_all(
                topics,
                queues,
                msgs,
            )[k] == queues[k] + msgs,
        forall|k: int|
            0 <= k < queues.len() && topics[k] != t ==> #[trigger] spec_deliver_all(
                topics,
                queues,
                msgs,
            )[k] == queues[k],
    decreases msgs.len(),
{
    if msgs.len() == 0 {
        assert forall|k: int| 0 <= k < queues.len() && topics[k] == t implies #[trigger]
            spec_deliver_all(topics, queues, msgs)[k] == queues[k] + msgs by {
            assert(queues[k] + msgs =~= queues[k]);
        }
    } else {
        let after_one = spec_deliver(topics, queues, msgs[0]);
        lemma_bus_round_trip(topics, after_one, msgs.drop_first(), t);
        assert forall|k: int| 0 <= k < queues.len() && topics[k] == t implies #[trigger]
            spec_deliver_all(topics, queues, msgs)[k] == queues[k] + msgs by {
            assert(after_one[k] == queues[k].push(msgs[0]));
            assert(spec_deliver_all(topics, after_one, msgs.drop_first())[k] == after_one[k]
                + msgs.drop_first());
            assert(queues[k].push(msgs[0]) + msgs.drop_first() =~= queues[k] + msgs);
        }
        assert forall|k: int| 0 <= k < queues.len() && topics[k] != t implies #[trigger]
            spec_deliver_all(topics, queues, msgs)[k] == queues[k] by {
            assert(after_one[k] == queues[k]);
        }
    }
}

} // verus!
