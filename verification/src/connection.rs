//! The connection core: everything the MQTT client decides without touching
//! the wire. Identifier allocation, publish options, subscription handler
//! bookkeeping, and the exact frames to send. The transport loop performs
//! these plans and feeds inbound events back in.

use vstd::prelude::*;

use crate::ids::{PacketIds, SubIds, sub_id_valid};
use crate::json::Json;
use crate::topic::{Topic, spec_format};

verus! {

broadcast use vstd::seq_lib::group_filter_ensures;

/// Delivery guarantee for a publish, mirroring MQTT's three levels.
#[derive(Clone, Copy, Debug, PartialEq, Eq, Structural)]
pub enum Qos {
    AtMostOnce,
    AtLeastOnce,
    ExactlyOnce,
}

/// How a payload travels: its QoS and whether the broker retains it.
#[derive(Clone, Copy, Debug, PartialEq, Eq, Structural)]
pub struct PublishOpts {
    pub qos: Qos,
    pub retain: bool,
}

impl PublishOpts {
    /// Meta fields: retained at QoS 1.
    pub fn metadata() -> (r: PublishOpts)
        ensures
            r == (PublishOpts { qos: Qos::AtLeastOnce, retain: true }),
    {
        PublishOpts { qos: Qos::AtLeastOnce, retain: true }
    }

    /// Entity state: retained at QoS 1.
    pub fn entity_data() -> (r: PublishOpts)
        ensures
            r == (PublishOpts { qos: Qos::AtLeastOnce, retain: true }),
    {
        PublishOpts { qos: Qos::AtLeastOnce, retain: true }
    }

    /// Transient events: QoS 2, not retained.
    pub fn event() -> (r: PublishOpts)
        ensures
            r == (PublishOpts { qos: Qos::ExactlyOnce, retain: false }),
    {
        PublishOpts { qos: Qos::ExactlyOnce, retain: false }
    }

    /// Commands: QoS 2, not retained.
    pub fn control() -> (r: PublishOpts)
        ensures
            r == (PublishOpts { qos: Qos::ExactlyOnce, retain: false }),
    {
        PublishOpts { qos: Qos::ExactlyOnce, retain: false }
    }
}

/// An inbound PUBLISH after topic and payload decoding.
#[derive(Debug)]
pub struct PublishEvent {
    /// The subscription identifier the broker attached, if any.
    pub sub_id: Option<u32>,
    pub topic: Topic,
    pub payload: Json,
}

/// A PUBLISH frame ready for the transport: wire topic, JSON payload,
/// options, and a fresh packet identifier.
#[derive(Debug)]
pub struct PublishRequest {
    pub topic: String,
    pub payload: Json,
    pub qos: Qos,
    pub retain: bool,
    pub packet_id: u16,
}

/// A SUBSCRIBE frame ready for the transport.
#[derive(Debug)]
pub struct SubscribeRequest {
    pub topic: String,
    pub sub_id: u32,
    pub packet_id: u16,
}

/// The identifiers of the subscriptions that currently have a handler.
///
/// The handlers themselves are closures owned by the caller, keyed by these
/// identifiers; this table is the single source of truth for which of them
/// may still be invoked.
pub struct HandlerTable {
    ids: Vec<u32>,
}

/// `s` with every occurrence of `id` removed.
pub open spec fn spec_without(s: Seq<u32>, id: u32) -> Seq<u32> {
    s.filter(|x: u32| x != id)
}

impl HandlerTable {
    pub closed spec fn registered(self) -> Seq<u32> {
        self.ids@
    }

    pub fn new() -> (r: HandlerTable)
        ensures
            r.registered() == Seq::<u32>::empty(),
    {
        HandlerTable { ids: Vec::new() }
    }

    /// Whether messages for `sub_id` still have a handler.
    pub fn contains(&self, sub_id: u32) -> (r: bool)
        ensures
            r == self.registered().contains(sub_id),
    {
        let mut i: usize = 0;
        while i < self.ids.len()
            invariant
                i <= self.ids@.len(),
                forall|j: int| 0 <= j < i ==> self.ids@[j] != sub_id,
            decreases self.ids@.len() - i,
        {
            if self.ids[i] == sub_id {
                return true;
            }
            i += 1;
        }
        false
    }

    /// Registers a handler for `sub_id`.
    pub fn register(&mut self, sub_id: u32)
        ensures
            final(self).registered() == old(self).registered().push(sub_id),
    {
        self.ids.push(sub_id);
    }

    /// Drops the handler for `sub_id` entirely.
    pub fn remove(&mut self, sub_id: u32)
        ensures
            final(self).registered() == spec_without(old(self).registered(), sub_id),
            !final(self).registered().contains(sub_id),
    {
        let mut out: Vec<u32> = Vec::new();
        let mut i: usize = 0;
        while i < self.ids.len()
            invariant
                i <= self.ids@.len(),
                out@ == spec_without(self.ids@.take(i as int), sub_id),
            decreases self.ids@.len() - i,
        {
            let x = self.ids[i];
            proof {
                reveal(Seq::filter);
                assert(self.ids@.take(i + 1).drop_last() =~= self.ids@.take(i as int));
                assert(self.ids@.take(i + 1).last() == x);
            }
            if x != sub_id {
                out.push(x);
            }
            i += 1;
        }
        proof {
            assert(self.ids@.take(i as int) =~= self.ids@);
            lemma_handler_deregistration(self.ids@, sub_id);
        }
        self.ids = out;
    }

    /// Applies a handler's answer: `true` keeps the handler, `false`
    /// removes it, so later messages for the same identifier find no handler.
    pub fn after_dispatch(&mut self, sub_id: u32, keep: bool)
        ensures
            keep ==> final(self).registered() == old(self).registered(),
            !keep ==> final(self).registered() == spec_without(old(self).registered(), sub_id)
                && !final(self).registered().contains(sub_id),
    {
        if !keep {
            self.remove(sub_id);
        }
    }
}

/// Handler deregistration: once a handler has answered *false*, no handler is
/// registered for that subscription identifier any more, whatever was
/// registered before.
pub proof fn lemma_handler_deregistration(before: Seq<u32>, sub_id: u32)
    ensures
        !spec_without(before, sub_id).contains(sub_id),
{
    let removed = spec_without(before, sub_id);
    if removed.contains(sub_id) {
        let k = choose|k: int| 0 <= k < removed.len() && removed[k] == sub_id;
        assert(removed[k] != sub_id);
    }
}

/// The decision state of one MQTT connection: both identifier allocators and
/// the handler table.
pub struct ConnectionCore {
    packet_ids: PacketIds,
    sub_ids: SubIds,
    handlers: HandlerTable,
}

impl ConnectionCore {
    pub closed spec fn wf(self) -> bool {
        self.packet_ids.wf() && self.sub_ids.wf()
    }

    pub closed spec fn issued_sub_ids(self) -> Seq<u32> {
        self.sub_ids.issued_ids()
    }

    pub closed spec fn handler_ids(self) -> Seq<u32> {
        self.handlers.registered()
    }

    /// The packet identifier the next plan uses.
    pub closed spec fn payload_counter(self) -> u16 {
        self.packet_ids.current()
    }

    /// The subscription identifier the next subscribe plan uses, while any
    /// are left.
    pub closed spec fn sub_counter(self) -> u32 {
        self.sub_ids.current()
    }

    pub fn new() -> (r: ConnectionCore)
        ensures
            r.wf(),
            r.payload_counter() == 1,
            r.sub_counter() == 1,
            r.issued_sub_ids() == Seq::<u32>::empty(),
            r.handler_ids() == Seq::<u32>::empty(),
    {
        ConnectionCore {
            packet_ids: PacketIds::new(),
            sub_ids: SubIds::new(),
            handlers: HandlerTable::new(),
        }
    }

    /// The next packet identifier; never zero.
    pub fn next_payload_id(&mut self) -> (r: u16)
        requires
            old(self).wf(),
        ensures
            final(self).wf(),
            r != 0,
            r == old(self).payload_counter(),
            final(self).payload_counter() == if r == u16::MAX {
                1u16
            } else {
                (r + 1) as u16
            },
            final(self).issued_sub_ids() == old(self).issued_sub_ids(),
            final(self).handler_ids() == old(self).handler_ids(),
    {
        self.packet_ids.next_payload_id()
    }

    /// The frame for a publish: the wire topic, the payload handed through
    /// untouched, options applied, and a fresh non-zero packet identifier.
    pub fn plan_publish(&mut self, topic: &Topic, payload: Json, opts: PublishOpts) -> (r:
        PublishRequest)
        requires
            old(self).wf(),
        ensures
            final(self).wf(),
            r.topic@ == spec_format(topic@),
            r.payload@ == payload@,
            r.qos == opts.qos,
            r.retain == opts.retain,
            r.packet_id != 0,
            final(self).issued_sub_ids() == old(self).issued_sub_ids(),
            final(self).handler_ids() == old(self).handler_ids(),
    {
        let packet_id = self.packet_ids.next_payload_id();
        PublishRequest {
            topic: topic.format(),
            payload,
            qos: opts.qos,
            retain: opts.retain,
            packet_id,
        }
    }

    /// The frame for a subscribe: a fresh, valid subscription identifier and
    /// a fresh packet identifier. `None` once the identifier space is used
    /// up.
    pub fn plan_subscribe(&mut self, topic: &Topic) -> (r: Option<SubscribeRequest>)
        requires
            old(self).wf(),
        ensures
            final(self).wf(),
            final(self).handler_ids() == old(self).handler_ids(),
            match r {
                Some(req) => {
                    &&& req.topic@ == spec_format(topic@)
                    &&& sub_id_valid(req.sub_id)
                    &&& req.sub_id == old(self).sub_counter()
                    &&& !old(self).issued_sub_ids().contains(req.sub_id)
                    &&& final(self).issued_sub_ids() == old(self).issued_sub_ids().push(req.sub_id)
                    &&& req.packet_id != 0
                },
                None => old(self).sub_counter() == 0x1000_0000 && final(self).issued_sub_ids()
                    == old(self).issued_sub_ids(),
            },
    {
        let sub_id = match self.sub_ids.next_sub_id() {
            Some(id) => id,
            None => { return None; },
        };
        let packet_id = self.packet_ids.next_payload_id();
        Some(SubscribeRequest { topic: topic.format(), sub_id, packet_id })
    }

    /// As [`Self::plan_subscribe`], and additionally registers the new
    /// identifier in the handler table.
    pub fn plan_subscribe_with_handler(&mut self, topic: &Topic) -> (r: Option<SubscribeRequest>)
        requires
            old(self).wf(),
        ensures
            final(self).wf(),
            match r {
                Some(req) => {
                    &&& req.topic@ == spec_format(topic@)
                    &&& sub_id_valid(req.sub_id)
                    &&& req.sub_id == old(self).sub_counter()
                    &&& !old(self).issued_sub_ids().contains(req.sub_id)
                    &&& final(self).issued_sub_ids() == old(self).issued_sub_ids().push(req.sub_id)
                    &&& final(self).handler_ids() == old(self).handler_ids().push(req.sub_id)
                    &&& req.packet_id != 0
                },
                None => old(self).sub_counter() == 0x1000_0000 && final(self).issued_sub_ids()
                    == old(self).issued_sub_ids() && final(self).handler_ids() == old(
                    self,
                ).handler_ids(),
            },
    {
        let req = match self.plan_subscribe(topic) {
            Some(req) => req,
            None => { return None; },
        };
        self.handlers.register(req.sub_id);
        Some(req)
    }

    /// Whether an inbound event should be dispatched to a handler.
    pub fn should_dispatch(&self, sub_id: Option<u32>) -> (r: bool)
        ensures
            r == match sub_id {
                Some(id) => self.handler_ids().contains(id),
                None => false,
            },
    {
        match sub_id {
            Some(id) => self.handlers.contains(id),
            None => false,
        }
    }

    /// Applies a handler's answer after a dispatch; *false* deregisters it.
    pub fn after_dispatch(&mut self, sub_id: u32, keep: bool)
        requires
            old(self).wf(),
        ensures
            final(self).wf(),
            final(self).issued_sub_ids() == old(self).issued_sub_ids(),
            keep ==> final(self).handler_ids() == old(self).handler_ids(),
            !keep ==> final(self).handler_ids() == spec_without(old(self).handler_ids(), sub_id)
                && !final(self).handler_ids().contains(sub_id),
    {
        self.handlers.after_dispatch(sub_id, keep);
    }
}

} // verus!
