use vstd::prelude::*;

verus! {

/// Allocates MQTT packet identifiers: non-zero 16-bit values, counted up
/// monotonically and wrapping around with zero skipped.
pub struct PacketIds {
    next: u16,
}

impl PacketIds {
    pub closed spec fn wf(self) -> bool {
        self.next != 0
    }

    /// The identifier the next allocation hands out.
    pub closed spec fn current(self) -> u16 {
        self.next
    }

    pub fn new() -> (r: PacketIds)
        ensures
            r.wf(),
            r.current() == 1,
    {
        PacketIds { next: 1 }
    }

    /// Hands out the next packet identifier; the result is never zero, and
    /// the counter steps by one, wrapping past zero.
    pub fn next_payload_id(&mut self) -> (r: u16)
        requires
            old(self).wf(),
        ensures
            final(self).wf(),
            r != 0,
            r == old(self).current(),
            final(self).current() == if r == u16::MAX {
                1u16
            } else {
                (r + 1) as u16
            },
    {
        let id = self.next;
        self.next = if self.next == u16::MAX {
            1
        } else {
            self.next + 1
        };
        id
    }
}

/// The largest subscription identifier MQTT v5 admits.
pub open spec fn sub_id_valid(id: u32) -> bool {
    0 < id <= 0x0FFF_FFFF
}

/// Allocates MQTT v5 subscription identifiers: non-zero, at most
/// `2^28 - 1`, and never handed out twice on one connection.
pub struct SubIds {
    next: u32,
    issued: Ghost<Seq<u32>>,
}

impl SubIds {
    pub closed spec fn wf(self) -> bool {
        &&& 0 < self.next <= 0x1000_0000
        &&& forall|i: int|
            0 <= i < self.issued@.len() ==> sub_id_valid(#[trigger] self.issued@[i])
                && self.issued@[i] < self.next
        &&& forall|i: int, j: int|
            0 <= i < j < self.issued@.len() ==> #[trigger] self.issued@[i]
                < #[trigger] self.issued@[j]
    }

    /// Every identifier this allocator has handed out, in order.
    pub closed spec fn issued_ids(self) -> Seq<u32> {
        self.issued@
    }

    /// The identifier the next allocation hands out, while any are left.
    pub closed spec fn current(self) -> u32 {
        self.next
    }

    pub fn new() -> (r: SubIds)
        ensures
            r.wf(),
            r.issued_ids() == Seq::<u32>::empty(),
            r.current() == 1,
    {
        SubIds { next: 1, issued: Ghost(Seq::empty()) }
    }

    /// Hands out a fresh subscription identifier, or `None` once the
    /// 28-bit space is exhausted.
    pub fn next_sub_id(&mut self) -> (r: Option<u32>)
        requires
            old(self).wf(),
        ensures
            final(self).wf(),
            match r {
                Some(id) => {
                    &&& sub_id_valid(id)
                    &&& id == old(self).current()
                    &&& final(self).current() == id + 1
                    &&& !old(self).issued_ids().contains(id)
                    &&& final(self).issued_ids() == old(self).issued_ids().push(id)
                },
                None => final(self).issued_ids() == old(self).issued_ids() && old(self).current()
                    == 0x1000_0000,
            },
    {
        if self.next == 0x1000_0000 {
            return None;
        }
        let id = self.next;
        self.next = self.next + 1;
        proof {
            if self.issued@.contains(id) {
                let k = choose|k: int| 0 <= k < self.issued@.len() && self.issued@[k] == id;
                assert(self.issued@[k] < id);
            }
        }
        self.issued = Ghost(self.issued@.push(id));
        Some(id)
    }
}

/// No two subscription identifiers handed out by one allocator are equal.
pub proof fn lemma_sub_ids_unique(s: SubIds, i: int, j: int)
    requires
        s.wf(),
        0 <= i < s.issued_ids().len(),
        0 <= j < s.issued_ids().len(),
        i != j,
    ensures
        s.issued_ids()[i] != s.issued_ids()[j],
{
}

/// Allocates packet identifiers for a Home Assistant WebSocket session:
/// non-zero 32-bit values, monotonically increasing, wrapping with zero
/// skipped.
pub struct HassPacketIds {
    next: u32,
}

impl HassPacketIds {
    pub closed spec fn wf(self) -> bool {
        self.next != 0
    }

    /// The identifier the next allocation hands out.
    pub closed spec fn current(self) -> u32 {
        self.next
    }

    pub fn new() -> (r: HassPacketIds)
        ensures
            r.wf(),
            r.current() == 1,
    {
        HassPacketIds { next: 1 }
    }

    /// Hands out the next session packet identifier; the result is never
    /// zero, and the counter steps by one, wrapping past zero.
    pub fn next_id(&mut self) -> (r: u32)
        requires
            old(self).wf(),
        ensures
            final(self).wf(),
            r != 0,
            r == old(self).current(),
            final(self).current() == if r == u32::MAX {
                1u32
            } else {
                (r + 1) as u32
            },
    {
        let id = self.next;
        self.next = if self.next == u32::MAX {
            1
        } else {
            self.next + 1
        };
        id
    }
}

} // verus!
