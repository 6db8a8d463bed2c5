//! The per-endpoint transfer rings and the control-request pipeline.
//!
//! Every configured endpoint owns a producer ring, keyed by slot id
//! and endpoint id (DCI). A control request becomes the
//! SETUP/DATA/STATUS TRB sequence on the default control pipe
//! (endpoint 1); every TRB that asks for a completion interrupt arms
//! a one-shot listener keyed by its ring address, and the matching
//! transfer event resolves it.

use vstd::prelude::*;

use crate::usb::ring::{push_tr, set_deque_tr, ProducerRing, RingModel};
use crate::usb::runtime::{Listeners, OneshotSlot};
use crate::usb::trb::{
    setup_stage_trb, data_stage_trb, status_stage_trb, spec_setup_stage_trb, spec_data_stage_trb,
    spec_status_stage_trb, UnknownTRB, TRB_TYPE_DATA_STAGE, TRANSFER_TYPE_IN, TRANSFER_TYPE_NO,
    TRANSFER_TYPE_OUT,
};
use crate::usb::xhci::{TransferEventTrb, XhciError};

verus! {

/// The abstract control requests the driver issues, each standing
/// for a fixed `(bmRequestType, bRequest)` pair.
#[derive(Clone, Copy, Debug, PartialEq, Eq, Structural)]
pub enum ControlRequestType {
    GetDescriptor,
    SetConfigutation,
    SetProtocol,
    SetInterface,
}

impl ControlRequestType {
    /// The `(bmRequestType, bRequest)` bytes of the SETUP packet.
    pub open spec fn actual_value_spec(self) -> (u8, u8) {
        match self {
            ControlRequestType::GetDescriptor => (0x80, 6),
            ControlRequestType::SetConfigutation => (0x00, 9),
            ControlRequestType::SetProtocol => (0x21, 11),
            ControlRequestType::SetInterface => (0x01, 11),
        }
    }

    pub fn get_actual_value(&self) -> (r: (u8, u8))
        ensures
            r == self.actual_value_spec(),
    {
        match self {
            ControlRequestType::GetDescriptor => (0b10000000, 6),
            ControlRequestType::SetConfigutation => (0b00000000, 9),
            ControlRequestType::SetProtocol => (0b00100001, 11),
            ControlRequestType::SetInterface => (0b00000001, 11),
        }
    }
}

/// A control request: which request, and its value, index and data
/// length fields.
#[derive(Clone, Copy, Debug, PartialEq, Eq, Structural)]
pub struct SetupData {
    pub request_type: ControlRequestType,
    pub value: u16,
    pub index: u16,
    pub length: u16,
}

/// The transfer-type field of the SETUP TRB: whether a data stage
/// follows and in which direction.
pub open spec fn spec_setup_transfer_type(request_type: u8, length: u16) -> u32 {
    if length == 0 {
        TRANSFER_TYPE_NO
    } else if request_type >> 7 == 1 {
        TRANSFER_TYPE_IN
    } else {
        TRANSFER_TYPE_OUT
    }
}

/// Direction of the data stage: in for device-to-host requests.
pub open spec fn spec_data_direction_in(request_type: u8) -> bool {
    request_type >> 7 == 1
}

/// Direction of the status stage: always in, except for a
/// device-to-host request that carries data.
pub open spec fn spec_status_direction_in(request_type: u8, length: u16) -> bool {
    !(request_type >> 7 == 1 && length > 0)
}

/// A pushed transfer TRB arms a completion listener when it asks for
/// an interrupt: on completion (bit 5), or — for a DATA stage TRB —
/// on a short packet (bit 2).
pub open spec fn spec_arms_listener(trb: UnknownTRB) -> bool {
    ((trb.d3 >> 5) & 1 == 1) || (trb.trb_type_spec() == TRB_TYPE_DATA_STAGE && (trb.d3 >> 2) & 1
        == 1)
}

/// One endpoint's transfer ring.
pub struct TransferRingEntry {
    pub slot_id: usize,
    pub endpoint_id: usize,
    pub ring: ProducerRing,
}

pub open spec fn unique_ring_keys(s: Seq<TransferRingEntry>) -> bool {
    forall|i: int, j: int|
        0 <= i < j < s.len() ==> !(s[i].slot_id == s[j].slot_id && s[i].endpoint_id
            == s[j].endpoint_id)
}

pub open spec fn has_ring_seq(s: Seq<TransferRingEntry>, slot: usize, ep: usize) -> bool {
    exists|i: int|
        0 <= i < s.len() && (#[trigger] s[i]).slot_id == slot && s[i].endpoint_id == ep
}

pub open spec fn ring_index_seq(s: Seq<TransferRingEntry>, slot: usize, ep: usize) -> int {
    choose|i: int|
        0 <= i < s.len() && (#[trigger] s[i]).slot_id == slot && s[i].endpoint_id == ep
}

/// With unique keys, any matching index is the looked-up index.
pub proof fn lemma_ring_index_unique(s: Seq<TransferRingEntry>, slot: usize, ep: usize, i: int)
    requires
        unique_ring_keys(s),
        0 <= i < s.len(),
        s[i].slot_id == slot,
        s[i].endpoint_id == ep,
    ensures
        has_ring_seq(s, slot, ep),
        ring_index_seq(s, slot, ep) == i,
{
    assert(has_ring_seq(s, slot, ep));
    let j = ring_index_seq(s, slot, ep);
    if i != j {
        assert(false);
    }
}

/// The registry of transfer rings and of the one-shot listeners of
/// the transfers in flight.
pub struct TransferRingSet {
    pub rings: Vec<TransferRingEntry>,
    pub listener: Listeners<Result<TransferEventTrb, XhciError>>,
    pub ring_size: usize,
}

impl TransferRingSet {
    pub open spec fn wf(&self) -> bool {
        &&& self.ring_size >= 2
        &&& unique_ring_keys(self.rings@)
        &&& (forall|i: int| 0 <= i < self.rings@.len() ==> (#[trigger] self.rings@[i]).ring.wf())
        &&& self.listener.wf()
    }

    pub open spec fn has_ring(&self, slot: usize, ep: usize) -> bool {
        has_ring_seq(self.rings@, slot, ep)
    }

    pub open spec fn ring_at(&self, slot: usize, ep: usize) -> RingModel {
        self.rings@[ring_index_seq(self.rings@, slot, ep)].ring@
    }

    pub fn new(ring_size: usize) -> (r: Self)
        requires
            ring_size >= 2,
        ensures
            r.wf(),
            r.ring_size == ring_size,
            r.rings@.len() == 0,
            forall|k: u64| r.listener.lookup(k) is None,
    {
        TransferRingSet { rings: Vec::new(), listener: Listeners::new(), ring_size }
    }

    /// Index of the `(slot, ep)` ring, if one has been created.
    fn lookup_ring(&self, slot: usize, ep: usize) -> (r: Option<usize>)
        requires
            self.wf(),
        ensures
            match r {
                Some(i) => self.has_ring(slot, ep) && i == ring_index_seq(self.rings@, slot, ep)
                    && i < self.rings@.len(),
                None => !self.has_ring(slot, ep),
            },
    {
        let mut i: usize = 0;
        let n = self.rings.len();
        while i < n
            invariant
                self.wf(),
                i <= n,
                n == self.rings@.len(),
                forall|j: int|
                    0 <= j < i ==> !((#[trigger] self.rings@[j]).slot_id == slot
                        && self.rings@[j].endpoint_id == ep),
            decreases n - i,
        {
            if self.rings[i].slot_id == slot && self.rings[i].endpoint_id == ep {
                proof {
                    lemma_ring_index_unique(self.rings@, slot, ep, i as int);
                }
                return Some(i);
            }
            i = i + 1;
        }
        None
    }

    /// Creates (or recreates) the transfer ring of `(slot, ep)` at
    /// physical address `base_addr` and hands that address back, to
    /// be written into the endpoint context as its dequeue pointer.
    pub fn init_ring_at(&mut self, slot: usize, ep: usize, base_addr: u64) -> (r: u64)
        requires
            old(self).wf(),
            base_addr % 16 == 0,
            base_addr + 16 * old(self).ring_size <= u64::MAX,
        ensures
            final(self).wf(),
            r == base_addr,
            final(self).ring_size == old(self).ring_size,
            final(self).listener.entries@ == old(self).listener.entries@,
            final(self).has_ring(slot, ep),
            ({
                let m = final(self).ring_at(slot, ep);
                m.trbs.len() == old(self).ring_size && m.enq == 0 && m.deq == 0 && m.cycle == true
                    && m.base == base_addr
            }),
            forall|s2: usize, e2: usize|
                !(s2 == slot && e2 == ep) ==> final(self).has_ring(s2, e2) == old(self).has_ring(
                    s2,
                    e2,
                ),
            forall|s2: usize, e2: usize|
                !(s2 == slot && e2 == ep) && old(self).has_ring(s2, e2) ==> final(self).ring_at(
                    s2,
                    e2,
                ) == old(self).ring_at(s2, e2),
    {
        let ring = ProducerRing::new(self.ring_size, base_addr);
        let found = self.lookup_ring(slot, ep);
        let ghost s0 = self.rings@;
        match found {
            Some(i) => {
                let mut entry = self.rings.remove(i);
                entry.ring = ring;
                self.rings.insert(i, entry);
                proof {
                    assert(self.rings@ =~= s0.update(
                        i as int,
                        TransferRingEntry {
                            slot_id: s0[i as int].slot_id,
                            endpoint_id: s0[i as int].endpoint_id,
                            ring: entry.ring,
                        },
                    ));
                    lemma_rings_key_preserved(s0, self.rings@, slot, ep, i as int);
                }
            },
            None => {
                self.rings.push(TransferRingEntry { slot_id: slot, endpoint_id: ep, ring });
                proof {
                    lemma_rings_key_pushed(s0, self.rings@, slot, ep);
                }
            },
        }
        base_addr
    }

    /// Pushes a transfer TRB onto the `(slot, ep)` ring. On success,
    /// a TRB that asks for a completion interrupt arms a listener at
    /// its address and that key comes back; the caller then rings the
    /// doorbell of `slot` with target `ep`.
    pub fn push_transfer_trb(&mut self, slot_id: usize, endpoint_id: usize, trb: UnknownTRB) -> (r:
        Result<Option<u64>, XhciError>)
        requires
            old(self).wf(),
            old(self).has_ring(slot_id, endpoint_id),
        ensures
            final(self).wf(),
            final(self).ring_size == old(self).ring_size,
            forall|s2: usize, e2: usize|
                final(self).has_ring(s2, e2) == old(self).has_ring(s2, e2),
            forall|s2: usize, e2: usize|
                !(s2 == slot_id && e2 == endpoint_id) && old(self).has_ring(s2, e2) ==> final(self).ring_at(s2, e2) == old(self).ring_at(s2, e2),
            ({
                let m = old(self).ring_at(slot_id, endpoint_id);
                let key = m.slot_addr(m.enq);
                if m.is_full() {
                    &&& r == Err::<Option<u64>, XhciError>(XhciError::RingIsFull)
                    &&& final(self).ring_at(slot_id, endpoint_id) == m
                    &&& final(self).listener.entries@ == old(self).listener.entries@
                } else {
                    &&& final(self).ring_at(slot_id, endpoint_id) == push_tr(m, trb).0
                    &&& (if spec_arms_listener(trb) {
                        &&& r == Ok::<Option<u64>, XhciError>(Some(key))
                        &&& final(self).listener.lookup(key) == Some(
                            OneshotSlot::<Result<TransferEventTrb, XhciError>>::Waiting,
                        )
                        &&& forall|k: u64|
                            k != key ==> final(self).listener.lookup(k) == old(self).listener.lookup(k)
                    } else {
                        &&& r == Ok::<Option<u64>, XhciError>(None)
                        &&& final(self).listener.entries@ == old(self).listener.entries@
                    })
                }
            }),
    {
        let idx = match self.lookup_ring(slot_id, endpoint_id) {
            Some(i) => i,
            None => {
                // unreachable: the caller owns a ring here
                return Err(XhciError::InvalidTrb);
            },
        };

        let ghost s0 = self.rings@;
        let mut entry = self.rings.remove(idx);
        let pushed = entry.ring.push(trb);
        let ghost new_ring = entry.ring;
        let ptr = match pushed {
            Ok(ptr) => ptr,
            Err(e) => {
                self.rings.insert(idx, entry);
                proof {
                    assert(self.rings@ =~= s0);
                    lemma_rings_key_preserved(s0, self.rings@, slot_id, endpoint_id, idx as int);
                }
                return Err(e);
            },
        };
        self.rings.insert(idx, entry);
        proof {
            assert(self.rings@ =~= s0.update(
                idx as int,
                TransferRingEntry {
                    slot_id: s0[idx as int].slot_id,
                    endpoint_id: s0[idx as int].endpoint_id,
                    ring: new_ring,
                },
            ));
            lemma_rings_key_preserved(s0, self.rings@, slot_id, endpoint_id, idx as int);
        }

        let ioc = (trb.d3 >> 5) & 1 == 1;
        let isp_data = trb.trb_type() == TRB_TYPE_DATA_STAGE && (trb.d3 >> 2) & 1 == 1;
        if ioc || isp_data {
            self.listener.register(ptr);
            Ok(Some(ptr))
        } else {
            Ok(None)
        }
    }

    /// Issues a control request on the default control pipe of
    /// `slot_id`, per the USB SETUP/DATA/STATUS protocol:
    ///
    /// - with no data (`length == 0`): a SETUP TRB (transfer type No)
    ///   then a STATUS TRB (direction in); the returned key names the
    ///   SETUP TRB;
    /// - with data: SETUP (In/Out per the request direction), DATA
    ///   (matching direction, at `data_buffer`), STATUS (reversed
    ///   direction); the returned key names the DATA TRB.
    ///
    /// The caller then rings the doorbell of `slot_id` with target 1
    /// and awaits the transfer event under the returned key. A full
    /// ring refuses with `RingIsFull`, leaving any TRBs already
    /// pushed in place, as the callers accept for an aborted request.
    pub fn control_request(&mut self, slot_id: usize, setup: SetupData, data_buffer: Option<u64>)
        -> (r: Result<u64, XhciError>)
        requires
            old(self).wf(),
            old(self).has_ring(slot_id, 1),
            setup.length > 0 ==> data_buffer is Some,
        ensures
            final(self).wf(),
            final(self).ring_size == old(self).ring_size,
            forall|s2: usize, e2: usize|
                final(self).has_ring(s2, e2) == old(self).has_ring(s2, e2),
            forall|s2: usize, e2: usize|
                !(s2 == slot_id && e2 == 1) && old(self).has_ring(s2, e2) ==> final(self).ring_at(
                    s2,
                    e2,
                ) == old(self).ring_at(s2, e2),
            ({
                let (req_type, req) = setup.request_type.actual_value_spec();
                let st = spec_setup_stage_trb(
                    req_type,
                    req,
                    setup.value,
                    setup.index,
                    setup.length,
                    spec_setup_transfer_type(req_type, setup.length),
                );
                let stat = spec_status_stage_trb(
                    spec_status_direction_in(req_type, setup.length),
                );
                let m0 = old(self).ring_at(slot_id, 1);
                if setup.length == 0 {
                    let (m1, r1) = push_tr(m0, st);
                    let (m2, r2) = push_tr(m1, stat);
                    if m0.is_full() {
                        r == Err::<u64, XhciError>(XhciError::RingIsFull) && final(self).ring_at(
                            slot_id,
                            1,
                        ) == m0 && final(self).listener.entries@ == old(self).listener.entries@
                    } else if m1.is_full() {
                        r == Err::<u64, XhciError>(XhciError::RingIsFull) && final(self).ring_at(
                            slot_id,
                            1,
                        ) == m1 && final(self).listener.lookup(m0.slot_addr(m0.enq)) == Some(
                            OneshotSlot::<Result<TransferEventTrb, XhciError>>::Waiting,
                        )
                    } else {
                        r == Ok::<u64, XhciError>(m0.slot_addr(m0.enq)) && final(self).ring_at(
                            slot_id,
                            1,
                        ) == m2 && final(self).listener.lookup(m0.slot_addr(m0.enq)) == Some(
                            OneshotSlot::<Result<TransferEventTrb, XhciError>>::Waiting,
                        ) && final(self).listener.lookup(m1.slot_addr(m1.enq)) == Some(
                            OneshotSlot::<Result<TransferEventTrb, XhciError>>::Waiting,
                        )
                    }
                } else {
                    let data = spec_data_stage_trb(
                        data_buffer.unwrap(),
                        setup.length,
                        spec_data_direction_in(req_type),
                    );
                    let (m1, r1) = push_tr(m0, st);
                    let (m2, r2) = push_tr(m1, data);
                    let (m3, r3) = push_tr(m2, stat);
                    if m0.is_full() {
                        r == Err::<u64, XhciError>(XhciError::RingIsFull) && final(self).ring_at(
                            slot_id,
                            1,
                        ) == m0 && final(self).listener.entries@ == old(self).listener.entries@
                    } else if m1.is_full() {
                        r == Err::<u64, XhciError>(XhciError::RingIsFull) && final(self).ring_at(
                            slot_id,
                            1,
                        ) == m1
                    } else if m2.is_full() {
                        r == Err::<u64, XhciError>(XhciError::RingIsFull) && final(self).ring_at(
                            slot_id,
                            1,
                        ) == m2 && final(self).listener.lookup(m1.slot_addr(m1.enq)) == Some(
                            OneshotSlot::<Result<TransferEventTrb, XhciError>>::Waiting,
                        )
                    } else {
                        r == Ok::<u64, XhciError>(m1.slot_addr(m1.enq)) && final(self).ring_at(
                            slot_id,
                            1,
                        ) == m3 && final(self).listener.lookup(m1.slot_addr(m1.enq)) == Some(
                            OneshotSlot::<Result<TransferEventTrb, XhciError>>::Waiting,
                        )
                    }
                }
            }),
    {
        let (req_type, req) = setup.request_type.get_actual_value();

        let transfer_type: u32 = if setup.length == 0 {
            TRANSFER_TYPE_NO
        } else if req_type >> 7 == 1 {
            TRANSFER_TYPE_IN
        } else {
            TRANSFER_TYPE_OUT
        };
        let status_dir_in: bool = !(req_type >> 7 == 1 && setup.length > 0);

        let setup_trb = setup_stage_trb(
            req_type,
            req,
            setup.value,
            setup.index,
            setup.length,
            transfer_type,
        );
        let status_trb = status_stage_trb(status_dir_in);

        if setup.length == 0 {
            let key = match self.push_transfer_trb(slot_id, 1, setup_trb)? {
                Some(key) => key,
                None => {
                    return Err(XhciError::InvalidTrb);
                },
            };
            self.push_transfer_trb(slot_id, 1, status_trb)?;
            Ok(key)
        } else {
            let data_addr = match data_buffer {
                Some(a) => a,
                None => {
                    return Err(XhciError::InvalidTrb);
                },
            };
            let data_trb = data_stage_trb(data_addr, setup.length, req_type >> 7 == 1);

            self.push_transfer_trb(slot_id, 1, setup_trb)?;
            let key = match self.push_transfer_trb(slot_id, 1, data_trb)? {
                Some(key) => key,
                None => {
                    return Err(XhciError::InvalidTrb);
                },
            };
            self.push_transfer_trb(slot_id, 1, status_trb)?;
            Ok(key)
        }
    }

    /// Routes a transfer event: the ring of `(slot, endpoint)` moves
    /// its dequeue index one past the completed TRB, and the listener
    /// armed at that TRB's address receives the event — as `Ok` on
    /// Success or ShortPacket, as a `TransferError` otherwise.
    pub fn on_trf_event(&mut self, evt: TransferEventTrb) -> (delivered: bool)
        requires
            old(self).wf(),
        ensures
            final(self).wf(),
            final(self).ring_size == old(self).ring_size,
            forall|s2: usize, e2: usize|
                final(self).has_ring(s2, e2) == old(self).has_ring(s2, e2),
            ({
                let slot = evt.slot_id as usize;
                let ep = evt.endpoint_id as usize;
                let p = evt.trb_pointer;
                if old(self).has_ring(slot, ep) && ({
                    let m = old(self).ring_at(slot, ep);
                    m.base <= p && (p - m.base) % 16 == 0 && (p - m.base) / 16 <= m.trbs.len() - 2
                }) {
                    final(self).ring_at(slot, ep) == set_deque_tr(old(self).ring_at(slot, ep), p)
                        && forall|s2: usize, e2: usize|
                        !(s2 == slot && e2 == ep) && old(self).has_ring(s2, e2) ==> final(self).ring_at(s2, e2) == old(self).ring_at(s2, e2)
                } else {
                    forall|s2: usize, e2: usize|
                        old(self).has_ring(s2, e2) ==> final(self).ring_at(s2, e2) == old(self).ring_at(s2, e2)
                }
            }),
            ({
                let result = if evt.is_success_spec() {
                    Ok::<TransferEventTrb, XhciError>(evt)
                } else {
                    Err::<TransferEventTrb, XhciError>(XhciError::TransferError(evt))
                };
                &&& delivered == (old(self).listener.lookup(evt.trb_pointer) == Some(
                    OneshotSlot::<Result<TransferEventTrb, XhciError>>::Waiting,
                ))
                &&& (delivered ==> final(self).listener.lookup(evt.trb_pointer) == Some(
                    OneshotSlot::Delivered(result),
                ))
                &&& (!delivered ==> final(self).listener.entries@ == old(self).listener.entries@)
                &&& forall|k: u64|
                    k != evt.trb_pointer ==> final(self).listener.lookup(k) == old(self).listener.lookup(k)
            }),
    {
        let slot = evt.slot_id as usize;
        let ep = evt.endpoint_id as usize;
        let found = self.lookup_ring(slot, ep);
        if let Some(idx) = found {
            let ghost s0 = self.rings@;
            let mut entry = self.rings.remove(idx);
            let base = entry.ring.get_buf_ptr();
            let size = entry.ring.size();
            let p = evt.trb_pointer;
            if base <= p && (p - base) % 16 == 0 && (p - base) / 16 <= (size - 2) as u64 {
                entry.ring.set_deque_ptr(p);
            }
            let ghost new_ring = entry.ring;
            self.rings.insert(idx, entry);
            proof {
                assert(self.rings@ =~= s0.update(
                    idx as int,
                    TransferRingEntry {
                        slot_id: s0[idx as int].slot_id,
                        endpoint_id: s0[idx as int].endpoint_id,
                        ring: new_ring,
                    },
                ));
                lemma_rings_key_preserved(s0, self.rings@, slot, ep, idx as int);
            }
        }

        let result: Result<TransferEventTrb, XhciError> = if evt.is_success() {
            Ok(evt)
        } else {
            Err(XhciError::TransferError(evt))
        };
        self.listener.deliver(evt.trb_pointer, result)
    }

    /// Resolves the await on the transfer pushed at `key`.
    pub fn take_transfer_result(&mut self, key: u64) -> (r: Option<
        Result<TransferEventTrb, XhciError>,
    >)
        requires
            old(self).wf(),
        ensures
            final(self).wf(),
            final(self).rings@ == old(self).rings@,
            final(self).ring_size == old(self).ring_size,
            match old(self).listener.lookup(key) {
                Some(OneshotSlot::Delivered(v)) => r == Some(v) && final(self).listener.lookup(key)
                    is None && forall|k: u64|
                    k != key ==> final(self).listener.lookup(k) == old(self).listener.lookup(k),
                _ => r is None && final(self).listener.entries@ == old(self).listener.entries@,
            },
    {
        self.listener.take(key)
    }
}

/// After an in-place update of entry `i` that keeps its key, every
/// key still resolves to the same index, and every other entry is
/// untouched.
proof fn lemma_rings_key_preserved(
    a: Seq<TransferRingEntry>,
    b: Seq<TransferRingEntry>,
    slot: usize,
    ep: usize,
    i: int,
)
    requires
        unique_ring_keys(a),
        0 <= i < a.len(),
        b.len() == a.len(),
        a[i].slot_id == slot,
        a[i].endpoint_id == ep,
        forall|j: int| 0 <= j < a.len() && j != i ==> a[j] == b[j],
        b[i].slot_id == slot,
        b[i].endpoint_id == ep,
    ensures
        unique_ring_keys(b),
        forall|s2: usize, e2: usize|
            has_ring_seq(b, s2, e2) == has_ring_seq(a, s2, e2),
        forall|s2: usize, e2: usize|
            has_ring_seq(a, s2, e2) ==> ring_index_seq(b, s2, e2) == ring_index_seq(a, s2, e2),
{
    assert forall|x: int, y: int| 0 <= x < y < b.len() implies !(b[x].slot_id == b[y].slot_id
        && b[x].endpoint_id == b[y].endpoint_id) by {
        assert(b[x].slot_id == a[x].slot_id && b[x].endpoint_id == a[x].endpoint_id);
        assert(b[y].slot_id == a[y].slot_id && b[y].endpoint_id == a[y].endpoint_id);
    }
    assert forall|s2: usize, e2: usize| has_ring_seq(b, s2, e2) == has_ring_seq(a, s2, e2) by {
        if has_ring_seq(a, s2, e2) {
            let j = ring_index_seq(a, s2, e2);
            assert(a[j].slot_id == s2 && a[j].endpoint_id == e2);
            assert(b[j].slot_id == s2 && b[j].endpoint_id == e2);
            assert(has_ring_seq(b, s2, e2));
        }
        if has_ring_seq(b, s2, e2) {
            let j = ring_index_seq(b, s2, e2);
            assert(b[j].slot_id == s2 && b[j].endpoint_id == e2);
            assert(a[j].slot_id == s2 && a[j].endpoint_id == e2);
            assert(has_ring_seq(a, s2, e2));
        }
    }
    assert forall|s2: usize, e2: usize| has_ring_seq(a, s2, e2) implies ring_index_seq(b, s2, e2)
        == ring_index_seq(a, s2, e2) by {
        let j = ring_index_seq(a, s2, e2);
        assert(a[j].slot_id == s2 && a[j].endpoint_id == e2);
        assert(b[j].slot_id == s2 && b[j].endpoint_id == e2);
        lemma_ring_index_unique(b, s2, e2, j);
    }
}

/// Pushing an entry with a fresh key keeps the old entries where
/// they were and makes the new key resolvable.
proof fn lemma_rings_key_pushed(
    a: Seq<TransferRingEntry>,
    b: Seq<TransferRingEntry>,
    slot: usize,
    ep: usize,
)
    requires
        unique_ring_keys(a),
        !has_ring_seq(a, slot, ep),
        b.len() == a.len() + 1,
        forall|j: int| 0 <= j < a.len() ==> a[j] == b[j],
        b[a.len() as int].slot_id == slot,
        b[a.len() as int].endpoint_id == ep,
    ensures
        unique_ring_keys(b),
        has_ring_seq(b, slot, ep),
        ring_index_seq(b, slot, ep) == a.len(),
        forall|s2: usize, e2: usize|
            !(s2 == slot && e2 == ep) ==> has_ring_seq(b, s2, e2) == has_ring_seq(a, s2, e2),
        forall|s2: usize, e2: usize|
            !(s2 == slot && e2 == ep) && has_ring_seq(a, s2, e2) ==> ring_index_seq(b, s2, e2)
                == ring_index_seq(a, s2, e2),
{
    assert forall|x: int, y: int| 0 <= x < y < b.len() implies !(b[x].slot_id == b[y].slot_id
        && b[x].endpoint_id == b[y].endpoint_id) by {
        if y < a.len() {
            assert(b[x] == a[x] && b[y] == a[y]);
        } else {
            if b[x].slot_id == slot && b[x].endpoint_id == ep {
                assert(a[x].slot_id == slot && a[x].endpoint_id == ep);
                assert(has_ring_seq(a, slot, ep));
            }
        }
    }
    lemma_ring_index_unique(b, slot, ep, a.len() as int);
    assert forall|s2: usize, e2: usize|
        !(s2 == slot && e2 == ep) implies has_ring_seq(b, s2, e2) == has_ring_seq(a, s2, e2) by {
        if has_ring_seq(a, s2, e2) {
            let j = ring_index_seq(a, s2, e2);
            assert(b[j].slot_id == s2 && b[j].endpoint_id == e2);
            assert(has_ring_seq(b, s2, e2));
        }
        if has_ring_seq(b, s2, e2) {
            let j = ring_index_seq(b, s2, e2);
            assert(b[j].slot_id == s2 && b[j].endpoint_id == e2);
            if j < a.len() {
                assert(a[j].slot_id == s2 && a[j].endpoint_id == e2);
                assert(has_ring_seq(a, s2, e2));
            }
        }
    }
    assert forall|s2: usize, e2: usize|
        !(s2 == slot && e2 == ep) && has_ring_seq(a, s2, e2) implies ring_index_seq(b, s2, e2)
        == ring_index_seq(a, s2, e2) by {
        let j = ring_index_seq(a, s2, e2);
        assert(a[j].slot_id == s2 && a[j].endpoint_id == e2);
        assert(b[j].slot_id == s2 && b[j].endpoint_id == e2);
        lemma_ring_index_unique(b, s2, e2, j);
    }
}

} // verus!
