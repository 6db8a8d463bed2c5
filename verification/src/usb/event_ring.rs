//! The event-ring drain: on every xHCI interrupt the driver pops the
//! freshly written event TRBs and routes each to its listener —
//! transfer events, command completions and port status changes each
//! to their own channel; other event types are ignored in this
//! driver.
//!
//! Draining ends by reporting the new event-ring dequeue pointer,
//! which the caller writes to ERDP (with the event-handler-busy bit
//! clear).

use vstd::prelude::*;

use crate::usb::ring::{pop_tr, ConsumerRing, ConsumerRingModel};
use crate::usb::runtime::{Channel, ChannelModel};
use crate::usb::trb::UnknownTRB;
use crate::usb::xhci::{
    decode_event, spec_decode_event, CommandCompletionTrb, EventTrb, PortStatusChangeTrb,
    TransferEventTrb,
};

verus! {

/// Repeated pops until the ring reads empty or the fuel runs out:
/// the drained state and the TRBs taken, in order. One lap of fuel
/// beyond the ring size always suffices, because a full lap flips
/// the consumer cycle state out from under the entries just read.
pub open spec fn drain_rec(m: ConsumerRingModel, fuel: nat) -> (ConsumerRingModel, Seq<UnknownTRB>)
    decreases fuel,
{
    if fuel == 0 || m.is_empty() {
        (m, Seq::empty())
    } else {
        let t = m.trbs[m.deq];
        let stepped = drain_rec(pop_tr(m).0, (fuel - 1) as nat);
        (stepped.0, seq![t] + stepped.1)
    }
}

/// The three routing targets and the wakers woken along the way.
#[verifier::ext_equal]
pub ghost struct RouterModel {
    pub trf: ChannelModel<TransferEventTrb>,
    pub cmd: ChannelModel<CommandCompletionTrb>,
    pub port: ChannelModel<PortStatusChangeTrb>,
    pub woken: Seq<u64>,
}

/// Routing one raw event TRB: the decoded event goes to the channel
/// of its kind, waking that channel's parked receiver; unhandled
/// kinds fall through.
pub open spec fn route_one(rm: RouterModel, trb: UnknownTRB) -> RouterModel {
    match spec_decode_event(trb) {
        EventTrb::Transfer(e) => RouterModel {
            trf: ChannelModel { msgs: rm.trf.msgs.push(e), waker: None },
            woken: if rm.trf.waker is Some {
                rm.woken.push(rm.trf.waker.unwrap())
            } else {
                rm.woken
            },
            ..rm
        },
        EventTrb::CommandCompletion(e) => RouterModel {
            cmd: ChannelModel { msgs: rm.cmd.msgs.push(e), waker: None },
            woken: if rm.cmd.waker is Some {
                rm.woken.push(rm.cmd.waker.unwrap())
            } else {
                rm.woken
            },
            ..rm
        },
        EventTrb::PortStatusChange(e) => RouterModel {
            port: ChannelModel { msgs: rm.port.msgs.push(e), waker: None },
            woken: if rm.port.waker is Some {
                rm.woken.push(rm.port.waker.unwrap())
            } else {
                rm.woken
            },
            ..rm
        },
        EventTrb::Other(_) => rm,
    }
}

pub open spec fn route_all(rm: RouterModel, ts: Seq<UnknownTRB>) -> RouterModel
    decreases ts.len(),
{
    if ts.len() == 0 {
        rm
    } else {
        route_all(route_one(rm, ts[0]), ts.drop_first())
    }
}

pub proof fn lemma_route_all_snoc(rm: RouterModel, ts: Seq<UnknownTRB>, t: UnknownTRB)
    ensures
        route_all(rm, ts.push(t)) == route_one(route_all(rm, ts), t),
    decreases ts.len(),
{
    reveal_with_fuel(route_all, 3);
    if ts.len() == 0 {
        assert(ts.push(t).drop_first() =~= ts);
        assert(route_all(rm, ts.push(t)) =~~= route_one(route_all(rm, ts), t));
    } else {
        assert(ts.push(t).drop_first() =~= ts.drop_first().push(t));
        lemma_route_all_snoc(route_one(rm, ts[0]), ts.drop_first(), t);
        assert(route_all(rm, ts.push(t)) =~~= route_one(route_all(rm, ts), t));
    }
}

/// The event ring together with the channels its events are routed
/// to.
pub struct EventRing {
    pub ring: ConsumerRing,
    pub trf_listener: Channel<TransferEventTrb>,
    pub cmd_listener: Channel<CommandCompletionTrb>,
    pub port_listener: Channel<PortStatusChangeTrb>,
}

impl EventRing {
    pub open spec fn wf(&self) -> bool {
        self.ring.wf()
    }

    pub open spec fn router_model(&self) -> RouterModel {
        RouterModel {
            trf: self.trf_listener@,
            cmd: self.cmd_listener@,
            port: self.port_listener@,
            woken: Seq::empty(),
        }
    }
}

/// A fresh event ring of `size` entries at physical address
/// `base_addr` with empty routing channels. The caller publishes the
/// segment to the interrupter: ERSTSZ 1, ERSTBA at the segment-table
/// entry given by `erst_entry`, ERDP at the base.
pub fn init_event_ring(size: usize, base_addr: u64) -> (r: EventRing)
    requires
        1 <= size,
        base_addr % 16 == 0,
        base_addr + 16 * size <= u64::MAX,
    ensures
        r.wf(),
        r.ring@.trbs.len() == size,
        r.ring@.deq == 0,
        r.ring@.cycle == true,
        r.ring@.base == base_addr,
        forall|i: int| 0 <= i < size ==> r.ring@.trbs[i] == (UnknownTRB { d0: 0, d1: 0, d2: 0, d3: 0 }),
        r.trf_listener@.msgs == Seq::<TransferEventTrb>::empty(),
        r.cmd_listener@.msgs == Seq::<CommandCompletionTrb>::empty(),
        r.port_listener@.msgs == Seq::<PortStatusChangeTrb>::empty(),
{
    EventRing {
        ring: ConsumerRing::new(size, base_addr),
        trf_listener: Channel::new(),
        cmd_listener: Channel::new(),
        port_listener: Channel::new(),
    }
}

impl EventRing {
    /// The single Event Ring Segment Table entry for this ring:
    /// base address and size, as the two words the hardware expects.
    pub fn erst_entry(&self) -> (r: (u64, u64))
        ensures
            r.0 == self.ring@.base,
            r.1 == self.ring@.trbs.len(),
    {
        (self.ring.get_buf_ptr(), self.ring.size() as u64)
    }

    /// Drains every freshly written event and routes each to the
    /// channel of its kind, waking parked receivers. Returns the new
    /// dequeue pointer to be written to ERDP (with the
    /// event-handler-busy bit cleared) and the woken task tokens.
    pub fn on_xhc_interrupt(&mut self) -> (r: (u64, Vec<u64>))
        requires
            old(self).wf(),
        ensures
            final(self).wf(),
            ({
                let n = old(self).ring@.trbs.len();
                let (drained, popped) = drain_rec(old(self).ring@, (n + 1) as nat);
                let routed = route_all(old(self).router_model(), popped);
                &&& final(self).ring@ == drained
                &&& final(self).ring@.is_empty()
                &&& final(self).trf_listener@ == routed.trf
                &&& final(self).cmd_listener@ == routed.cmd
                &&& final(self).port_listener@ == routed.port
                &&& r.1@ == routed.woken
                &&& r.0 == final(self).ring@.base + 16 * final(self).ring@.deq
            }),
    {
        let ghost m0 = self.ring@;
        let ghost n = m0.trbs.len() as int;
        let ghost fuel = (n + 1) as nat;
        let ghost d0 = m0.deq;
        let ghost c0 = m0.cycle;
        let ghost rm0 = self.router_model();

        let mut woken: Vec<u64> = Vec::new();
        let ghost mut j: int = 0;
        let ghost mut popped: Seq<UnknownTRB> = Seq::empty();

        while self.ring.has_event()
            invariant
                self.ring.wf(),
                m0 == old(self).ring@,
                m0.wf(),
                n == m0.trbs.len(),
                0 <= d0 < n,
                d0 == m0.deq,
                c0 == m0.cycle,
                fuel == n + 1,
                0 <= j <= n,
                self.ring@.trbs == m0.trbs,
                self.ring@.base == m0.base,
                popped.len() == j,
                self.ring@.deq == (if d0 + j < n {
                    d0 + j
                } else {
                    d0 + j - n
                }),
                self.ring@.cycle == (if d0 + j < n {
                    c0
                } else {
                    !c0
                }),
                j >= 1 ==> m0.trbs[d0].cycle_bit_spec() == c0,
                drain_rec(m0, fuel).0 == drain_rec(self.ring@, (fuel - j) as nat).0,
                drain_rec(m0, fuel).1 == popped + drain_rec(self.ring@, (fuel - j) as nat).1,
                route_all(rm0, popped) == (RouterModel {
                    trf: self.trf_listener@,
                    cmd: self.cmd_listener@,
                    port: self.port_listener@,
                    woken: woken@,
                }),
            decreases n - j,
        {
            proof {
                // a full lap would have flipped the cycle state away
                // from the entry that matched at the first pop
                if j == n {
                    assert(self.ring@.deq == d0);
                    assert(self.ring@.cycle == !c0);
                    assert(false);
                }
            }
            let ghost m_cur = self.ring@;
            let trb = self.ring.pop().unwrap();

            match decode_event(trb) {
                EventTrb::Transfer(e) => {
                    let w = self.trf_listener.send(e);
                    if let Some(token) = w {
                        woken.push(token);
                    }
                },
                EventTrb::CommandCompletion(e) => {
                    let w = self.cmd_listener.send(e);
                    if let Some(token) = w {
                        woken.push(token);
                    }
                },
                EventTrb::PortStatusChange(e) => {
                    let w = self.port_listener.send(e);
                    if let Some(token) = w {
                        woken.push(token);
                    }
                },
                EventTrb::Other(_) => {},
            }

            proof {
                assert(fuel - j >= 2);
                let rest = drain_rec(self.ring@, (fuel - j - 1) as nat);
                assert(drain_rec(m_cur, (fuel - j) as nat) == (rest.0, seq![trb] + rest.1));
                lemma_route_all_snoc(rm0, popped, trb);
                assert(popped + (seq![trb] + rest.1) =~= popped.push(trb) + rest.1);
                popped = popped.push(trb);
                j = j + 1;
            }
        }

        let erdp = self.ring.get_buf_ptr() + (self.ring.deque_index() as u64) * 16;
        (erdp, woken)
    }
}

} // verus!
