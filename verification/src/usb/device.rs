//! Device contexts and the DCBAA: the structures the controller and
//! driver share to describe an addressed device, held here as plain
//! values — a slot context, 31 endpoint contexts, and for the input
//! variant the control word saying which sub-contexts a command
//! reads. Each context also carries the 64-byte-aligned physical
//! address at which its DMA image lives.

use vstd::prelude::*;

verus! {

/// Whether the controller uses 32-byte or 64-byte contexts
/// (HCCPARAMS1 context-size bit).
#[derive(Clone, Copy, Debug, PartialEq, Eq, Structural)]
pub enum ContextSize {
    Csz32Bytes,
    Csz64Bytes,
}

impl ContextSize {
    pub open spec fn byte_size_spec(self) -> int {
        match self {
            ContextSize::Csz32Bytes => 32,
            ContextSize::Csz64Bytes => 64,
        }
    }

    pub fn byte_size(&self) -> (r: usize)
        ensures
            r == self.byte_size_spec(),
    {
        match self {
            ContextSize::Csz32Bytes => 32,
            ContextSize::Csz64Bytes => 64,
        }
    }
}

/// The endpoint types of the xHCI endpoint context, by transfer kind
/// and direction.
#[derive(Clone, Copy, Debug, PartialEq, Eq, Structural)]
pub enum EndpointType {
    NotValid,
    IsochOut,
    BulkOut,
    InterruptOut,
    Control,
    IsochIn,
    BulkIn,
    InterruptIn,
}

/// The zeroed slot context.
pub open spec fn spec_zero_slot_context() -> SlotContext {
    SlotContext {
        route_string: 0,
        root_hub_port_number: 0,
        context_entries: 0,
        interrupter_target: 0,
        speed: 0,
    }
}

/// The zeroed endpoint context.
pub open spec fn spec_zero_endpoint_context() -> EndpointContext {
    EndpointContext {
        endpoint_type: EndpointType::NotValid,
        max_packet_size: 0,
        max_burst_size: 0,
        tr_dequeue_pointer: 0,
        dequeue_cycle_state: false,
        interval: 0,
        max_primary_streams: 0,
        mult: 0,
        error_count: 0,
    }
}

/// The slot context fields this driver reads and writes.
#[derive(Clone, Copy, Debug, PartialEq, Eq, Structural)]
pub struct SlotContext {
    pub route_string: u32,
    pub root_hub_port_number: u8,
    pub context_entries: u8,
    pub interrupter_target: u16,
    pub speed: u8,
}

impl SlotContext {
    pub fn new() -> (r: Self)
        ensures
            r == spec_zero_slot_context(),
    {
        SlotContext {
            route_string: 0,
            root_hub_port_number: 0,
            context_entries: 0,
            interrupter_target: 0,
            speed: 0,
        }
    }
}

/// The endpoint context fields this driver reads and writes.
#[derive(Clone, Copy, Debug, PartialEq, Eq, Structural)]
pub struct EndpointContext {
    pub endpoint_type: EndpointType,
    pub max_packet_size: u16,
    pub max_burst_size: u8,
    pub tr_dequeue_pointer: u64,
    pub dequeue_cycle_state: bool,
    pub interval: u8,
    pub max_primary_streams: u8,
    pub mult: u8,
    pub error_count: u8,
}

impl EndpointContext {
    pub fn new() -> (r: Self)
        ensures
            r == spec_zero_endpoint_context(),
    {
        EndpointContext {
            endpoint_type: EndpointType::NotValid,
            max_packet_size: 0,
            max_burst_size: 0,
            tr_dequeue_pointer: 0,
            dequeue_cycle_state: false,
            interval: 0,
            max_primary_streams: 0,
            mult: 0,
            error_count: 0,
        }
    }
}

/// A device context: the slot context and endpoint contexts 1..=31
/// (index 0 of `endpoints` is unused, as DCI 0 is).
pub struct DeviceContextData {
    pub slot: SlotContext,
    pub endpoints: Vec<EndpointContext>,
}

impl DeviceContextData {
    pub open spec fn wf(&self) -> bool {
        self.endpoints@.len() == 32
    }

    pub fn new() -> (r: Self)
        ensures
            r.wf(),
            r.slot == spec_zero_slot_context(),
            forall|i: int| 0 <= i < 32 ==> r.endpoints@[i] == spec_zero_endpoint_context(),
    {
        let mut endpoints: Vec<EndpointContext> = Vec::new();
        let mut i: usize = 0;
        while i < 32
            invariant
                i <= 32,
                endpoints@.len() == i,
                forall|j: int| 0 <= j < i ==> endpoints@[j] == spec_zero_endpoint_context(),
            decreases 32 - i,
        {
            endpoints.push(EndpointContext::new());
            i = i + 1;
        }
        DeviceContextData { slot: SlotContext::new(), endpoints }
    }
}

/// A device context in the controller's chosen size, with the
/// physical address of its DMA image.
pub enum DeviceContext {
    DC32Byte(DeviceContextData, u64),
    DC64Byte(DeviceContextData, u64),
}

impl DeviceContext {
    pub open spec fn wf(&self) -> bool {
        self.handler_spec().wf()
    }

    pub open spec fn handler_spec(&self) -> DeviceContextData {
        match self {
            DeviceContext::DC32Byte(d, _) => *d,
            DeviceContext::DC64Byte(d, _) => *d,
        }
    }

    pub open spec fn address_spec(&self) -> u64 {
        match self {
            DeviceContext::DC32Byte(_, a) => *a,
            DeviceContext::DC64Byte(_, a) => *a,
        }
    }

    /// A zeroed device context of the given size, whose DMA image
    /// lives at `address` (a 64-byte-aligned buffer the caller set
    /// aside).
    pub fn new(size: ContextSize, address: u64) -> (r: Self)
        ensures
            r.wf(),
            r.get_size_spec() == size,
            r.address_spec() == address,
            r.handler_spec().slot == spec_zero_slot_context(),
            forall|i: int| 0 <= i < 32 ==> r.handler_spec().endpoints@[i] == spec_zero_endpoint_context(),
    {
        match size {
            ContextSize::Csz32Bytes => DeviceContext::DC32Byte(DeviceContextData::new(), address),
            ContextSize::Csz64Bytes => DeviceContext::DC64Byte(DeviceContextData::new(), address),
        }
    }

    pub fn handler(&self) -> (r: &DeviceContextData)
        ensures
            *r == self.handler_spec(),
    {
        match self {
            DeviceContext::DC32Byte(d, _) => d,
            DeviceContext::DC64Byte(d, _) => d,
        }
    }

    pub fn handler_mut(&mut self) -> (r: &mut DeviceContextData)
        ensures
            *r == old(self).handler_spec(),
            final(self).handler_spec() == *final(r),
            final(self).address_spec() == old(self).address_spec(),
            final(self).get_size_spec() == old(self).get_size_spec(),
    {
        match self {
            DeviceContext::DC32Byte(d, _) => d,
            DeviceContext::DC64Byte(d, _) => d,
        }
    }

    pub fn get_address(&self) -> (r: u64)
        ensures
            r == self.address_spec(),
    {
        match self {
            DeviceContext::DC32Byte(_, a) => *a,
            DeviceContext::DC64Byte(_, a) => *a,
        }
    }

    pub open spec fn get_size_spec(&self) -> ContextSize {
        match self {
            DeviceContext::DC32Byte(_, _) => ContextSize::Csz32Bytes,
            DeviceContext::DC64Byte(_, _) => ContextSize::Csz64Bytes,
        }
    }

    pub fn get_size(&self) -> (r: ContextSize)
        ensures
            r == self.get_size_spec(),
    {
        match self {
            DeviceContext::DC32Byte(_, _) => ContextSize::Csz32Bytes,
            DeviceContext::DC64Byte(_, _) => ContextSize::Csz64Bytes,
        }
    }
}

/// Whether add-context flag `i` is set in an input control word.
pub open spec fn add_flag_set(flags: u32, i: int) -> bool {
    flags & (1u32 << (i as u32)) != 0
}

proof fn lemma_u32_flag_set(m: u32, b: u32, i: u32)
    by (bit_vector)
    requires
        b < 32,
        i < 32,
    ensures
        (m | (1u32 << b)) & (1u32 << b) != 0,
        i != b ==> (((m | (1u32 << b)) & (1u32 << i) != 0) <==> (m & (1u32 << i) != 0)),
{
}

/// An input context: the control word of add-context flags and the
/// device sub-contexts an AddressDevice or ConfigureEndpoint command
/// reads.
pub struct InputContextData {
    pub control_add_flags: u32,
    pub device: DeviceContextData,
}

impl InputContextData {
    pub open spec fn wf(&self) -> bool {
        self.device.wf()
    }

    /// Marks sub-context `i` (0 the slot context, `dci` an endpoint
    /// context) as read by the next command.
    pub fn set_add_context_flag(&mut self, i: usize)
        requires
            i < 32,
        ensures
            final(self).device == old(self).device,
            add_flag_set(final(self).control_add_flags, i as int),
            forall|j: int|
                0 <= j < 32 && j != i ==> add_flag_set(final(self).control_add_flags, j)
                    == add_flag_set(old(self).control_add_flags, j),
            final(self).control_add_flags == old(self).control_add_flags | (1u32 << (i as u32)),
    {
        proof {
            let m = self.control_add_flags;
            let b = i as u32;
            assert forall|j: int| 0 <= j < 32 && j != i implies add_flag_set(m | (1u32 << b), j)
                == add_flag_set(m, j) by {
                lemma_u32_flag_set(m, b, j as u32);
            }
            lemma_u32_flag_set(m, b, b);
        }
        self.control_add_flags = self.control_add_flags | (1u32 << (i as u32));
    }
}

/// An input context in the controller's chosen size, with the
/// physical address of its DMA image.
pub enum InputContext {
    IC32Byte(InputContextData, u64),
    IC64Byte(InputContextData, u64),
}

impl InputContext {
    pub open spec fn wf(&self) -> bool {
        self.handler_spec().wf()
    }

    pub open spec fn handler_spec(&self) -> InputContextData {
        match self {
            InputContext::IC32Byte(d, _) => *d,
            InputContext::IC64Byte(d, _) => *d,
        }
    }

    pub open spec fn address_spec(&self) -> u64 {
        match self {
            InputContext::IC32Byte(_, a) => *a,
            InputContext::IC64Byte(_, a) => *a,
        }
    }

    /// A zeroed input context of the given size at `address`.
    pub fn new(size: ContextSize, address: u64) -> (r: Self)
        ensures
            r.wf(),
            r.get_size_spec() == size,
            r.address_spec() == address,
            r.handler_spec().control_add_flags == 0,
            r.handler_spec().device.slot == spec_zero_slot_context(),
            forall|i: int|
                0 <= i < 32 ==> r.handler_spec().device.endpoints@[i]
                    == spec_zero_endpoint_context(),
    {
        let data = InputContextData { control_add_flags: 0, device: DeviceContextData::new() };
        match size {
            ContextSize::Csz32Bytes => InputContext::IC32Byte(data, address),
            ContextSize::Csz64Bytes => InputContext::IC64Byte(data, address),
        }
    }

    pub fn handler(&self) -> (r: &InputContextData)
        ensures
            *r == self.handler_spec(),
    {
        match self {
            InputContext::IC32Byte(d, _) => d,
            InputContext::IC64Byte(d, _) => d,
        }
    }

    pub fn handler_mut(&mut self) -> (r: &mut InputContextData)
        ensures
            *r == old(self).handler_spec(),
            final(self).handler_spec() == *final(r),
            final(self).address_spec() == old(self).address_spec(),
            final(self).get_size_spec() == old(self).get_size_spec(),
    {
        match self {
            InputContext::IC32Byte(d, _) => d,
            InputContext::IC64Byte(d, _) => d,
        }
    }

    pub fn get_address(&self) -> (r: u64)
        ensures
            r == self.address_spec(),
    {
        match self {
            InputContext::IC32Byte(_, a) => *a,
            InputContext::IC64Byte(_, a) => *a,
        }
    }

    pub open spec fn get_size_spec(&self) -> ContextSize {
        match self {
            InputContext::IC32Byte(_, _) => ContextSize::Csz32Bytes,
            InputContext::IC64Byte(_, _) => ContextSize::Csz64Bytes,
        }
    }

    pub fn get_size(&self) -> (r: ContextSize)
        ensures
            r == self.get_size_spec(),
    {
        match self {
            InputContext::IC32Byte(_, _) => ContextSize::Csz32Bytes,
            InputContext::IC64Byte(_, _) => ContextSize::Csz64Bytes,
        }
    }
}

/// The Device Context Base Address Array and the device contexts it
/// points at, indexed by slot id. Entry 0 is reserved for the
/// scratchpad array.
pub struct Dcbaa {
    pub dcbaa: Vec<u64>,
    pub contexts: Vec<Option<DeviceContext>>,
    pub ctx_size: ContextSize,
}

impl Dcbaa {
    pub open spec fn wf(&self) -> bool {
        &&& self.dcbaa@.len() == self.contexts@.len()
        &&& self.dcbaa@.len() >= 1
        &&& forall|i: int|
            0 <= i < self.contexts@.len() && self.contexts@[i] is Some
                ==> (#[trigger] self.contexts@[i]).unwrap().wf() && self.dcbaa@[i]
                == self.contexts@[i].unwrap().address_spec()
    }

    pub fn ctx_size(&self) -> (r: ContextSize)
        ensures
            r == self.ctx_size,
    {
        self.ctx_size
    }

    /// The device context of an addressed slot.
    pub fn get_context_at(&self, slot_id: usize) -> (r: &DeviceContext)
        requires
            self.wf(),
            slot_id < self.contexts@.len(),
            self.contexts@[slot_id as int] is Some,
        ensures
            *r == self.contexts@[slot_id as int].unwrap(),
    {
        match &self.contexts[slot_id] {
            Some(ctx) => ctx,
            None => vstd::pervasive::unreached(),
        }
    }

    /// Installs a fresh device context for `slot_id`, whose DMA
    /// image the caller placed at `address`, and publishes that
    /// address in the DCBAA at the slot's index.
    pub fn init_context_at(&mut self, slot_id: usize, address: u64)
        requires
            old(self).wf(),
            1 <= slot_id < old(self).contexts@.len(),
        ensures
            final(self).wf(),
            final(self).ctx_size == old(self).ctx_size,
            final(self).contexts@.len() == old(self).contexts@.len(),
            final(self).contexts@[slot_id as int] is Some,
            ({
                let c = final(self).contexts@[slot_id as int].unwrap();
                &&& c.wf()
                &&& c.get_size_spec() == old(self).ctx_size
                &&& c.address_spec() == address
                &&& c.handler_spec().slot == spec_zero_slot_context()
                &&& forall|i: int|
                    0 <= i < 32 ==> c.handler_spec().endpoints@[i] == spec_zero_endpoint_context()
            }),
            final(self).dcbaa@ == old(self).dcbaa@.update(slot_id as int, address),
            forall|i: int|
                0 <= i < old(self).contexts@.len() && i != slot_id ==> final(self).contexts@[i]
                    == old(self).contexts@[i],
    {
        let ctx = DeviceContext::new(self.ctx_size, address);
        self.contexts.set(slot_id, Some(ctx));
        self.dcbaa.set(slot_id, address);
    }
}

/// Sets up the DCBAA for `max_slots` device slots: `max_slots + 1`
/// zeroed entries, with entry 0 pointing at the scratchpad-buffer
/// array when the controller asked for scratchpads. The caller
/// programs DCBAAP with the array's own address.
pub fn init_dcbaa(max_slots: usize, ctx_size: ContextSize, scratchpad_arr: Option<u64>) -> (r:
    Dcbaa)
    requires
        max_slots < usize::MAX,
    ensures
        r.wf(),
        r.ctx_size == ctx_size,
        r.dcbaa@.len() == max_slots + 1,
        r.dcbaa@[0] == (match scratchpad_arr {
            Some(a) => a,
            None => 0u64,
        }),
        forall|i: int| 1 <= i < r.dcbaa@.len() ==> r.dcbaa@[i] == 0u64,
        forall|i: int| 0 <= i < r.contexts@.len() ==> r.contexts@[i] is None,
{
    let n = max_slots + 1;
    let mut dcbaa: Vec<u64> = Vec::new();
    let mut contexts: Vec<Option<DeviceContext>> = Vec::new();
    let mut i: usize = 0;
    while i < n
        invariant
            i <= n,
            dcbaa@.len() == i,
            contexts@.len() == i,
            forall|j: int| 0 <= j < i ==> dcbaa@[j] == 0u64,
            forall|j: int| 0 <= j < i ==> contexts@[j] is None,
        decreases n - i,
    {
        dcbaa.push(0);
        contexts.push(None);
        i = i + 1;
    }
    if let Some(arr) = scratchpad_arr {
        dcbaa.set(0, arr);
    }
    Dcbaa { dcbaa, contexts, ctx_size }
}

} // verus!
