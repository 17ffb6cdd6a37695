//! The per-frame uniform buffer: one allocation cut into one stride per frame
//! slot, so that the data of a frame being prepared never shares a byte with
//! the data of a frame the GPU may still be reading.

use vstd::prelude::*;

verus! {

/// Number of frames whose GPU work may be unfinished at the same time.
pub const FRAMES_IN_FLIGHT: usize = 3;

/// The larger of the device's minimum uniform-buffer offset alignment and the
/// size of the per-frame payload.
pub open spec fn stride_for(min_alignment: u64, payload_size: u64) -> u64 {
    if min_alignment >= payload_size {
        min_alignment
    } else {
        payload_size
    }
}

/// Mathematical description of the uniform buffer's layout.
pub struct UniformLayout {
    /// Distance in bytes between the data of consecutive frame slots.
    pub stride: nat,
    /// Bytes written per frame.
    pub payload: nat,
}

impl UniformLayout {
    /// A slot's payload fits in its stride, and every offset into the buffer
    /// fits the 32 bits of a dynamic descriptor offset.
    pub open spec fn wf(self) -> bool {
        &&& self.payload <= self.stride
        &&& self.stride * FRAMES_IN_FLIGHT <= u32::MAX
    }

    /// Size of the whole buffer in bytes.
    pub open spec fn size(self) -> nat {
        self.stride * (FRAMES_IN_FLIGHT as nat)
    }

    /// First byte of the data of frame slot `slot`.
    pub open spec fn offset(self, slot: nat) -> nat {
        slot * self.stride
    }

    /// Whether byte `byte` of the buffer belongs to the data of slot `slot`.
    pub open spec fn owns(self, slot: nat, byte: nat) -> bool {
        self.offset(slot) <= byte < self.offset(slot) + self.payload
    }
}

/// Layout of the uniform buffer, fixed when the buffer is created.
#[derive(Clone, Copy, Debug)]
pub struct UniformRing {
    stride: u64,
    payload: u64,
}

impl View for UniformRing {
    type V = UniformLayout;

    closed spec fn view(&self) -> UniformLayout {
        UniformLayout { stride: self.stride as nat, payload: self.payload as nat }
    }
}

impl UniformRing {
    /// What holds of every ring: its layout is well formed.
    #[verifier::type_invariant]
    pub open spec fn inv(self) -> bool {
        self@.wf()
    }

    /// Lays the buffer out for a device with the given minimum offset
    /// alignment and a payload of `payload_size` bytes per frame.
    ///
    /// Returns `None` exactly when the buffer would reach past what a dynamic
    /// descriptor offset can address.
    pub fn new(min_alignment: u64, payload_size: u64) -> (ring: Option<UniformRing>)
        ensures
            ring is Some <==> stride_for(min_alignment, payload_size) * FRAMES_IN_FLIGHT
                <= u32::MAX,
            ring matches Some(r) ==> {
                &&& r@.wf()
                &&& r@.stride == stride_for(min_alignment, payload_size)
                &&& r@.payload == payload_size
            },
    {
        let stride: u64 = if min_alignment >= payload_size {
            min_alignment
        } else {
            payload_size
        };
        if stride <= 0x5555_5555 {
            Some(UniformRing { stride, payload: payload_size })
        } else {
            None
        }
    }

    /// Distance in bytes between the data of consecutive slots.
    pub fn stride(&self) -> (stride: u64)
        ensures
            stride == self@.stride,
            self@.wf(),
    {
        proof {
            use_type_invariant(self);
        }
        self.stride
    }

    /// Bytes written per frame.
    pub fn payload(&self) -> (payload: u64)
        ensures
            payload == self@.payload,
    {
        self.payload
    }

    /// Size in bytes of the buffer to allocate.
    pub fn size(&self) -> (size: u64)
        ensures
            size == self@.size(),
    {
        proof {
            use_type_invariant(self);
        }
        self.stride * 3
    }

    /// Offset of the data of frame slot `slot`, as used both for the write and
    /// for the dynamic descriptor offset.
    pub fn offset(&self, slot: usize) -> (offset: u32)
        requires
            slot < FRAMES_IN_FLIGHT,
        ensures
            offset == self@.offset(slot as nat),
            offset + self@.payload <= self@.size(),
        no_unwind
    {
        proof {
            use_type_invariant(self);
            lemma_slot_within_buffer(self@, slot as nat);
            assert(self.stride * (slot as u64) == (slot as nat) * (self.stride as nat))
                by (nonlinear_arith);
        }
        let offset: u64 = self.stride * (slot as u64);
        offset as u32
    }
}

/// The data of every slot lies within the buffer.
pub proof fn lemma_slot_within_buffer(layout: UniformLayout, slot: nat)
    requires
        layout.wf(),
        slot < FRAMES_IN_FLIGHT,
    ensures
        layout.offset(slot) + layout.payload <= layout.size(),
        layout.offset(slot) <= u32::MAX,
        forall|byte: nat| layout.owns(slot, byte) ==> byte < layout.size(),
{
    assert(slot * layout.stride + layout.stride <= 3 * layout.stride) by (nonlinear_arith)
        requires
            slot < 3,
    ;
    assert(layout.stride * 3 == 3 * layout.stride) by (nonlinear_arith);
}

/// A byte that belongs to the data of one slot belongs to no other slot's.
pub proof fn lemma_slots_disjoint(layout: UniformLayout, a: nat, b: nat, byte: nat)
    requires
        layout.wf(),
        a < FRAMES_IN_FLIGHT,
        b < FRAMES_IN_FLIGHT,
        a != b,
        layout.owns(a, byte),
    ensures
        !layout.owns(b, byte),
{
    if a < b {
        assert(a * layout.stride + layout.stride <= b * layout.stride) by (nonlinear_arith)
            requires
                a < b,
        ;
    } else {
        assert(b * layout.stride + layout.stride <= a * layout.stride) by (nonlinear_arith)
            requires
                b < a,
        ;
    }
}

/// Writes `data` into the slot of frame `slot` of the mapped uniform buffer.
///
/// Only the bytes `[slot * stride, slot * stride + payload)` change, and they
/// become `data`.
pub fn write_slot(buffer: &mut Vec<u8>, ring: &UniformRing, slot: usize, data: &[u8])
    requires
        slot < FRAMES_IN_FLIGHT,
        data@.len() == ring@.payload,
        old(buffer)@.len() == ring@.size(),
    ensures
        final(buffer)@.len() == old(buffer)@.len(),
        forall|i: int|
            0 <= i < final(buffer)@.len() ==> final(buffer)@[i] == if ring@.owns(
                slot as nat,
                i as nat,
            ) {
                data@[i - ring@.offset(slot as nat)]
            } else {
                old(buffer)@[i]
            },
{
    proof {
        use_type_invariant(ring);
    }
    let base: usize = ring.offset(slot) as usize;
    let n: usize = data.len();
    let mut k: usize = 0;
    while k < n
        invariant
            ring@.wf(),
            slot < FRAMES_IN_FLIGHT,
            n == data@.len(),
            n == ring@.payload,
            base == ring@.offset(slot as nat),
            base + n <= ring@.size(),
            k <= n,
            buffer@.len() == old(buffer)@.len(),
            buffer@.len() == ring@.size(),
            forall|i: int|
                0 <= i < buffer@.len() ==> buffer@[i] == if base <= i < base + k {
                    data@[i - base]
                } else {
                    old(buffer)@[i]
                },
        decreases n - k,
    {
        buffer.set(base + k, data[k]);
        k = k + 1;
    }
}

} // verus!
