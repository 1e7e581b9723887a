//! The memory that a camera's frames come in: two slots, one of which is read while the other is
//! written.
use vstd::prelude::*;

use crate::camera::frame::MAX_FRAME_BYTES;

verus! {

pub const CAMERA_SLOTS: u8 = 2;

/// Memory with two slots.
#[derive(Debug, Clone, Copy, PartialEq, Eq, Structural)]
pub struct Mapping {
    pub len: usize,
    pub slot_bytes: usize,
    pub fd: i32,
}

/// A stretch of a mapping.
#[derive(Debug, Clone, Copy, PartialEq, Eq, Structural)]
pub struct SlotRead {
    pub fd: i32,
    pub offset: usize,
    pub len: usize,
}

impl Mapping {
    /// What holds of every mapping.
    pub open spec fn wf(self) -> bool {
        0 < self.slot_bytes <= MAX_FRAME_BYTES && self.len == self.slot_bytes * 2
    }

    /// The mapping of a file of `size` bytes with slots of `slot_bytes`, if both slots are there.
    pub open spec fn of(fd: i32, slot_bytes: usize, size: Option<i64>) -> Option<Mapping> {
        if 0 < slot_bytes <= MAX_FRAME_BYTES && (size matches Some(s) && s >= slot_bytes * 2) {
            Some(Mapping { len: (slot_bytes * 2) as usize, slot_bytes, fd })
        } else {
            None
        }
    }

    /// The slot, as far as it is asked for.
    pub open spec fn slot(self, slot: u8, requested: usize) -> Option<SlotRead> {
        if slot < CAMERA_SLOTS && 0 < requested <= self.slot_bytes {
            Some(
                SlotRead {
                    fd: self.fd,
                    offset: (slot * self.slot_bytes) as usize,
                    len: requested,
                },
            )
        } else {
            None
        }
    }

    /// Takes a file as the memory of two slots. Nothing is known of the size of a file that could
    /// not be asked for it.
    pub fn new(fd: i32, slot_bytes: usize, size: Option<i64>) -> (mapping: Option<Mapping>)
        ensures
            mapping == Mapping::of(fd, slot_bytes, size),
            mapping matches Some(m) ==> m.wf(),
    {
        if slot_bytes == 0 || slot_bytes > MAX_FRAME_BYTES {
            return None;
        }
        let len: usize = slot_bytes * CAMERA_SLOTS as usize;
        match size {
            Some(size) => {
                if size < len as i64 {
                    None
                } else {
                    Some(Mapping { len, slot_bytes, fd })
                }
            },
            None => None,
        }
    }

    /// What is to be read for the first `requested` bytes of a slot.
    pub fn copy_slot(&self, slot: u8, requested: usize) -> (read: Option<SlotRead>)
        requires
            self.wf(),
        ensures
            read == self.slot(slot, requested),
            read matches Some(r) ==> r.offset + r.len <= self.len,
    {
        if slot >= CAMERA_SLOTS || requested == 0 || requested > self.slot_bytes {
            return None;
        }
        assert(slot == 0 || slot == 1);
        assert(slot * self.slot_bytes <= self.slot_bytes) by (nonlinear_arith)
            requires
                slot == 0 || slot == 1,
        ;
        let offset: usize = slot as usize * self.slot_bytes;
        Some(SlotRead { fd: self.fd, offset, len: requested })
    }
}

/// What is read for a slot lies within that slot, and the slots lie within the memory.
pub proof fn law_slots_do_not_overlap(m: Mapping, slot: u8, requested: usize)
    requires
        m.wf(),
    ensures
        m.slot(slot, requested) matches Some(r) ==> ({
            &&& slot * m.slot_bytes <= r.offset
            &&& r.offset + r.len <= (slot + 1) * m.slot_bytes
            &&& (slot + 1) * m.slot_bytes <= m.len
        }),
{
    if slot < CAMERA_SLOTS {
        assert(slot == 0 || slot == 1);
        assert((slot + 1) * m.slot_bytes == slot * m.slot_bytes + m.slot_bytes) by (nonlinear_arith);
        assert(slot * m.slot_bytes <= m.slot_bytes) by (nonlinear_arith)
            requires
                slot == 0 || slot == 1,
        ;
    }
}

} // verus!
