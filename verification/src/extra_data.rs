//! The 32-byte control block: one enable byte, six little-endian
//! 32-bit servo angles, and reserved bytes.

use vstd::prelude::*;

use crate::constants::EXTRA_DATA_SIZE;
use crate::types::{u32_from_le_bytes, u32_le_bytes, JointAngles};

verus! {

/// The control block exchanged with the device once per cycle.
///
/// Byte 0 is the enable flag; bytes 1..25 hold the six servo angles as
/// little-endian 32-bit floats; bytes 25..32 are reserved.
#[derive(Debug, Clone)]
pub struct ExtraData {
    /// The raw bytes, always exactly 32 of them.
    pub data: Vec<u8>,
}

impl View for ExtraData {
    type V = Seq<u8>;

    open spec fn view(&self) -> Seq<u8> {
        self.data@
    }
}

impl ExtraData {
    /// A well-formed block holds exactly 32 bytes.
    pub open spec fn wf(&self) -> bool {
        self@.len() == EXTRA_DATA_SIZE
    }

    /// Creates an all-zero control block.
    pub fn new() -> (r: Self)
        ensures
            r.wf(),
            forall|i: int| 0 <= i < EXTRA_DATA_SIZE ==> r@[i] == 0u8,
    {
        let mut data: Vec<u8> = Vec::new();
        let mut i: usize = 0;
        while i < EXTRA_DATA_SIZE
            invariant
                i <= EXTRA_DATA_SIZE,
                data@.len() == i,
                forall|k: int| 0 <= k < i ==> data@[k] == 0u8,
            decreases EXTRA_DATA_SIZE - i,
        {
            data.push(0);
            i = i + 1;
        }
        ExtraData { data }
    }

    /// Zeroes every byte.
    pub fn clear(&mut self)
        requires
            old(self).wf(),
        ensures
            final(self).wf(),
            forall|i: int| 0 <= i < EXTRA_DATA_SIZE ==> final(self)@[i] == 0u8,
    {
        let mut i: usize = 0;
        while i < EXTRA_DATA_SIZE
            invariant
                self.wf(),
                i <= EXTRA_DATA_SIZE,
                forall|k: int| 0 <= k < i ==> self@[k] == 0u8,
            decreases EXTRA_DATA_SIZE - i,
        {
            self.data.set(i, 0);
            i = i + 1;
        }
    }

    /// Copies `data` into the front of the block; longer payloads are
    /// refused and leave the block unchanged.
    pub fn set_raw(&mut self, data: &Vec<u8>)
        requires
            old(self).wf(),
        ensures
            final(self).wf(),
            data@.len() <= EXTRA_DATA_SIZE ==> {
                &&& forall|k: int| 0 <= k < data@.len() ==> final(self)@[k] == data@[k]
                &&& forall|k: int|
                    data@.len() <= k < EXTRA_DATA_SIZE ==> final(self)@[k] == old(self)@[k]
            },
            data@.len() > EXTRA_DATA_SIZE ==> *final(self) == *old(self),
    {
        if data.len() <= EXTRA_DATA_SIZE {
            let mut i: usize = 0;
            while i < data.len()
                invariant
                    self.wf(),
                    data@.len() <= EXTRA_DATA_SIZE,
                    i <= data@.len(),
                    forall|k: int| 0 <= k < i ==> self@[k] == data@[k],
                    forall|k: int| i <= k < EXTRA_DATA_SIZE ==> self@[k] == old(self)@[k],
                decreases data@.len() - i,
            {
                self.data.set(i, data[i]);
                i = i + 1;
            }
        }
    }

    /// The raw bytes.
    pub fn get_raw(&self) -> (r: &Vec<u8>)
        ensures
            r@ == self@,
    {
        &self.data
    }

    /// The raw bytes.
    pub fn as_data(&self) -> (r: &Vec<u8>)
        ensures
            r@ == self@,
    {
        &self.data
    }

    /// The raw bytes, writable.  The caller must keep all 32 in place.
    pub fn as_mut_data(&mut self) -> (r: &mut Vec<u8>)
        ensures
            *r == old(self).data,
            final(self).data == *final(r),
    {
        &mut self.data
    }

    /// Sets the enable flag in byte 0.
    pub fn set_enable(&mut self, enable: bool)
        requires
            old(self).wf(),
        ensures
            final(self)@ == old(self)@.update(0, if enable { 1u8 } else { 0u8 }),
    {
        self.data.set(0, if enable { 1 } else { 0 });
    }

    /// Whether the enable flag is set.
    pub fn is_enabled(&self) -> (r: bool)
        requires
            self.wf(),
        ensures
            r == (self@[0] != 0),
    {
        self.data[0] != 0
    }

    /// Writes the enable flag and the six angles into bytes 0..25;
    /// the reserved bytes keep their values.
    pub fn set_joint_angles(&mut self, angles: &JointAngles, enable: bool)
        requires
            old(self).wf(),
            angles.wf(),
        ensures
            final(self).wf(),
            final(self)@[0] == if enable { 1u8 } else { 0u8 },
            forall|j: int|
                0 <= j < 6 ==> final(self)@.subrange(1 + j * 4, 5 + j * 4) == u32_le_bytes(
                    angles.0@[j],
                ),
            forall|k: int| 25 <= k < EXTRA_DATA_SIZE ==> final(self)@[k] == old(self)@[k],
    {
        self.set_enable(enable);
        let bytes = angles.to_bytes();
        let mut i: usize = 0;
        while i < 24
            invariant
                self.wf(),
                bytes@.len() == 24,
                forall|j: int|
                    0 <= j < 6 ==> bytes@.subrange(j * 4, j * 4 + 4) == u32_le_bytes(angles.0@[j]),
                i <= 24,
                self@[0] == if enable { 1u8 } else { 0u8 },
                forall|k: int| 0 <= k < i ==> self@[1 + k] == bytes@[k],
                forall|k: int| i + 1 <= k < EXTRA_DATA_SIZE ==> self@[k] == old(self)@[k],
            decreases 24 - i,
        {
            self.data.set(1 + i, bytes[i]);
            i = i + 1;
        }
        assert forall|j: int| 0 <= j < 6 implies self@.subrange(1 + j * 4, 5 + j * 4)
            == u32_le_bytes(angles.0@[j]) by {
            assert(self@.subrange(1 + j * 4, 5 + j * 4) =~= bytes@.subrange(j * 4, j * 4 + 4));
        }
    }

    /// Reads the six angles back from bytes 1..25.
    pub fn get_joint_angles(&self) -> (r: JointAngles)
        requires
            self.wf(),
        ensures
            r.wf(),
            forall|j: int|
                0 <= j < 6 ==> r.0@[j] == u32_from_le_bytes(
                    self@[1 + j * 4],
                    self@[2 + j * 4],
                    self@[3 + j * 4],
                    self@[4 + j * 4],
                ),
    {
        let mut bytes: Vec<u8> = Vec::new();
        let mut i: usize = 0;
        while i < 24
            invariant
                self.wf(),
                i <= 24,
                bytes@.len() == i,
                forall|k: int| 0 <= k < i ==> bytes@[k] == self@[1 + k],
            decreases 24 - i,
        {
            bytes.push(self.data[1 + i]);
            i = i + 1;
        }
        let r = JointAngles::from_bytes(&bytes);
        r
    }

    /// Writes one byte; offsets past the end are a no-op.
    pub fn set_byte(&mut self, offset: usize, value: u8)
        requires
            old(self).wf(),
        ensures
            offset < EXTRA_DATA_SIZE ==> final(self)@ == old(self)@.update(offset as int, value),
            offset >= EXTRA_DATA_SIZE ==> *final(self) == *old(self),
    {
        if offset < EXTRA_DATA_SIZE {
            self.data.set(offset, value);
        }
    }

    /// Reads one byte, if the offset names one.
    pub fn get_byte(&self, offset: usize) -> (r: Option<u8>)
        requires
            self.wf(),
        ensures
            r == if offset < EXTRA_DATA_SIZE {
                Some(self@[offset as int])
            } else {
                None::<u8>
            },
    {
        if offset < EXTRA_DATA_SIZE {
            Some(self.data[offset])
        } else {
            None
        }
    }

    /// Writes a 16-bit value, little-endian, at `offset`; offsets whose
    /// two bytes do not both fit are a no-op.
    pub fn set_u16(&mut self, offset: usize, value: u16)
        requires
            old(self).wf(),
        ensures
            final(self).wf(),
            offset < EXTRA_DATA_SIZE - 1 ==> {
                &&& final(self)@[offset as int] == (value & 0xff) as u8
                &&& final(self)@[offset + 1] == ((value >> 8) & 0xff) as u8
                &&& forall|k: int|
                    0 <= k < EXTRA_DATA_SIZE && k != offset && k != offset + 1 ==> final(self)@[k]
                        == old(self)@[k]
            },
            offset >= EXTRA_DATA_SIZE - 1 ==> *final(self) == *old(self),
    {
        if offset < EXTRA_DATA_SIZE - 1 {
            self.data.set(offset, (value & 0xff) as u8);
            self.data.set(offset + 1, ((value >> 8) & 0xff) as u8);
        }
    }

    /// Reads a 16-bit value, little-endian, if both bytes fit.
    pub fn get_u16(&self, offset: usize) -> (r: Option<u16>)
        requires
            self.wf(),
        ensures
            r == if offset < EXTRA_DATA_SIZE - 1 {
                Some((self@[offset as int] as u16) | ((self@[offset + 1] as u16) << 8))
            } else {
                None::<u16>
            },
    {
        if offset < EXTRA_DATA_SIZE - 1 {
            Some((self.data[offset] as u16) | ((self.data[offset + 1] as u16) << 8))
        } else {
            None
        }
    }

    /// Writes a 32-bit value, little-endian, at `offset`; offsets whose
    /// four bytes do not all fit are a no-op.
    pub fn set_u32(&mut self, offset: usize, value: u32)
        requires
            old(self).wf(),
        ensures
            final(self).wf(),
            offset < EXTRA_DATA_SIZE - 3 ==> {
                &&& final(self)@.subrange(offset as int, offset + 4) == u32_le_bytes(value)
                &&& forall|k: int|
                    0 <= k < EXTRA_DATA_SIZE && !(offset <= k < offset + 4) ==> final(self)@[k]
                        == old(self)@[k]
            },
            offset >= EXTRA_DATA_SIZE - 3 ==> *final(self) == *old(self),
    {
        if offset < EXTRA_DATA_SIZE - 3 {
            self.data.set(offset, (value & 0xff) as u8);
            self.data.set(offset + 1, ((value >> 8) & 0xff) as u8);
            self.data.set(offset + 2, ((value >> 16) & 0xff) as u8);
            self.data.set(offset + 3, ((value >> 24) & 0xff) as u8);
            assert(self@.subrange(offset as int, offset + 4) =~= u32_le_bytes(value));
        }
    }

    /// Reads a 32-bit value, little-endian, if all four bytes fit.
    pub fn get_u32(&self, offset: usize) -> (r: Option<u32>)
        requires
            self.wf(),
        ensures
            r == if offset < EXTRA_DATA_SIZE - 3 {
                Some(
                    u32_from_le_bytes(
                        self@[offset as int],
                        self@[offset + 1],
                        self@[offset + 2],
                        self@[offset + 3],
                    ),
                )
            } else {
                None::<u32>
            },
    {
        if offset < EXTRA_DATA_SIZE - 3 {
            Some(
                (self.data[offset] as u32) | ((self.data[offset + 1] as u32) << 8) | ((self.data[
                    offset + 2] as u32) << 16) | ((self.data[offset + 3] as u32) << 24),
            )
        } else {
            None
        }
    }
}

/// Control-block round trip: a block laid out for given angles and
/// enable flag decodes to the same angles, bit for bit, and the same
/// flag.  The layout clauses below are exactly what `set_joint_angles`
/// ensures, and the decode clauses exactly what `get_joint_angles`
/// returns.
pub proof fn lemma_control_block_round_trip(bytes: Seq<u8>, angles: Seq<u32>, enable: bool)
    requires
        bytes.len() == EXTRA_DATA_SIZE,
        angles.len() == 6,
        bytes[0] == if enable { 1u8 } else { 0u8 },
        forall|j: int| 0 <= j < 6 ==> bytes.subrange(1 + j * 4, 5 + j * 4) == u32_le_bytes(angles[j]),
    ensures
        (bytes[0] != 0) == enable,
        forall|j: int|
            0 <= j < 6 ==> u32_from_le_bytes(
                bytes[1 + j * 4],
                bytes[2 + j * 4],
                bytes[3 + j * 4],
                bytes[4 + j * 4],
            ) == angles[j],
{
    assert forall|j: int|
        0 <= j < 6 implies u32_from_le_bytes(
        bytes[1 + j * 4],
        bytes[2 + j * 4],
        bytes[3 + j * 4],
        bytes[4 + j * 4],
    ) == angles[j] by {
        let sub = bytes.subrange(1 + j * 4, 5 + j * 4);
        assert(sub == u32_le_bytes(angles[j]));
        assert(bytes[1 + j * 4] == sub[0]);
        assert(bytes[2 + j * 4] == sub[1]);
        assert(bytes[3 + j * 4] == sub[2]);
        assert(bytes[4 + j * 4] == sub[3]);
        crate::types::lemma_u32_le_round_trip(angles[j]);
    }
}

} // verus!
