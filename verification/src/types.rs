//! Shared value types: colors, device identities, servo angles.

use vstd::prelude::*;

verus! {

/// Little-endian bytes of a 32-bit value, least significant first.
pub open spec fn u32_le_bytes(v: u32) -> Seq<u8> {
    seq![
        (v & 0xff) as u8,
        ((v >> 8) & 0xff) as u8,
        ((v >> 16) & 0xff) as u8,
        ((v >> 24) & 0xff) as u8,
    ]
}

/// The 32-bit value read from four little-endian bytes.
pub open spec fn u32_from_le_bytes(b0: u8, b1: u8, b2: u8, b3: u8) -> u32 {
    (b0 as u32) | ((b1 as u32) << 8) | ((b2 as u32) << 16) | ((b3 as u32) << 24)
}

/// Reading back the little-endian bytes of a value gives the value.
pub proof fn lemma_u32_le_round_trip(v: u32)
    ensures
        u32_from_le_bytes(
            u32_le_bytes(v)[0],
            u32_le_bytes(v)[1],
            u32_le_bytes(v)[2],
            u32_le_bytes(v)[3],
        ) == v,
{
    assert(((v & 0xff) as u8 as u32) | ((((v >> 8) & 0xff) as u8 as u32) << 8) | ((((v >> 16)
        & 0xff) as u8 as u32) << 16) | ((((v >> 24) & 0xff) as u8 as u32) << 24) == v)
        by (bit_vector);
}

/// Angles of the six servos, one IEEE-754 bit pattern per joint.
///
/// The device reads each angle as a little-endian 32-bit float; this
/// type carries the bit patterns, so that the byte layout is exact.
#[derive(Debug, Clone, PartialEq)]
pub struct JointAngles(pub Vec<u32>);

impl JointAngles {
    /// A well-formed value holds one entry per joint.
    pub open spec fn wf(&self) -> bool {
        self.0@.len() == 6
    }

    /// Creates angles of all zero bits.
    pub fn new() -> (r: Self)
        ensures
            r.wf(),
            forall|j: int| 0 <= j < 6 ==> r.0@[j] == 0u32,
    {
        let mut bits: Vec<u32> = Vec::new();
        let mut i: usize = 0;
        while i < 6
            invariant
                i <= 6,
                bits@.len() == i,
                forall|j: int| 0 <= j < i ==> bits@[j] == 0u32,
            decreases 6 - i,
        {
            bits.push(0);
            i = i + 1;
        }
        JointAngles(bits)
    }

    /// The bit patterns, joint by joint.
    pub fn as_array(&self) -> (r: &Vec<u32>)
        ensures
            r@ == self.0@,
    {
        &self.0
    }

    /// The bit pattern of one joint, if the index names one.
    pub fn get(&self, index: usize) -> (r: Option<u32>)
        ensures
            r == if index < self.0@.len() {
                Some(self.0@[index as int])
            } else {
                None::<u32>
            },
    {
        if index < self.0.len() {
            Some(self.0[index])
        } else {
            None
        }
    }

    /// Replaces the bit pattern of one joint, if the index names one.
    pub fn set(&mut self, index: usize, value: u32) -> (r: Option<()>)
        ensures
            index < old(self).0@.len() ==> {
                &&& final(self).0@ == old(self).0@.update(index as int, value)
                &&& r == Some(())
            },
            index >= old(self).0@.len() ==> {
                &&& *final(self) == *old(self)
                &&& r == None::<()>
            },
    {
        if index < self.0.len() {
            self.0.set(index, value);
            Some(())
        } else {
            None
        }
    }

    /// Serializes the six angles as 24 little-endian bytes.
    pub fn to_bytes(&self) -> (r: Vec<u8>)
        requires
            self.wf(),
        ensures
            r@.len() == 24,
            forall|j: int|
                0 <= j < 6 ==> r@.subrange(j * 4, j * 4 + 4) == u32_le_bytes(self.0@[j]),
    {
        let mut bytes: Vec<u8> = Vec::new();
        let mut j: usize = 0;
        while j < 6
            invariant
                self.wf(),
                j <= 6,
                bytes@.len() == j * 4,
                forall|k: int|
                    0 <= k < j ==> bytes@.subrange(k * 4, k * 4 + 4) == u32_le_bytes(self.0@[k]),
            decreases 6 - j,
        {
            let v = self.0[j];
            bytes.push((v & 0xff) as u8);
            bytes.push(((v >> 8) & 0xff) as u8);
            bytes.push(((v >> 16) & 0xff) as u8);
            bytes.push(((v >> 24) & 0xff) as u8);
            assert(forall|k: int|
                0 <= k < j + 1 ==> bytes@.subrange(k * 4, k * 4 + 4) == u32_le_bytes(self.0@[k]));
            j = j + 1;
        }
        bytes
    }

    /// Reads six angles from 24 little-endian bytes.
    pub fn from_bytes(bytes: &Vec<u8>) -> (r: Self)
        requires
            bytes@.len() == 24,
        ensures
            r.wf(),
            forall|j: int|
                0 <= j < 6 ==> r.0@[j] == u32_from_le_bytes(
                    bytes@[j * 4],
                    bytes@[j * 4 + 1],
                    bytes@[j * 4 + 2],
                    bytes@[j * 4 + 3],
                ),
    {
        let mut bits: Vec<u32> = Vec::new();
        let mut j: usize = 0;
        while j < 6
            invariant
                bytes@.len() == 24,
                j <= 6,
                bits@.len() == j,
                forall|k: int|
                    0 <= k < j ==> bits@[k] == u32_from_le_bytes(
                        bytes@[k * 4],
                        bytes@[k * 4 + 1],
                        bytes@[k * 4 + 2],
                        bytes@[k * 4 + 3],
                    ),
            decreases 6 - j,
        {
            let b0 = bytes[j * 4];
            let b1 = bytes[j * 4 + 1];
            let b2 = bytes[j * 4 + 2];
            let b3 = bytes[j * 4 + 3];
            let v = (b0 as u32) | ((b1 as u32) << 8) | ((b2 as u32) << 16) | ((b3 as u32) << 24);
            bits.push(v);
            j = j + 1;
        }
        JointAngles(bits)
    }
}

/// Common display colors, plus a free RGB triple.
#[derive(Debug, Clone, Copy, PartialEq, Eq, Structural)]
pub enum Color {
    Black,
    White,
    Red,
    Green,
    Blue,
    Yellow,
    Cyan,
    Magenta,
    Custom(u8, u8, u8),
}

impl Color {
    /// The red, green and blue components of this color.
    pub open spec fn spec_rgb(&self) -> (u8, u8, u8) {
        match self {
            Color::Black => (0u8, 0u8, 0u8),
            Color::White => (255u8, 255u8, 255u8),
            Color::Red => (255u8, 0u8, 0u8),
            Color::Green => (0u8, 255u8, 0u8),
            Color::Blue => (0u8, 0u8, 255u8),
            Color::Yellow => (255u8, 255u8, 0u8),
            Color::Cyan => (0u8, 255u8, 255u8),
            Color::Magenta => (255u8, 0u8, 255u8),
            Color::Custom(r, g, b) => (*r, *g, *b),
        }
    }

    /// The components in the order the device stores them.
    pub open spec fn spec_bgr(&self) -> (u8, u8, u8) {
        (self.spec_rgb().2, self.spec_rgb().1, self.spec_rgb().0)
    }

    /// The (red, green, blue) components.
    pub fn rgb(&self) -> (r: (u8, u8, u8))
        ensures
            r == self.spec_rgb(),
    {
        match self {
            Color::Black => (0, 0, 0),
            Color::White => (255, 255, 255),
            Color::Red => (255, 0, 0),
            Color::Green => (0, 255, 0),
            Color::Blue => (0, 0, 255),
            Color::Yellow => (255, 255, 0),
            Color::Cyan => (0, 255, 255),
            Color::Magenta => (255, 0, 255),
            Color::Custom(r, g, b) => (*r, *g, *b),
        }
    }

    /// The (blue, green, red) components, as the device stores them.
    pub fn bgr(&self) -> (r: (u8, u8, u8))
        ensures
            r == self.spec_bgr(),
    {
        let (r, g, b) = self.rgb();
        (b, g, r)
    }
}

/// Identity of one attached USB device.
#[derive(Debug, Clone)]
pub struct DeviceInfo {
    /// Vendor id.
    pub vid: u16,
    /// Product id.
    pub pid: u16,
    /// The identity rendered as `vvvv:pppp`, lowercase hex.
    pub info: String,
}

} // verus!
