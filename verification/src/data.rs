//! Primitive vertex layout types.
//!
//! Each type that can stand as a field of a vertex record declares its own
//! binding contract through [`AttribLayout`]: how many driver-side
//! components it represents, their scalar kind, whether they are
//! normalized on read, and its byte size.  Types whose values can be
//! uploaded as raw records also implement [`VertexData`], which ties the
//! declared byte size to the type's actual in-memory size, so a record
//! cannot silently desynchronize from its wire format.

use vstd::prelude::*;

use crate::layout::{AttribFormat, ScalarKind};

verus! {

/// A vertex field type that declares its own attribute-binding contract.
pub trait AttribLayout {
    /// The declared binding contract.
    spec fn spec_format() -> AttribFormat;

    /// Returns the declared binding contract.
    fn format() -> (r: AttribFormat)
        ensures
            r == Self::spec_format(),
            r.valid(),
    ;
}

/// An element type whose values can be uploaded to a data buffer as raw
/// records.  The declared byte size must be the type's in-memory size.
pub trait VertexData: Sized {
    /// The byte size of one element.
    spec fn spec_byte_size() -> u64;

    /// Returns the byte size of one element.
    fn byte_size() -> (s: u64)
        ensures
            s == Self::spec_byte_size(),
            0 < s,
    ;
}

/// Index elements are plain 32-bit unsigned integers.
impl VertexData for u32 {
    open spec fn spec_byte_size() -> u64 {
        4
    }

    fn byte_size() -> (s: u64) {
        4
    }
}

/// One signed byte handed to the shader as a plain integer component.
#[allow(non_camel_case_types)]
#[derive(Clone, Copy, Debug, PartialEq, Eq, Structural)]
pub struct int8 {
    pub d0: i8,
}

impl int8 {
    pub fn new(d0: i8) -> (r: int8)
        ensures
            r.d0 == d0,
    {
        int8 { d0 }
    }
}

impl AttribLayout for int8 {
    open spec fn spec_format() -> AttribFormat {
        AttribFormat { components: 1, scalar: ScalarKind::Byte, normalized: false, size: 1 }
    }

    fn format() -> (r: AttribFormat) {
        AttribFormat { components: 1, scalar: ScalarKind::Byte, normalized: false, size: 1 }
    }
}

impl VertexData for int8 {
    open spec fn spec_byte_size() -> u64 {
        1
    }

    fn byte_size() -> (s: u64) {
        1
    }
}

/// One signed byte normalized to a float component on read.
#[allow(non_camel_case_types)]
#[derive(Clone, Copy, Debug, PartialEq, Eq, Structural)]
pub struct int8_float {
    pub d0: i8,
}

impl int8_float {
    pub fn new(d0: i8) -> (r: int8_float)
        ensures
            r.d0 == d0,
    {
        int8_float { d0 }
    }
}

impl AttribLayout for int8_float {
    open spec fn spec_format() -> AttribFormat {
        AttribFormat { components: 1, scalar: ScalarKind::Byte, normalized: true, size: 1 }
    }

    fn format() -> (r: AttribFormat) {
        AttribFormat { components: 1, scalar: ScalarKind::Byte, normalized: true, size: 1 }
    }
}

impl VertexData for int8_float {
    open spec fn spec_byte_size() -> u64 {
        1
    }

    fn byte_size() -> (s: u64) {
        1
    }
}

/// One signed byte normalized to a float component on read.
#[allow(non_camel_case_types)]
#[derive(Clone, Copy, Debug, PartialEq, Eq, Structural)]
pub struct i8_float {
    pub d0: i8,
}

impl i8_float {
    pub fn new(d0: i8) -> (r: i8_float)
        ensures
            r.d0 == d0,
    {
        i8_float { d0 }
    }
}

impl AttribLayout for i8_float {
    open spec fn spec_format() -> AttribFormat {
        AttribFormat { components: 1, scalar: ScalarKind::Byte, normalized: true, size: 1 }
    }

    fn format() -> (r: AttribFormat) {
        AttribFormat { components: 1, scalar: ScalarKind::Byte, normalized: true, size: 1 }
    }
}

impl VertexData for i8_float {
    open spec fn spec_byte_size() -> u64 {
        1
    }

    fn byte_size() -> (s: u64) {
        1
    }
}

/// Four normalized components packed into one 32-bit word: three 10-bit
/// channels and one 2-bit channel in the topmost bits, in reversed order.
#[allow(non_camel_case_types)]
#[derive(Clone, Copy, Debug, PartialEq, Eq, Structural)]
pub struct u2_u10_u10_u10_rev_float {
    data: u32,
}

impl u2_u10_u10_u10_rev_float {
    /// The packed word.
    pub closed spec fn raw(self) -> u32 {
        self.data
    }

    /// The 10-bit channel in bits 0 to 9.
    pub open spec fn spec_x_bits(self) -> u32 {
        self.raw() & 0x3FF
    }

    /// The 10-bit channel in bits 10 to 19.
    pub open spec fn spec_y_bits(self) -> u32 {
        (self.raw() >> 10) & 0x3FF
    }

    /// The 10-bit channel in bits 20 to 29.
    pub open spec fn spec_z_bits(self) -> u32 {
        (self.raw() >> 20) & 0x3FF
    }

    /// The 2-bit channel in bits 30 and 31.
    pub open spec fn spec_w_bits(self) -> u32 {
        self.raw() >> 30
    }

    /// Wraps an already packed word.
    pub fn from_raw(data: u32) -> (r: Self)
        ensures
            r.raw() == data,
    {
        u2_u10_u10_u10_rev_float { data }
    }

    /// Returns the packed word.
    pub fn raw_value(&self) -> (r: u32)
        ensures
            r == self.raw(),
    {
        self.data
    }

    /// Packs four channel values into one word.
    pub fn pack(x: u32, y: u32, z: u32, w: u32) -> (r: Self)
        requires
            x < 1024,
            y < 1024,
            z < 1024,
            w < 4,
        ensures
            r.spec_x_bits() == x,
            r.spec_y_bits() == y,
            r.spec_z_bits() == z,
            r.spec_w_bits() == w,
    {
        let data = (w << 30) | (z << 20) | (y << 10) | x;
        proof {
            assert(data == (w << 30) | (z << 20) | (y << 10) | x ==> (data & 0x3FF == x && (data
                >> 10) & 0x3FF == y && (data >> 20) & 0x3FF == z && data >> 30 == w)) by (bit_vector)
                requires
                    x < 1024 && y < 1024 && z < 1024 && w < 4,
            ;
        }
        u2_u10_u10_u10_rev_float { data }
    }

    pub fn x_bits(&self) -> (r: u32)
        ensures
            r == self.spec_x_bits(),
            r < 1024,
    {
        let d = self.data;
        proof {
            assert(d & 0x3FF < 1024) by (bit_vector);
        }
        d & 0x3FF
    }

    pub fn y_bits(&self) -> (r: u32)
        ensures
            r == self.spec_y_bits(),
            r < 1024,
    {
        let d = self.data;
        proof {
            assert((d >> 10) & 0x3FF < 1024) by (bit_vector);
        }
        (d >> 10) & 0x3FF
    }

    pub fn z_bits(&self) -> (r: u32)
        ensures
            r == self.spec_z_bits(),
            r < 1024,
    {
        let d = self.data;
        proof {
            assert((d >> 20) & 0x3FF < 1024) by (bit_vector);
        }
        (d >> 20) & 0x3FF
    }

    pub fn w_bits(&self) -> (r: u32)
        ensures
            r == self.spec_w_bits(),
            r < 4,
    {
        let d = self.data;
        proof {
            assert(d >> 30 < 4) by (bit_vector);
        }
        d >> 30
    }

    /// Replaces the channel in bits 0 to 9, leaving the others unchanged.
    pub fn set_x_bits(&mut self, x: u32)
        requires
            x < 1024,
        ensures
            final(self).spec_x_bits() == x,
            final(self).spec_y_bits() == old(self).spec_y_bits(),
            final(self).spec_z_bits() == old(self).spec_z_bits(),
            final(self).spec_w_bits() == old(self).spec_w_bits(),
    {
        let d = self.data;
        proof {
            assert(((d & 0xFFFF_FC00) | x) & 0x3FF == x) by (bit_vector)
                requires
                    x < 1024,
            ;
            assert((((d & 0xFFFF_FC00) | x) >> 10) & 0x3FF == (d >> 10) & 0x3FF) by (bit_vector)
                requires
                    x < 1024,
            ;
            assert((((d & 0xFFFF_FC00) | x) >> 20) & 0x3FF == (d >> 20) & 0x3FF) by (bit_vector)
                requires
                    x < 1024,
            ;
            assert(((d & 0xFFFF_FC00) | x) >> 30 == d >> 30) by (bit_vector)
                requires
                    x < 1024,
            ;
        }
        self.data = (d & 0xFFFF_FC00) | x;
    }

    /// Replaces the channel in bits 10 to 19, leaving the others unchanged.
    pub fn set_y_bits(&mut self, y: u32)
        requires
            y < 1024,
        ensures
            final(self).spec_y_bits() == y,
            final(self).spec_x_bits() == old(self).spec_x_bits(),
            final(self).spec_z_bits() == old(self).spec_z_bits(),
            final(self).spec_w_bits() == old(self).spec_w_bits(),
    {
        let d = self.data;
        proof {
            assert(((d & 0xFFF0_03FF) | (y << 10)) & 0x3FF == d & 0x3FF) by (bit_vector)
                requires
                    y < 1024,
            ;
            assert((((d & 0xFFF0_03FF) | (y << 10)) >> 10) & 0x3FF == y) by (bit_vector)
                requires
                    y < 1024,
            ;
            assert((((d & 0xFFF0_03FF) | (y << 10)) >> 20) & 0x3FF == (d >> 20) & 0x3FF) by (bit_vector)
                requires
                    y < 1024,
            ;
            assert(((d & 0xFFF0_03FF) | (y << 10)) >> 30 == d >> 30) by (bit_vector)
                requires
                    y < 1024,
            ;
        }
        self.data = (d & 0xFFF0_03FF) | (y << 10);
    }

    /// Replaces the channel in bits 20 to 29, leaving the others unchanged.
    pub fn set_z_bits(&mut self, z: u32)
        requires
            z < 1024,
        ensures
            final(self).spec_z_bits() == z,
            final(self).spec_x_bits() == old(self).spec_x_bits(),
            final(self).spec_y_bits() == old(self).spec_y_bits(),
            final(self).spec_w_bits() == old(self).spec_w_bits(),
    {
        let d = self.data;
        proof {
            assert(((d & 0xC00F_FFFF) | (z << 20)) & 0x3FF == d & 0x3FF) by (bit_vector)
                requires
                    z < 1024,
            ;
            assert((((d & 0xC00F_FFFF) | (z << 20)) >> 10) & 0x3FF == (d >> 10) & 0x3FF) by (bit_vector)
                requires
                    z < 1024,
            ;
            assert((((d & 0xC00F_FFFF) | (z << 20)) >> 20) & 0x3FF == z) by (bit_vector)
                requires
                    z < 1024,
            ;
            assert(((d & 0xC00F_FFFF) | (z << 20)) >> 30 == d >> 30) by (bit_vector)
                requires
                    z < 1024,
            ;
        }
        self.data = (d & 0xC00F_FFFF) | (z << 20);
    }

    /// Replaces the channel in bits 30 and 31, leaving the others
    /// unchanged.
    pub fn set_w_bits(&mut self, w: u32)
        requires
            w < 4,
        ensures
            final(self).spec_w_bits() == w,
            final(self).spec_x_bits() == old(self).spec_x_bits(),
            final(self).spec_y_bits() == old(self).spec_y_bits(),
            final(self).spec_z_bits() == old(self).spec_z_bits(),
    {
        let d = self.data;
        proof {
            assert(((d & 0x3FFF_FFFF) | (w << 30)) & 0x3FF == d & 0x3FF) by (bit_vector)
                requires
                    w < 4,
            ;
            assert((((d & 0x3FFF_FFFF) | (w << 30)) >> 10) & 0x3FF == (d >> 10) & 0x3FF) by (bit_vector)
                requires
                    w < 4,
            ;
            assert((((d & 0x3FFF_FFFF) | (w << 30)) >> 20) & 0x3FF == (d >> 20) & 0x3FF) by (bit_vector)
                requires
                    w < 4,
            ;
            assert(((d & 0x3FFF_FFFF) | (w << 30)) >> 30 == w) by (bit_vector)
                requires
                    w < 4,
            ;
        }
        self.data = (d & 0x3FFF_FFFF) | (w << 30);
    }

    /// Replaces the three 10-bit channels at once, leaving the 2-bit
    /// channel unchanged.
    pub fn set_xyz_bits(&mut self, x: u32, y: u32, z: u32)
        requires
            x < 1024,
            y < 1024,
            z < 1024,
        ensures
            final(self).spec_x_bits() == x,
            final(self).spec_y_bits() == y,
            final(self).spec_z_bits() == z,
            final(self).spec_w_bits() == old(self).spec_w_bits(),
    {
        self.set_x_bits(x);
        self.set_y_bits(y);
        self.set_z_bits(z);
    }
}

impl AttribLayout for u2_u10_u10_u10_rev_float {
    open spec fn spec_format() -> AttribFormat {
        AttribFormat {
            components: 4,
            scalar: ScalarKind::UInt2101010Rev,
            normalized: true,
            size: 4,
        }
    }

    fn format() -> (r: AttribFormat) {
        AttribFormat {
            components: 4,
            scalar: ScalarKind::UInt2101010Rev,
            normalized: true,
            size: 4,
        }
    }
}

impl VertexData for u2_u10_u10_u10_rev_float {
    open spec fn spec_byte_size() -> u64 {
        4
    }

    fn byte_size() -> (s: u64) {
        4
    }
}

} // verus!
