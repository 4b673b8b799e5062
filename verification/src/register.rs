//! Typed abstraction over memory-mapped hardware registers.
//!
//! A register is a fixed-width word at a fixed physical address, carved into
//! named bit fields. The codec places a field value at its bit position and
//! extracts it back; a `MmioRegister` binds a list of non-overlapping fields
//! to an address, a width and an access mode. The volatile load/store against
//! the physical address is performed by the excluded hardware layer; the
//! register object here models the word the hardware holds, so every rule
//! about field placement, truncation and access modes is proved.

use vstd::prelude::*;

verus! {

/// Width in bits of a memory-mapped hardware register.
#[derive(Clone, Copy, PartialEq, Eq, Structural, Debug)]
pub enum RegWidth {
    /// A 16-bit register.
    Half,
    /// A 32-bit register.
    Word,
}

impl RegWidth {
    /// Number of bits a register of this width stores.
    pub open spec fn bits(self) -> u64 {
        match self {
            RegWidth::Half => 16,
            RegWidth::Word => 32,
        }
    }

    /// Mask keeping exactly the bits a register of this width stores.
    pub open spec fn value_mask(self) -> u64 {
        match self {
            RegWidth::Half => 0xFFFF,
            RegWidth::Word => 0xFFFF_FFFF,
        }
    }

    /// Executable form of [`RegWidth::bits`].
    pub fn bit_count(&self) -> (r: u64)
        ensures
            r == self.bits(),
    {
        match self {
            RegWidth::Half => 16,
            RegWidth::Word => 32,
        }
    }

    /// Executable form of [`RegWidth::value_mask`].
    pub fn full_mask(&self) -> (r: u64)
        ensures
            r == self.value_mask(),
    {
        match self {
            RegWidth::Half => 0xFFFF,
            RegWidth::Word => 0xFFFF_FFFF,
        }
    }
}

/// Mask with ones in exactly the `width` lowest bits.
pub open spec fn low_mask(width: u64) -> u64
    recommends
        width <= 32,
{
    ((1u64 << width) - 1) as u64
}

/// A named sub-range of bits inside a fixed-width register: a position and a
/// width. The symbolic named values a field may carry are plain pre-encoded
/// constants of the same field (see [`FieldValue`]).
#[derive(Clone, Copy, PartialEq, Eq, Structural, Debug)]
pub struct RegisterField {
    /// Position of the field's lowest bit within the register word.
    pub offset: u64,
    /// Number of bits the field occupies; at least one.
    pub width: u64,
}

impl RegisterField {
    /// A field is well-formed when it is at least one bit wide and lies
    /// within a 32-bit word, the widest register this abstraction serves.
    pub open spec fn wf(self) -> bool {
        1 <= self.width && self.offset + self.width <= 32
    }

    /// The field also lies within a register of width `rw`.
    pub open spec fn fits(self, rw: RegWidth) -> bool {
        self.wf() && self.offset + self.width <= rw.bits()
    }

    /// Mask with ones at exactly this field's bit positions.
    pub open spec fn mask(self) -> u64 {
        low_mask(self.width) << self.offset
    }

    /// `value` is representable in this field's width.
    pub open spec fn value_fits(self, value: u64) -> bool {
        value & low_mask(self.width) == value
    }

    /// The field value shifted into its position, ready to be OR-combined
    /// with the encodings of other fields of the same register.
    pub open spec fn place(self, value: u64) -> u64 {
        value << self.offset
    }

    /// The field's bits of a raw register word, shifted down and masked.
    pub open spec fn extract(self, raw: u64) -> u64 {
        (raw >> self.offset) & low_mask(self.width)
    }

    /// Makes a field from a bit position and a bit width.
    pub fn new(offset: u64, width: u64) -> (r: RegisterField)
        requires
            1 <= width,
            offset + width <= 32,
        ensures
            r == (RegisterField { offset, width }),
            r.wf(),
    {
        RegisterField { offset, width }
    }

    /// Executable form of [`RegisterField::mask`].
    pub fn mask_value(&self) -> (r: u64)
        requires
            self.wf(),
        ensures
            r == self.mask(),
    {
        let w = self.width;
        proof {
            assert(1u64 << w >= 1) by (bit_vector)
                requires
                    w <= 32,
            ;
        }
        ((1u64 << w) - 1) << self.offset
    }

    /// Whether `value` is representable in this field's width; app code uses
    /// this to validate a value before encoding it.
    pub fn accepts(&self, value: u64) -> (r: bool)
        requires
            self.wf(),
        ensures
            r == self.value_fits(value),
    {
        let w = self.width;
        proof {
            assert(1u64 << w >= 1) by (bit_vector)
                requires
                    w <= 32,
            ;
        }
        value & ((1u64 << w) - 1) == value
    }

    /// Encodes `value` into its position within the register word. Encoding
    /// a value wider than the field is a programmer error and is excluded
    /// statically rather than reported at run time.
    pub fn encode(&self, value: u64) -> (r: u64)
        requires
            self.wf(),
            self.value_fits(value),
        ensures
            r == self.place(value),
    {
        value << self.offset
    }

    /// Decodes this field out of a raw register word. A value that matches
    /// no symbolic constant is not an error: the raw numeric field content
    /// is returned unlabeled.
    pub fn decode(&self, raw: u64) -> (r: u64)
        requires
            self.wf(),
        ensures
            r == self.extract(raw),
    {
        let w = self.width;
        proof {
            assert(1u64 << w >= 1) by (bit_vector)
                requires
                    w <= 32,
            ;
        }
        (raw >> self.offset) & ((1u64 << w) - 1)
    }
}

/// Two fields occupy no common bit.
pub open spec fn disjoint_fields(f1: RegisterField, f2: RegisterField) -> bool {
    f1.mask() & f2.mask() == 0
}

/// Round trip: decoding an encoded value gives the value back, for every
/// value representable in the field's width.
pub proof fn lemma_field_round_trip(f: RegisterField, v: u64)
    requires
        f.wf(),
        f.value_fits(v),
    ensures
        f.extract(f.place(v)) == v,
{
    let o = f.offset;
    let w = f.width;
    assert(((v << o) >> o) & (((1u64 << w) - 1) as u64) == v) by (bit_vector)
        requires
            1 <= w,
            o + w <= 32,
            v & (((1u64 << w) - 1) as u64) == v,
    ;
}

/// Field isolation: a word composed by OR-ing the encodings of two
/// non-overlapping fields decodes to each field's own value independently.
pub proof fn lemma_field_isolation(f1: RegisterField, f2: RegisterField, a: u64, b: u64)
    requires
        f1.wf(),
        f2.wf(),
        disjoint_fields(f1, f2),
        f1.value_fits(a),
        f2.value_fits(b),
    ensures
        f1.extract(f1.place(a) | f2.place(b)) == a,
        f2.extract(f1.place(a) | f2.place(b)) == b,
{
    let o1 = f1.offset;
    let w1 = f1.width;
    let o2 = f2.offset;
    let w2 = f2.width;
    assert((((a << o1) | (b << o2)) >> o1) & (((1u64 << w1) - 1) as u64) == a) by (bit_vector)
        requires
            1 <= w1,
            o1 + w1 <= 32,
            1 <= w2,
            o2 + w2 <= 32,
            a & (((1u64 << w1) - 1) as u64) == a,
            b & (((1u64 << w2) - 1) as u64) == b,
            ((((1u64 << w1) - 1) as u64) << o1) & ((((1u64 << w2) - 1) as u64) << o2) == 0,
    ;
    assert((((a << o1) | (b << o2)) >> o2) & (((1u64 << w2) - 1) as u64) == b) by (bit_vector)
        requires
            1 <= w1,
            o1 + w1 <= 32,
            1 <= w2,
            o2 + w2 <= 32,
            a & (((1u64 << w1) - 1) as u64) == a,
            b & (((1u64 << w2) - 1) as u64) == b,
            ((((1u64 << w1) - 1) as u64) << o1) & ((((1u64 << w2) - 1) as u64) << o2) == 0,
    ;
}

/// Truncating a word to the register's width does not disturb a field that
/// lies within that width.
pub proof fn lemma_truncation_keeps_field(f: RegisterField, raw: u64, rw: RegWidth)
    requires
        f.fits(rw),
    ensures
        f.extract(raw & rw.value_mask()) == f.extract(raw),
{
    let o = f.offset;
    let w = f.width;
    match rw {
        RegWidth::Half => {
            assert(((raw & 0xFFFFu64) >> o) & (((1u64 << w) - 1) as u64) == (raw >> o) & (((1u64
                << w) - 1) as u64)) by (bit_vector)
                requires
                    1 <= w,
                    o + w <= 16,
            ;
        },
        RegWidth::Word => {
            assert(((raw & 0xFFFF_FFFFu64) >> o) & (((1u64 << w) - 1) as u64) == (raw >> o) & (((
            1u64 << w) - 1) as u64)) by (bit_vector)
                requires
                    1 <= w,
                    o + w <= 32,
            ;
        },
    }
}

/// Field isolation through a register write: storing the OR of two encoded
/// non-overlapping fields, truncated to the register's width as every store
/// is, still decodes to each field's own value.
pub proof fn lemma_register_field_isolation(
    rw: RegWidth,
    f1: RegisterField,
    f2: RegisterField,
    a: u64,
    b: u64,
)
    requires
        f1.fits(rw),
        f2.fits(rw),
        disjoint_fields(f1, f2),
        f1.value_fits(a),
        f2.value_fits(b),
    ensures
        f1.extract((f1.place(a) | f2.place(b)) & rw.value_mask()) == a,
        f2.extract((f1.place(a) | f2.place(b)) & rw.value_mask()) == b,
{
    lemma_field_isolation(f1, f2, a, b);
    lemma_truncation_keeps_field(f1, f1.place(a) | f2.place(b), rw);
    lemma_truncation_keeps_field(f2, f1.place(a) | f2.place(b), rw);
}

/// A symbolic named value of a field (such as `ENABLED = 1`): the field
/// together with a value representable in it, kept pre-encoded so that
/// several of them can be OR-combined into one register word.
#[derive(Clone, Copy, PartialEq, Eq, Structural, Debug)]
pub struct FieldValue {
    /// The field the value belongs to.
    pub field: RegisterField,
    /// The numeric value, not yet shifted into position.
    pub value: u64,
}

impl FieldValue {
    /// Well-formed: the field is well-formed and the value fits it.
    pub open spec fn wf(self) -> bool {
        self.field.wf() && self.field.value_fits(self.value)
    }

    /// Binds `value` to `field` as a named constant of that field.
    pub fn new(field: RegisterField, value: u64) -> (r: FieldValue)
        requires
            field.wf(),
            field.value_fits(value),
        ensures
            r == (FieldValue { field, value }),
            r.wf(),
    {
        FieldValue { field, value }
    }

    /// The value encoded into its field position.
    pub fn encoded(&self) -> (r: u64)
        requires
            self.wf(),
        ensures
            r == self.field.place(self.value),
    {
        self.field.encode(self.value)
    }
}

/// How a memory-mapped register may be accessed. The mode is part of the
/// register handle, so reading a write-only register is rejected before
/// execution rather than at run time.
#[derive(Clone, Copy, PartialEq, Eq, Structural, Debug)]
pub enum Access {
    /// Loads and stores are both allowed.
    ReadWrite,
    /// Only stores are allowed.
    WriteOnly,
}

/// A configuration fault detected while building a register: no recovery
/// path exists once hardware is mis-described, so setup must fail loudly.
#[derive(Clone, Copy, PartialEq, Eq, Structural, Debug)]
pub enum RegisterError {
    /// A field is empty or reaches beyond the register's width.
    FieldOutOfRange,
    /// Two fields of the same register share a bit.
    OverlappingFields,
}

/// All fields lie within a register of width `rw`.
pub open spec fn all_fields_fit(fields: Seq<RegisterField>, rw: RegWidth) -> bool {
    forall|i: int| 0 <= i < fields.len() ==> (#[trigger] fields[i]).fits(rw)
}

/// No two fields of the list share a bit.
pub open spec fn pairwise_disjoint(fields: Seq<RegisterField>) -> bool {
    forall|i: int, j: int|
        0 <= i < j < fields.len() ==> disjoint_fields(#[trigger] fields[i], #[trigger] fields[j])
}

/// A memory-mapped register: a fixed physical address, a width, an access
/// mode and an ordered list of non-overlapping fields. The `value` member
/// models the word the hardware cell holds; the excluded hardware layer is
/// what turns a `set` into a volatile store against `address`.
#[derive(Debug)]
pub struct MmioRegister {
    /// Physical address of the hardware word.
    pub address: u64,
    /// Width of the hardware word.
    pub width: RegWidth,
    /// Access mode; checked statically on every load.
    pub access: Access,
    /// The named fields carved out of the word.
    pub fields: Vec<RegisterField>,
    /// The word the hardware cell holds, always truncated to `width`.
    pub value: u64,
}

impl MmioRegister {
    /// Invariant: every field fits the width, no two fields overlap, and the
    /// held word never exceeds the width.
    pub open spec fn wf(self) -> bool {
        &&& all_fields_fit(self.fields@, self.width)
        &&& pairwise_disjoint(self.fields@)
        &&& self.value & self.width.value_mask() == self.value
    }

    /// Builds a register description, rejecting an empty or out-of-range
    /// field and any overlapping pair. On success the modeled word starts
    /// at zero.
    pub fn new(address: u64, width: RegWidth, access: Access, fields: Vec<RegisterField>) -> (r:
        Result<MmioRegister, RegisterError>)
        ensures
            r is Ok <==> all_fields_fit(fields@, width) && pairwise_disjoint(fields@),
            r == Err::<MmioRegister, RegisterError>(RegisterError::FieldOutOfRange) <==> !all_fields_fit(fields@, width),
            r == Err::<MmioRegister, RegisterError>(RegisterError::OverlappingFields) <==> (
            all_fields_fit(fields@, width) && !pairwise_disjoint(fields@)),
            r matches Ok(reg) ==> reg == (MmioRegister { address, width, access, fields, value: 0u64 })
                && reg.wf(),
    {
        let bits = width.bit_count();
        let n = fields.len();
        let mut i: usize = 0;
        while i < n
            invariant
                n == fields@.len(),
                0 <= i <= n,
                bits == width.bits(),
                forall|k: int| 0 <= k < i ==> (#[trigger] fields@[k]).fits(width),
            decreases n - i,
        {
            let f = fields[i];
            if f.width < 1 || f.offset > bits || f.width > bits - f.offset {
                return Err(RegisterError::FieldOutOfRange);
            }
            i += 1;
        }
        let mut i: usize = 0;
        while i < n
            invariant
                n == fields@.len(),
                0 <= i <= n,
                all_fields_fit(fields@, width),
                forall|k: int, l: int|
                    0 <= k < l < fields@.len() && k < i ==> disjoint_fields(
                        #[trigger] fields@[k],
                        #[trigger] fields@[l],
                    ),
            decreases n - i,
        {
            let mut j: usize = i + 1;
            while j < n
                invariant
                    n == fields@.len(),
                    0 <= i < j <= n,
                    all_fields_fit(fields@, width),
                    forall|l: int|
                        i < l < j ==> disjoint_fields(fields@[i as int], #[trigger] fields@[l]),
                decreases n - j,
            {
                if fields[i].mask_value() & fields[j].mask_value() != 0 {
                    return Err(RegisterError::OverlappingFields);
                }
                j += 1;
            }
            i += 1;
        }
        proof {
            assert(0u64 & width.value_mask() == 0u64) by (bit_vector);
        }
        Ok(MmioRegister { address, width, access, fields, value: 0 })
    }

    /// A single volatile load of the raw word; only a read-write register
    /// offers it, so a load from a write-only register is a verification
    /// error at the call site, never a run-time one.
    pub fn get(&self) -> (r: u64)
        requires
            self.access == Access::ReadWrite,
        ensures
            r == self.value,
    {
        self.value
    }

    /// A single volatile store of `raw`, truncated to the register's width;
    /// allowed in every access mode.
    pub fn set(&mut self, raw: u64)
        ensures
            final(self).value == raw & old(self).width.value_mask(),
            final(self).address == old(self).address,
            final(self).width == old(self).width,
            final(self).access == old(self).access,
            final(self).fields == old(self).fields,
            old(self).wf() ==> final(self).wf(),
    {
        let m = self.width.full_mask();
        proof {
            assert((raw & m) & m == raw & m) by (bit_vector);
        }
        self.value = raw & m;
    }

    /// Stores a word built by OR-ing several encoded fields: plain sugar
    /// for [`MmioRegister::set`].
    pub fn write_value(&mut self, composed: u64)
        ensures
            final(self).value == composed & old(self).width.value_mask(),
            final(self).address == old(self).address,
            final(self).width == old(self).width,
            final(self).access == old(self).access,
            final(self).fields == old(self).fields,
            old(self).wf() ==> final(self).wf(),
    {
        self.set(composed);
    }

    /// Reads the register and decodes one field out of it.
    pub fn read_field(&self, f: &RegisterField) -> (r: u64)
        requires
            self.access == Access::ReadWrite,
            f.wf(),
        ensures
            r == f.extract(self.value),
    {
        f.decode(self.get())
    }
}

} // verus!
