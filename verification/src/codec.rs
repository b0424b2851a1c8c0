//! The packed header bitfield of the comparison map.
//!
//! Each map slot carries one 64-bit header packing six logical fields,
//! least-significant field first: `hits` (24 bits), `id` (24 bits),
//! `shape` (5 bits), `ty` (2 bits), `attribute` (4 bits) and `overflow`
//! (1 bit); the top 4 bits are reserved.  Decoding is total: every field
//! is masked to its bit width before conversion, so no raw value can
//! decode to a field outside its domain.

use vstd::prelude::*;

verus! {

/// One decoded comparison-map header.
#[derive(Clone, Copy, Debug, PartialEq, Eq, Structural)]
pub struct CmpHeader {
    /// Count of comparisons recorded for this slot (24 bits).
    pub hits: u32,
    /// Site identifier assigned by the instrumented target (24 bits).
    pub id: u32,
    /// Operand width/class (5 bits).
    pub shape: u8,
    /// Comparison kind (2 bits).
    pub ty: u8,
    /// Comparison modifier flags (4 bits).
    pub attribute: u8,
    /// Saturation marker: the producer recorded more hits than fit.
    pub overflow: bool,
}

/// Bits [0, 24) of a raw header: the hit count.
pub open spec fn spec_hits(raw: u64) -> u64 {
    raw & 0xFF_FFFF
}

/// Bits [24, 48) of a raw header: the site identifier.
pub open spec fn spec_id(raw: u64) -> u64 {
    (raw >> 24) & 0xFF_FFFF
}

/// Bits [48, 53) of a raw header: the operand shape.
pub open spec fn spec_shape(raw: u64) -> u64 {
    (raw >> 48) & 0x1F
}

/// Bits [53, 55) of a raw header: the comparison kind.
pub open spec fn spec_ty(raw: u64) -> u64 {
    (raw >> 53) & 0x3
}

/// Bits [55, 59) of a raw header: the modifier flags.
pub open spec fn spec_attribute(raw: u64) -> u64 {
    (raw >> 55) & 0xF
}

/// Bit 59 of a raw header: the overflow marker.
pub open spec fn spec_overflow(raw: u64) -> bool {
    (raw >> 59) & 1 == 1
}

/// The header a raw 64-bit slot value decodes to.
pub open spec fn spec_decode(raw: u64) -> CmpHeader {
    CmpHeader {
        hits: spec_hits(raw) as u32,
        id: spec_id(raw) as u32,
        shape: spec_shape(raw) as u8,
        ty: spec_ty(raw) as u8,
        attribute: spec_attribute(raw) as u8,
        overflow: spec_overflow(raw),
    }
}

/// Every field fits the domain the layout guarantees for it, whatever the
/// raw value: decoding cannot meet a corrupted, out-of-range field.
pub proof fn lemma_fields_in_range(raw: u64)
    by (bit_vector)
    ensures
        spec_hits(raw) < 0x100_0000,
        spec_id(raw) < 0x100_0000,
        spec_shape(raw) < 0x20,
        spec_ty(raw) < 0x4,
        spec_attribute(raw) < 0x10,
{
}

/// The six fields are mutually exclusive and exhaustive over bits [0, 60):
/// re-packing them, whether by disjunction or by addition, recovers the raw
/// value with only the reserved top bits masked off.
pub proof fn lemma_fields_partition(raw: u64)
    by (bit_vector)
    ensures
        spec_hits(raw) | (spec_id(raw) << 24) | (spec_shape(raw) << 48) | (spec_ty(raw) << 53)
            | (spec_attribute(raw) << 55)
            | ((if spec_overflow(raw) { 1u64 } else { 0u64 }) << 59) == raw
            & 0x0FFF_FFFF_FFFF_FFFF,
        spec_hits(raw) + (spec_id(raw) << 24) + (spec_shape(raw) << 48) + (spec_ty(raw) << 53)
            + (spec_attribute(raw) << 55)
            + ((if spec_overflow(raw) { 1u64 } else { 0u64 }) << 59) == raw
            & 0x0FFF_FFFF_FFFF_FFFF,
{
}

/// Unpack a raw 64-bit header into its six fields, least-significant field
/// first.  Total: the masks keep every field inside its target type.
pub fn decode(raw: u64) -> (h: CmpHeader)
    ensures
        h == spec_decode(raw),
        h.hits == spec_hits(raw),
        h.id == spec_id(raw),
        h.shape == spec_shape(raw),
        h.ty == spec_ty(raw),
        h.attribute == spec_attribute(raw),
        h.overflow == spec_overflow(raw),
{
    proof {
        lemma_fields_in_range(raw);
    }
    let hits: u32 = (raw & 0xFF_FFFF) as u32;
    let id: u32 = ((raw >> 24) & 0xFF_FFFF) as u32;
    let shape: u8 = ((raw >> 48) & 0x1F) as u8;
    let ty: u8 = ((raw >> 53) & 0x3) as u8;
    let attribute: u8 = ((raw >> 55) & 0xF) as u8;
    let overflow: bool = (raw >> 59) & 1 == 1;
    CmpHeader { hits, id, shape, ty, attribute, overflow }
}

} // verus!
