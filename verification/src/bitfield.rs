use vstd::prelude::*;

verus! {

/// A bit field inside a 16-bit register word is described by a pair
/// `(mask, shift)`: `mask` selects the field's bits and `shift` is the
/// position of the mask's lowest set bit. A descriptor is well formed
/// when no mask bit lies below `shift`.
pub open spec fn field_wf(mask: u16, shift: u16) -> bool {
    shift < 16 && ((mask >> shift) << shift) == mask
}

/// The right-aligned value of the field `(mask, shift)` inside `value`.
pub open spec fn extract_spec(value: u16, mask: u16, shift: u16) -> u16 {
    (value & mask) >> shift
}

/// `value` with the field `(mask, shift)` replaced by `new_value` and every
/// bit outside `mask` unchanged. A `new_value` wider than the field is
/// truncated by the mask.
pub open spec fn inject_spec(value: u16, mask: u16, shift: u16, new_value: u16) -> u16 {
    (value & !mask) | ((new_value << shift) & mask)
}

/// `old_word` with the bits selected by `mask` replaced by the corresponding
/// bits of `new_bits`, which are already in position. This is the merge step
/// of the read-modify-write protocol.
pub open spec fn merge_spec(old_word: u16, mask: u16, new_bits: u16) -> u16 {
    (new_bits & mask) | (old_word & !mask)
}

pub fn extract(value: u16, mask: u16, shift: u16) -> (r: u16)
    requires
        shift < 16,
    ensures
        r == extract_spec(value, mask, shift),
{
    (value & mask) >> shift
}

pub fn inject(value: u16, mask: u16, shift: u16, new_value: u16) -> (r: u16)
    requires
        shift < 16,
    ensures
        r == inject_spec(value, mask, shift, new_value),
{
    (value & !mask) | ((new_value << shift) & mask)
}

pub fn merge(old_word: u16, mask: u16, new_bits: u16) -> (r: u16)
    ensures
        r == merge_spec(old_word, mask, new_bits),
{
    (new_bits & mask) | (old_word & !mask)
}

/// Round-trip identity: putting a field's own extracted value back into the
/// word it came from leaves the word unchanged.
pub proof fn lemma_extract_inject_identity(value: u16, mask: u16, shift: u16)
    requires
        field_wf(mask, shift),
    ensures
        inject_spec(value, mask, shift, extract_spec(value, mask, shift)) == value,
{
    assert((value & !mask) | ((((value & mask) >> shift) << shift) & mask) == value)
        by (bit_vector)
        requires
            shift < 16 && ((mask >> shift) << shift) == mask,
    ;
}

/// Injection touches only the bits covered by `mask`: whatever field value is
/// injected (here: one extracted from an arbitrary other word `value2`), every
/// bit outside `mask` keeps the value it has in `value1`.
pub proof fn lemma_inject_changes_only_field(value1: u16, value2: u16, mask: u16, shift: u16)
    requires
        shift < 16,
    ensures
        inject_spec(value1, mask, shift, extract_spec(value2, mask, shift)) & !mask == value1
            & !mask,
{
    assert((((value1 & !mask) | ((((value2 & mask) >> shift) << shift) & mask)) & !mask) == (value1
        & !mask)) by (bit_vector);
}

/// The merge step of the read-modify-write protocol also touches only the
/// bits covered by `mask`.
pub proof fn lemma_merge_changes_only_mask(old_word: u16, mask: u16, new_bits: u16)
    ensures
        merge_spec(old_word, mask, new_bits) & !mask == old_word & !mask,
        merge_spec(old_word, mask, new_bits) & mask == new_bits & mask,
{
    assert((((new_bits & mask) | (old_word & !mask)) & !mask) == (old_word & !mask) && (((new_bits
        & mask) | (old_word & !mask)) & mask) == (new_bits & mask)) by (bit_vector);
}

} // verus!
