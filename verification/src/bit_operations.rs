use vstd::prelude::*;

verus! {

/// Whether bit `bit_index` (0 is the least significant bit) of `value` is set.
pub open spec fn bit_of(value: u8, bit_index: u8) -> bool {
    (value >> bit_index) & 1u8 == 1u8
}

/// Number of set bits among the lowest `n` bits of `value`.
pub open spec fn count_set_bits(value: u8, n: nat) -> nat
    decreases n,
{
    if n == 0 {
        0
    } else {
        count_set_bits(value, (n - 1) as nat) + if bit_of(value, (n - 1) as u8) {
            1nat
        } else {
            0nat
        }
    }
}

/// Even parity: an even number of the eight bits are set.
pub open spec fn has_even_parity(value: u8) -> bool {
    count_set_bits(value, 8) % 2 == 0
}

/// The little-endian 16-bit word made of a low and a high byte.
pub open spec fn word(low_byte: u8, high_byte: u8) -> u16 {
    (high_byte as int * 256 + low_byte as int) as u16
}

pub open spec fn low_byte_of(value: u16) -> u8 {
    (value % 256) as u8
}

pub open spec fn high_byte_of(value: u16) -> u8 {
    (value / 256) as u8
}

/// The auxiliary carry that the 8080 reports for an addition or a subtraction
/// of two bytes: for an addition, a carry out of the low nibble; for a
/// subtraction, the absence of a borrow into the low nibble.
pub open spec fn auxiliary_carry_of(value_1: u8, value_2: u8, is_subtraction: bool) -> bool {
    if is_subtraction {
        value_1 % 16 >= value_2 % 16
    } else {
        value_1 % 16 + value_2 % 16 > 15
    }
}

/// The byte with the order of its eight bits reversed.
pub open spec fn reversed_byte(value: u8) -> u8 {
    ((value & 0x01) << 7u8) | ((value & 0x02) << 5u8) | ((value & 0x04) << 3u8) | ((value & 0x08)
        << 1u8) | ((value & 0x10) >> 1u8) | ((value & 0x20) >> 3u8) | ((value & 0x40) >> 5u8) | ((
    value & 0x80) >> 7u8)
}

pub fn is_bit_set(value: u8, bit_index: u8) -> (is_set: bool)
    requires
        bit_index < 8,
    ensures
        is_set == bit_of(value, bit_index),
{
    let shifted_value = value >> bit_index;
    assert((shifted_value & 0b00000001 != 0) == bit_of(value, bit_index)) by (bit_vector)
        requires
            shifted_value == value >> bit_index,
    ;
    shifted_value & 0b00000001 != 0
}

pub fn set_bit_in_value(value: &mut u8, bit_index: u8, bit_flag: bool)
    requires
        bit_index < 8,
    ensures
        *final(value) == (*old(value) & !(1u8 << bit_index)) | (if bit_flag {
            1u8 << bit_index
        } else {
            0u8
        }),
        forall|other_index: u8|
            other_index < 8 ==> bit_of(*final(value), other_index) == if other_index
                == bit_index {
                bit_flag
            } else {
                bit_of(*old(value), other_index)
            },
{
    let bit_mask: u8 = 1u8 << bit_index;
    let bit_value_mask: u8 = if bit_flag {
        bit_mask
    } else {
        0b00000000
    };
    let old_value: u8 = *value;
    let new_value: u8 = old_value & !bit_mask | bit_value_mask;
    assert(forall|other_index: u8|
        other_index < 8 ==> bit_of(new_value, other_index) == if other_index == bit_index {
            bit_flag
        } else {
            bit_of(old_value, other_index)
        }) by (bit_vector)
        requires
            bit_index < 8,
            bit_mask == 1u8 << bit_index,
            bit_value_mask == if bit_flag {
                bit_mask
            } else {
                0u8
            },
            new_value == old_value & !bit_mask | bit_value_mask,
    ;
    *value = new_value;
}

pub fn get_parity(value: u8) -> (parity: bool)
    ensures
        parity == has_even_parity(value),
{
    let mut parity = true;
    let mut bit_index: u8 = 0;
    while bit_index <= 7
        invariant
            bit_index <= 8,
            parity == (count_set_bits(value, bit_index as nat) % 2 == 0),
        decreases 8 - bit_index,
    {
        if is_bit_set(value, bit_index) {
            parity = !parity
        }
        bit_index = bit_index + 1;
    }
    parity
}

pub fn concat_low_high_bytes(low_byte: u8, high_byte: u8) -> (value: u16)
    ensures
        value == word(low_byte, high_byte),
        value == high_byte as int * 256 + low_byte as int,
{
    let value: u16 = (high_byte as u16) << 8u16 | (low_byte as u16);
    assert(value == high_byte as u16 * 256 + low_byte as u16) by (bit_vector)
        requires
            value == (high_byte as u16) << 8u16 | (low_byte as u16),
    ;
    value
}

pub fn split_to_low_high_bytes(value: u16) -> (bytes: (u8, u8))
    ensures
        bytes.0 == low_byte_of(value),
        bytes.1 == high_byte_of(value),
        bytes.0 == value % 256,
        bytes.1 == value / 256,
{
    let low: u8 = (value & 0b0000_0000_1111_1111) as u8;
    let high: u8 = (value >> 8u16) as u8;
    assert(low == value % 256 && high == value / 256) by (bit_vector)
        requires
            low == (value & 0b0000_0000_1111_1111) as u8,
            high == (value >> 8u16) as u8,
    ;
    (low, high)
}

pub fn calculate_auxiliary_carry(value_1: u8, value_2: u8, is_subtraction: bool) -> (carry: bool)
    ensures
        carry == auxiliary_carry_of(value_1, value_2, is_subtraction),
{
    let nibble_mask: u8 = 0b0000_1111;
    let lower_value_1: u8 = value_1 & nibble_mask;
    let lower_value_2: u8 = value_2 & nibble_mask;
    let result: u8 = if is_subtraction {
        lower_value_1.wrapping_sub(lower_value_2)
    } else {
        lower_value_1.wrapping_add(lower_value_2)
    };
    let bit_is_set = is_bit_set(result, 4);
    proof {
        assert(lower_value_1 == value_1 % 16 && lower_value_2 == value_2 % 16) by (bit_vector)
            requires
                lower_value_1 == value_1 & 0b0000_1111u8,
                lower_value_2 == value_2 & 0b0000_1111u8,
        ;
        if is_subtraction {
            assert(bit_of(result, 4) == (lower_value_1 < lower_value_2)) by (bit_vector)
                requires
                    lower_value_1 < 16,
                    lower_value_2 < 16,
                    result == (if lower_value_1 >= lower_value_2 {
                        (lower_value_1 - lower_value_2) as u8
                    } else {
                        (lower_value_1 - lower_value_2 + 256) as u8
                    }),
            ;
        } else {
            assert(bit_of(result, 4) == (lower_value_1 + lower_value_2 > 15)) by (bit_vector)
                requires
                    lower_value_1 < 16,
                    lower_value_2 < 16,
                    result == (lower_value_1 + lower_value_2) as u8,
            ;
        }
    }
    if is_subtraction {
        !bit_is_set
    } else {
        bit_is_set
    }
}

pub fn reverse_byte(value: u8) -> (reversed: u8)
    ensures
        reversed == reversed_byte(value),
        forall|bit_index: u8| bit_index < 8 ==> bit_of(reversed, bit_index) == bit_of(value, (7 - bit_index) as u8),
{
    let mut reverse_bit_mask: u8 = 0b1000_0000;
    let mut reverse_byte: u8 = 0;
    let mut bit_index: u8 = 0;
    assert(0x80u8 >> 0u8 == 0x80u8 && 0u8 == reversed_byte(value) & !(0xffu8 >> 0u8))
        by (bit_vector);
    while bit_index <= 7
        invariant
            bit_index <= 8,
            reverse_bit_mask == (0x80u8 >> bit_index),
            reverse_byte == reversed_byte(value) & !(0xffu8 >> bit_index),
        decreases 8 - bit_index,
    {
        let bit_is_set = is_bit_set(value, bit_index);
        let ghost previous = reverse_byte;
        assert(previous & reverse_bit_mask == 0 && previous + reverse_bit_mask < 256)
            by (bit_vector)
            requires
                bit_index < 8,
                reverse_bit_mask == (0x80u8 >> bit_index),
                previous == reversed_byte(value) & !(0xffu8 >> bit_index),
        ;
        if bit_is_set {
            reverse_byte = reverse_byte + reverse_bit_mask;
        }
        assert(reverse_byte == reversed_byte(value) & !(0xffu8 >> ((bit_index + 1) as u8)))
            by (bit_vector)
            requires
                bit_index < 8,
                reverse_bit_mask == (0x80u8 >> bit_index),
                previous == reversed_byte(value) & !(0xffu8 >> bit_index),
                bit_is_set == bit_of(value, bit_index),
                reverse_byte == if bit_is_set {
                    (previous + reverse_bit_mask) as u8
                } else {
                    previous
                },
                previous & reverse_bit_mask == 0,
        ;
        assert((reverse_bit_mask >> 1u8) == (0x80u8 >> ((bit_index + 1) as u8))) by (bit_vector)
            requires
                bit_index < 8,
                reverse_bit_mask == (0x80u8 >> bit_index),
        ;
        reverse_bit_mask = reverse_bit_mask >> 1u8;
        bit_index = bit_index + 1;
    }
    assert(reversed_byte(value) & !(0xffu8 >> 8u8) == reversed_byte(value)) by (bit_vector);
    assert(forall|i: u8|
        i < 8 ==> bit_of(reversed_byte(value), i) == bit_of(value, (7 - i) as u8)) by (bit_vector);
    reverse_byte
}

/// Reversing the bits of a byte twice gives the byte back.
pub proof fn lemma_reverse_byte_is_an_involution(value: u8)
    ensures
        reversed_byte(reversed_byte(value)) == value,
{
    assert(reversed_byte(reversed_byte(value)) == value) by (bit_vector);
}

/// Splitting the word made of two bytes gives the two bytes back.
pub proof fn lemma_split_undoes_concat(low_byte: u8, high_byte: u8)
    ensures
        low_byte_of(word(low_byte, high_byte)) == low_byte,
        high_byte_of(word(low_byte, high_byte)) == high_byte,
{
}

/// Joining the two bytes of a word gives the word back.
pub proof fn lemma_concat_undoes_split(value: u16)
    ensures
        word(low_byte_of(value), high_byte_of(value)) == value,
{
}

/// Among the lowest `n` bits, the set bits of `a ^ b` are as many, up to
/// an even number, as those of `a` and `b` together.
proof fn lemma_count_set_bits_of_xor(a: u8, b: u8, n: nat)
    requires
        n <= 8,
    ensures
        (count_set_bits(a ^ b, n) + count_set_bits(a, n) + count_set_bits(b, n)) % 2 == 0,
    decreases n,
{
    if n > 0 {
        lemma_count_set_bits_of_xor(a, b, (n - 1) as nat);
        let i = (n - 1) as u8;
        assert(bit_of(a ^ b, i) == (bit_of(a, i) != bit_of(b, i))) by (bit_vector)
            requires
                i < 8,
        ;
    }
}

/// The exclusive or of two bytes has even parity exactly when both bytes
/// have the same parity; so the complement of a byte has its parity.
pub proof fn lemma_parity_of_xor(a: u8, b: u8)
    ensures
        has_even_parity(a ^ b) == (has_even_parity(a) == has_even_parity(b)),
        has_even_parity(!a) == has_even_parity(a),
{
    lemma_count_set_bits_of_xor(a, b, 8);
    lemma_count_set_bits_of_xor(a, 0xffu8, 8);
    assert(!a == a ^ 0xffu8) by (bit_vector);
    lemma_all_bits_set(8);
}

/// Every one of the lowest `n` bits of 0xFF is set.
proof fn lemma_all_bits_set(n: nat)
    requires
        n <= 8,
    ensures
        count_set_bits(0xffu8, n) == n,
    decreases n,
{
    if n > 0 {
        lemma_all_bits_set((n - 1) as nat);
        let i = (n - 1) as u8;
        assert(bit_of(0xffu8, i)) by (bit_vector)
            requires
                i < 8,
        ;
    }
}

} // verus!
