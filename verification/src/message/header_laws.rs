//! What holds of the flags word, whatever the flags are.

use vstd::prelude::*;
use crate::message::header::{
    bit, word, Flags, MessageType, Opcode, ResponseCode, AUTHORITATIVE_MASK, AUTHORITATIVE_SHIFT,
    MESSAGE_TYPE_MASK, MESSAGE_TYPE_SHIFT, OPCODE_MASK, OPCODE_SHIFT, RECURSION_AVAILABLE_MASK,
    RECURSION_AVAILABLE_SHIFT, RECURSION_DESIRED_MASK, RECURSION_DESIRED_SHIFT,
    RESPONSE_CODE_MASK, TRUNCATED_MASK, TRUNCATED_SHIFT, Z_MASK,
};

verus! {

/// Whether `mask` holds the bit that lies `place` bits from the right.
pub open spec fn holds_bit(mask: u16, place: u16) -> bool {
    (mask >> place) & 1 == 1
}

/// Each mask is a run of ones that starts at its field's shift, and every one
/// of the 16 bits lies in exactly one field or in Z: no gap and no overlap.
pub proof fn lemma_fields_partition_word()
    by (bit_vector)
    ensures
        MESSAGE_TYPE_MASK == 0b1u16 << MESSAGE_TYPE_SHIFT,
        OPCODE_MASK == 0b1111u16 << OPCODE_SHIFT,
        AUTHORITATIVE_MASK == 0b1u16 << AUTHORITATIVE_SHIFT,
        TRUNCATED_MASK == 0b1u16 << TRUNCATED_SHIFT,
        RECURSION_DESIRED_MASK == 0b1u16 << RECURSION_DESIRED_SHIFT,
        RECURSION_AVAILABLE_MASK == 0b1u16 << RECURSION_AVAILABLE_SHIFT,
        !Z_MASK == 0b111u16 << 4,
        RESPONSE_CODE_MASK == 0b1111u16,
        forall|place: u16|
            place < 16 ==> bit(#[trigger] holds_bit(MESSAGE_TYPE_MASK, place))
                + bit(holds_bit(OPCODE_MASK, place))
                + bit(holds_bit(AUTHORITATIVE_MASK, place))
                + bit(holds_bit(TRUNCATED_MASK, place))
                + bit(holds_bit(RECURSION_DESIRED_MASK, place))
                + bit(holds_bit(RECURSION_AVAILABLE_MASK, place))
                + bit(holds_bit(!Z_MASK, place))
                + bit(holds_bit(RESPONSE_CODE_MASK, place)) == 1,
{
}

/// The fields read back from the word that holds them.
proof fn lemma_word_fields(
    message_type: u16,
    opcode: u16,
    authoritative: bool,
    truncated: bool,
    recursion_desired: bool,
    recursion_available: bool,
    response_code: u16,
)
    by (bit_vector)
    requires
        message_type <= 1,
        opcode <= 15,
        response_code <= 15,
    ensures
        ({
            let w = word(
                message_type,
                opcode,
                authoritative,
                truncated,
                recursion_desired,
                recursion_available,
                response_code,
            );
            &&& (w & MESSAGE_TYPE_MASK) >> MESSAGE_TYPE_SHIFT == message_type
            &&& (w & OPCODE_MASK) >> OPCODE_SHIFT == opcode
            &&& (w & AUTHORITATIVE_MASK != 0) == authoritative
            &&& (w & TRUNCATED_MASK != 0) == truncated
            &&& (w & RECURSION_DESIRED_MASK != 0) == recursion_desired
            &&& (w & RECURSION_AVAILABLE_MASK != 0) == recursion_available
            &&& w & !Z_MASK == 0
            &&& w & RESPONSE_CODE_MASK == response_code
        }),
{
}

/// Every field can be read back from its own bits of the word, and the
/// bits of Z are zero.
pub proof fn lemma_get_bits_fields(flags: Flags)
    ensures
        (flags.get_bits() & MESSAGE_TYPE_MASK) >> MESSAGE_TYPE_SHIFT
            == flags.message_type.to_u16(),
        (flags.get_bits() & OPCODE_MASK) >> OPCODE_SHIFT == flags.opcode.to_u16(),
        (flags.get_bits() & AUTHORITATIVE_MASK != 0) == flags.authoritative,
        (flags.get_bits() & TRUNCATED_MASK != 0) == flags.truncated,
        (flags.get_bits() & RECURSION_DESIRED_MASK != 0) == flags.recursion_desired,
        (flags.get_bits() & RECURSION_AVAILABLE_MASK != 0) == flags.recursion_available,
        flags.get_bits() & !Z_MASK == 0,
        flags.get_bits() & RESPONSE_CODE_MASK == flags.response_code.to_u16(),
{
    lemma_word_fields(
        flags.message_type.to_u16(),
        flags.opcode.to_u16(),
        flags.authoritative,
        flags.truncated,
        flags.recursion_desired,
        flags.recursion_available,
        flags.response_code.to_u16(),
    );
}

/// Two flags have the same word exactly when they agree in every field.
pub proof fn lemma_get_bits_injective(a: Flags, b: Flags)
    ensures
        a.get_bits() == b.get_bits() <==> a == b,
{
    lemma_get_bits_fields(a);
    lemma_get_bits_fields(b);
}

/// Turning one switch over flips that switch's bit of the word.
proof fn lemma_word_switches(
    message_type: u16,
    opcode: u16,
    authoritative: bool,
    truncated: bool,
    recursion_desired: bool,
    recursion_available: bool,
    response_code: u16,
)
    by (bit_vector)
    requires
        message_type <= 1,
        opcode <= 15,
        response_code <= 15,
    ensures
        ({
            let w = word(
                message_type,
                opcode,
                authoritative,
                truncated,
                recursion_desired,
                recursion_available,
                response_code,
            );
            &&& word(
                message_type,
                opcode,
                !authoritative,
                truncated,
                recursion_desired,
                recursion_available,
                response_code,
            ) == w ^ (1u16 << AUTHORITATIVE_SHIFT)
            &&& word(
                message_type,
                opcode,
                authoritative,
                !truncated,
                recursion_desired,
                recursion_available,
                response_code,
            ) == w ^ (1u16 << TRUNCATED_SHIFT)
            &&& word(
                message_type,
                opcode,
                authoritative,
                truncated,
                !recursion_desired,
                recursion_available,
                response_code,
            ) == w ^ (1u16 << RECURSION_DESIRED_SHIFT)
            &&& word(
                message_type,
                opcode,
                authoritative,
                truncated,
                recursion_desired,
                !recursion_available,
                response_code,
            ) == w ^ (1u16 << RECURSION_AVAILABLE_SHIFT)
        }),
{
}

/// Turning exactly one of the four switches over changes exactly one bit of
/// the word, the switch's own, and leaves the fifteen others as they were.
pub proof fn lemma_switch_flips_one_bit(flags: Flags)
    ensures
        (Flags { authoritative: !flags.authoritative, ..flags }).get_bits()
            == flags.get_bits() ^ (1u16 << AUTHORITATIVE_SHIFT),
        (Flags { truncated: !flags.truncated, ..flags }).get_bits()
            == flags.get_bits() ^ (1u16 << TRUNCATED_SHIFT),
        (Flags { recursion_desired: !flags.recursion_desired, ..flags }).get_bits()
            == flags.get_bits() ^ (1u16 << RECURSION_DESIRED_SHIFT),
        (Flags { recursion_available: !flags.recursion_available, ..flags }).get_bits()
            == flags.get_bits() ^ (1u16 << RECURSION_AVAILABLE_SHIFT),
{
    lemma_word_switches(
        flags.message_type.to_u16(),
        flags.opcode.to_u16(),
        flags.authoritative,
        flags.truncated,
        flags.recursion_desired,
        flags.recursion_available,
        flags.response_code.to_u16(),
    );
}

/// Two words whose fields differ in one place at most agree outside that
/// field's bits.
proof fn lemma_word_change(
    message_type: u16,
    new_message_type: u16,
    opcode: u16,
    new_opcode: u16,
    authoritative: bool,
    truncated: bool,
    recursion_desired: bool,
    recursion_available: bool,
    response_code: u16,
    new_response_code: u16,
)
    by (bit_vector)
    requires
        message_type <= 1,
        new_message_type <= 1,
        opcode <= 15,
        new_opcode <= 15,
        response_code <= 15,
        new_response_code <= 15,
    ensures
        ({
            let w = word(
                message_type,
                opcode,
                authoritative,
                truncated,
                recursion_desired,
                recursion_available,
                response_code,
            );
            &&& word(
                new_message_type,
                opcode,
                authoritative,
                truncated,
                recursion_desired,
                recursion_available,
                response_code,
            ) & !MESSAGE_TYPE_MASK == w & !MESSAGE_TYPE_MASK
            &&& word(
                message_type,
                new_opcode,
                authoritative,
                truncated,
                recursion_desired,
                recursion_available,
                response_code,
            ) & !OPCODE_MASK == w & !OPCODE_MASK
            &&& word(
                message_type,
                opcode,
                authoritative,
                truncated,
                recursion_desired,
                recursion_available,
                new_response_code,
            ) & !RESPONSE_CODE_MASK == w & !RESPONSE_CODE_MASK
        }),
{
}

/// Another message type changes no bit but the highest.
pub proof fn lemma_message_type_stays_in_field(flags: Flags, message_type: MessageType)
    ensures
        (Flags { message_type, ..flags }).get_bits() & !MESSAGE_TYPE_MASK
            == flags.get_bits() & !MESSAGE_TYPE_MASK,
{
    lemma_word_change(
        flags.message_type.to_u16(),
        message_type.to_u16(),
        flags.opcode.to_u16(),
        flags.opcode.to_u16(),
        flags.authoritative,
        flags.truncated,
        flags.recursion_desired,
        flags.recursion_available,
        flags.response_code.to_u16(),
        flags.response_code.to_u16(),
    );
}

/// Another opcode changes no bit outside bits 14 to 11.
pub proof fn lemma_opcode_stays_in_field(flags: Flags, opcode: Opcode)
    ensures
        (Flags { opcode, ..flags }).get_bits() & !OPCODE_MASK
            == flags.get_bits() & !OPCODE_MASK,
{
    lemma_word_change(
        flags.message_type.to_u16(),
        flags.message_type.to_u16(),
        flags.opcode.to_u16(),
        opcode.to_u16(),
        flags.authoritative,
        flags.truncated,
        flags.recursion_desired,
        flags.recursion_available,
        flags.response_code.to_u16(),
        flags.response_code.to_u16(),
    );
}

/// Another response code changes no bit outside bits 3 to 0.
pub proof fn lemma_response_code_stays_in_field(flags: Flags, response_code: ResponseCode)
    ensures
        (Flags { response_code, ..flags }).get_bits() & !RESPONSE_CODE_MASK
            == flags.get_bits() & !RESPONSE_CODE_MASK,
{
    lemma_word_change(
        flags.message_type.to_u16(),
        flags.message_type.to_u16(),
        flags.opcode.to_u16(),
        flags.opcode.to_u16(),
        flags.authoritative,
        flags.truncated,
        flags.recursion_desired,
        flags.recursion_available,
        flags.response_code.to_u16(),
        response_code.to_u16(),
    );
}

} // verus!
