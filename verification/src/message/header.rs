//! The flags word of a DNS message header (RFC 1035, section 4.1.1).
//!
//! ```text
//!   15  14  13  12  11  10   9   8   7   6   5   4   3   2   1   0
//! +---+---+---+---+---+---+---+---+---+---+---+---+---+---+---+---+
//! |QR |    Opcode     |AA |TC |RD |RA |     Z     |     RCODE     |
//! +---+---+---+---+---+---+---+---+---+---+---+---+---+---+---+---+
//! ```

use vstd::prelude::*;

verus! {

/// How far from the right each field starts within the 16 bits.
pub const MESSAGE_TYPE_SHIFT: usize = 15;

pub const OPCODE_SHIFT: usize = 11;

pub const AUTHORITATIVE_SHIFT: usize = 10;

pub const TRUNCATED_SHIFT: usize = 9;

pub const RECURSION_DESIRED_SHIFT: usize = 8;

pub const RECURSION_AVAILABLE_SHIFT: usize = 7;

/// The bits of each field.
pub const MESSAGE_TYPE_MASK: u16 = 0b1000_0000_0000_0000;

pub const OPCODE_MASK: u16 = 0b0111_1000_0000_0000;

pub const AUTHORITATIVE_MASK: u16 = 0b0000_0100_0000_0000;

pub const TRUNCATED_MASK: u16 = 0b0000_0010_0000_0000;

pub const RECURSION_DESIRED_MASK: u16 = 0b0000_0001_0000_0000;

pub const RECURSION_AVAILABLE_MASK: u16 = 0b0000_0000_1000_0000;

pub const RESPONSE_CODE_MASK: u16 = 0b0000_0000_0000_1111;

/// Keeps every bit but the three of Z, which are held for future use and
/// travel as zero.
pub const Z_MASK: u16 = 0b1111_1111_1000_1111;

/// Whether a message asks or answers.
#[derive(Clone, Copy, Debug, PartialEq, Eq, Structural)]
pub enum MessageType {
    Query,
    Response,
}

/// The kind of query a message carries.
#[derive(Clone, Copy, Debug, PartialEq, Eq, Structural)]
pub enum Opcode {
    /// Standard query
    Query,
    /// Inverse query
    IQuery,
    /// Server status request
    Status,
}

/// How a query ended.
#[derive(Clone, Copy, Debug, PartialEq, Eq, Structural)]
pub enum ResponseCode {
    NoError,
    FormErr,
    ServFail,
    NXDomain,
    NotImp,
    Refused,
}

impl MessageType {
    /// The number that stands for this variant on the wire.
    pub open spec fn spec_to_u16(self) -> u16 {
        match self {
            MessageType::Query => 0,
            MessageType::Response => 1,
        }
    }

    /// The number that stands for this variant on the wire.
    #[verifier::when_used_as_spec(spec_to_u16)]
    pub fn to_u16(self) -> (value: u16)
        ensures
            value == self.spec_to_u16(),
    {
        match self {
            MessageType::Query => 0,
            MessageType::Response => 1,
        }
    }
}

impl Opcode {
    /// The number that stands for this variant on the wire.
    pub open spec fn spec_to_u16(self) -> u16 {
        match self {
            Opcode::Query => 0,
            Opcode::IQuery => 1,
            Opcode::Status => 2,
        }
    }

    /// The number that stands for this variant on the wire.
    #[verifier::when_used_as_spec(spec_to_u16)]
    pub fn to_u16(self) -> (value: u16)
        ensures
            value == self.spec_to_u16(),
    {
        match self {
            Opcode::Query => 0,
            Opcode::IQuery => 1,
            Opcode::Status => 2,
        }
    }
}

impl ResponseCode {
    /// The number that stands for this variant on the wire.
    pub open spec fn spec_to_u16(self) -> u16 {
        match self {
            ResponseCode::NoError => 0,
            ResponseCode::FormErr => 1,
            ResponseCode::ServFail => 2,
            ResponseCode::NXDomain => 3,
            ResponseCode::NotImp => 4,
            ResponseCode::Refused => 5,
        }
    }

    /// The number that stands for this variant on the wire.
    #[verifier::when_used_as_spec(spec_to_u16)]
    pub fn to_u16(self) -> (value: u16)
        ensures
            value == self.spec_to_u16(),
    {
        match self {
            ResponseCode::NoError => 0,
            ResponseCode::FormErr => 1,
            ResponseCode::ServFail => 2,
            ResponseCode::NXDomain => 3,
            ResponseCode::NotImp => 4,
            ResponseCode::Refused => 5,
        }
    }
}

/// The flags of one message, field by field.
#[derive(Clone, Copy, Debug, PartialEq, Eq, Structural)]
pub struct Flags {
    /// 1 bit: is this message a query or a response?
    pub message_type: MessageType,
    /// 4 bits: the kind of query in this message.
    pub opcode: Opcode,
    /// 1 bit: the answer comes from an authority for the name asked about.
    /// Only meaningful in responses.
    pub authoritative: bool,
    /// 1 bit: the message was cut short because of its length.
    pub truncated: bool,
    /// 1 bit: set in a query to ask the server to resolve recursively, and
    /// copied into the response.
    pub recursion_desired: bool,
    /// 1 bit: set in a response by a server that resolves recursively.
    pub recursion_available: bool,
    /// 4 bits: the outcome of the query.
    pub response_code: ResponseCode,
}

/// What a message header starts with.
#[derive(Clone, Copy, Debug, PartialEq, Eq, Structural)]
pub struct Header {
    /// Chosen by whoever asks and echoed by the server, so that an answer
    /// finds its question.
    pub id: u16,
    pub flags: Flags,
}

/// The number a single-bit field adds before it is moved to its place.
pub open spec fn bit(set: bool) -> u16 {
    if set {
        1
    } else {
        0
    }
}

/// The word that holds the seven fields at their places, as a sum: each
/// field times the weight of its lowest bit. It is meant for fields that fit
/// their widths.
pub open spec fn word(
    message_type: u16,
    opcode: u16,
    authoritative: bool,
    truncated: bool,
    recursion_desired: bool,
    recursion_available: bool,
    response_code: u16,
) -> u16
    recommends
        message_type <= 1,
        opcode <= 15,
        response_code <= 15,
{
    (message_type * 0x8000
        + opcode * 0x0800
        + bit(authoritative) * 0x0400
        + bit(truncated) * 0x0200
        + bit(recursion_desired) * 0x0100
        + bit(recursion_available) * 0x0080
        + response_code) as u16
}

/// Assembling the word by shifts and ors, clearing Z before the response
/// code goes in, gives the sum of the weighted fields, and leaves Z zero.
proof fn lemma_assembled_word(
    message_type: u16,
    opcode: u16,
    authoritative: bool,
    truncated: bool,
    recursion_desired: bool,
    recursion_available: bool,
    response_code: u16,
)
    by (bit_vector)
    requires
        message_type <= 1,
        opcode <= 15,
        response_code <= 15,
    ensures
        ({
            let b0 = 0u16 | (message_type << MESSAGE_TYPE_SHIFT);
            let b1 = b0 | (opcode << OPCODE_SHIFT);
            let b2 = if authoritative { b1 | (1u16 << AUTHORITATIVE_SHIFT) } else { b1 };
            let b3 = if truncated { b2 | (1u16 << TRUNCATED_SHIFT) } else { b2 };
            let b4 = if recursion_desired { b3 | (1u16 << RECURSION_DESIRED_SHIFT) } else { b3 };
            let b5 = if recursion_available {
                b4 | (1u16 << RECURSION_AVAILABLE_SHIFT)
            } else {
                b4
            };
            (b5 & Z_MASK) | response_code
        }) == word(
            message_type,
            opcode,
            authoritative,
            truncated,
            recursion_desired,
            recursion_available,
            response_code,
        ),
        word(
            message_type,
            opcode,
            authoritative,
            truncated,
            recursion_desired,
            recursion_available,
            response_code,
        ) & !Z_MASK == 0,
{
}

impl Flags {
    /// The 16 bits that stand for these flags on the wire.
    pub open spec fn spec_get_bits(&self) -> u16 {
        word(
            self.message_type.to_u16(),
            self.opcode.to_u16(),
            self.authoritative,
            self.truncated,
            self.recursion_desired,
            self.recursion_available,
            self.response_code.to_u16(),
        )
    }

    /// Packs the flags into their 16 bits, each field at its place and Z
    /// zero. Bit 15 is the one to be sent first.
    #[verifier::when_used_as_spec(spec_get_bits)]
    pub fn get_bits(&self) -> (bits: u16)
        ensures
            bits == self.spec_get_bits(),
            bits & !Z_MASK == 0,
    {
        let mut bits: u16 = 0;
        bits |= self.message_type.to_u16() << MESSAGE_TYPE_SHIFT;
        bits |= self.opcode.to_u16() << OPCODE_SHIFT;
        if self.authoritative {
            bits |= 1 << AUTHORITATIVE_SHIFT;
        }
        if self.truncated {
            bits |= 1 << TRUNCATED_SHIFT;
        }
        if self.recursion_desired {
            bits |= 1 << RECURSION_DESIRED_SHIFT;
        }
        if self.recursion_available {
            bits |= 1 << RECURSION_AVAILABLE_SHIFT;
        }
        bits &= Z_MASK;
        bits |= self.response_code.to_u16();
        proof {
            lemma_assembled_word(
                self.message_type.to_u16(),
                self.opcode.to_u16(),
                self.authoritative,
                self.truncated,
                self.recursion_desired,
                self.recursion_available,
                self.response_code.to_u16(),
            );
        }
        bits
    }
}

} // verus!
