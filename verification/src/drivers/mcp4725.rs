//! Wire encoding for the MCP4725, a 12-bit digital-to-analog converter on an
//! I2C bus.
//!
//! The driver owns the chip's bus address and builds the writes that load its
//! output register. It does not touch the bus: each method returns the write
//! for the caller to hand to its transport.

use vstd::prelude::*;

verus! {

/// The largest code the converter's register holds.
pub const DAC_MAX: u16 = 4095;

/// The command byte that opens a standard write of the output register.
pub const WRITE_DAC_COMMAND: u8 = 0x40;

/// One MCP4725 on the bus.
#[derive(Clone, Copy, Debug, PartialEq, Eq, Structural)]
pub struct MCP4725 {
    address: u8,
}

/// One write on the bus: the chip to address and the bytes to send to it.
#[derive(Clone, Debug, PartialEq, Eq)]
pub struct I2cWrite {
    pub address: u8,
    pub bytes: Vec<u8>,
}

/// The first data byte of a code: bits 4 to 11.
pub open spec fn upper_data_byte(code: u16) -> u8 {
    ((code as int / 16) % 256) as u8
}

/// The second data byte of a code: bits 0 to 3 in the high nibble, the low
/// nibble zero.
pub open spec fn lower_data_byte(code: u16) -> u8 {
    ((code as int % 16) * 16) as u8
}

/// The bytes of a fast write.
pub open spec fn fast_frame(code: u16) -> Seq<u8> {
    seq![upper_data_byte(code), lower_data_byte(code)]
}

/// The bytes of a standard write.
pub open spec fn standard_frame(code: u16) -> Seq<u8> {
    seq![WRITE_DAC_COMMAND, upper_data_byte(code), lower_data_byte(code)]
}

/// The code that the two data bytes of a frame carry.
pub open spec fn code_of_data_bytes(upper: u8, lower: u8) -> int {
    upper as int * 16 + lower as int / 16
}

impl MCP4725 {
    /// The bus address of the chip.
    pub closed spec fn spec_address(&self) -> u8 {
        self.address
    }

    pub fn new(address: u8) -> (dac: Self)
        ensures
            dac.spec_address() == address,
    {
        MCP4725 { address }
    }

    #[verifier::when_used_as_spec(spec_address)]
    pub fn address(&self) -> (address: u8)
        ensures
            address == self.spec_address(),
    {
        self.address
    }

    /// Builds the fast write of `input_code`: its two data bytes.
    pub fn write_dac_register_fast(&self, input_code: u16) -> (write: I2cWrite)
        ensures
            write.address == self.spec_address(),
            write.bytes@ == fast_frame(input_code),
    {
        let (upper, lower) = data_bytes(input_code);
        let mut bytes: Vec<u8> = Vec::with_capacity(2);
        bytes.push(upper);
        bytes.push(lower);
        I2cWrite { address: self.address, bytes }
    }

    /// Builds the standard write of `input_code`: the command byte, then the
    /// two data bytes of the fast write.
    pub fn write_dac_register(&self, input_code: u16) -> (write: I2cWrite)
        ensures
            write.address == self.spec_address(),
            write.bytes@ == standard_frame(input_code),
            write.bytes@.len() == 3,
            write.bytes@[0] == WRITE_DAC_COMMAND,
    {
        let (upper, lower) = data_bytes(input_code);
        let mut bytes: Vec<u8> = Vec::with_capacity(3);
        bytes.push(WRITE_DAC_COMMAND);
        bytes.push(upper);
        bytes.push(lower);
        I2cWrite { address: self.address, bytes }
    }
}

/// Splits a code into its two data bytes.
fn data_bytes(code: u16) -> (bytes: (u8, u8))
    ensures
        bytes.0 == upper_data_byte(code),
        bytes.1 == lower_data_byte(code),
{
    let upper: u8 = ((code >> 4) & 0xff) as u8;
    let lower: u8 = ((code & 0x0f) << 4) as u8;
    assert((code >> 4) & 0xff == (code / 16) % 256) by (bit_vector);
    assert((code & 0x0f) << 4 == (code % 16) * 16) by (bit_vector);
    (upper, lower)
}

/// A fast write loses nothing of a 12-bit code: the code is read back from
/// the two bytes sent.
pub proof fn lemma_fast_frame_round_trip(code: u16)
    requires
        code <= DAC_MAX,
    ensures
        fast_frame(code).len() == 2,
        code_of_data_bytes(fast_frame(code)[0], fast_frame(code)[1]) == code,
{
}

/// A standard write is three bytes long and opens with the command byte,
/// whatever the code.
pub proof fn lemma_standard_frame_shape(code: u16)
    ensures
        standard_frame(code).len() == 3,
        standard_frame(code)[0] == WRITE_DAC_COMMAND,
        standard_frame(code).subrange(1, 3) == fast_frame(code),
{
}

} // verus!
