use vstd::prelude::*;

use crate::spi::SpiTransfer;

verus! {

/// Simulated clock period of the design, in nanoseconds.
pub const NANOS_PER_CLK: u32 = 20;

/// Opcode of a register read, in the top nibble of the command word.
pub const OP_READ: u32 = 0x10000000;

/// Opcode of a register write, in the top nibble of the command word.
pub const OP_WRITE: u32 = 0x20000000;

/// Register address of the integration-time register.
pub const REG_INTEGRATION_TIME: usize = 0x101;

/// Register address of the control register whose lowest bit starts a
/// measurement.
pub const REG_CONTROL: usize = 0x100;

/// A measurement-calibration setup error.
#[derive(Clone, Copy, Debug, PartialEq, Eq, Structural)]
pub enum MeasurementError {
    CalSetupError,
}

/// The raw counts of one multi-slope measurement.
#[derive(Clone, Copy, Debug, PartialEq, Eq, Structural)]
pub struct MeasResult {
    pub run_up: u32,
    pub run_up_add: u32,
    pub run_up_sub: u32,
    pub run_down: u32,
    pub remainder: i16,
}

impl MeasResult {
    /// The asymmetry between the two reference polarities can be
    /// calibrated only from a measurement taken in dual-slope mode, which
    /// performs no run-up add or subtract cycles; any such cycle in the
    /// counts means the calibration was set up wrongly.
    pub fn asymmetry_cal_valid(&self) -> (r: bool)
        ensures
            r == (self.run_up_add == 0 && self.run_up_sub == 0),
    {
        self.run_up_add == 0 && self.run_up_sub == 0
    }
}

/// A transfer-layer failure underneath the register protocol.
#[derive(Clone, Copy, Debug, PartialEq, Eq)]
pub enum Error<E> {
    Other(E),
}

/// The input multiplexer selection of the measurement front end.
#[derive(Clone, Copy, Debug, PartialEq, Eq, Structural)]
pub enum InputMux {
    Vin,
    Vref,
    Zero,
}

impl InputMux {
    /// The selection code the register protocol uses for each input.
    pub fn code(self) -> (r: u8)
        ensures
            r == (match self {
                InputMux::Vin => 0x01u8,
                InputMux::Vref => 0x02u8,
                InputMux::Zero => 0x03u8,
            }),
    {
        match self {
            InputMux::Vin => 0x01,
            InputMux::Vref => 0x02,
            InputMux::Zero => 0x03,
        }
    }
}

/// The measurement mode: one run-up and one run-down, or multiple run-up
/// cycles before the run-down.
#[derive(Clone, Copy, Debug, PartialEq, Eq, Structural)]
pub enum SlopeMode {
    DualSlope,
    Multislope,
}

impl SlopeMode {
    /// The mode code the register protocol uses.
    pub fn code(self) -> (r: u8)
        ensures
            r == (match self {
                SlopeMode::DualSlope => 0x0u8,
                SlopeMode::Multislope => 0x1u8,
            }),
    {
        match self {
            SlopeMode::DualSlope => 0x0,
            SlopeMode::Multislope => 0x1,
        }
    }
}

/// The four bytes of `n` in big-endian (network) order.
pub open spec fn spec_be_bytes(n: u32) -> Seq<u8> {
    seq![(n >> 24) as u8, ((n >> 16) & 0xff) as u8, ((n >> 8) & 0xff) as u8, (n & 0xff) as u8]
}

/// The unsigned value of four big-endian bytes.
pub open spec fn spec_be_u32(s: Seq<u8>) -> u32
    recommends
        s.len() == 4,
{
    (((s[0] as u32) << 24) | (((s[1] as u32) << 16) | (((s[2] as u32) << 8) | (s[3] as u32))))
}

/// Relies on byteorder's NetworkEndian::write_u32: the word is laid out as
/// its four bytes in big-endian order.
#[verifier::external_body]
fn u32_to_be_bytes(n: u32) -> (r: Vec<u8>)
    ensures
        r@ == spec_be_bytes(n),
{
    let mut buf = [0u8; 4];
    <byteorder::NetworkEndian as byteorder::ByteOrder>::write_u32(&mut buf, n);
    buf.to_vec()
}

/// Relies on byteorder's NetworkEndian::read_u32: the four bytes are read
/// as one big-endian word.
#[verifier::external_body]
fn u32_from_be_bytes(b: &Vec<u8>) -> (r: u32)
    requires
        b@.len() == 4,
    ensures
        r == spec_be_u32(b@),
{
    <byteorder::NetworkEndian as byteorder::ByteOrder>::read_u32(b.as_slice())
}

/// The register address bits of a command word: the address truncated to
/// the lower 28 bits, below the opcode nibble.
pub open spec fn spec_addr_bits(addr: usize) -> u32 {
    (addr & 0x0fffffff) as u32
}

/// The nine-byte frame of a register read: the read command word, then
/// five idle bytes during which the design shifts the register value out
/// into the frame's last four bytes.
pub open spec fn spec_read_request(addr: usize) -> Seq<u8> {
    spec_be_bytes(OP_READ | spec_addr_bits(addr)) + seq![0u8, 0u8, 0u8, 0u8, 0u8]
}

/// The nine-byte frame of a register write: the write command word, the
/// value in big-endian order, and one trailing idle byte.
pub open spec fn spec_write_request(addr: usize, word: u32) -> Seq<u8> {
    spec_be_bytes(OP_WRITE | spec_addr_bits(addr)) + spec_be_bytes(word) + seq![0u8]
}

/// Builds the nine-byte read frame for a register address.
pub fn encode_read_request(addr: usize) -> (r: Vec<u8>)
    ensures
        r@ == spec_read_request(addr),
{
    let cmd = OP_READ | ((addr & 0x0fffffff) as u32);
    let mut frame = u32_to_be_bytes(cmd);
    let mut x: usize = 0;
    while x < 5
        invariant
            x <= 5,
            frame@.len() == 4 + x,
            frame@.take(4) == spec_be_bytes(OP_READ | spec_addr_bits(addr)),
            forall|i: int| 4 <= i < frame@.len() ==> frame@[i] == 0u8,
        decreases 5 - x,
    {
        frame.push(0);
        x += 1;
    }
    proof {
        assert(frame@ =~= spec_read_request(addr));
    }
    frame
}

/// Builds the nine-byte write frame for a register address and value.
pub fn encode_write_request(addr: usize, word: u32) -> (r: Vec<u8>)
    ensures
        r@ == spec_write_request(addr, word),
{
    let cmd = OP_WRITE | ((addr & 0x0fffffff) as u32);
    let mut frame = u32_to_be_bytes(cmd);
    let mut value = u32_to_be_bytes(word);
    frame.append(&mut value);
    frame.push(0);
    proof {
        assert(frame@ =~= spec_write_request(addr, word));
    }
    frame
}

/// Reads the register value out of an exchanged read frame: the word the
/// design shifted into the last four bytes, in big-endian order.
pub fn decode_read_reply(frame: &Vec<u8>) -> (r: u32)
    requires
        frame@.len() == 9,
    ensures
        r == spec_be_u32(frame@.subrange(5, 9)),
{
    let mut word: Vec<u8> = Vec::new();
    word.push(frame[5]);
    word.push(frame[6]);
    word.push(frame[7]);
    word.push(frame[8]);
    proof {
        assert(word@ =~= frame@.subrange(5, 9));
    }
    u32_from_be_bytes(&word)
}

/// The integration time in clock cycles that a nanosecond request rounds
/// down to, after the request is truncated to the 32-bit range the
/// register holds.
pub open spec fn spec_integration_clks(intg_nanos: u64) -> u32 {
    (intg_nanos as u32) / NANOS_PER_CLK
}

/// The register access of a multi-slope measurement front end, shared by
/// every transport to the design.
pub trait AbstractMultiSlopeAdc {
    type OtherError;

    fn read_word(&mut self, addr: usize) -> Result<u32, Error<Self::OtherError>>;

    fn write_word(&mut self, addr: usize, word: u32) -> Result<(), Error<Self::OtherError>>;

    /// Sets the integration time, rounding the nanosecond request down to
    /// a whole number of design clock cycles; on success the programmed
    /// cycle count is returned.
    fn set_integration_time(&mut self, intg_nanos: u64) -> (r: Result<
        u32,
        Error<Self::OtherError>,
    >)
        ensures
            r is Ok ==> r->Ok_0 == spec_integration_clks(intg_nanos),
    {
        let clks = ((intg_nanos % 0x100000000) as u32) / NANOS_PER_CLK;
        proof {
            assert(intg_nanos % 0x100000000 == (intg_nanos as u32)) by (bit_vector);
        }
        self.write_word(REG_INTEGRATION_TIME, clks)?;
        Ok(clks)
    }

    /// Starts one measurement by raising the control register's start bit.
    fn start(&mut self, input: InputMux, mode: SlopeMode) -> (r: Result<(), Error<Self::OtherError>>) {
        self.write_word(REG_CONTROL, 0x00000001)?;
        Ok(())
    }
}

/// The design reached through a serial-to-register-bus bridge: every
/// register access is one nine-byte full-duplex serial frame.
pub struct SpiMultiSlopeAdc<SPI> {
    dev: SPI,
}

impl<SPI> SpiMultiSlopeAdc<SPI> {
    /// The transport this driver owns.
    pub closed spec fn spec_dev(self) -> SPI {
        self.dev
    }

    /// Builds the driver over the given transport. Construction only takes
    /// ownership of the transport; no register access happens yet.
    pub fn new(spi: SPI) -> (r: Self)
        ensures
            r.spec_dev() == spi,
    {
        SpiMultiSlopeAdc { dev: spi }
    }
}

impl<SPI: SpiTransfer> AbstractMultiSlopeAdc for SpiMultiSlopeAdc<SPI> {
    type OtherError = SPI::TransferError;

    /// Exchanges a read frame and returns the word the design shifted into
    /// its tail, or the transport's error.
    fn read_word(&mut self, addr: usize) -> (r: Result<u32, Error<SPI::TransferError>>) {
        let mut frame = encode_read_request(addr);
        match self.dev.transfer(&mut frame) {
            Err(e) => Err(Error::Other(e)),
            Ok(()) => Ok(decode_read_reply(&frame)),
        }
    }

    /// Exchanges a write frame, or returns the transport's error.
    fn write_word(&mut self, addr: usize, word: u32) -> (r: Result<(), Error<SPI::TransferError>>) {
        let mut frame = encode_write_request(addr, word);
        match self.dev.transfer(&mut frame) {
            Err(e) => Err(Error::Other(e)),
            Ok(()) => Ok(()),
        }
    }
}

/// The design mapped directly into the address space at `BASE_ADDR`.
/// Raw memory-mapped access cannot be built safely here, so this transport
/// carries no constructor in this crate.
pub struct DirectMultiSlopeAdc<const BASE_ADDR: usize>;

} // verus!
