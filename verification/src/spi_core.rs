//! Byte-level register protocol of the sensor's serial bus.
//!
//! The bus is half duplex and register addressed. Every transaction starts
//! with an address byte whose top bit selects the mode: clear for a write,
//! set for a read. A read clocks out one dummy byte before valid data
//! appears, so the response to a read of `n` registers is `n + 1` bytes long
//! and its first byte carries nothing.
//!
//! Nothing here touches a transport. Each operation is split into the frame
//! to transmit and the decoding of what came back; the caller moves the bytes.

use vstd::prelude::*;

verus! {

/// Bit of the address byte that selects read mode.
pub const READ_FLAG: u8 = 0x80;

/// Bits of the address byte that carry the register address.
pub const ADDRESS_MASK: u8 = 0x7F;

/// Number of data bytes in a three-axis sample: a high and a low byte per axis.
pub const TRIPLET_BYTES: usize = 6;

/// A logical register address leaves the mode bit clear.
pub open spec fn is_register_address(reg: u8) -> bool {
    reg < READ_FLAG
}

/// Address byte of a write transaction: the register with the mode bit clear.
pub open spec fn write_address(reg: u8) -> u8 {
    reg & ADDRESS_MASK
}

/// Address byte of a read transaction: the register with the mode bit set.
pub open spec fn read_address(reg: u8) -> u8 {
    reg | READ_FLAG
}

/// The two bytes that write `value` to `reg`.
pub open spec fn write_frame(reg: u8, value: u8) -> Seq<u8> {
    seq![write_address(reg), value]
}

/// The two bytes that read `reg`: the address byte and one dummy byte.
pub open spec fn read_frame(reg: u8) -> Seq<u8> {
    seq![read_address(reg), 0u8]
}

/// The `length + 1` bytes that read `length` registers starting at
/// `start_reg` in one transaction: the address byte, then zeros.
pub open spec fn burst_frame(start_reg: u8, length: nat) -> Seq<u8> {
    Seq::new(
        length + 1,
        |i: int|
            if i == 0 {
                read_address(start_reg)
            } else {
                0u8
            },
    )
}

/// The data of a read response: everything after the leading dummy byte.
pub open spec fn payload(response: Seq<u8>) -> Seq<u8> {
    response.skip(1)
}

/// Big-endian combination of two bytes into a signed 16-bit quantity.
pub open spec fn combine(high: u8, low: u8) -> int {
    let unsigned = high as int * 256 + low as int;
    if unsigned >= 0x8000 {
        unsigned - 0x1_0000
    } else {
        unsigned
    }
}

/// The three big-endian values held by six data bytes.
pub open spec fn combine_triplet(data: Seq<u8>) -> Seq<int> {
    seq![combine(data[0], data[1]), combine(data[2], data[3]), combine(data[4], data[5])]
}

/// The write address never carries the mode bit and the read address always
/// does; a logical register address passes through both unchanged in its low
/// seven bits.
pub proof fn lemma_mode_bit(reg: u8)
    ensures
        write_address(reg) & READ_FLAG == 0,
        read_address(reg) & READ_FLAG == READ_FLAG,
        read_address(reg) & ADDRESS_MASK == write_address(reg),
        is_register_address(reg) ==> write_address(reg) == reg,
{
    assert((reg & 0x7Fu8) & 0x80u8 == 0u8) by (bit_vector);
    assert((reg | 0x80u8) & 0x80u8 == 0x80u8) by (bit_vector);
    assert((reg | 0x80u8) & 0x7Fu8 == reg & 0x7Fu8) by (bit_vector);
    assert(reg < 0x80u8 ==> reg & 0x7Fu8 == reg) by (bit_vector);
}

/// A combined value lies in the signed 16-bit range, and it is negative
/// exactly when the top bit of the high byte is set.
pub proof fn lemma_combine_range(high: u8, low: u8)
    ensures
        -0x8000 <= combine(high, low) < 0x8000,
        combine(high, low) >= 0 <==> high < 0x80,
{
}

/// Big-endian combination of two bytes into a signed 16-bit value.
pub fn combine_bytes(high: u8, low: u8) -> (value: i16)
    ensures
        value as int == combine(high, low),
{
    let word: u16 = ((high as u16) << 8) | (low as u16);
    let value: i16 = word as i16;
    assert(word as int == high as int * 256 + low as int) by (bit_vector)
        requires
            word == ((high as u16) << 8) | (low as u16),
    ;
    assert(value as int == if word >= 0x8000u16 {
        word as int - 0x1_0000
    } else {
        word as int
    }) by (bit_vector)
        requires
            value == word as i16,
    ;
    value
}

/// The register protocol codec.
///
/// It holds no bus: it says what to transmit and what a response means.
#[derive(Clone, Copy, Debug)]
pub struct SpiCore {}

impl SpiCore {
    /// The codec. It has no state: any two behave alike.
    pub fn new() -> (core: Self) {
        SpiCore {  }
    }

    /// The frame that writes `value` to register `reg`: `[reg & 0x7F, value]`.
    /// Its address byte never carries the mode bit.
    pub fn write_register(&self, reg: u8, value: u8) -> (frame: [u8; 2])
        ensures
            frame@ == write_frame(reg, value),
            frame@[0] & READ_FLAG == 0,
            frame@[1] == value,
    {
        proof {
            lemma_mode_bit(reg);
        }
        let frame: [u8; 2] = [reg & ADDRESS_MASK, value];
        assert(frame@ =~= write_frame(reg, value));
        frame
    }

    /// The frame that reads register `reg`: `[reg | 0x80, 0x00]`. Its address
    /// byte always carries the mode bit.
    pub fn read_register_request(&self, reg: u8) -> (frame: [u8; 2])
        ensures
            frame@ == read_frame(reg),
            frame@[0] & READ_FLAG == READ_FLAG,
    {
        proof {
            lemma_mode_bit(reg);
        }
        let frame: [u8; 2] = [reg | READ_FLAG, 0];
        assert(frame@ =~= read_frame(reg));
        frame
    }

    /// The register value in the response to a single-register read: the
    /// second byte received.
    pub fn read_register(&self, response: &[u8; 2]) -> (value: u8)
        ensures
            value == response@[1],
            seq![value] == payload(response@),
    {
        assert(payload(response@) =~= seq![response@[1]]);
        response[1]
    }

    /// The signed 16-bit value held by two registers, from the responses to
    /// the reads of the high and of the low register.
    pub fn read_16bit_register(&self, high_response: &[u8; 2], low_response: &[u8; 2]) -> (value:
        i16)
        ensures
            value as int == combine(high_response@[1], low_response@[1]),
    {
        let high = self.read_register(high_response);
        let low = self.read_register(low_response);
        combine_bytes(high, low)
    }

    /// The frame of one transaction that reads `length` consecutive
    /// registers starting at `start_reg`.
    pub fn burst_read_request(&self, start_reg: u8, length: usize) -> (frame: Vec<u8>)
        requires
            length < usize::MAX,
        ensures
            frame@ == burst_frame(start_reg, length as nat),
            frame@.len() == length + 1,
            frame@[0] & READ_FLAG == READ_FLAG,
    {
        proof {
            lemma_mode_bit(start_reg);
        }
        let mut frame: Vec<u8> = Vec::new();
        frame.push(start_reg | READ_FLAG);
        let mut filled: usize = 0;
        while filled < length
            invariant
                filled <= length < usize::MAX,
                frame@.len() == filled + 1,
                frame@[0] == read_address(start_reg),
                forall|i: int| 1 <= i < frame@.len() ==> frame@[i] == 0u8,
            decreases length - filled,
        {
            frame.push(0);
            filled = filled + 1;
        }
        assert(frame@ =~= burst_frame(start_reg, length as nat));
        frame
    }

    /// The register values in the response to a burst read: the response
    /// without its leading dummy byte. A response that lacks even the dummy
    /// byte holds no data.
    pub fn burst_read(&self, response: &[u8]) -> (data: Option<Vec<u8>>)
        ensures
            data is Some <==> response@.len() >= 1,
            data matches Some(bytes) ==> bytes@ == payload(response@),
    {
        if response.len() == 0 {
            return None;
        }
        let mut bytes: Vec<u8> = Vec::new();
        let mut next: usize = 1;
        while next < response.len()
            invariant
                1 <= next <= response@.len(),
                bytes@.len() == next - 1,
                forall|i: int| 0 <= i < bytes@.len() ==> bytes@[i] == response@[i + 1],
            decreases response@.len() - next,
        {
            bytes.push(response[next]);
            next = next + 1;
        }
        assert(bytes@ =~= payload(response@));
        Some(bytes)
    }

    /// The frame of the burst read that fetches one three-axis sample whose
    /// first register is `start_reg`.
    pub fn burst_read_combine_request(&self, start_reg: u8) -> (frame: [u8; 7])
        ensures
            frame@ == burst_frame(start_reg, TRIPLET_BYTES as nat),
            frame@[0] & READ_FLAG == READ_FLAG,
    {
        proof {
            lemma_mode_bit(start_reg);
        }
        let frame: [u8; 7] = [start_reg | READ_FLAG, 0, 0, 0, 0, 0, 0];
        assert(frame@ =~= burst_frame(start_reg, TRIPLET_BYTES as nat));
        frame
    }

    /// The three signed values of one sample, from the response to its burst
    /// read: each pair of data bytes combined big-endian, in x, y, z order.
    pub fn burst_read_combine(&self, response: &[u8; 7]) -> (sample: [i16; 3])
        ensures
            sample@.len() == 3,
            sample@.map_values(|v: i16| v as int) == combine_triplet(payload(response@)),
            sample@[0] as int == combine(response@[1], response@[2]),
            sample@[1] as int == combine(response@[3], response@[4]),
            sample@[2] as int == combine(response@[5], response@[6]),
    {
        let x = combine_bytes(response[1], response[2]);
        let y = combine_bytes(response[3], response[4]);
        let z = combine_bytes(response[5], response[6]);
        let sample: [i16; 3] = [x, y, z];
        assert(sample@.map_values(|v: i16| v as int) =~= combine_triplet(payload(response@)));
        sample
    }
}

} // verus!
