//! Bit encoding for an addressable LED strip driven over a serial bus.
//!
//! Each LED data bit becomes a fixed high/low serial pattern; two data bits
//! fit one serial byte, so an LED byte becomes four serial bytes, and a color
//! is sent as its green, red and blue bytes in that order. A trailing run of
//! zero bytes holds the line low long enough to latch. The serial transfer
//! itself happens outside; the stream is computed, and verified, here.

use vstd::prelude::*;

verus! {

/// One color of the strip.
#[derive(Clone, Copy, PartialEq, Eq, Debug)]
pub struct Rgb {
    pub r: u8,
    pub g: u8,
    pub b: u8,
}

/// A strip driven through a serial bus `SPI`. The bus should run within
/// 2 MHz to 3.8 MHz so the patterns below meet the strip's bit timing.
pub struct Ws2812<SPI> {
    /// The serial bus the encoded stream is written to.
    pub spi: SPI,
}

impl<SPI> Ws2812<SPI> {
    /// Wraps a serial bus for use as a strip driver.
    pub fn new(spi: SPI) -> (w: Ws2812<SPI>)
        ensures
            w.spi == spi,
    {
        Ws2812 { spi }
    }
}

/// The serial byte that encodes two LED data bits: a long high time for a
/// one bit, a short one for a zero bit.
pub open spec fn pattern(bits: u8) -> u8 {
    if bits == 0 {
        0x44
    } else if bits == 1 {
        0x47
    } else if bits == 2 {
        0x74
    } else {
        0x77
    }
}

/// One LED byte as four serial bytes, highest bit pair first.
pub open spec fn encode_byte_spec(data: u8) -> Seq<u8> {
    seq![
        pattern((data >> 6u8) & 3),
        pattern((data >> 4u8) & 3),
        pattern((data >> 2u8) & 3),
        pattern(data & 3),
    ]
}

/// One color on the wire: green, red, blue bytes, each encoded.
pub open spec fn encode_color(c: Rgb) -> Seq<u8> {
    encode_byte_spec(c.g) + encode_byte_spec(c.r) + encode_byte_spec(c.b)
}

/// The data part of a whole strip, first color first.
pub open spec fn strip_data(colors: Seq<Rgb>) -> Seq<u8>
    decreases colors.len(),
{
    if colors.len() == 0 {
        Seq::empty()
    } else {
        strip_data(colors.drop_last()) + encode_color(colors.last())
    }
}

/// The trailing zero bytes that latch the strip.
pub open spec fn flush_bytes() -> Seq<u8> {
    Seq::new(20, |i: int| 0u8)
}

fn pattern_of(bits: u8) -> (p: u8)
    ensures
        p == pattern(bits),
{
    if bits == 0 {
        0x44
    } else if bits == 1 {
        0x47
    } else if bits == 2 {
        0x74
    } else {
        0x77
    }
}

/// Encodes one LED byte as its four serial bytes.
pub fn encode_byte(data: u8) -> (out: Vec<u8>)
    ensures
        out@ == encode_byte_spec(data),
{
    let mut out: Vec<u8> = Vec::new();
    out.push(pattern_of((data >> 6u8) & 3));
    out.push(pattern_of((data >> 4u8) & 3));
    out.push(pattern_of((data >> 2u8) & 3));
    out.push(pattern_of(data & 3));
    proof {
        assert(out@ =~= encode_byte_spec(data));
    }
    out
}

/// Encodes a whole strip: every color's bytes in order, then the latch run.
pub fn encode_strip(colors: &Vec<Rgb>) -> (out: Vec<u8>)
    ensures
        out@ == strip_data(colors@) + flush_bytes(),
{
    let mut out: Vec<u8> = Vec::new();
    let mut i: usize = 0;
    while i < colors.len()
        invariant
            i <= colors@.len(),
            out@ == strip_data(colors@.take(i as int)),
        decreases colors@.len() - i,
    {
        let c = colors[i];
        let mut eg = encode_byte(c.g);
        let mut er = encode_byte(c.r);
        let mut eb = encode_byte(c.b);
        out.append(&mut eg);
        out.append(&mut er);
        out.append(&mut eb);
        proof {
            assert(colors@.take(i + 1 as int).drop_last() =~= colors@.take(i as int));
            assert(colors@.take(i + 1 as int).last() == colors@[i as int]);
            assert(out@ =~= strip_data(colors@.take(i as int)) + encode_color(colors@[i as int]));
        }
        i += 1;
    }
    proof {
        assert(colors@.take(colors@.len() as int) =~= colors@);
    }
    let mut j: usize = 0;
    while j < 20
        invariant
            j <= 20,
            out@ == strip_data(colors@) + flush_bytes().take(j as int),
        decreases 20 - j,
    {
        out.push(0u8);
        proof {
            assert(flush_bytes().take(j + 1 as int) =~= flush_bytes().take(j as int).push(0u8));
        }
        j += 1;
    }
    proof {
        assert(flush_bytes().take(20) =~= flush_bytes());
    }
    out
}

} // verus!
