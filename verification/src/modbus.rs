use vstd::prelude::*;

verus! {

// ---------------------------------------------------------------------------
// CRC-16/MODBUS (reflected polynomial 0xA001, initial value 0xFFFF)
// ---------------------------------------------------------------------------

/// One shift of the CRC-16 register: shift right, folding in the reflected
/// polynomial when the low bit falls out.
pub open spec fn crc16_shift(c: u16) -> u16 {
    if c & 1u16 != 0 {
        (c >> 1u16) ^ 0xA001u16
    } else {
        c >> 1u16
    }
}

/// Eight shifts of the CRC-16 register: what one input byte costs.
pub open spec fn crc16_shift8(c: u16) -> u16 {
    crc16_shift(
        crc16_shift(crc16_shift(crc16_shift(crc16_shift(crc16_shift(crc16_shift(crc16_shift(c))))))),
    )
}

/// The register after absorbing one more byte.
pub open spec fn modbus_crc_update(crc: u16, byte: u8) -> u16 {
    crc16_shift8(crc ^ (byte as u16))
}

/// CRC-16/MODBUS of a byte sequence.
pub open spec fn modbus_crc_of(bytes: Seq<u8>) -> u16
    decreases bytes.len(),
{
    if bytes.len() == 0 {
        0xFFFFu16
    } else {
        modbus_crc_update(modbus_crc_of(bytes.drop_last()), bytes.last())
    }
}

/// The low bytes of the per-index register contributions that the lookup
/// tables below hold, checked entry by entry against the bitwise definition.
proof fn lemma_table_low_bytes()
    by (bit_vector)
    ensures
        crc16_shift8(0x00u16) & 0xFFu16 == 0x00u16,
        crc16_shift8(0x01u16) & 0xFFu16 == 0xC1u16,
        crc16_shift8(0x02u16) & 0xFFu16 == 0x81u16,
        crc16_shift8(0x03u16) & 0xFFu16 == 0x40u16,
        crc16_shift8(0x04u16) & 0xFFu16 == 0x01u16,
        crc16_shift8(0x05u16) & 0xFFu16 == 0xC0u16,
        crc16_shift8(0x06u16) & 0xFFu16 == 0x80u16,
        crc16_shift8(0x07u16) & 0xFFu16 == 0x41u16,
        crc16_shift8(0x08u16) & 0xFFu16 == 0x01u16,
        crc16_shift8(0x09u16) & 0xFFu16 == 0xC0u16,
        crc16_shift8(0x0Au16) & 0xFFu16 == 0x80u16,
        crc16_shift8(0x0Bu16) & 0xFFu16 == 0x41u16,
        crc16_shift8(0x0Cu16) & 0xFFu16 == 0x00u16,
        crc16_shift8(0x0Du16) & 0xFFu16 == 0xC1u16,
        crc16_shift8(0x0Eu16) & 0xFFu16 == 0x81u16,
        crc16_shift8(0x0Fu16) & 0xFFu16 == 0x40u16,
        crc16_shift8(0x10u16) & 0xFFu16 == 0x01u16,
        crc16_shift8(0x11u16) & 0xFFu16 == 0xC0u16,
        crc16_shift8(0x12u16) & 0xFFu16 == 0x80u16,
        crc16_shift8(0x13u16) & 0xFFu16 == 0x41u16,
        crc16_shift8(0x14u16) & 0xFFu16 == 0x00u16,
        crc16_shift8(0x15u16) & 0xFFu16 == 0xC1u16,
        crc16_shift8(0x16u16) & 0xFFu16 == 0x81u16,
        crc16_shift8(0x17u16) & 0xFFu16 == 0x40u16,
        crc16_shift8(0x18u16) & 0xFFu16 == 0x00u16,
        crc16_shift8(0x19u16) & 0xFFu16 == 0xC1u16,
        crc16_shift8(0x1Au16) & 0xFFu16 == 0x81u16,
        crc16_shift8(0x1Bu16) & 0xFFu16 == 0x40u16,
        crc16_shift8(0x1Cu16) & 0xFFu16 == 0x01u16,
        crc16_shift8(0x1Du16) & 0xFFu16 == 0xC0u16,
        crc16_shift8(0x1Eu16) & 0xFFu16 == 0x80u16,
        crc16_shift8(0x1Fu16) & 0xFFu16 == 0x41u16,
        crc16_shift8(0x20u16) & 0xFFu16 == 0x01u16,
        crc16_shift8(0x21u16) & 0xFFu16 == 0xC0u16,
        crc16_shift8(0x22u16) & 0xFFu16 == 0x80u16,
        crc16_shift8(0x23u16) & 0xFFu16 == 0x41u16,
        crc16_shift8(0x24u16) & 0xFFu16 == 0x00u16,
        crc16_shift8(0x25u16) & 0xFFu16 == 0xC1u16,
        crc16_shift8(0x26u16) & 0xFFu16 == 0x81u16,
        crc16_shift8(0x27u16) & 0xFFu16 == 0x40u16,
        crc16_shift8(0x28u16) & 0xFFu16 == 0x00u16,
        crc16_shift8(0x29u16) & 0xFFu16 == 0xC1u16,
        crc16_shift8(0x2Au16) & 0xFFu16 == 0x81u16,
        crc16_shift8(0x2Bu16) & 0xFFu16 == 0x40u16,
        crc16_shift8(0x2Cu16) & 0xFFu16 == 0x01u16,
        crc16_shift8(0x2Du16) & 0xFFu16 == 0xC0u16,
        crc16_shift8(0x2Eu16) & 0xFFu16 == 0x80u16,
        crc16_shift8(0x2Fu16) & 0xFFu16 == 0x41u16,
        crc16_shift8(0x30u16) & 0xFFu16 == 0x00u16,
        crc16_shift8(0x31u16) & 0xFFu16 == 0xC1u16,
        crc16_shift8(0x32u16) & 0xFFu16 == 0x81u16,
        crc16_shift8(0x33u16) & 0xFFu16 == 0x40u16,
        crc16_shift8(0x34u16) & 0xFFu16 == 0x01u16,
        crc16_shift8(0x35u16) & 0xFFu16 == 0xC0u16,
        crc16_shift8(0x36u16) & 0xFFu16 == 0x80u16,
        crc16_shift8(0x37u16) & 0xFFu16 == 0x41u16,
        crc16_shift8(0x38u16) & 0xFFu16 == 0x01u16,
        crc16_shift8(0x39u16) & 0xFFu16 == 0xC0u16,
        crc16_shift8(0x3Au16) & 0xFFu16 == 0x80u16,
        crc16_shift8(0x3Bu16) & 0xFFu16 == 0x41u16,
        crc16_shift8(0x3Cu16) & 0xFFu16 == 0x00u16,
        crc16_shift8(0x3Du16) & 0xFFu16 == 0xC1u16,
        crc16_shift8(0x3Eu16) & 0xFFu16 == 0x81u16,
        crc16_shift8(0x3Fu16) & 0xFFu16 == 0x40u16,
        crc16_shift8(0x40u16) & 0xFFu16 == 0x01u16,
        crc16_shift8(0x41u16) & 0xFFu16 == 0xC0u16,
        crc16_shift8(0x42u16) & 0xFFu16 == 0x80u16,
        crc16_shift8(0x43u16) & 0xFFu16 == 0x41u16,
        crc16_shift8(0x44u16) & 0xFFu16 == 0x00u16,
        crc16_shift8(0x45u16) & 0xFFu16 == 0xC1u16,
        crc16_shift8(0x46u16) & 0xFFu16 == 0x81u16,
        crc16_shift8(0x47u16) & 0xFFu16 == 0x40u16,
        crc16_shift8(0x48u16) & 0xFFu16 == 0x00u16,
        crc16_shift8(0x49u16) & 0xFFu16 == 0xC1u16,
        crc16_shift8(0x4Au16) & 0xFFu16 == 0x81u16,
        crc16_shift8(0x4Bu16) & 0xFFu16 == 0x40u16,
        crc16_shift8(0x4Cu16) & 0xFFu16 == 0x01u16,
        crc16_shift8(0x4Du16) & 0xFFu16 == 0xC0u16,
        crc16_shift8(0x4Eu16) & 0xFFu16 == 0x80u16,
        crc16_shift8(0x4Fu16) & 0xFFu16 == 0x41u16,
        crc16_shift8(0x50u16) & 0xFFu16 == 0x00u16,
        crc16_shift8(0x51u16) & 0xFFu16 == 0xC1u16,
        crc16_shift8(0x52u16) & 0xFFu16 == 0x81u16,
        crc16_shift8(0x53u16) & 0xFFu16 == 0x40u16,
        crc16_shift8(0x54u16) & 0xFFu16 == 0x01u16,
        crc16_shift8(0x55u16) & 0xFFu16 == 0xC0u16,
        crc16_shift8(0x56u16) & 0xFFu16 == 0x80u16,
        crc16_shift8(0x57u16) & 0xFFu16 == 0x41u16,
        crc16_shift8(0x58u16) & 0xFFu16 == 0x01u16,
        crc16_shift8(0x59u16) & 0xFFu16 == 0xC0u16,
        crc16_shift8(0x5Au16) & 0xFFu16 == 0x80u16,
        crc16_shift8(0x5Bu16) & 0xFFu16 == 0x41u16,
        crc16_shift8(0x5Cu16) & 0xFFu16 == 0x00u16,
        crc16_shift8(0x5Du16) & 0xFFu16 == 0xC1u16,
        crc16_shift8(0x5Eu16) & 0xFFu16 == 0x81u16,
        crc16_shift8(0x5Fu16) & 0xFFu16 == 0x40u16,
        crc16_shift8(0x60u16) & 0xFFu16 == 0x00u16,
        crc16_shift8(0x61u16) & 0xFFu16 == 0xC1u16,
        crc16_shift8(0x62u16) & 0xFFu16 == 0x81u16,
        crc16_shift8(0x63u16) & 0xFFu16 == 0x40u16,
        crc16_shift8(0x64u16) & 0xFFu16 == 0x01u16,
        crc16_shift8(0x65u16) & 0xFFu16 == 0xC0u16,
        crc16_shift8(0x66u16) & 0xFFu16 == 0x80u16,
        crc16_shift8(0x67u16) & 0xFFu16 == 0x41u16,
        crc16_shift8(0x68u16) & 0xFFu16 == 0x01u16,
        crc16_shift8(0x69u16) & 0xFFu16 == 0xC0u16,
        crc16_shift8(0x6Au16) & 0xFFu16 == 0x80u16,
        crc16_shift8(0x6Bu16) & 0xFFu16 == 0x41u16,
        crc16_shift8(0x6Cu16) & 0xFFu16 == 0x00u16,
        crc16_shift8(0x6Du16) & 0xFFu16 == 0xC1u16,
        crc16_shift8(0x6Eu16) & 0xFFu16 == 0x81u16,
        crc16_shift8(0x6Fu16) & 0xFFu16 == 0x40u16,
        crc16_shift8(0x70u16) & 0xFFu16 == 0x01u16,
        crc16_shift8(0x71u16) & 0xFFu16 == 0xC0u16,
        crc16_shift8(0x72u16) & 0xFFu16 == 0x80u16,
        crc16_shift8(0x73u16) & 0xFFu16 == 0x41u16,
        crc16_shift8(0x74u16) & 0xFFu16 == 0x00u16,
        crc16_shift8(0x75u16) & 0xFFu16 == 0xC1u16,
        crc16_shift8(0x76u16) & 0xFFu16 == 0x81u16,
        crc16_shift8(0x77u16) & 0xFFu16 == 0x40u16,
        crc16_shift8(0x78u16) & 0xFFu16 == 0x00u16,
        crc16_shift8(0x79u16) & 0xFFu16 == 0xC1u16,
        crc16_shift8(0x7Au16) & 0xFFu16 == 0x81u16,
        crc16_shift8(0x7Bu16) & 0xFFu16 == 0x40u16,
        crc16_shift8(0x7Cu16) & 0xFFu16 == 0x01u16,
        crc16_shift8(0x7Du16) & 0xFFu16 == 0xC0u16,
        crc16_shift8(0x7Eu16) & 0xFFu16 == 0x80u16,
        crc16_shift8(0x7Fu16) & 0xFFu16 == 0x41u16,
        crc16_shift8(0x80u16) & 0xFFu16 == 0x01u16,
        crc16_shift8(0x81u16) & 0xFFu16 == 0xC0u16,
        crc16_shift8(0x82u16) & 0xFFu16 == 0x80u16,
        crc16_shift8(0x83u16) & 0xFFu16 == 0x41u16,
        crc16_shift8(0x84u16) & 0xFFu16 == 0x00u16,
        crc16_shift8(0x85u16) & 0xFFu16 == 0xC1u16,
        crc16_shift8(0x86u16) & 0xFFu16 == 0x81u16,
        crc16_shift8(0x87u16) & 0xFFu16 == 0x40u16,
        crc16_shift8(0x88u16) & 0xFFu16 == 0x00u16,
        crc16_shift8(0x89u16) & 0xFFu16 == 0xC1u16,
        crc16_shift8(0x8Au16) & 0xFFu16 == 0x81u16,
        crc16_shift8(0x8Bu16) & 0xFFu16 == 0x40u16,
        crc16_shift8(0x8Cu16) & 0xFFu16 == 0x01u16,
        crc16_shift8(0x8Du16) & 0xFFu16 == 0xC0u16,
        crc16_shift8(0x8Eu16) & 0xFFu16 == 0x80u16,
        crc16_shift8(0x8Fu16) & 0xFFu16 == 0x41u16,
        crc16_shift8(0x90u16) & 0xFFu16 == 0x00u16,
        crc16_shift8(0x91u16) & 0xFFu16 == 0xC1u16,
        crc16_shift8(0x92u16) & 0xFFu16 == 0x81u16,
        crc16_shift8(0x93u16) & 0xFFu16 == 0x40u16,
        crc16_shift8(0x94u16) & 0xFFu16 == 0x01u16,
        crc16_shift8(0x95u16) & 0xFFu16 == 0xC0u16,
        crc16_shift8(0x96u16) & 0xFFu16 == 0x80u16,
        crc16_shift8(0x97u16) & 0xFFu16 == 0x41u16,
        crc16_shift8(0x98u16) & 0xFFu16 == 0x01u16,
        crc16_shift8(0x99u16) & 0xFFu16 == 0xC0u16,
        crc16_shift8(0x9Au16) & 0xFFu16 == 0x80u16,
        crc16_shift8(0x9Bu16) & 0xFFu16 == 0x41u16,
        crc16_shift8(0x9Cu16) & 0xFFu16 == 0x00u16,
        crc16_shift8(0x9Du16) & 0xFFu16 == 0xC1u16,
        crc16_shift8(0x9Eu16) & 0xFFu16 == 0x81u16,
        crc16_shift8(0x9Fu16) & 0xFFu16 == 0x40u16,
        crc16_shift8(0xA0u16) & 0xFFu16 == 0x00u16,
        crc16_shift8(0xA1u16) & 0xFFu16 == 0xC1u16,
        crc16_shift8(0xA2u16) & 0xFFu16 == 0x81u16,
        crc16_shift8(0xA3u16) & 0xFFu16 == 0x40u16,
        crc16_shift8(0xA4u16) & 0xFFu16 == 0x01u16,
        crc16_shift8(0xA5u16) & 0xFFu16 == 0xC0u16,
        crc16_shift8(0xA6u16) & 0xFFu16 == 0x80u16,
        crc16_shift8(0xA7u16) & 0xFFu16 == 0x41u16,
        crc16_shift8(0xA8u16) & 0xFFu16 == 0x01u16,
        crc16_shift8(0xA9u16) & 0xFFu16 == 0xC0u16,
        crc16_shift8(0xAAu16) & 0xFFu16 == 0x80u16,
        crc16_shift8(0xABu16) & 0xFFu16 == 0x41u16,
        crc16_shift8(0xACu16) & 0xFFu16 == 0x00u16,
        crc16_shift8(0xADu16) & 0xFFu16 == 0xC1u16,
        crc16_shift8(0xAEu16) & 0xFFu16 == 0x81u16,
        crc16_shift8(0xAFu16) & 0xFFu16 == 0x40u16,
        crc16_shift8(0xB0u16) & 0xFFu16 == 0x01u16,
        crc16_shift8(0xB1u16) & 0xFFu16 == 0xC0u16,
        crc16_shift8(0xB2u16) & 0xFFu16 == 0x80u16,
        crc16_shift8(0xB3u16) & 0xFFu16 == 0x41u16,
        crc16_shift8(0xB4u16) & 0xFFu16 == 0x00u16,
        crc16_shift8(0xB5u16) & 0xFFu16 == 0xC1u16,
        crc16_shift8(0xB6u16) & 0xFFu16 == 0x81u16,
        crc16_shift8(0xB7u16) & 0xFFu16 == 0x40u16,
        crc16_shift8(0xB8u16) & 0xFFu16 == 0x00u16,
        crc16_shift8(0xB9u16) & 0xFFu16 == 0xC1u16,
        crc16_shift8(0xBAu16) & 0xFFu16 == 0x81u16,
        crc16_shift8(0xBBu16) & 0xFFu16 == 0x40u16,
        crc16_shift8(0xBCu16) & 0xFFu16 == 0x01u16,
        crc16_shift8(0xBDu16) & 0xFFu16 == 0xC0u16,
        crc16_shift8(0xBEu16) & 0xFFu16 == 0x80u16,
        crc16_shift8(0xBFu16) & 0xFFu16 == 0x41u16,
        crc16_shift8(0xC0u16) & 0xFFu16 == 0x00u16,
        crc16_shift8(0xC1u16) & 0xFFu16 == 0xC1u16,
        crc16_shift8(0xC2u16) & 0xFFu16 == 0x81u16,
        crc16_shift8(0xC3u16) & 0xFFu16 == 0x40u16,
        crc16_shift8(0xC4u16) & 0xFFu16 == 0x01u16,
        crc16_shift8(0xC5u16) & 0xFFu16 == 0xC0u16,
        crc16_shift8(0xC6u16) & 0xFFu16 == 0x80u16,
        crc16_shift8(0xC7u16) & 0xFFu16 == 0x41u16,
        crc16_shift8(0xC8u16) & 0xFFu16 == 0x01u16,
        crc16_shift8(0xC9u16) & 0xFFu16 == 0xC0u16,
        crc16_shift8(0xCAu16) & 0xFFu16 == 0x80u16,
        crc16_shift8(0xCBu16) & 0xFFu16 == 0x41u16,
        crc16_shift8(0xCCu16) & 0xFFu16 == 0x00u16,
        crc16_shift8(0xCDu16) & 0xFFu16 == 0xC1u16,
        crc16_shift8(0xCEu16) & 0xFFu16 == 0x81u16,
        crc16_shift8(0xCFu16) & 0xFFu16 == 0x40u16,
        crc16_shift8(0xD0u16) & 0xFFu16 == 0x01u16,
        crc16_shift8(0xD1u16) & 0xFFu16 == 0xC0u16,
        crc16_shift8(0xD2u16) & 0xFFu16 == 0x80u16,
        crc16_shift8(0xD3u16) & 0xFFu16 == 0x41u16,
        crc16_shift8(0xD4u16) & 0xFFu16 == 0x00u16,
        crc16_shift8(0xD5u16) & 0xFFu16 == 0xC1u16,
        crc16_shift8(0xD6u16) & 0xFFu16 == 0x81u16,
        crc16_shift8(0xD7u16) & 0xFFu16 == 0x40u16,
        crc16_shift8(0xD8u16) & 0xFFu16 == 0x00u16,
        crc16_shift8(0xD9u16) & 0xFFu16 == 0xC1u16,
        crc16_shift8(0xDAu16) & 0xFFu16 == 0x81u16,
        crc16_shift8(0xDBu16) & 0xFFu16 == 0x40u16,
        crc16_shift8(0xDCu16) & 0xFFu16 == 0x01u16,
        crc16_shift8(0xDDu16) & 0xFFu16 == 0xC0u16,
        crc16_shift8(0xDEu16) & 0xFFu16 == 0x80u16,
        crc16_shift8(0xDFu16) & 0xFFu16 == 0x41u16,
        crc16_shift8(0xE0u16) & 0xFFu16 == 0x01u16,
        crc16_shift8(0xE1u16) & 0xFFu16 == 0xC0u16,
        crc16_shift8(0xE2u16) & 0xFFu16 == 0x80u16,
        crc16_shift8(0xE3u16) & 0xFFu16 == 0x41u16,
        crc16_shift8(0xE4u16) & 0xFFu16 == 0x00u16,
        crc16_shift8(0xE5u16) & 0xFFu16 == 0xC1u16,
        crc16_shift8(0xE6u16) & 0xFFu16 == 0x81u16,
        crc16_shift8(0xE7u16) & 0xFFu16 == 0x40u16,
        crc16_shift8(0xE8u16) & 0xFFu16 == 0x00u16,
        crc16_shift8(0xE9u16) & 0xFFu16 == 0xC1u16,
        crc16_shift8(0xEAu16) & 0xFFu16 == 0x81u16,
        crc16_shift8(0xEBu16) & 0xFFu16 == 0x40u16,
        crc16_shift8(0xECu16) & 0xFFu16 == 0x01u16,
        crc16_shift8(0xEDu16) & 0xFFu16 == 0xC0u16,
        crc16_shift8(0xEEu16) & 0xFFu16 == 0x80u16,
        crc16_shift8(0xEFu16) & 0xFFu16 == 0x41u16,
        crc16_shift8(0xF0u16) & 0xFFu16 == 0x00u16,
        crc16_shift8(0xF1u16) & 0xFFu16 == 0xC1u16,
        crc16_shift8(0xF2u16) & 0xFFu16 == 0x81u16,
        crc16_shift8(0xF3u16) & 0xFFu16 == 0x40u16,
        crc16_shift8(0xF4u16) & 0xFFu16 == 0x01u16,
        crc16_shift8(0xF5u16) & 0xFFu16 == 0xC0u16,
        crc16_shift8(0xF6u16) & 0xFFu16 == 0x80u16,
        crc16_shift8(0xF7u16) & 0xFFu16 == 0x41u16,
        crc16_shift8(0xF8u16) & 0xFFu16 == 0x01u16,
        crc16_shift8(0xF9u16) & 0xFFu16 == 0xC0u16,
        crc16_shift8(0xFAu16) & 0xFFu16 == 0x80u16,
        crc16_shift8(0xFBu16) & 0xFFu16 == 0x41u16,
        crc16_shift8(0xFCu16) & 0xFFu16 == 0x00u16,
        crc16_shift8(0xFDu16) & 0xFFu16 == 0xC1u16,
        crc16_shift8(0xFEu16) & 0xFFu16 == 0x81u16,
        crc16_shift8(0xFFu16) & 0xFFu16 == 0x40u16,
{
}

/// The high bytes of the per-index register contributions, checked likewise.
proof fn lemma_table_high_bytes()
    by (bit_vector)
    ensures
        crc16_shift8(0x00u16) >> 8u16 == 0x00u16,
        crc16_shift8(0x01u16) >> 8u16 == 0xC0u16,
        crc16_shift8(0x02u16) >> 8u16 == 0xC1u16,
        crc16_shift8(0x03u16) >> 8u16 == 0x01u16,
        crc16_shift8(0x04u16) >> 8u16 == 0xC3u16,
        crc16_shift8(0x05u16) >> 8u16 == 0x03u16,
        crc16_shift8(0x06u16) >> 8u16 == 0x02u16,
        crc16_shift8(0x07u16) >> 8u16 == 0xC2u16,
        crc16_shift8(0x08u16) >> 8u16 == 0xC6u16,
        crc16_shift8(0x09u16) >> 8u16 == 0x06u16,
        crc16_shift8(0x0Au16) >> 8u16 == 0x07u16,
        crc16_shift8(0x0Bu16) >> 8u16 == 0xC7u16,
        crc16_shift8(0x0Cu16) >> 8u16 == 0x05u16,
        crc16_shift8(0x0Du16) >> 8u16 == 0xC5u16,
        crc16_shift8(0x0Eu16) >> 8u16 == 0xC4u16,
        crc16_shift8(0x0Fu16) >> 8u16 == 0x04u16,
        crc16_shift8(0x10u16) >> 8u16 == 0xCCu16,
        crc16_shift8(0x11u16) >> 8u16 == 0x0Cu16,
        crc16_shift8(0x12u16) >> 8u16 == 0x0Du16,
        crc16_shift8(0x13u16) >> 8u16 == 0xCDu16,
        crc16_shift8(0x14u16) >> 8u16 == 0x0Fu16,
        crc16_shift8(0x15u16) >> 8u16 == 0xCFu16,
        crc16_shift8(0x16u16) >> 8u16 == 0xCEu16,
        crc16_shift8(0x17u16) >> 8u16 == 0x0Eu16,
        crc16_shift8(0x18u16) >> 8u16 == 0x0Au16,
        crc16_shift8(0x19u16) >> 8u16 == 0xCAu16,
        crc16_shift8(0x1Au16) >> 8u16 == 0xCBu16,
        crc16_shift8(0x1Bu16) >> 8u16 == 0x0Bu16,
        crc16_shift8(0x1Cu16) >> 8u16 == 0xC9u16,
        crc16_shift8(0x1Du16) >> 8u16 == 0x09u16,
        crc16_shift8(0x1Eu16) >> 8u16 == 0x08u16,
        crc16_shift8(0x1Fu16) >> 8u16 == 0xC8u16,
        crc16_shift8(0x20u16) >> 8u16 == 0xD8u16,
        crc16_shift8(0x21u16) >> 8u16 == 0x18u16,
        crc16_shift8(0x22u16) >> 8u16 == 0x19u16,
        crc16_shift8(0x23u16) >> 8u16 == 0xD9u16,
        crc16_shift8(0x24u16) >> 8u16 == 0x1Bu16,
        crc16_shift8(0x25u16) >> 8u16 == 0xDBu16,
        crc16_shift8(0x26u16) >> 8u16 == 0xDAu16,
        crc16_shift8(0x27u16) >> 8u16 == 0x1Au16,
        crc16_shift8(0x28u16) >> 8u16 == 0x1Eu16,
        crc16_shift8(0x29u16) >> 8u16 == 0xDEu16,
        crc16_shift8(0x2Au16) >> 8u16 == 0xDFu16,
        crc16_shift8(0x2Bu16) >> 8u16 == 0x1Fu16,
        crc16_shift8(0x2Cu16) >> 8u16 == 0xDDu16,
        crc16_shift8(0x2Du16) >> 8u16 == 0x1Du16,
        crc16_shift8(0x2Eu16) >> 8u16 == 0x1Cu16,
        crc16_shift8(0x2Fu16) >> 8u16 == 0xDCu16,
        crc16_shift8(0x30u16) >> 8u16 == 0x14u16,
        crc16_shift8(0x31u16) >> 8u16 == 0xD4u16,
        crc16_shift8(0x32u16) >> 8u16 == 0xD5u16,
        crc16_shift8(0x33u16) >> 8u16 == 0x15u16,
        crc16_shift8(0x34u16) >> 8u16 == 0xD7u16,
        crc16_shift8(0x35u16) >> 8u16 == 0x17u16,
        crc16_shift8(0x36u16) >> 8u16 == 0x16u16,
        crc16_shift8(0x37u16) >> 8u16 == 0xD6u16,
        crc16_shift8(0x38u16) >> 8u16 == 0xD2u16,
        crc16_shift8(0x39u16) >> 8u16 == 0x12u16,
        crc16_shift8(0x3Au16) >> 8u16 == 0x13u16,
        crc16_shift8(0x3Bu16) >> 8u16 == 0xD3u16,
        crc16_shift8(0x3Cu16) >> 8u16 == 0x11u16,
        crc16_shift8(0x3Du16) >> 8u16 == 0xD1u16,
        crc16_shift8(0x3Eu16) >> 8u16 == 0xD0u16,
        crc16_shift8(0x3Fu16) >> 8u16 == 0x10u16,
        crc16_shift8(0x40u16) >> 8u16 == 0xF0u16,
        crc16_shift8(0x41u16) >> 8u16 == 0x30u16,
        crc16_shift8(0x42u16) >> 8u16 == 0x31u16,
        crc16_shift8(0x43u16) >> 8u16 == 0xF1u16,
        crc16_shift8(0x44u16) >> 8u16 == 0x33u16,
        crc16_shift8(0x45u16) >> 8u16 == 0xF3u16,
        crc16_shift8(0x46u16) >> 8u16 == 0xF2u16,
        crc16_shift8(0x47u16) >> 8u16 == 0x32u16,
        crc16_shift8(0x48u16) >> 8u16 == 0x36u16,
        crc16_shift8(0x49u16) >> 8u16 == 0xF6u16,
        crc16_shift8(0x4Au16) >> 8u16 == 0xF7u16,
        crc16_shift8(0x4Bu16) >> 8u16 == 0x37u16,
        crc16_shift8(0x4Cu16) >> 8u16 == 0xF5u16,
        crc16_shift8(0x4Du16) >> 8u16 == 0x35u16,
        crc16_shift8(0x4Eu16) >> 8u16 == 0x34u16,
        crc16_shift8(0x4Fu16) >> 8u16 == 0xF4u16,
        crc16_shift8(0x50u16) >> 8u16 == 0x3Cu16,
        crc16_shift8(0x51u16) >> 8u16 == 0xFCu16,
        crc16_shift8(0x52u16) >> 8u16 == 0xFDu16,
        crc16_shift8(0x53u16) >> 8u16 == 0x3Du16,
        crc16_shift8(0x54u16) >> 8u16 == 0xFFu16,
        crc16_shift8(0x55u16) >> 8u16 == 0x3Fu16,
        crc16_shift8(0x56u16) >> 8u16 == 0x3Eu16,
        crc16_shift8(0x57u16) >> 8u16 == 0xFEu16,
        crc16_shift8(0x58u16) >> 8u16 == 0xFAu16,
        crc16_shift8(0x59u16) >> 8u16 == 0x3Au16,
        crc16_shift8(0x5Au16) >> 8u16 == 0x3Bu16,
        crc16_shift8(0x5Bu16) >> 8u16 == 0xFBu16,
        crc16_shift8(0x5Cu16) >> 8u16 == 0x39u16,
        crc16_shift8(0x5Du16) >> 8u16 == 0xF9u16,
        crc16_shift8(0x5Eu16) >> 8u16 == 0xF8u16,
        crc16_shift8(0x5Fu16) >> 8u16 == 0x38u16,
        crc16_shift8(0x60u16) >> 8u16 == 0x28u16,
        crc16_shift8(0x61u16) >> 8u16 == 0xE8u16,
        crc16_shift8(0x62u16) >> 8u16 == 0xE9u16,
        crc16_shift8(0x63u16) >> 8u16 == 0x29u16,
        crc16_shift8(0x64u16) >> 8u16 == 0xEBu16,
        crc16_shift8(0x65u16) >> 8u16 == 0x2Bu16,
        crc16_shift8(0x66u16) >> 8u16 == 0x2Au16,
        crc16_shift8(0x67u16) >> 8u16 == 0xEAu16,
        crc16_shift8(0x68u16) >> 8u16 == 0xEEu16,
        crc16_shift8(0x69u16) >> 8u16 == 0x2Eu16,
        crc16_shift8(0x6Au16) >> 8u16 == 0x2Fu16,
        crc16_shift8(0x6Bu16) >> 8u16 == 0xEFu16,
        crc16_shift8(0x6Cu16) >> 8u16 == 0x2Du16,
        crc16_shift8(0x6Du16) >> 8u16 == 0xEDu16,
        crc16_shift8(0x6Eu16) >> 8u16 == 0xECu16,
        crc16_shift8(0x6Fu16) >> 8u16 == 0x2Cu16,
        crc16_shift8(0x70u16) >> 8u16 == 0xE4u16,
        crc16_shift8(0x71u16) >> 8u16 == 0x24u16,
        crc16_shift8(0x72u16) >> 8u16 == 0x25u16,
        crc16_shift8(0x73u16) >> 8u16 == 0xE5u16,
        crc16_shift8(0x74u16) >> 8u16 == 0x27u16,
        crc16_shift8(0x75u16) >> 8u16 == 0xE7u16,
        crc16_shift8(0x76u16) >> 8u16 == 0xE6u16,
        crc16_shift8(0x77u16) >> 8u16 == 0x26u16,
        crc16_shift8(0x78u16) >> 8u16 == 0x22u16,
        crc16_shift8(0x79u16) >> 8u16 == 0xE2u16,
        crc16_shift8(0x7Au16) >> 8u16 == 0xE3u16,
        crc16_shift8(0x7Bu16) >> 8u16 == 0x23u16,
        crc16_shift8(0x7Cu16) >> 8u16 == 0xE1u16,
        crc16_shift8(0x7Du16) >> 8u16 == 0x21u16,
        crc16_shift8(0x7Eu16) >> 8u16 == 0x20u16,
        crc16_shift8(0x7Fu16) >> 8u16 == 0xE0u16,
        crc16_shift8(0x80u16) >> 8u16 == 0xA0u16,
        crc16_shift8(0x81u16) >> 8u16 == 0x60u16,
        crc16_shift8(0x82u16) >> 8u16 == 0x61u16,
        crc16_shift8(0x83u16) >> 8u16 == 0xA1u16,
        crc16_shift8(0x84u16) >> 8u16 == 0x63u16,
        crc16_shift8(0x85u16) >> 8u16 == 0xA3u16,
        crc16_shift8(0x86u16) >> 8u16 == 0xA2u16,
        crc16_shift8(0x87u16) >> 8u16 == 0x62u16,
        crc16_shift8(0x88u16) >> 8u16 == 0x66u16,
        crc16_shift8(0x89u16) >> 8u16 == 0xA6u16,
        crc16_shift8(0x8Au16) >> 8u16 == 0xA7u16,
        crc16_shift8(0x8Bu16) >> 8u16 == 0x67u16,
        crc16_shift8(0x8Cu16) >> 8u16 == 0xA5u16,
        crc16_shift8(0x8Du16) >> 8u16 == 0x65u16,
        crc16_shift8(0x8Eu16) >> 8u16 == 0x64u16,
        crc16_shift8(0x8Fu16) >> 8u16 == 0xA4u16,
        crc16_shift8(0x90u16) >> 8u16 == 0x6Cu16,
        crc16_shift8(0x91u16) >> 8u16 == 0xACu16,
        crc16_shift8(0x92u16) >> 8u16 == 0xADu16,
        crc16_shift8(0x93u16) >> 8u16 == 0x6Du16,
        crc16_shift8(0x94u16) >> 8u16 == 0xAFu16,
        crc16_shift8(0x95u16) >> 8u16 == 0x6Fu16,
        crc16_shift8(0x96u16) >> 8u16 == 0x6Eu16,
        crc16_shift8(0x97u16) >> 8u16 == 0xAEu16,
        crc16_shift8(0x98u16) >> 8u16 == 0xAAu16,
        crc16_shift8(0x99u16) >> 8u16 == 0x6Au16,
        crc16_shift8(0x9Au16) >> 8u16 == 0x6Bu16,
        crc16_shift8(0x9Bu16) >> 8u16 == 0xABu16,
        crc16_shift8(0x9Cu16) >> 8u16 == 0x69u16,
        crc16_shift8(0x9Du16) >> 8u16 == 0xA9u16,
        crc16_shift8(0x9Eu16) >> 8u16 == 0xA8u16,
        crc16_shift8(0x9Fu16) >> 8u16 == 0x68u16,
        crc16_shift8(0xA0u16) >> 8u16 == 0x78u16,
        crc16_shift8(0xA1u16) >> 8u16 == 0xB8u16,
        crc16_shift8(0xA2u16) >> 8u16 == 0xB9u16,
        crc16_shift8(0xA3u16) >> 8u16 == 0x79u16,
        crc16_shift8(0xA4u16) >> 8u16 == 0xBBu16,
        crc16_shift8(0xA5u16) >> 8u16 == 0x7Bu16,
        crc16_shift8(0xA6u16) >> 8u16 == 0x7Au16,
        crc16_shift8(0xA7u16) >> 8u16 == 0xBAu16,
        crc16_shift8(0xA8u16) >> 8u16 == 0xBEu16,
        crc16_shift8(0xA9u16) >> 8u16 == 0x7Eu16,
        crc16_shift8(0xAAu16) >> 8u16 == 0x7Fu16,
        crc16_shift8(0xABu16) >> 8u16 == 0xBFu16,
        crc16_shift8(0xACu16) >> 8u16 == 0x7Du16,
        crc16_shift8(0xADu16) >> 8u16 == 0xBDu16,
        crc16_shift8(0xAEu16) >> 8u16 == 0xBCu16,
        crc16_shift8(0xAFu16) >> 8u16 == 0x7Cu16,
        crc16_shift8(0xB0u16) >> 8u16 == 0xB4u16,
        crc16_shift8(0xB1u16) >> 8u16 == 0x74u16,
        crc16_shift8(0xB2u16) >> 8u16 == 0x75u16,
        crc16_shift8(0xB3u16) >> 8u16 == 0xB5u16,
        crc16_shift8(0xB4u16) >> 8u16 == 0x77u16,
        crc16_shift8(0xB5u16) >> 8u16 == 0xB7u16,
        crc16_shift8(0xB6u16) >> 8u16 == 0xB6u16,
        crc16_shift8(0xB7u16) >> 8u16 == 0x76u16,
        crc16_shift8(0xB8u16) >> 8u16 == 0x72u16,
        crc16_shift8(0xB9u16) >> 8u16 == 0xB2u16,
        crc16_shift8(0xBAu16) >> 8u16 == 0xB3u16,
        crc16_shift8(0xBBu16) >> 8u16 == 0x73u16,
        crc16_shift8(0xBCu16) >> 8u16 == 0xB1u16,
        crc16_shift8(0xBDu16) >> 8u16 == 0x71u16,
        crc16_shift8(0xBEu16) >> 8u16 == 0x70u16,
        crc16_shift8(0xBFu16) >> 8u16 == 0xB0u16,
        crc16_shift8(0xC0u16) >> 8u16 == 0x50u16,
        crc16_shift8(0xC1u16) >> 8u16 == 0x90u16,
        crc16_shift8(0xC2u16) >> 8u16 == 0x91u16,
        crc16_shift8(0xC3u16) >> 8u16 == 0x51u16,
        crc16_shift8(0xC4u16) >> 8u16 == 0x93u16,
        crc16_shift8(0xC5u16) >> 8u16 == 0x53u16,
        crc16_shift8(0xC6u16) >> 8u16 == 0x52u16,
        crc16_shift8(0xC7u16) >> 8u16 == 0x92u16,
        crc16_shift8(0xC8u16) >> 8u16 == 0x96u16,
        crc16_shift8(0xC9u16) >> 8u16 == 0x56u16,
        crc16_shift8(0xCAu16) >> 8u16 == 0x57u16,
        crc16_shift8(0xCBu16) >> 8u16 == 0x97u16,
        crc16_shift8(0xCCu16) >> 8u16 == 0x55u16,
        crc16_shift8(0xCDu16) >> 8u16 == 0x95u16,
        crc16_shift8(0xCEu16) >> 8u16 == 0x94u16,
        crc16_shift8(0xCFu16) >> 8u16 == 0x54u16,
        crc16_shift8(0xD0u16) >> 8u16 == 0x9Cu16,
        crc16_shift8(0xD1u16) >> 8u16 == 0x5Cu16,
        crc16_shift8(0xD2u16) >> 8u16 == 0x5Du16,
        crc16_shift8(0xD3u16) >> 8u16 == 0x9Du16,
        crc16_shift8(0xD4u16) >> 8u16 == 0x5Fu16,
        crc16_shift8(0xD5u16) >> 8u16 == 0x9Fu16,
        crc16_shift8(0xD6u16) >> 8u16 == 0x9Eu16,
        crc16_shift8(0xD7u16) >> 8u16 == 0x5Eu16,
        crc16_shift8(0xD8u16) >> 8u16 == 0x5Au16,
        crc16_shift8(0xD9u16) >> 8u16 == 0x9Au16,
        crc16_shift8(0xDAu16) >> 8u16 == 0x9Bu16,
        crc16_shift8(0xDBu16) >> 8u16 == 0x5Bu16,
        crc16_shift8(0xDCu16) >> 8u16 == 0x99u16,
        crc16_shift8(0xDDu16) >> 8u16 == 0x59u16,
        crc16_shift8(0xDEu16) >> 8u16 == 0x58u16,
        crc16_shift8(0xDFu16) >> 8u16 == 0x98u16,
        crc16_shift8(0xE0u16) >> 8u16 == 0x88u16,
        crc16_shift8(0xE1u16) >> 8u16 == 0x48u16,
        crc16_shift8(0xE2u16) >> 8u16 == 0x49u16,
        crc16_shift8(0xE3u16) >> 8u16 == 0x89u16,
        crc16_shift8(0xE4u16) >> 8u16 == 0x4Bu16,
        crc16_shift8(0xE5u16) >> 8u16 == 0x8Bu16,
        crc16_shift8(0xE6u16) >> 8u16 == 0x8Au16,
        crc16_shift8(0xE7u16) >> 8u16 == 0x4Au16,
        crc16_shift8(0xE8u16) >> 8u16 == 0x4Eu16,
        crc16_shift8(0xE9u16) >> 8u16 == 0x8Eu16,
        crc16_shift8(0xEAu16) >> 8u16 == 0x8Fu16,
        crc16_shift8(0xEBu16) >> 8u16 == 0x4Fu16,
        crc16_shift8(0xECu16) >> 8u16 == 0x8Du16,
        crc16_shift8(0xEDu16) >> 8u16 == 0x4Du16,
        crc16_shift8(0xEEu16) >> 8u16 == 0x4Cu16,
        crc16_shift8(0xEFu16) >> 8u16 == 0x8Cu16,
        crc16_shift8(0xF0u16) >> 8u16 == 0x44u16,
        crc16_shift8(0xF1u16) >> 8u16 == 0x84u16,
        crc16_shift8(0xF2u16) >> 8u16 == 0x85u16,
        crc16_shift8(0xF3u16) >> 8u16 == 0x45u16,
        crc16_shift8(0xF4u16) >> 8u16 == 0x87u16,
        crc16_shift8(0xF5u16) >> 8u16 == 0x47u16,
        crc16_shift8(0xF6u16) >> 8u16 == 0x46u16,
        crc16_shift8(0xF7u16) >> 8u16 == 0x86u16,
        crc16_shift8(0xF8u16) >> 8u16 == 0x82u16,
        crc16_shift8(0xF9u16) >> 8u16 == 0x42u16,
        crc16_shift8(0xFAu16) >> 8u16 == 0x43u16,
        crc16_shift8(0xFBu16) >> 8u16 == 0x83u16,
        crc16_shift8(0xFCu16) >> 8u16 == 0x41u16,
        crc16_shift8(0xFDu16) >> 8u16 == 0x81u16,
        crc16_shift8(0xFEu16) >> 8u16 == 0x80u16,
        crc16_shift8(0xFFu16) >> 8u16 == 0x40u16,
{
}

/// Lookup table: low byte of the register contribution of an index.
fn crc_table_high(index: u8) -> (entry: u8)
    ensures
        entry as u16 == crc16_shift8(index as u16) & 0xFFu16,
{
    proof {
        lemma_table_low_bytes();
    }
    match index {
        0x00 => 0x00,
        0x01 => 0xC1,
        0x02 => 0x81,
        0x03 => 0x40,
        0x04 => 0x01,
        0x05 => 0xC0,
        0x06 => 0x80,
        0x07 => 0x41,
        0x08 => 0x01,
        0x09 => 0xC0,
        0x0A => 0x80,
        0x0B => 0x41,
        0x0C => 0x00,
        0x0D => 0xC1,
        0x0E => 0x81,
        0x0F => 0x40,
        0x10 => 0x01,
        0x11 => 0xC0,
        0x12 => 0x80,
        0x13 => 0x41,
        0x14 => 0x00,
        0x15 => 0xC1,
        0x16 => 0x81,
        0x17 => 0x40,
        0x18 => 0x00,
        0x19 => 0xC1,
        0x1A => 0x81,
        0x1B => 0x40,
        0x1C => 0x01,
        0x1D => 0xC0,
        0x1E => 0x80,
        0x1F => 0x41,
        0x20 => 0x01,
        0x21 => 0xC0,
        0x22 => 0x80,
        0x23 => 0x41,
        0x24 => 0x00,
        0x25 => 0xC1,
        0x26 => 0x81,
        0x27 => 0x40,
        0x28 => 0x00,
        0x29 => 0xC1,
        0x2A => 0x81,
        0x2B => 0x40,
        0x2C => 0x01,
        0x2D => 0xC0,
        0x2E => 0x80,
        0x2F => 0x41,
        0x30 => 0x00,
        0x31 => 0xC1,
        0x32 => 0x81,
        0x33 => 0x40,
        0x34 => 0x01,
        0x35 => 0xC0,
        0x36 => 0x80,
        0x37 => 0x41,
        0x38 => 0x01,
        0x39 => 0xC0,
        0x3A => 0x80,
        0x3B => 0x41,
        0x3C => 0x00,
        0x3D => 0xC1,
        0x3E => 0x81,
        0x3F => 0x40,
        0x40 => 0x01,
        0x41 => 0xC0,
        0x42 => 0x80,
        0x43 => 0x41,
        0x44 => 0x00,
        0x45 => 0xC1,
        0x46 => 0x81,
        0x47 => 0x40,
        0x48 => 0x00,
        0x49 => 0xC1,
        0x4A => 0x81,
        0x4B => 0x40,
        0x4C => 0x01,
        0x4D => 0xC0,
        0x4E => 0x80,
        0x4F => 0x41,
        0x50 => 0x00,
        0x51 => 0xC1,
        0x52 => 0x81,
        0x53 => 0x40,
        0x54 => 0x01,
        0x55 => 0xC0,
        0x56 => 0x80,
        0x57 => 0x41,
        0x58 => 0x01,
        0x59 => 0xC0,
        0x5A => 0x80,
        0x5B => 0x41,
        0x5C => 0x00,
        0x5D => 0xC1,
        0x5E => 0x81,
        0x5F => 0x40,
        0x60 => 0x00,
        0x61 => 0xC1,
        0x62 => 0x81,
        0x63 => 0x40,
        0x64 => 0x01,
        0x65 => 0xC0,
        0x66 => 0x80,
        0x67 => 0x41,
        0x68 => 0x01,
        0x69 => 0xC0,
        0x6A => 0x80,
        0x6B => 0x41,
        0x6C => 0x00,
        0x6D => 0xC1,
        0x6E => 0x81,
        0x6F => 0x40,
        0x70 => 0x01,
        0x71 => 0xC0,
        0x72 => 0x80,
        0x73 => 0x41,
        0x74 => 0x00,
        0x75 => 0xC1,
        0x76 => 0x81,
        0x77 => 0x40,
        0x78 => 0x00,
        0x79 => 0xC1,
        0x7A => 0x81,
        0x7B => 0x40,
        0x7C => 0x01,
        0x7D => 0xC0,
        0x7E => 0x80,
        0x7F => 0x41,
        0x80 => 0x01,
        0x81 => 0xC0,
        0x82 => 0x80,
        0x83 => 0x41,
        0x84 => 0x00,
        0x85 => 0xC1,
        0x86 => 0x81,
        0x87 => 0x40,
        0x88 => 0x00,
        0x89 => 0xC1,
        0x8A => 0x81,
        0x8B => 0x40,
        0x8C => 0x01,
        0x8D => 0xC0,
        0x8E => 0x80,
        0x8F => 0x41,
        0x90 => 0x00,
        0x91 => 0xC1,
        0x92 => 0x81,
        0x93 => 0x40,
        0x94 => 0x01,
        0x95 => 0xC0,
        0x96 => 0x80,
        0x97 => 0x41,
        0x98 => 0x01,
        0x99 => 0xC0,
        0x9A => 0x80,
        0x9B => 0x41,
        0x9C => 0x00,
        0x9D => 0xC1,
        0x9E => 0x81,
        0x9F => 0x40,
        0xA0 => 0x00,
        0xA1 => 0xC1,
        0xA2 => 0x81,
        0xA3 => 0x40,
        0xA4 => 0x01,
        0xA5 => 0xC0,
        0xA6 => 0x80,
        0xA7 => 0x41,
        0xA8 => 0x01,
        0xA9 => 0xC0,
        0xAA => 0x80,
        0xAB => 0x41,
        0xAC => 0x00,
        0xAD => 0xC1,
        0xAE => 0x81,
        0xAF => 0x40,
        0xB0 => 0x01,
        0xB1 => 0xC0,
        0xB2 => 0x80,
        0xB3 => 0x41,
        0xB4 => 0x00,
        0xB5 => 0xC1,
        0xB6 => 0x81,
        0xB7 => 0x40,
        0xB8 => 0x00,
        0xB9 => 0xC1,
        0xBA => 0x81,
        0xBB => 0x40,
        0xBC => 0x01,
        0xBD => 0xC0,
        0xBE => 0x80,
        0xBF => 0x41,
        0xC0 => 0x00,
        0xC1 => 0xC1,
        0xC2 => 0x81,
        0xC3 => 0x40,
        0xC4 => 0x01,
        0xC5 => 0xC0,
        0xC6 => 0x80,
        0xC7 => 0x41,
        0xC8 => 0x01,
        0xC9 => 0xC0,
        0xCA => 0x80,
        0xCB => 0x41,
        0xCC => 0x00,
        0xCD => 0xC1,
        0xCE => 0x81,
        0xCF => 0x40,
        0xD0 => 0x01,
        0xD1 => 0xC0,
        0xD2 => 0x80,
        0xD3 => 0x41,
        0xD4 => 0x00,
        0xD5 => 0xC1,
        0xD6 => 0x81,
        0xD7 => 0x40,
        0xD8 => 0x00,
        0xD9 => 0xC1,
        0xDA => 0x81,
        0xDB => 0x40,
        0xDC => 0x01,
        0xDD => 0xC0,
        0xDE => 0x80,
        0xDF => 0x41,
        0xE0 => 0x01,
        0xE1 => 0xC0,
        0xE2 => 0x80,
        0xE3 => 0x41,
        0xE4 => 0x00,
        0xE5 => 0xC1,
        0xE6 => 0x81,
        0xE7 => 0x40,
        0xE8 => 0x00,
        0xE9 => 0xC1,
        0xEA => 0x81,
        0xEB => 0x40,
        0xEC => 0x01,
        0xED => 0xC0,
        0xEE => 0x80,
        0xEF => 0x41,
        0xF0 => 0x00,
        0xF1 => 0xC1,
        0xF2 => 0x81,
        0xF3 => 0x40,
        0xF4 => 0x01,
        0xF5 => 0xC0,
        0xF6 => 0x80,
        0xF7 => 0x41,
        0xF8 => 0x01,
        0xF9 => 0xC0,
        0xFA => 0x80,
        0xFB => 0x41,
        0xFC => 0x00,
        0xFD => 0xC1,
        0xFE => 0x81,
        0xFF => 0x40,
    }
}

/// Lookup table: high byte of the register contribution of an index.
fn crc_table_low(index: u8) -> (entry: u8)
    ensures
        entry as u16 == crc16_shift8(index as u16) >> 8u16,
{
    proof {
        lemma_table_high_bytes();
    }
    match index {
        0x00 => 0x00,
        0x01 => 0xC0,
        0x02 => 0xC1,
        0x03 => 0x01,
        0x04 => 0xC3,
        0x05 => 0x03,
        0x06 => 0x02,
        0x07 => 0xC2,
        0x08 => 0xC6,
        0x09 => 0x06,
        0x0A => 0x07,
        0x0B => 0xC7,
        0x0C => 0x05,
        0x0D => 0xC5,
        0x0E => 0xC4,
        0x0F => 0x04,
        0x10 => 0xCC,
        0x11 => 0x0C,
        0x12 => 0x0D,
        0x13 => 0xCD,
        0x14 => 0x0F,
        0x15 => 0xCF,
        0x16 => 0xCE,
        0x17 => 0x0E,
        0x18 => 0x0A,
        0x19 => 0xCA,
        0x1A => 0xCB,
        0x1B => 0x0B,
        0x1C => 0xC9,
        0x1D => 0x09,
        0x1E => 0x08,
        0x1F => 0xC8,
        0x20 => 0xD8,
        0x21 => 0x18,
        0x22 => 0x19,
        0x23 => 0xD9,
        0x24 => 0x1B,
        0x25 => 0xDB,
        0x26 => 0xDA,
        0x27 => 0x1A,
        0x28 => 0x1E,
        0x29 => 0xDE,
        0x2A => 0xDF,
        0x2B => 0x1F,
        0x2C => 0xDD,
        0x2D => 0x1D,
        0x2E => 0x1C,
        0x2F => 0xDC,
        0x30 => 0x14,
        0x31 => 0xD4,
        0x32 => 0xD5,
        0x33 => 0x15,
        0x34 => 0xD7,
        0x35 => 0x17,
        0x36 => 0x16,
        0x37 => 0xD6,
        0x38 => 0xD2,
        0x39 => 0x12,
        0x3A => 0x13,
        0x3B => 0xD3,
        0x3C => 0x11,
        0x3D => 0xD1,
        0x3E => 0xD0,
        0x3F => 0x10,
        0x40 => 0xF0,
        0x41 => 0x30,
        0x42 => 0x31,
        0x43 => 0xF1,
        0x44 => 0x33,
        0x45 => 0xF3,
        0x46 => 0xF2,
        0x47 => 0x32,
        0x48 => 0x36,
        0x49 => 0xF6,
        0x4A => 0xF7,
        0x4B => 0x37,
        0x4C => 0xF5,
        0x4D => 0x35,
        0x4E => 0x34,
        0x4F => 0xF4,
        0x50 => 0x3C,
        0x51 => 0xFC,
        0x52 => 0xFD,
        0x53 => 0x3D,
        0x54 => 0xFF,
        0x55 => 0x3F,
        0x56 => 0x3E,
        0x57 => 0xFE,
        0x58 => 0xFA,
        0x59 => 0x3A,
        0x5A => 0x3B,
        0x5B => 0xFB,
        0x5C => 0x39,
        0x5D => 0xF9,
        0x5E => 0xF8,
        0x5F => 0x38,
        0x60 => 0x28,
        0x61 => 0xE8,
        0x62 => 0xE9,
        0x63 => 0x29,
        0x64 => 0xEB,
        0x65 => 0x2B,
        0x66 => 0x2A,
        0x67 => 0xEA,
        0x68 => 0xEE,
        0x69 => 0x2E,
        0x6A => 0x2F,
        0x6B => 0xEF,
        0x6C => 0x2D,
        0x6D => 0xED,
        0x6E => 0xEC,
        0x6F => 0x2C,
        0x70 => 0xE4,
        0x71 => 0x24,
        0x72 => 0x25,
        0x73 => 0xE5,
        0x74 => 0x27,
        0x75 => 0xE7,
        0x76 => 0xE6,
        0x77 => 0x26,
        0x78 => 0x22,
        0x79 => 0xE2,
        0x7A => 0xE3,
        0x7B => 0x23,
        0x7C => 0xE1,
        0x7D => 0x21,
        0x7E => 0x20,
        0x7F => 0xE0,
        0x80 => 0xA0,
        0x81 => 0x60,
        0x82 => 0x61,
        0x83 => 0xA1,
        0x84 => 0x63,
        0x85 => 0xA3,
        0x86 => 0xA2,
        0x87 => 0x62,
        0x88 => 0x66,
        0x89 => 0xA6,
        0x8A => 0xA7,
        0x8B => 0x67,
        0x8C => 0xA5,
        0x8D => 0x65,
        0x8E => 0x64,
        0x8F => 0xA4,
        0x90 => 0x6C,
        0x91 => 0xAC,
        0x92 => 0xAD,
        0x93 => 0x6D,
        0x94 => 0xAF,
        0x95 => 0x6F,
        0x96 => 0x6E,
        0x97 => 0xAE,
        0x98 => 0xAA,
        0x99 => 0x6A,
        0x9A => 0x6B,
        0x9B => 0xAB,
        0x9C => 0x69,
        0x9D => 0xA9,
        0x9E => 0xA8,
        0x9F => 0x68,
        0xA0 => 0x78,
        0xA1 => 0xB8,
        0xA2 => 0xB9,
        0xA3 => 0x79,
        0xA4 => 0xBB,
        0xA5 => 0x7B,
        0xA6 => 0x7A,
        0xA7 => 0xBA,
        0xA8 => 0xBE,
        0xA9 => 0x7E,
        0xAA => 0x7F,
        0xAB => 0xBF,
        0xAC => 0x7D,
        0xAD => 0xBD,
        0xAE => 0xBC,
        0xAF => 0x7C,
        0xB0 => 0xB4,
        0xB1 => 0x74,
        0xB2 => 0x75,
        0xB3 => 0xB5,
        0xB4 => 0x77,
        0xB5 => 0xB7,
        0xB6 => 0xB6,
        0xB7 => 0x76,
        0xB8 => 0x72,
        0xB9 => 0xB2,
        0xBA => 0xB3,
        0xBB => 0x73,
        0xBC => 0xB1,
        0xBD => 0x71,
        0xBE => 0x70,
        0xBF => 0xB0,
        0xC0 => 0x50,
        0xC1 => 0x90,
        0xC2 => 0x91,
        0xC3 => 0x51,
        0xC4 => 0x93,
        0xC5 => 0x53,
        0xC6 => 0x52,
        0xC7 => 0x92,
        0xC8 => 0x96,
        0xC9 => 0x56,
        0xCA => 0x57,
        0xCB => 0x97,
        0xCC => 0x55,
        0xCD => 0x95,
        0xCE => 0x94,
        0xCF => 0x54,
        0xD0 => 0x9C,
        0xD1 => 0x5C,
        0xD2 => 0x5D,
        0xD3 => 0x9D,
        0xD4 => 0x5F,
        0xD5 => 0x9F,
        0xD6 => 0x9E,
        0xD7 => 0x5E,
        0xD8 => 0x5A,
        0xD9 => 0x9A,
        0xDA => 0x9B,
        0xDB => 0x5B,
        0xDC => 0x99,
        0xDD => 0x59,
        0xDE => 0x58,
        0xDF => 0x98,
        0xE0 => 0x88,
        0xE1 => 0x48,
        0xE2 => 0x49,
        0xE3 => 0x89,
        0xE4 => 0x4B,
        0xE5 => 0x8B,
        0xE6 => 0x8A,
        0xE7 => 0x4A,
        0xE8 => 0x4E,
        0xE9 => 0x8E,
        0xEA => 0x8F,
        0xEB => 0x4F,
        0xEC => 0x8D,
        0xED => 0x4D,
        0xEE => 0x4C,
        0xEF => 0x8C,
        0xF0 => 0x44,
        0xF1 => 0x84,
        0xF2 => 0x85,
        0xF3 => 0x45,
        0xF4 => 0x87,
        0xF5 => 0x47,
        0xF6 => 0x46,
        0xF7 => 0x86,
        0xF8 => 0x82,
        0xF9 => 0x42,
        0xFA => 0x43,
        0xFB => 0x83,
        0xFC => 0x41,
        0xFD => 0x81,
        0xFE => 0x80,
        0xFF => 0x40,
    }
}

/// Splitting the register into its two bytes, one table step is one byte of
/// the bitwise algorithm.
proof fn lemma_table_step(hi: u8, lo: u8, byte: u8, th: u8, tl: u8)
    by (bit_vector)
    requires
        th as u16 == crc16_shift8((lo ^ byte) as u16) & 0xFFu16,
        tl as u16 == crc16_shift8((lo ^ byte) as u16) >> 8u16,
    ensures
        ((tl as u16) << 8u16) | ((hi ^ th) as u16) == crc16_shift8(
            (((hi as u16) << 8u16) | (lo as u16)) ^ (byte as u16),
        ),
{
}

/// CRC-16/MODBUS of `data`, computed a byte at a time with lookup tables.
pub fn modbus_crc(data: &[u8]) -> (crc: u16)
    ensures
        crc == modbus_crc_of(data@),
{
    let mut crc_high: u8 = 0xFF;
    let mut crc_low: u8 = 0xFF;
    assert(((crc_high as u16) << 8u16) | (crc_low as u16) == 0xFFFFu16) by (bit_vector)
        requires
            crc_high == 0xFFu8,
            crc_low == 0xFFu8,
    ;
    assert(data@.take(0) =~= Seq::<u8>::empty());
    for i in 0..data.len()
        invariant
            ((crc_high as u16) << 8u16) | (crc_low as u16) == modbus_crc_of(data@.take(i as int)),
    {
        let byte = data[i];
        let index = crc_low ^ byte;
        let th = crc_table_high(index);
        let tl = crc_table_low(index);
        proof {
            lemma_table_step(crc_high, crc_low, byte, th, tl);
            assert(data@.take(i + 1).drop_last() =~= data@.take(i as int));
        }
        crc_low = crc_high ^ th;
        crc_high = tl;
    }
    assert(data@.take(data.len() as int) =~= data@);
    ((crc_high as u16) << 8u16) | (crc_low as u16)
}


// ---------------------------------------------------------------------------
// Frames for the RS485 relay board
// ---------------------------------------------------------------------------

/// A frame: the payload followed by its CRC, low byte first.
pub open spec fn modbus_frame_of(payload: Seq<u8>) -> Seq<u8> {
    payload + seq![
        (modbus_crc_of(payload) & 0xFFu16) as u8,
        (modbus_crc_of(payload) >> 8u16) as u8,
    ]
}

/// Function code of "write single register".
pub const WRITE_SINGLE_REGISTER: u8 = 0x06;

/// Function code of "write single coil", which switches one relay.
pub const WRITE_SINGLE_COIL: u8 = 0x05;

/// Payload of a "write single register" command.
pub open spec fn write_register_payload(device: u8, register: u16, value: u16) -> Seq<u8> {
    seq![
        device,
        WRITE_SINGLE_REGISTER,
        (register >> 8u16) as u8,
        (register & 0xFFu16) as u8,
        (value >> 8u16) as u8,
        (value & 0xFFu16) as u8,
    ]
}

/// Payload of a command that opens (0xFF) or closes (0x00) relay `relay_id`.
pub open spec fn relay_payload(device: u8, relay_id: u8, open: bool) -> Seq<u8> {
    seq![
        device,
        WRITE_SINGLE_COIL,
        0x00u8,
        relay_id,
        if open {
            0xFFu8
        } else {
            0x00u8
        },
        0x00u8,
    ]
}

/// The low byte of a CRC is its value modulo 256, the high byte its value
/// divided by 256.
proof fn lemma_crc_bytes(crc: u16)
    ensures
        ((crc & 0xFFu16) as u8) as int == crc as int % 256,
        ((crc >> 8u16) as u8) as int == crc as int / 256,
{
    assert(((crc & 0xFFu16) as u8) as u16 == crc % 256) by (bit_vector);
    assert(((crc >> 8u16) as u8) as u16 == crc / 256) by (bit_vector);
}

/// A frame is its payload followed by the CRC-16/MODBUS of that payload,
/// low byte first.
pub proof fn lemma_frame_layout(payload: Seq<u8>)
    ensures
        modbus_frame_of(payload).len() == payload.len() + 2,
        modbus_frame_of(payload).take(payload.len() as int) == payload,
        modbus_frame_of(payload)[payload.len() as int] as int == modbus_crc_of(payload) as int
            % 256,
        modbus_frame_of(payload)[payload.len() + 1int] as int == modbus_crc_of(payload) as int
            / 256,
{
    lemma_crc_bytes(modbus_crc_of(payload));
    assert(modbus_frame_of(payload).take(payload.len() as int) =~= payload);
}

/// The frame that writes a register addresses the device asked for, carries
/// function code 6, then the register and the value, each high byte first,
/// then the CRC of those six bytes, low byte first.
pub proof fn lemma_write_register_frame(device: u8, register: u16, value: u16)
    ensures
        ({
            let frame = modbus_frame_of(write_register_payload(device, register, value));
            &&& frame.len() == 8
            &&& frame[0] == device
            &&& frame[1] == 0x06
            &&& frame[2] as int == register as int / 256
            &&& frame[3] as int == register as int % 256
            &&& frame[4] as int == value as int / 256
            &&& frame[5] as int == value as int % 256
            &&& frame[6] as int == modbus_crc_of(frame.take(6)) as int % 256
            &&& frame[7] as int == modbus_crc_of(frame.take(6)) as int / 256
        }),
{
    let payload = write_register_payload(device, register, value);
    lemma_frame_layout(payload);
    lemma_crc_bytes(register);
    lemma_crc_bytes(value);
    assert(modbus_frame_of(payload)[0] == payload[0]);
    assert(modbus_frame_of(payload)[1] == payload[1]);
    assert(modbus_frame_of(payload)[2] == payload[2]);
    assert(modbus_frame_of(payload)[3] == payload[3]);
    assert(modbus_frame_of(payload)[4] == payload[4]);
    assert(modbus_frame_of(payload)[5] == payload[5]);
}

/// The frame that switches a relay addresses the device asked for, carries
/// function code 5, a zero byte, the relay id itself, 0xFF to open or 0x00 to
/// close, a zero byte, then the CRC of those six bytes, low byte first.
pub proof fn lemma_relay_frame(device: u8, relay_id: u8, open: bool)
    ensures
        ({
            let frame = modbus_frame_of(relay_payload(device, relay_id, open));
            &&& frame.len() == 8
            &&& frame[0] == device
            &&& frame[1] == 0x05
            &&& frame[2] == 0x00
            &&& frame[3] == relay_id
            &&& frame[4] == if open {
                0xFFu8
            } else {
                0x00u8
            }
            &&& frame[5] == 0x00
            &&& frame[6] as int == modbus_crc_of(frame.take(6)) as int % 256
            &&& frame[7] as int == modbus_crc_of(frame.take(6)) as int / 256
        }),
{
    let payload = relay_payload(device, relay_id, open);
    lemma_frame_layout(payload);
    assert(modbus_frame_of(payload)[0] == payload[0]);
    assert(modbus_frame_of(payload)[1] == payload[1]);
    assert(modbus_frame_of(payload)[2] == payload[2]);
    assert(modbus_frame_of(payload)[3] == payload[3]);
    assert(modbus_frame_of(payload)[4] == payload[4]);
    assert(modbus_frame_of(payload)[5] == payload[5]);
}

/// Completes a six-byte payload into a frame by appending its CRC, low byte first.
pub fn with_crc(payload: [u8; 6]) -> (frame: [u8; 8])
    ensures
        frame@ == modbus_frame_of(payload@),
{
    let crc = modbus_crc(payload.as_slice());
    let frame = [
        payload[0],
        payload[1],
        payload[2],
        payload[3],
        payload[4],
        payload[5],
        (crc & 0xFF) as u8,
        (crc >> 8) as u8,
    ];
    assert(frame@ =~= modbus_frame_of(payload@));
    frame
}

/// The frame that writes `value` into register `register` of `device`, both
/// in big-endian order, as the relay board's configuration commands do.
pub fn write_register_command(device: u8, register: u16, value: u16) -> (frame: [u8; 8])
    ensures
        frame@ == modbus_frame_of(write_register_payload(device, register, value)),
{
    let payload = [
        device,
        WRITE_SINGLE_REGISTER,
        (register >> 8) as u8,
        (register & 0xFF) as u8,
        (value >> 8) as u8,
        (value & 0xFF) as u8,
    ];
    assert(payload@ =~= write_register_payload(device, register, value));
    with_crc(payload)
}

/// The frame that opens (`open`) or closes relay `relay_id` of `device`.
pub fn relay_command(device: u8, relay_id: u8, open: bool) -> (frame: [u8; 8])
    ensures
        frame@ == modbus_frame_of(relay_payload(device, relay_id, open)),
{
    let state: u8 = if open {
        0xFF
    } else {
        0x00
    };
    let payload = [device, WRITE_SINGLE_COIL, 0x00, relay_id, state, 0x00];
    assert(payload@ =~= relay_payload(device, relay_id, open));
    with_crc(payload)
}


/// Register of the relay board that holds its baud-rate setting.
pub const BAUD_RATE_REGISTER: u16 = 0x2000;

/// Baud-rate setting the pedestal gives the relay board.
pub const BAUD_RATE_SETTING: u16 = 0x0007;

/// Register of the relay board that holds its device address.
pub const DEVICE_ADDRESS_REGISTER: u16 = 0x4000;

/// Device address the pedestal gives the relay board.
pub const DEVICE_ADDRESS_SETTING: u16 = 0x0001;

/// The configuration the pedestal sends the relay board before anything
/// else, in order: the baud-rate setting, then the device address.
pub fn configuration_commands(device: u8) -> (frames: [[u8; 8]; 2])
    ensures
        frames@[0]@ == modbus_frame_of(
            write_register_payload(device, BAUD_RATE_REGISTER, BAUD_RATE_SETTING),
        ),
        frames@[1]@ == modbus_frame_of(
            write_register_payload(device, DEVICE_ADDRESS_REGISTER, DEVICE_ADDRESS_SETTING),
        ),
{
    [
        write_register_command(device, BAUD_RATE_REGISTER, BAUD_RATE_SETTING),
        write_register_command(device, DEVICE_ADDRESS_REGISTER, DEVICE_ADDRESS_SETTING),
    ]
}

/// Number of relays on the relay board.
pub const RELAY_COUNT: usize = 8;

/// One round of the pedestal: the frames that open (`open`) or close relays
/// 0 to 7 of `device`, in that order.
pub fn relay_round(device: u8, open: bool) -> (frames: [[u8; 8]; 8])
    ensures
        forall|i: int|
            0 <= i < RELAY_COUNT ==> frames@[i]@ == modbus_frame_of(
                relay_payload(device, i as u8, open),
            ),
{
    let mut frames = [[0u8;8];8];
    for relay in 0..RELAY_COUNT
        invariant
            frames@.len() == RELAY_COUNT,
            forall|i: int|
                0 <= i < relay ==> frames@[i]@ == modbus_frame_of(
                    relay_payload(device, i as u8, open),
                ),
    {
        frames[relay] = relay_command(device, relay as u8, open);
    }
    frames
}

} // verus!
