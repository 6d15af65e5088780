//! The 16-bit CRC of Dynamixel protocol 2.0 (polynomial 0x8005, initial
//! value given by the caller, no reflection, no final xor).
use vstd::prelude::*;
use crate::bytes::{DM_HIBYTE, hi_byte};

verus! {

/// One step of the shift register: shift left by one bit and, when the bit
/// that falls out was set, xor in the polynomial 0x8005.
pub open spec fn crc_shift_bit(c: u16) -> u16 {
    if c & 0x8000u16 != 0u16 {
        (c << 1u16) ^ 0x8005u16
    } else {
        c << 1u16
    }
}

/// Eight steps of the shift register.
pub open spec fn crc_shift_byte(c: u16) -> u16 {
    crc_shift_bit(crc_shift_bit(crc_shift_bit(crc_shift_bit(
        crc_shift_bit(crc_shift_bit(crc_shift_bit(crc_shift_bit(c))))))))
}

/// The register after feeding the byte `b` into the register `crc`, most
/// significant bit first.
pub open spec fn crc_step(crc: u16, b: u8) -> u16 {
    crc_shift_byte(crc ^ ((b as u16) * 256) as u16)
}

/// The CRC of `data` with the register starting at `init`.
pub open spec fn crc16(init: u16, data: Seq<u8>) -> u16
    decreases data.len(),
{
    if data.len() == 0 {
        init
    } else {
        crc_step(crc16(init, data.drop_last()), data.last())
    }
}

/// What the lookup table holds at index `i`: the register after shifting
/// `i` through it from the top byte.
pub open spec fn crc_table_entry(i: int) -> u16 {
    crc_shift_byte((i * 256) as u16)
}

/// The lookup table of the byte-wise CRC.
pub const CRC_TABLE: [u16; 256] = [
    0x0000, 0x8005, 0x800F, 0x000A, 0x801B, 0x001E, 0x0014, 0x8011,
    0x8033, 0x0036, 0x003C, 0x8039, 0x0028, 0x802D, 0x8027, 0x0022,
    0x8063, 0x0066, 0x006C, 0x8069, 0x0078, 0x807D, 0x8077, 0x0072,
    0x0050, 0x8055, 0x805F, 0x005A, 0x804B, 0x004E, 0x0044, 0x8041,
    0x80C3, 0x00C6, 0x00CC, 0x80C9, 0x00D8, 0x80DD, 0x80D7, 0x00D2,
    0x00F0, 0x80F5, 0x80FF, 0x00FA, 0x80EB, 0x00EE, 0x00E4, 0x80E1,
    0x00A0, 0x80A5, 0x80AF, 0x00AA, 0x80BB, 0x00BE, 0x00B4, 0x80B1,
    0x8093, 0x0096, 0x009C, 0x8099, 0x0088, 0x808D, 0x8087, 0x0082,
    0x8183, 0x0186, 0x018C, 0x8189, 0x0198, 0x819D, 0x8197, 0x0192,
    0x01B0, 0x81B5, 0x81BF, 0x01BA, 0x81AB, 0x01AE, 0x01A4, 0x81A1,
    0x01E0, 0x81E5, 0x81EF, 0x01EA, 0x81FB, 0x01FE, 0x01F4, 0x81F1,
    0x81D3, 0x01D6, 0x01DC, 0x81D9, 0x01C8, 0x81CD, 0x81C7, 0x01C2,
    0x0140, 0x8145, 0x814F, 0x014A, 0x815B, 0x015E, 0x0154, 0x8151,
    0x8173, 0x0176, 0x017C, 0x8179, 0x0168, 0x816D, 0x8167, 0x0162,
    0x8123, 0x0126, 0x012C, 0x8129, 0x0138, 0x813D, 0x8137, 0x0132,
    0x0110, 0x8115, 0x811F, 0x011A, 0x810B, 0x010E, 0x0104, 0x8101,
    0x8303, 0x0306, 0x030C, 0x8309, 0x0318, 0x831D, 0x8317, 0x0312,
    0x0330, 0x8335, 0x833F, 0x033A, 0x832B, 0x032E, 0x0324, 0x8321,
    0x0360, 0x8365, 0x836F, 0x036A, 0x837B, 0x037E, 0x0374, 0x8371,
    0x8353, 0x0356, 0x035C, 0x8359, 0x0348, 0x834D, 0x8347, 0x0342,
    0x03C0, 0x83C5, 0x83CF, 0x03CA, 0x83DB, 0x03DE, 0x03D4, 0x83D1,
    0x83F3, 0x03F6, 0x03FC, 0x83F9, 0x03E8, 0x83ED, 0x83E7, 0x03E2,
    0x83A3, 0x03A6, 0x03AC, 0x83A9, 0x03B8, 0x83BD, 0x83B7, 0x03B2,
    0x0390, 0x8395, 0x839F, 0x039A, 0x838B, 0x038E, 0x0384, 0x8381,
    0x0280, 0x8285, 0x828F, 0x028A, 0x829B, 0x029E, 0x0294, 0x8291,
    0x82B3, 0x02B6, 0x02BC, 0x82B9, 0x02A8, 0x82AD, 0x82A7, 0x02A2,
    0x82E3, 0x02E6, 0x02EC, 0x82E9, 0x02F8, 0x82FD, 0x82F7, 0x02F2,
    0x02D0, 0x82D5, 0x82DF, 0x02DA, 0x82CB, 0x02CE, 0x02C4, 0x82C1,
    0x8243, 0x0246, 0x024C, 0x8249, 0x0258, 0x825D, 0x8257, 0x0252,
    0x0270, 0x8275, 0x827F, 0x027A, 0x826B, 0x026E, 0x0264, 0x8261,
    0x0220, 0x8225, 0x822F, 0x022A, 0x823B, 0x023E, 0x0234, 0x8231,
    0x8213, 0x0216, 0x021C, 0x8219, 0x0208, 0x820D, 0x8207, 0x0202,
];

/// Entries 0 to 31 of the table, each checked against the polynomial.
proof fn lemma_table_part_0()
    ensures
        forall|i: int| 0 <= i < 32 ==> #[trigger] CRC_TABLE@[i] == crc_table_entry(i),
{
    assert(
        crc_shift_byte(0x0000u16) == 0x0000u16 &&
        crc_shift_byte(0x0100u16) == 0x8005u16 &&
        crc_shift_byte(0x0200u16) == 0x800Fu16 &&
        crc_shift_byte(0x0300u16) == 0x000Au16 &&
        crc_shift_byte(0x0400u16) == 0x801Bu16 &&
        crc_shift_byte(0x0500u16) == 0x001Eu16 &&
        crc_shift_byte(0x0600u16) == 0x0014u16 &&
        crc_shift_byte(0x0700u16) == 0x8011u16 &&
        crc_shift_byte(0x0800u16) == 0x8033u16 &&
        crc_shift_byte(0x0900u16) == 0x0036u16 &&
        crc_shift_byte(0x0A00u16) == 0x003Cu16 &&
        crc_shift_byte(0x0B00u16) == 0x8039u16 &&
        crc_shift_byte(0x0C00u16) == 0x0028u16 &&
        crc_shift_byte(0x0D00u16) == 0x802Du16 &&
        crc_shift_byte(0x0E00u16) == 0x8027u16 &&
        crc_shift_byte(0x0F00u16) == 0x0022u16 &&
        crc_shift_byte(0x1000u16) == 0x8063u16 &&
        crc_shift_byte(0x1100u16) == 0x0066u16 &&
        crc_shift_byte(0x1200u16) == 0x006Cu16 &&
        crc_shift_byte(0x1300u16) == 0x8069u16 &&
        crc_shift_byte(0x1400u16) == 0x0078u16 &&
        crc_shift_byte(0x1500u16) == 0x807Du16 &&
        crc_shift_byte(0x1600u16) == 0x8077u16 &&
        crc_shift_byte(0x1700u16) == 0x0072u16 &&
        crc_shift_byte(0x1800u16) == 0x0050u16 &&
        crc_shift_byte(0x1900u16) == 0x8055u16 &&
        crc_shift_byte(0x1A00u16) == 0x805Fu16 &&
        crc_shift_byte(0x1B00u16) == 0x005Au16 &&
        crc_shift_byte(0x1C00u16) == 0x804Bu16 &&
        crc_shift_byte(0x1D00u16) == 0x004Eu16 &&
        crc_shift_byte(0x1E00u16) == 0x0044u16 &&
        crc_shift_byte(0x1F00u16) == 0x8041u16
    ) by (bit_vector);
    assert forall|i: int| 0 <= i < 32 implies #[trigger] CRC_TABLE@[i] == crc_table_entry(i) by {
        assert(
            i == 0 || i == 1 || i == 2 || i == 3 || i == 4 || i == 5 || i == 6 || i == 7
            || i == 8 || i == 9 || i == 10 || i == 11 || i == 12 || i == 13 || i == 14 || i == 15
            || i == 16 || i == 17 || i == 18 || i == 19 || i == 20 || i == 21 || i == 22 || i == 23
            || i == 24 || i == 25 || i == 26 || i == 27 || i == 28 || i == 29 || i == 30 || i == 31
        );
    }
}

/// Entries 32 to 63 of the table, each checked against the polynomial.
proof fn lemma_table_part_1()
    ensures
        forall|i: int| 32 <= i < 64 ==> #[trigger] CRC_TABLE@[i] == crc_table_entry(i),
{
    assert(
        crc_shift_byte(0x2000u16) == 0x80C3u16 &&
        crc_shift_byte(0x2100u16) == 0x00C6u16 &&
        crc_shift_byte(0x2200u16) == 0x00CCu16 &&
        crc_shift_byte(0x2300u16) == 0x80C9u16 &&
        crc_shift_byte(0x2400u16) == 0x00D8u16 &&
        crc_shift_byte(0x2500u16) == 0x80DDu16 &&
        crc_shift_byte(0x2600u16) == 0x80D7u16 &&
        crc_shift_byte(0x2700u16) == 0x00D2u16 &&
        crc_shift_byte(0x2800u16) == 0x00F0u16 &&
        crc_shift_byte(0x2900u16) == 0x80F5u16 &&
        crc_shift_byte(0x2A00u16) == 0x80FFu16 &&
        crc_shift_byte(0x2B00u16) == 0x00FAu16 &&
        crc_shift_byte(0x2C00u16) == 0x80EBu16 &&
        crc_shift_byte(0x2D00u16) == 0x00EEu16 &&
        crc_shift_byte(0x2E00u16) == 0x00E4u16 &&
        crc_shift_byte(0x2F00u16) == 0x80E1u16 &&
        crc_shift_byte(0x3000u16) == 0x00A0u16 &&
        crc_shift_byte(0x3100u16) == 0x80A5u16 &&
        crc_shift_byte(0x3200u16) == 0x80AFu16 &&
        crc_shift_byte(0x3300u16) == 0x00AAu16 &&
        crc_shift_byte(0x3400u16) == 0x80BBu16 &&
        crc_shift_byte(0x3500u16) == 0x00BEu16 &&
        crc_shift_byte(0x3600u16) == 0x00B4u16 &&
        crc_shift_byte(0x3700u16) == 0x80B1u16 &&
        crc_shift_byte(0x3800u16) == 0x8093u16 &&
        crc_shift_byte(0x3900u16) == 0x0096u16 &&
        crc_shift_byte(0x3A00u16) == 0x009Cu16 &&
        crc_shift_byte(0x3B00u16) == 0x8099u16 &&
        crc_shift_byte(0x3C00u16) == 0x0088u16 &&
        crc_shift_byte(0x3D00u16) == 0x808Du16 &&
        crc_shift_byte(0x3E00u16) == 0x8087u16 &&
        crc_shift_byte(0x3F00u16) == 0x0082u16
    ) by (bit_vector);
    assert forall|i: int| 32 <= i < 64 implies #[trigger] CRC_TABLE@[i] == crc_table_entry(i) by {
        assert(
            i == 32 || i == 33 || i == 34 || i == 35 || i == 36 || i == 37 || i == 38 || i == 39
            || i == 40 || i == 41 || i == 42 || i == 43 || i == 44 || i == 45 || i == 46 || i == 47
            || i == 48 || i == 49 || i == 50 || i == 51 || i == 52 || i == 53 || i == 54 || i == 55
            || i == 56 || i == 57 || i == 58 || i == 59 || i == 60 || i == 61 || i == 62 || i == 63
        );
    }
}

/// Entries 64 to 95 of the table, each checked against the polynomial.
proof fn lemma_table_part_2()
    ensures
        forall|i: int| 64 <= i < 96 ==> #[trigger] CRC_TABLE@[i] == crc_table_entry(i),
{
    assert(
        crc_shift_byte(0x4000u16) == 0x8183u16 &&
        crc_shift_byte(0x4100u16) == 0x0186u16 &&
        crc_shift_byte(0x4200u16) == 0x018Cu16 &&
        crc_shift_byte(0x4300u16) == 0x8189u16 &&
        crc_shift_byte(0x4400u16) == 0x0198u16 &&
        crc_shift_byte(0x4500u16) == 0x819Du16 &&
        crc_shift_byte(0x4600u16) == 0x8197u16 &&
        crc_shift_byte(0x4700u16) == 0x0192u16 &&
        crc_shift_byte(0x4800u16) == 0x01B0u16 &&
        crc_shift_byte(0x4900u16) == 0x81B5u16 &&
        crc_shift_byte(0x4A00u16) == 0x81BFu16 &&
        crc_shift_byte(0x4B00u16) == 0x01BAu16 &&
        crc_shift_byte(0x4C00u16) == 0x81ABu16 &&
        crc_shift_byte(0x4D00u16) == 0x01AEu16 &&
        crc_shift_byte(0x4E00u16) == 0x01A4u16 &&
        crc_shift_byte(0x4F00u16) == 0x81A1u16 &&
        crc_shift_byte(0x5000u16) == 0x01E0u16 &&
        crc_shift_byte(0x5100u16) == 0x81E5u16 &&
        crc_shift_byte(0x5200u16) == 0x81EFu16 &&
        crc_shift_byte(0x5300u16) == 0x01EAu16 &&
        crc_shift_byte(0x5400u16) == 0x81FBu16 &&
        crc_shift_byte(0x5500u16) == 0x01FEu16 &&
        crc_shift_byte(0x5600u16) == 0x01F4u16 &&
        crc_shift_byte(0x5700u16) == 0x81F1u16 &&
        crc_shift_byte(0x5800u16) == 0x81D3u16 &&
        crc_shift_byte(0x5900u16) == 0x01D6u16 &&
        crc_shift_byte(0x5A00u16) == 0x01DCu16 &&
        crc_shift_byte(0x5B00u16) == 0x81D9u16 &&
        crc_shift_byte(0x5C00u16) == 0x01C8u16 &&
        crc_shift_byte(0x5D00u16) == 0x81CDu16 &&
        crc_shift_byte(0x5E00u16) == 0x81C7u16 &&
        crc_shift_byte(0x5F00u16) == 0x01C2u16
    ) by (bit_vector);
    assert forall|i: int| 64 <= i < 96 implies #[trigger] CRC_TABLE@[i] == crc_table_entry(i) by {
        assert(
            i == 64 || i == 65 || i == 66 || i == 67 || i == 68 || i == 69 || i == 70 || i == 71
            || i == 72 || i == 73 || i == 74 || i == 75 || i == 76 || i == 77 || i == 78 || i == 79
            || i == 80 || i == 81 || i == 82 || i == 83 || i == 84 || i == 85 || i == 86 || i == 87
            || i == 88 || i == 89 || i == 90 || i == 91 || i == 92 || i == 93 || i == 94 || i == 95
        );
    }
}

/// Entries 96 to 127 of the table, each checked against the polynomial.
proof fn lemma_table_part_3()
    ensures
        forall|i: int| 96 <= i < 128 ==> #[trigger] CRC_TABLE@[i] == crc_table_entry(i),
{
    assert(
        crc_shift_byte(0x6000u16) == 0x0140u16 &&
        crc_shift_byte(0x6100u16) == 0x8145u16 &&
        crc_shift_byte(0x6200u16) == 0x814Fu16 &&
        crc_shift_byte(0x6300u16) == 0x014Au16 &&
        crc_shift_byte(0x6400u16) == 0x815Bu16 &&
        crc_shift_byte(0x6500u16) == 0x015Eu16 &&
        crc_shift_byte(0x6600u16) == 0x0154u16 &&
        crc_shift_byte(0x6700u16) == 0x8151u16 &&
        crc_shift_byte(0x6800u16) == 0x8173u16 &&
        crc_shift_byte(0x6900u16) == 0x0176u16 &&
        crc_shift_byte(0x6A00u16) == 0x017Cu16 &&
        crc_shift_byte(0x6B00u16) == 0x8179u16 &&
        crc_shift_byte(0x6C00u16) == 0x0168u16 &&
        crc_shift_byte(0x6D00u16) == 0x816Du16 &&
        crc_shift_byte(0x6E00u16) == 0x8167u16 &&
        crc_shift_byte(0x6F00u16) == 0x0162u16 &&
        crc_shift_byte(0x7000u16) == 0x8123u16 &&
        crc_shift_byte(0x7100u16) == 0x0126u16 &&
        crc_shift_byte(0x7200u16) == 0x012Cu16 &&
        crc_shift_byte(0x7300u16) == 0x8129u16 &&
        crc_shift_byte(0x7400u16) == 0x0138u16 &&
        crc_shift_byte(0x7500u16) == 0x813Du16 &&
        crc_shift_byte(0x7600u16) == 0x8137u16 &&
        crc_shift_byte(0x7700u16) == 0x0132u16 &&
        crc_shift_byte(0x7800u16) == 0x0110u16 &&
        crc_shift_byte(0x7900u16) == 0x8115u16 &&
        crc_shift_byte(0x7A00u16) == 0x811Fu16 &&
        crc_shift_byte(0x7B00u16) == 0x011Au16 &&
        crc_shift_byte(0x7C00u16) == 0x810Bu16 &&
        crc_shift_byte(0x7D00u16) == 0x010Eu16 &&
        crc_shift_byte(0x7E00u16) == 0x0104u16 &&
        crc_shift_byte(0x7F00u16) == 0x8101u16
    ) by (bit_vector);
    assert forall|i: int| 96 <= i < 128 implies #[trigger] CRC_TABLE@[i] == crc_table_entry(i) by {
        assert(
            i == 96 || i == 97 || i == 98 || i == 99 || i == 100 || i == 101 || i == 102 || i == 103
            || i == 104 || i == 105 || i == 106 || i == 107 || i == 108 || i == 109 || i == 110 || i == 111
            || i == 112 || i == 113 || i == 114 || i == 115 || i == 116 || i == 117 || i == 118 || i == 119
            || i == 120 || i == 121 || i == 122 || i == 123 || i == 124 || i == 125 || i == 126 || i == 127
        );
    }
}

/// Entries 128 to 159 of the table, each checked against the polynomial.
proof fn lemma_table_part_4()
    ensures
        forall|i: int| 128 <= i < 160 ==> #[trigger] CRC_TABLE@[i] == crc_table_entry(i),
{
    assert(
        crc_shift_byte(0x8000u16) == 0x8303u16 &&
        crc_shift_byte(0x8100u16) == 0x0306u16 &&
        crc_shift_byte(0x8200u16) == 0x030Cu16 &&
        crc_shift_byte(0x8300u16) == 0x8309u16 &&
        crc_shift_byte(0x8400u16) == 0x0318u16 &&
        crc_shift_byte(0x8500u16) == 0x831Du16 &&
        crc_shift_byte(0x8600u16) == 0x8317u16 &&
        crc_shift_byte(0x8700u16) == 0x0312u16 &&
        crc_shift_byte(0x8800u16) == 0x0330u16 &&
        crc_shift_byte(0x8900u16) == 0x8335u16 &&
        crc_shift_byte(0x8A00u16) == 0x833Fu16 &&
        crc_shift_byte(0x8B00u16) == 0x033Au16 &&
        crc_shift_byte(0x8C00u16) == 0x832Bu16 &&
        crc_shift_byte(0x8D00u16) == 0x032Eu16 &&
        crc_shift_byte(0x8E00u16) == 0x0324u16 &&
        crc_shift_byte(0x8F00u16) == 0x8321u16 &&
        crc_shift_byte(0x9000u16) == 0x0360u16 &&
        crc_shift_byte(0x9100u16) == 0x8365u16 &&
        crc_shift_byte(0x9200u16) == 0x836Fu16 &&
        crc_shift_byte(0x9300u16) == 0x036Au16 &&
        crc_shift_byte(0x9400u16) == 0x837Bu16 &&
        crc_shift_byte(0x9500u16) == 0x037Eu16 &&
        crc_shift_byte(0x9600u16) == 0x0374u16 &&
        crc_shift_byte(0x9700u16) == 0x8371u16 &&
        crc_shift_byte(0x9800u16) == 0x8353u16 &&
        crc_shift_byte(0x9900u16) == 0x0356u16 &&
        crc_shift_byte(0x9A00u16) == 0x035Cu16 &&
        crc_shift_byte(0x9B00u16) == 0x8359u16 &&
        crc_shift_byte(0x9C00u16) == 0x0348u16 &&
        crc_shift_byte(0x9D00u16) == 0x834Du16 &&
        crc_shift_byte(0x9E00u16) == 0x8347u16 &&
        crc_shift_byte(0x9F00u16) == 0x0342u16
    ) by (bit_vector);
    assert forall|i: int| 128 <= i < 160 implies #[trigger] CRC_TABLE@[i] == crc_table_entry(i) by {
        assert(
            i == 128 || i == 129 || i == 130 || i == 131 || i == 132 || i == 133 || i == 134 || i == 135
            || i == 136 || i == 137 || i == 138 || i == 139 || i == 140 || i == 141 || i == 142 || i == 143
            || i == 144 || i == 145 || i == 146 || i == 147 || i == 148 || i == 149 || i == 150 || i == 151
            || i == 152 || i == 153 || i == 154 || i == 155 || i == 156 || i == 157 || i == 158 || i == 159
        );
    }
}

/// Entries 160 to 191 of the table, each checked against the polynomial.
proof fn lemma_table_part_5()
    ensures
        forall|i: int| 160 <= i < 192 ==> #[trigger] CRC_TABLE@[i] == crc_table_entry(i),
{
    assert(
        crc_shift_byte(0xA000u16) == 0x03C0u16 &&
        crc_shift_byte(0xA100u16) == 0x83C5u16 &&
        crc_shift_byte(0xA200u16) == 0x83CFu16 &&
        crc_shift_byte(0xA300u16) == 0x03CAu16 &&
        crc_shift_byte(0xA400u16) == 0x83DBu16 &&
        crc_shift_byte(0xA500u16) == 0x03DEu16 &&
        crc_shift_byte(0xA600u16) == 0x03D4u16 &&
        crc_shift_byte(0xA700u16) == 0x83D1u16 &&
        crc_shift_byte(0xA800u16) == 0x83F3u16 &&
        crc_shift_byte(0xA900u16) == 0x03F6u16 &&
        crc_shift_byte(0xAA00u16) == 0x03FCu16 &&
        crc_shift_byte(0xAB00u16) == 0x83F9u16 &&
        crc_shift_byte(0xAC00u16) == 0x03E8u16 &&
        crc_shift_byte(0xAD00u16) == 0x83EDu16 &&
        crc_shift_byte(0xAE00u16) == 0x83E7u16 &&
        crc_shift_byte(0xAF00u16) == 0x03E2u16 &&
        crc_shift_byte(0xB000u16) == 0x83A3u16 &&
        crc_shift_byte(0xB100u16) == 0x03A6u16 &&
        crc_shift_byte(0xB200u16) == 0x03ACu16 &&
        crc_shift_byte(0xB300u16) == 0x83A9u16 &&
        crc_shift_byte(0xB400u16) == 0x03B8u16 &&
        crc_shift_byte(0xB500u16) == 0x83BDu16 &&
        crc_shift_byte(0xB600u16) == 0x83B7u16 &&
        crc_shift_byte(0xB700u16) == 0x03B2u16 &&
        crc_shift_byte(0xB800u16) == 0x0390u16 &&
        crc_shift_byte(0xB900u16) == 0x8395u16 &&
        crc_shift_byte(0xBA00u16) == 0x839Fu16 &&
        crc_shift_byte(0xBB00u16) == 0x039Au16 &&
        crc_shift_byte(0xBC00u16) == 0x838Bu16 &&
        crc_shift_byte(0xBD00u16) == 0x038Eu16 &&
        crc_shift_byte(0xBE00u16) == 0x0384u16 &&
        crc_shift_byte(0xBF00u16) == 0x8381u16
    ) by (bit_vector);
    assert forall|i: int| 160 <= i < 192 implies #[trigger] CRC_TABLE@[i] == crc_table_entry(i) by {
        assert(
            i == 160 || i == 161 || i == 162 || i == 163 || i == 164 || i == 165 || i == 166 || i == 167
            || i == 168 || i == 169 || i == 170 || i == 171 || i == 172 || i == 173 || i == 174 || i == 175
            || i == 176 || i == 177 || i == 178 || i == 179 || i == 180 || i == 181 || i == 182 || i == 183
            || i == 184 || i == 185 || i == 186 || i == 187 || i == 188 || i == 189 || i == 190 || i == 191
        );
    }
}

/// Entries 192 to 223 of the table, each checked against the polynomial.
proof fn lemma_table_part_6()
    ensures
        forall|i: int| 192 <= i < 224 ==> #[trigger] CRC_TABLE@[i] == crc_table_entry(i),
{
    assert(
        crc_shift_byte(0xC000u16) == 0x0280u16 &&
        crc_shift_byte(0xC100u16) == 0x8285u16 &&
        crc_shift_byte(0xC200u16) == 0x828Fu16 &&
        crc_shift_byte(0xC300u16) == 0x028Au16 &&
        crc_shift_byte(0xC400u16) == 0x829Bu16 &&
        crc_shift_byte(0xC500u16) == 0x029Eu16 &&
        crc_shift_byte(0xC600u16) == 0x0294u16 &&
        crc_shift_byte(0xC700u16) == 0x8291u16 &&
        crc_shift_byte(0xC800u16) == 0x82B3u16 &&
        crc_shift_byte(0xC900u16) == 0x02B6u16 &&
        crc_shift_byte(0xCA00u16) == 0x02BCu16 &&
        crc_shift_byte(0xCB00u16) == 0x82B9u16 &&
        crc_shift_byte(0xCC00u16) == 0x02A8u16 &&
        crc_shift_byte(0xCD00u16) == 0x82ADu16 &&
        crc_shift_byte(0xCE00u16) == 0x82A7u16 &&
        crc_shift_byte(0xCF00u16) == 0x02A2u16 &&
        crc_shift_byte(0xD000u16) == 0x82E3u16 &&
        crc_shift_byte(0xD100u16) == 0x02E6u16 &&
        crc_shift_byte(0xD200u16) == 0x02ECu16 &&
        crc_shift_byte(0xD300u16) == 0x82E9u16 &&
        crc_shift_byte(0xD400u16) == 0x02F8u16 &&
        crc_shift_byte(0xD500u16) == 0x82FDu16 &&
        crc_shift_byte(0xD600u16) == 0x82F7u16 &&
        crc_shift_byte(0xD700u16) == 0x02F2u16 &&
        crc_shift_byte(0xD800u16) == 0x02D0u16 &&
        crc_shift_byte(0xD900u16) == 0x82D5u16 &&
        crc_shift_byte(0xDA00u16) == 0x82DFu16 &&
        crc_shift_byte(0xDB00u16) == 0x02DAu16 &&
        crc_shift_byte(0xDC00u16) == 0x82CBu16 &&
        crc_shift_byte(0xDD00u16) == 0x02CEu16 &&
        crc_shift_byte(0xDE00u16) == 0x02C4u16 &&
        crc_shift_byte(0xDF00u16) == 0x82C1u16
    ) by (bit_vector);
    assert forall|i: int| 192 <= i < 224 implies #[trigger] CRC_TABLE@[i] == crc_table_entry(i) by {
        assert(
            i == 192 || i == 193 || i == 194 || i == 195 || i == 196 || i == 197 || i == 198 || i == 199
            || i == 200 || i == 201 || i == 202 || i == 203 || i == 204 || i == 205 || i == 206 || i == 207
            || i == 208 || i == 209 || i == 210 || i == 211 || i == 212 || i == 213 || i == 214 || i == 215
            || i == 216 || i == 217 || i == 218 || i == 219 || i == 220 || i == 221 || i == 222 || i == 223
        );
    }
}

/// Entries 224 to 255 of the table, each checked against the polynomial.
proof fn lemma_table_part_7()
    ensures
        forall|i: int| 224 <= i < 256 ==> #[trigger] CRC_TABLE@[i] == crc_table_entry(i),
{
    assert(
        crc_shift_byte(0xE000u16) == 0x8243u16 &&
        crc_shift_byte(0xE100u16) == 0x0246u16 &&
        crc_shift_byte(0xE200u16) == 0x024Cu16 &&
        crc_shift_byte(0xE300u16) == 0x8249u16 &&
        crc_shift_byte(0xE400u16) == 0x0258u16 &&
        crc_shift_byte(0xE500u16) == 0x825Du16 &&
        crc_shift_byte(0xE600u16) == 0x8257u16 &&
        crc_shift_byte(0xE700u16) == 0x0252u16 &&
        crc_shift_byte(0xE800u16) == 0x0270u16 &&
        crc_shift_byte(0xE900u16) == 0x8275u16 &&
        crc_shift_byte(0xEA00u16) == 0x827Fu16 &&
        crc_shift_byte(0xEB00u16) == 0x027Au16 &&
        crc_shift_byte(0xEC00u16) == 0x826Bu16 &&
        crc_shift_byte(0xED00u16) == 0x026Eu16 &&
        crc_shift_byte(0xEE00u16) == 0x0264u16 &&
        crc_shift_byte(0xEF00u16) == 0x8261u16 &&
        crc_shift_byte(0xF000u16) == 0x0220u16 &&
        crc_shift_byte(0xF100u16) == 0x8225u16 &&
        crc_shift_byte(0xF200u16) == 0x822Fu16 &&
        crc_shift_byte(0xF300u16) == 0x022Au16 &&
        crc_shift_byte(0xF400u16) == 0x823Bu16 &&
        crc_shift_byte(0xF500u16) == 0x023Eu16 &&
        crc_shift_byte(0xF600u16) == 0x0234u16 &&
        crc_shift_byte(0xF700u16) == 0x8231u16 &&
        crc_shift_byte(0xF800u16) == 0x8213u16 &&
        crc_shift_byte(0xF900u16) == 0x0216u16 &&
        crc_shift_byte(0xFA00u16) == 0x021Cu16 &&
        crc_shift_byte(0xFB00u16) == 0x8219u16 &&
        crc_shift_byte(0xFC00u16) == 0x0208u16 &&
        crc_shift_byte(0xFD00u16) == 0x820Du16 &&
        crc_shift_byte(0xFE00u16) == 0x8207u16 &&
        crc_shift_byte(0xFF00u16) == 0x0202u16
    ) by (bit_vector);
    assert forall|i: int| 224 <= i < 256 implies #[trigger] CRC_TABLE@[i] == crc_table_entry(i) by {
        assert(
            i == 224 || i == 225 || i == 226 || i == 227 || i == 228 || i == 229 || i == 230 || i == 231
            || i == 232 || i == 233 || i == 234 || i == 235 || i == 236 || i == 237 || i == 238 || i == 239
            || i == 240 || i == 241 || i == 242 || i == 243 || i == 244 || i == 245 || i == 246 || i == 247
            || i == 248 || i == 249 || i == 250 || i == 251 || i == 252 || i == 253 || i == 254 || i == 255
        );
    }
}

/// Every entry of the table is the polynomial shifted through its index.
pub proof fn lemma_crc_table()
    ensures
        forall|i: int| 0 <= i < 256 ==> #[trigger] CRC_TABLE@[i] == crc_table_entry(i),
{
    lemma_table_part_0();
    lemma_table_part_1();
    lemma_table_part_2();
    lemma_table_part_3();
    lemma_table_part_4();
    lemma_table_part_5();
    lemma_table_part_6();
    lemma_table_part_7();
}

/// Feeding one byte is a shift of the register by eight bits, xored with the
/// table entry of the byte xored with the register's high byte.
proof fn lemma_crc_step_by_table(crc: u16, b: u8)
    ensures
        crc_step(crc, b) == ((crc * 256) as u16) ^ crc_table_entry((hi_byte(crc) ^ b) as int),
{
    assert(crc_shift_byte(crc ^ ((b as u16) * 256) as u16)
        == ((crc * 256) as u16) ^ crc_shift_byte((((((crc / 256) as u8) ^ b) as u16) * 256) as u16))
        by (bit_vector);
}

/// Computing the CRC in two pieces gives the CRC of the whole: the CRC of
/// `a` followed by `b` continues from the CRC of `a` over `b`.
pub proof fn lemma_crc16_append(init: u16, a: Seq<u8>, b: Seq<u8>)
    ensures
        crc16(init, a + b) == crc16(crc16(init, a), b),
    decreases b.len(),
{
    if b.len() == 0 {
        assert(a + b =~= a);
    } else {
        lemma_crc16_append(init, a, b.drop_last());
        assert((a + b).drop_last() =~= a + b.drop_last());
    }
}

/// The table entry at index `i`.
fn crc_table_lookup(i: u8) -> (r: u16)
    ensures
        r == crc_table_entry(i as int),
{
    proof {
        lemma_crc_table();
    }
    CRC_TABLE[i as usize]
}

/// Continues the CRC `crc_accum` over the bytes of `data`.
pub fn update_crc(crc_accum: u16, data: &[u8]) -> (crc: u16)
    ensures
        crc == crc16(crc_accum, data@),
{
    let mut crc = crc_accum;
    let mut k: usize = 0;
    while k < data.len()
        invariant
            k <= data@.len(),
            crc == crc16(crc_accum, data@.take(k as int)),
        decreases data@.len() - k,
    {
        let i = DM_HIBYTE(crc) ^ data[k];
        proof {
            lemma_crc_step_by_table(crc, data@[k as int]);
            assert(data@.take(k + 1).drop_last() =~= data@.take(k as int));
        }
        assert((crc << 8u16) == ((crc * 256) as u16)) by (bit_vector);
        crc = (crc << 8) ^ crc_table_lookup(i);
        k += 1;
    }
    assert(data@.take(k as int) =~= data@);
    crc
}

} // verus!
