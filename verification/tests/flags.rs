use ines_header::{decode, HeaderInfo, TvStandardA, TvStandardB};

/// A header that is all zero but for flag byte `index`.
fn with_flag(index: usize, value: u8) -> HeaderInfo {
    let mut bytes = [0u8; 16];
    bytes[6 + index] = value;
    decode(&bytes).unwrap()
}

#[test]
fn prg_ram_code_zero_is_eight_kb() {
    assert_eq!(with_flag(2, 0x00).prg_ram_kb(), 8);
}

#[test]
fn prg_ram_code_two_is_sixteen_kb() {
    assert_eq!(with_flag(2, 0x02).prg_ram_kb(), 16);
}

#[test]
fn prg_ram_is_eight_times_the_code() {
    assert_eq!(with_flag(2, 1).prg_ram_kb(), 8);
    assert_eq!(with_flag(2, 3).prg_ram_kb(), 24);
    assert_eq!(with_flag(2, 31).prg_ram_kb(), 248);
    assert_eq!(with_flag(2, 32).prg_ram_kb(), 256);
    assert_eq!(with_flag(2, 255).prg_ram_kb(), 2040);
    for code in 1..=255u8 {
        assert_eq!(with_flag(2, code).prg_ram_kb(), u32::from(code) * 8);
    }
}

#[test]
fn tv_standard_a_zero_is_ntsc() {
    assert_eq!(with_flag(3, 0).tv_standard_a(), TvStandardA::Ntsc);
}

#[test]
fn tv_standard_a_one_is_pal() {
    assert_eq!(with_flag(3, 1).tv_standard_a(), TvStandardA::Pal);
}

#[test]
fn tv_standard_a_five_is_unknown() {
    assert_eq!(with_flag(3, 5).tv_standard_a(), TvStandardA::Unknown);
}

#[test]
fn tv_standard_a_reads_the_whole_byte() {
    for code in 2..=255u8 {
        assert_eq!(with_flag(3, code).tv_standard_a(), TvStandardA::Unknown, "code {}", code);
        assert_eq!(TvStandardA::from_code(code), TvStandardA::Unknown, "code {}", code);
    }
    assert_eq!(TvStandardA::from_code(0), TvStandardA::Ntsc);
    assert_eq!(TvStandardA::from_code(1), TvStandardA::Pal);
}

#[test]
fn tv_standard_b_of_the_four_bit_patterns() {
    assert_eq!(with_flag(4, 0).tv_standard_b(), TvStandardB::Ntsc);
    assert_eq!(with_flag(4, 1).tv_standard_b(), TvStandardB::Pal);
    assert_eq!(with_flag(4, 2).tv_standard_b(), TvStandardB::DualCompatible);
    assert_eq!(with_flag(4, 3).tv_standard_b(), TvStandardB::DualCompatible);
}

#[test]
fn tv_standard_b_reads_the_low_two_bits_only() {
    for flag in 0..=255u8 {
        let expected = match flag & 0b11 {
            0 => TvStandardB::Ntsc,
            1 => TvStandardB::Pal,
            _ => TvStandardB::DualCompatible,
        };
        assert_eq!(with_flag(4, flag).tv_standard_b(), expected, "flag {:#010b}", flag);
        assert_eq!(TvStandardB::from_flag(flag), expected, "flag {:#010b}", flag);
    }
    assert_eq!(with_flag(4, 0xFC).tv_standard_b(), TvStandardB::Ntsc);
    assert_eq!(with_flag(4, 0xFD).tv_standard_b(), TvStandardB::Pal);
    assert_eq!(with_flag(4, 0xFE).tv_standard_b(), TvStandardB::DualCompatible);
    assert_eq!(with_flag(4, 0xFF).tv_standard_b(), TvStandardB::DualCompatible);
}

#[test]
fn the_two_tv_encodings_are_not_reconciled() {
    let mut bytes = [0u8; 16];
    bytes[9] = 1;
    bytes[10] = 0;
    let header = decode(&bytes).unwrap();
    assert_eq!(header.tv_standard_a(), TvStandardA::Pal);
    assert_eq!(header.tv_standard_b(), TvStandardB::Ntsc);

    bytes[9] = 0;
    bytes[10] = 1;
    let header = decode(&bytes).unwrap();
    assert_eq!(header.tv_standard_a(), TvStandardA::Ntsc);
    assert_eq!(header.tv_standard_b(), TvStandardB::Pal);

    bytes[9] = 7;
    bytes[10] = 2;
    let header = decode(&bytes).unwrap();
    assert_eq!(header.tv_standard_a(), TvStandardA::Unknown);
    assert_eq!(header.tv_standard_b(), TvStandardB::DualCompatible);
}

#[test]
fn tv_standard_names() {
    assert_eq!(TvStandardA::Ntsc.name(), "NTSC");
    assert_eq!(TvStandardA::Pal.name(), "PAL");
    assert_eq!(TvStandardA::Unknown.name(), "(Unknown)");
    assert_eq!(TvStandardB::Ntsc.name(), "NTSC");
    assert_eq!(TvStandardB::Pal.name(), "PAL");
    assert_eq!(TvStandardB::DualCompatible.name(), "Dual Compatible");
}

#[test]
fn prg_ram_is_present_when_the_bit_is_clear() {
    assert!(with_flag(4, 0x00).prg_ram_present());
}

#[test]
fn prg_ram_is_absent_when_the_bit_is_set() {
    assert!(!with_flag(4, 0x10).prg_ram_present());
}

#[test]
fn prg_ram_presence_reads_one_bit() {
    for flag in 0..=255u8 {
        assert_eq!(with_flag(4, flag).prg_ram_present(), flag & 0x10 == 0, "flag {:#04x}", flag);
    }
    assert!(with_flag(4, 0xEF).prg_ram_present());
    assert!(!with_flag(4, 0xFF).prg_ram_present());
}

#[test]
fn no_bus_conflicts_when_the_bit_is_set() {
    assert!(with_flag(4, 0x20).board_has_no_bus_conflicts());
}

#[test]
fn bus_conflicts_not_ruled_out_when_the_bit_is_clear() {
    assert!(!with_flag(4, 0x00).board_has_no_bus_conflicts());
}

#[test]
fn bus_conflict_flag_reads_one_bit() {
    for flag in 0..=255u8 {
        assert_eq!(
            with_flag(4, flag).board_has_no_bus_conflicts(),
            flag & 0x20 != 0,
            "flag {:#04x}",
            flag
        );
    }
    assert!(!with_flag(4, 0xDF).board_has_no_bus_conflicts());
    assert!(with_flag(4, 0xFF).board_has_no_bus_conflicts());
}

#[test]
fn packed_flag_byte_holds_three_independent_fields() {
    let header = with_flag(4, 0x31);
    assert_eq!(header.tv_standard_b(), TvStandardB::Pal);
    assert!(!header.prg_ram_present());
    assert!(header.board_has_no_bus_conflicts());

    let header = with_flag(4, 0x22);
    assert_eq!(header.tv_standard_b(), TvStandardB::DualCompatible);
    assert!(header.prg_ram_present());
    assert!(header.board_has_no_bus_conflicts());
}

#[test]
fn first_two_flag_bytes_pass_through() {
    let mut bytes = [0u8; 16];
    bytes[6] = 0xAB;
    bytes[7] = 0xCD;
    let header = decode(&bytes).unwrap();
    assert_eq!(header.flags(), [0xAB, 0xCD, 0, 0, 0]);
    assert_eq!(header.prg_ram_kb(), 8);
    assert_eq!(header.tv_standard_a(), TvStandardA::Ntsc);
    assert_eq!(header.tv_standard_b(), TvStandardB::Ntsc);
    assert!(header.prg_ram_present());
    assert!(!header.board_has_no_bus_conflicts());
}
