use embassy_drivers::cyw43::init::{init_step, verify_chunk, InitAction, InitState};
use embassy_drivers::cyw43::bits::{cmd_word, spi_read_bytes, spi_write_bits, swap16};
use embassy_drivers::cyw43::bus::{
    read32_swapped_op, read32_swapped_value, readn_op, readn_value, write32_swapped_op, writen_op,
    Driver,
};
use embassy_drivers::cyw43::chip::{
    chip, core_disable, core_ioctrl_addr, core_ioctrl_ok, core_is_up, core_reset, core_resetctrl_addr, BpOp, Core,
};
use embassy_drivers::cyw43::consts::{
    FEEDBEAD, FUNC_BACKPLANE, FUNC_BUS, REG_BACKPLANE_BACKPLANE_ADDRESS_HIGH,
    REG_BACKPLANE_BACKPLANE_ADDRESS_LOW, REG_BACKPLANE_BACKPLANE_ADDRESS_MID, REG_BUS_FEEDBEAD,
};
use embassy_drivers::cyw43::control::{
    clm_load_payload, f2_packet_len, f2_read_op, ioctl_frame, irq_f2_packet_available,
    nvram_addr, nvram_len_magic, nvram_padded_len, rx, send_ioctl, RxPacket,
};
use embassy_drivers::cyw43::headers::{BdcHeader, CdcHeader, SdpcmHeader};
use embassy_drivers::cyw43::transfer::{
    bp_read_assemble, bp_read_op, bp_read_payload, bp_write_op, pad_len, plan_chunks, Chunk,
};

#[test]
fn swap16_exchanges_bytes_of_halves() {
    assert_eq!(swap16(0x12345678), 0x34127856);
    assert_eq!(swap16(swap16(0xDEADBEEF)), 0xDEADBEEF);
    assert_eq!(swap16(FEEDBEAD), 0xEDFEADBE);
}

#[test]
fn command_word_fields() {
    assert_eq!(cmd_word(false, true, FUNC_BUS, REG_BUS_FEEDBEAD, 4), 0x4000_A004);
    assert_eq!(cmd_word(true, true, FUNC_BACKPLANE, 0x1_FFFF + 1, 0x800), 0xD000_0000);
    assert_eq!(cmd_word(true, false, 3, 0x1_FFFF, 0x7FF), 0xBFFF_FFFF);
}

#[test]
fn data_line_bits_round_trip() {
    let bits = spi_write_bits(&[0xA5, 0x01]);
    assert_eq!(
        bits,
        vec![true, false, true, false, false, true, false, true, false, false, false, false, false, false, false, true]
    );
    assert_eq!(spi_read_bytes(&bits), vec![0xA5, 0x01]);
    assert_eq!(spi_read_bytes(&[]), Vec::<u8>::new());
}

#[test]
fn register_transactions() {
    let op = readn_op(FUNC_BUS, 0x08, 4);
    assert_eq!(op.write, 0x4000_4004u32.to_le_bytes().to_vec());
    assert_eq!(op.read_len, 4);
    let op = readn_op(FUNC_BACKPLANE, 0x1000E, 1);
    assert_eq!(op.read_len, 8);
    assert_eq!(readn_value(&[9, 9, 9, 9, 0x78, 0x56, 0x34, 0x12]), 0x12345678);
    let op = writen_op(FUNC_BACKPLANE, 0x1000E, 0x08, 1);
    let mut expected = cmd_word(true, true, FUNC_BACKPLANE, 0x1000E, 1).to_le_bytes().to_vec();
    expected.extend_from_slice(&[0x08, 0, 0, 0]);
    assert_eq!(op.write, expected);
    assert_eq!(op.read_len, 0);
}

#[test]
fn swapped_transactions() {
    let op = read32_swapped_op(REG_BUS_FEEDBEAD);
    assert_eq!(op.write, swap16(0x4000_A004).to_le_bytes().to_vec());
    assert_eq!(op.read_len, 4);
    let resp = swap16(FEEDBEAD).to_le_bytes();
    assert_eq!(read32_swapped_value(&resp), FEEDBEAD);
    let op = write32_swapped_op(0x18, 0x12345678);
    let mut expected = swap16(cmd_word(true, true, FUNC_BUS, 0x18, 4)).to_le_bytes().to_vec();
    expected.extend_from_slice(&0x34127856u32.to_le_bytes());
    assert_eq!(op.write, expected);
}

#[test]
fn window_is_set_once() {
    let mut d = Driver::new();
    let w = d.backplane_set_window(0x1810_3000);
    assert_eq!(
        w,
        vec![
            (REG_BACKPLANE_BACKPLANE_ADDRESS_HIGH, 0x18),
            (REG_BACKPLANE_BACKPLANE_ADDRESS_MID, 0x10),
            (REG_BACKPLANE_BACKPLANE_ADDRESS_LOW, 0x00),
        ]
    );
    assert!(d.backplane_set_window(0x1810_3408).is_empty());
    assert_eq!(d.backplane_set_window(0x1810_8000), vec![(REG_BACKPLANE_BACKPLANE_ADDRESS_LOW, 0x80)]);
}

#[test]
fn backplane_accesses_use_window_offsets() {
    let mut d = Driver::new();
    let (w, op) = d.backplane_readn(0x1800_0000, 2);
    assert_eq!(w.len(), 3);
    assert_eq!(op.write, cmd_word(false, true, FUNC_BACKPLANE, 0, 2).to_le_bytes().to_vec());
    assert_eq!(op.read_len, 8);
    let (w, op) = d.backplane_readn(0x1800_0010, 4);
    assert!(w.is_empty());
    assert_eq!(op.write, cmd_word(false, true, FUNC_BACKPLANE, 0x8010, 4).to_le_bytes().to_vec());
    let (w, op) = d.backplane_writen(0x1800_4010, 3, 4);
    assert!(w.is_empty());
    let mut expected = cmd_word(true, true, FUNC_BACKPLANE, 0x4010 | 0x8000, 4).to_le_bytes().to_vec();
    expected.extend_from_slice(&[3, 0, 0, 0]);
    assert_eq!(op.write, expected);
}

#[test]
fn transfers_split_at_limit_and_window() {
    assert_eq!(
        plan_chunks(0x7FF0, 100),
        vec![
            Chunk { addr: 0x7FF0, offset: 0, len: 16 },
            Chunk { addr: 0x8000, offset: 16, len: 64 },
            Chunk { addr: 0x8040, offset: 80, len: 20 },
        ]
    );
    assert!(plan_chunks(0, 0).is_empty());
    assert_eq!(plan_chunks(0x100, 64), vec![Chunk { addr: 0x100, offset: 0, len: 64 }]);
}

#[test]
fn padding_to_words() {
    assert_eq!(pad_len(0), 0);
    assert_eq!(pad_len(5), 3);
    assert_eq!(pad_len(6), 2);
    assert_eq!(pad_len(8), 0);
}

#[test]
fn chunk_transactions() {
    let op = bp_write_op(0x1_8010, &[1, 2, 3, 4, 5]);
    let mut expected = cmd_word(true, true, FUNC_BACKPLANE, 0x0010, 5).to_le_bytes().to_vec();
    expected.extend_from_slice(&[1, 2, 3, 4, 5, 0, 0, 0]);
    assert_eq!(op.write, expected);
    let op = bp_read_op(0x1_8010, 5);
    assert_eq!(op.read_len, 4 + 5 + 3);
    assert_eq!(bp_read_payload(&[0, 0, 0, 0, 7, 8, 9, 0], 3), vec![7, 8, 9]);
}

#[test]
fn whole_backplane_transfers() {
    let mut d = Driver::new();
    let data: Vec<u8> = (0..70u32).map(|i| i as u8).collect();
    let t = d.bp_write(0x7FF8, &data);
    assert_eq!(t.len(), 2);
    assert_eq!(t[0].chunk, Chunk { addr: 0x7FF8, offset: 0, len: 8 });
    assert_eq!(t[0].window.len(), 3);
    assert_eq!(t[1].chunk, Chunk { addr: 0x8000, offset: 8, len: 62 });
    assert_eq!(t[1].window, vec![(REG_BACKPLANE_BACKPLANE_ADDRESS_LOW, 0x80)]);
    let mut expected = cmd_word(true, true, FUNC_BACKPLANE, 0, 62).to_le_bytes().to_vec();
    expected.extend_from_slice(&data[8..]);
    expected.extend_from_slice(&[0, 0]);
    assert_eq!(t[1].op.write, expected);
    let r = d.bp_read(0x8000, 4);
    assert_eq!(r.len(), 1);
    assert!(r[0].window.is_empty());
    assert_eq!(r[0].op.read_len, 8);
}

#[test]
fn headers_round_trip() {
    let h = SdpcmHeader {
        len: 0x0102,
        len_inv: 0xFEFD,
        sequence: 3,
        channel_and_flags: 4,
        next_length: 5,
        header_length: 12,
        wireless_flow_control: 6,
        bus_data_credit: 7,
        reserved: [8, 9],
    };
    let b = h.to_bytes();
    assert_eq!(b, [0x02, 0x01, 0xFD, 0xFE, 3, 4, 5, 12, 6, 7, 8, 9]);
    assert_eq!(SdpcmHeader::from_bytes(&b).to_bytes(), b);
    let c = CdcHeader { cmd: 263, out_len: 3, in_len: 0, flags: 2, id: 1, status: 0xAABBCCDD };
    let cb = c.to_bytes();
    assert_eq!(cb, [7, 1, 0, 0, 3, 0, 0, 0, 2, 0, 1, 0, 0xDD, 0xCC, 0xBB, 0xAA]);
    let c2 = CdcHeader::from_bytes(&cb);
    assert_eq!((c2.cmd, c2.out_len, c2.flags, c2.id, c2.status), (263, 3, 2, 1, 0xAABBCCDD));
    let d = BdcHeader { flags: 1, priority: 2, flags2: 3, data_offset: 4 };
    assert_eq!(d.to_bytes(), [1, 2, 3, 4]);
    assert_eq!(BdcHeader::from_bytes(&[1, 2, 3, 4]).data_offset, 4);
}

#[test]
fn ioctl_request_layout() {
    let f = ioctl_frame(2, 263, 1, &[1, 2, 3]);
    assert_eq!(
        f,
        vec![
            31, 0, 0xE0, 0xFF, 2, 0, 0, 12, 0, 0, 0, 0, // sdpcm
            7, 1, 0, 0, 3, 0, 0, 0, 2, 0x10, 1, 0, 0, 0, 0, 0, // cdc
            1, 2, 3
        ]
    );
    let op = send_ioctl(2, 263, 1, &[1, 2, 3]);
    let mut expected = cmd_word(true, true, 2, 0, 31).to_le_bytes().to_vec();
    expected.extend_from_slice(&f);
    assert_eq!(op.write, expected);
}

#[test]
fn received_packets_are_classified() {
    let f = ioctl_frame(2, 263, 0, &[9; 10]);
    match rx(&f) {
        RxPacket::Control(h, c) => {
            assert_eq!(h.len as usize, f.len());
            assert_eq!(c.cmd, 263);
            assert_eq!(c.out_len, 10);
        }
        _ => panic!("control packet expected"),
    }
    assert!(matches!(rx(&f[..5]), RxPacket::TooShort));
    let mut bad = f.clone();
    bad[2] = 0;
    assert!(matches!(rx(&bad), RxPacket::LenInvMismatch));
    let mut longer = f.clone();
    longer.push(0);
    assert!(matches!(rx(&longer), RxPacket::LenMismatch));
    let mut data = f.clone();
    data[5] = 2;
    match rx(&data) {
        RxPacket::Ignored(_, ch) => assert_eq!(ch, 2),
        _ => panic!("ignored packet expected"),
    }
    let mut short = vec![20, 0, 0xEB, 0xFF, 0, 0, 0, 12];
    short.extend_from_slice(&[0; 12]);
    assert!(matches!(rx(&short), RxPacket::ControlTooShort));
}

#[test]
fn bring_up_values() {
    assert!(irq_f2_packet_available(0x0020));
    assert!(!irq_f2_packet_available(0x0040));
    assert_eq!(f2_packet_len(0x100 | (100 << 9)), Some(100));
    assert_eq!(f2_packet_len(100 << 9), None);
    assert_eq!(f2_read_op(6).read_len, 8);
    assert_eq!(nvram_padded_len(1001), 1004);
    assert_eq!(nvram_padded_len(1004), 1004);
    assert_eq!(nvram_len_magic(1004), 0xFF04_00FB);
    assert_eq!(nvram_addr(0, 512 * 1024, 1004), 512 * 1024 - 4 - 1004);
    let clm: Vec<u8> = (0..2000u32).map(|i| i as u8).collect();
    let p = clm_load_payload(&clm);
    assert_eq!(&p[..8], b"clmload\x00");
    assert_eq!(&p[8..20], b"\x02\x10\x02\x00\x00\x04\x00\x00\x00\x00\x00\x00");
    assert_eq!(&p[20..], &clm[..1024]);
}

#[test]
fn core_addresses_and_sequences() {
    let c = chip();
    assert_eq!(c.arm_core_base_address, 0x1810_3000);
    assert_eq!(Core::WLAN.base_addr(), 0x1810_3000);
    assert_eq!(Core::SOCSRAM.base_addr(), 0x1810_4000);
    assert_eq!(Core::SDIOD.base_addr(), 0x1800_2000);
    assert_eq!(core_ioctrl_addr(Core::WLAN), 0x1810_3408);
    assert_eq!(core_resetctrl_addr(Core::WLAN), 0x1810_3800);
    assert!(core_disable(Core::WLAN, 1).is_empty());
    assert_eq!(
        core_disable(Core::WLAN, 0),
        vec![
            BpOp::Write8(0x1810_3408, 0),
            BpOp::Read8(0x1810_3408),
            BpOp::DelayMs(1),
            BpOp::Write8(0x1810_3800, 1),
            BpOp::Read8(0x1810_3800),
        ]
    );
    assert_eq!(core_reset(Core::SOCSRAM)[0], BpOp::Write8(0x1810_4408, 3));
    assert_eq!(core_reset(Core::SOCSRAM).len(), 7);
    assert!(core_is_up(0x01, 0));
    assert!(!core_is_up(0x03, 0));
    assert!(!core_is_up(0x01, 1));
    assert!(core_is_up(0x21, 0x02));
    assert!(core_ioctrl_ok(0x01));
    assert!(core_ioctrl_ok(0x05));
    assert!(!core_ioctrl_ok(0x02));
    assert!(!core_ioctrl_ok(0x03));
    assert!(!core_ioctrl_ok(0x00));
}

#[test]
fn read_responses_join_in_address_order() {
    let mut d = Driver::new();
    let mem: Vec<u8> = (0..200u32).map(|i| (i * 3) as u8).collect();
    let base = 0x7FC0u32;
    let t = d.bp_read(base, 100);
    assert_eq!(t.len(), 2);
    let resps: Vec<Vec<u8>> = t
        .iter()
        .map(|x| {
            let start = (x.chunk.addr - base) as usize;
            let mut r = vec![0xEE; 4];
            r.extend_from_slice(&mem[start..start + x.chunk.len]);
            r.extend_from_slice(&[0xAA; 3]);
            r
        })
        .collect();
    let data = bp_read_assemble(&t, &resps);
    assert_eq!(data, mem[..100].to_vec());
    assert!(bp_read_assemble(&Vec::new(), &Vec::new()).is_empty());
}

#[test]
fn bring_up_runs_in_order_and_waits() {
    let mut s = InitState::Strap;
    let mut actions = Vec::new();
    // Values handed back for the reads, in order: a bad ping, then the
    // ping, the test pattern, bus ping and pattern, ALP not yet then ready,
    // chip id, firmware ok, core up, HT ready, F2 not yet then ready.
    let reads: Vec<u32> = vec![
        0, 0xFEEDBEAD, 0x12345678, 0xFEEDBEAD, 0x12345678, 0x00, 0x40, 1, 1, 0x80, 0, 0x20,
    ];
    let mut next_read = 0;
    let mut v = 0;
    for _ in 0..100 {
        let (n, a) = init_step(s, v);
        actions.push(a);
        v = match a {
            InitAction::Read32Swapped(_)
            | InitAction::Read32(_, _)
            | InitAction::Read8(_, _)
            | InitAction::VerifyFirmware
            | InitAction::CheckCoreUp(_) => {
                next_read += 1;
                reads[next_read - 1]
            }
            _ => 0,
        };
        s = n;
        if a == InitAction::Finish {
            break;
        }
    }
    assert_eq!(s, InitState::Done);
    assert_eq!(actions[0], InitAction::StrapGspi);
    assert_eq!(actions[2], InitAction::DelayMs(20));
    assert_eq!(actions[4], InitAction::DelayMs(250));
    assert_eq!(actions[5], InitAction::Read32Swapped(0x14));
    assert_eq!(actions[6], InitAction::Read32Swapped(0x14));
    assert_eq!(actions[7], InitAction::Write32Swapped(0x18, 0x12345678));
    assert!(actions.contains(&InitAction::Write32Swapped(0, 0x00010033)));
    assert!(actions.contains(&InitAction::BpWrite32(0x1800_4010, 3)));
    assert!(actions.contains(&InitAction::BpWrite32(0x1800_2024, 0xF0)));
    assert!(actions.contains(&InitAction::Write8(1, 0x10008, 32)));
    assert_eq!(actions[actions.len() - 2], InitAction::LoadClm);
    assert_eq!(next_read, reads.len());
}

#[test]
fn bring_up_fails_on_mismatch() {
    assert_eq!(init_step(InitState::TestCheck, 0), (InitState::Failed, InitAction::Fail));
    assert_eq!(init_step(InitState::VerifyCheck, 0), (InitState::Failed, InitAction::Fail));
    assert_eq!(init_step(InitState::WlanUpCheck, 0), (InitState::Failed, InitAction::Fail));
    assert_eq!(init_step(InitState::Failed, 7), (InitState::Failed, InitAction::Fail));
    assert!(verify_chunk(&[1, 2, 3], &[1, 2, 3]));
    assert!(!verify_chunk(&[1, 2, 3], &[1, 2, 4]));
    assert!(!verify_chunk(&[1, 2, 3], &[1, 2]));
}
