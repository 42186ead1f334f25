//! Control packets: building ioctl requests, classifying received packets,
//! and the values computed while bringing the chip up.
use vstd::prelude::*;
use vstd::bytes::*;
use crate::cyw43::bits::{cmd_word, spec_cmd_word};
use crate::cyw43::bus::SpiOp;
use crate::cyw43::consts::{
    FUNC_WLAN, IRQ_F2_PACKET_AVAILABLE, STATUS_F2_PKT_AVAILABLE, STATUS_F2_PKT_LEN_MASK,
    STATUS_F2_PKT_LEN_SHIFT,
};
use crate::cyw43::headers::{
    le16, le32, CdcHeader, SdpcmHeader, CDC_HEADER_SIZE, SDPCM_HEADER_SIZE,
};
use crate::cyw43::transfer::{pad_len, spec_pad_len};

verus! {

/// Size of the buffer an ioctl request is assembled in.
pub const IOCTL_BUF_SIZE: usize = 2048;

/// Largest ioctl payload that fits in the request buffer.
pub const IOCTL_MAX_DATA: usize = 2020;

/// The SDPCM header of a control packet of `total_len` bytes.
pub open spec fn spec_ioctl_sdpcm(total_len: usize) -> SdpcmHeader {
    SdpcmHeader {
        len: total_len as u16,
        len_inv: !total_len as u16,
        sequence: 0x02,
        channel_and_flags: 0,
        next_length: 0,
        header_length: SDPCM_HEADER_SIZE as u8,
        wireless_flow_control: 0,
        bus_data_credit: 0,
        reserved: [0u8, 0u8],
    }
}

/// The CDC header of an ioctl request.
pub open spec fn spec_ioctl_cdc(kind: u32, cmd: u32, iface: u32, data_len: usize) -> CdcHeader {
    CdcHeader {
        cmd: cmd,
        out_len: data_len as u16,
        in_len: 0,
        flags: (kind as u16) | ((iface as u16) << 12u16),
        id: 1,
        status: 0,
    }
}

/// The bytes of an ioctl request packet.
pub open spec fn spec_ioctl_frame(kind: u32, cmd: u32, iface: u32, data: Seq<u8>) -> Seq<u8> {
    let total_len = (SDPCM_HEADER_SIZE + CDC_HEADER_SIZE + data.len()) as usize;
    spec_ioctl_sdpcm(total_len).spec_to_bytes() + spec_ioctl_cdc(
        kind,
        cmd,
        iface,
        data.len() as usize,
    ).spec_to_bytes() + data
}

/// Assembles an ioctl request packet: SDPCM header on the control channel,
/// CDC header, then `data`.
pub fn ioctl_frame(kind: u32, cmd: u32, iface: u32, data: &[u8]) -> (r: Vec<u8>)
    requires
        data@.len() <= IOCTL_MAX_DATA,
    ensures
        r@ == spec_ioctl_frame(kind, cmd, iface, data@),
        r@.len() == SDPCM_HEADER_SIZE + CDC_HEADER_SIZE + data@.len(),
{
    let total_len = SDPCM_HEADER_SIZE + CDC_HEADER_SIZE + data.len();
    let sdpcm_header = SdpcmHeader {
        len: total_len as u16,
        len_inv: !total_len as u16,
        sequence: 0x02,
        channel_and_flags: 0,
        next_length: 0,
        header_length: SDPCM_HEADER_SIZE as u8,
        wireless_flow_control: 0,
        bus_data_credit: 0,
        reserved: [0, 0],
    };
    let cdc_header = CdcHeader {
        cmd: cmd,
        out_len: data.len() as u16,
        in_len: 0,
        flags: kind as u16 | (iface as u16) << 12u16,
        id: 1,
        status: 0,
    };
    assert(sdpcm_header.reserved =~= spec_ioctl_sdpcm(total_len).reserved);
    assert(sdpcm_header == spec_ioctl_sdpcm(total_len));
    let sb = sdpcm_header.to_bytes();
    let cb = cdc_header.to_bytes();
    let mut out: Vec<u8> = Vec::new();
    let mut i: usize = 0;
    while i < 12
        invariant
            0 <= i <= 12,
            sb@.len() == 12,
            out@ == sb@.take(i as int),
        decreases 12 - i,
    {
        out.push(sb[i]);
        assert(out@ =~= sb@.take(i + 1));
        i = i + 1;
    }
    let mut j: usize = 0;
    while j < 16
        invariant
            0 <= j <= 16,
            sb@.len() == 12,
            cb@.len() == 16,
            out@ == sb@ + cb@.take(j as int),
        decreases 16 - j,
    {
        out.push(cb[j]);
        assert(out@ =~= sb@ + cb@.take(j + 1));
        j = j + 1;
    }
    let mut k: usize = 0;
    while k < data.len()
        invariant
            0 <= k <= data@.len(),
            sb@.len() == 12,
            cb@.len() == 16,
            out@ == sb@ + cb@ + data@.take(k as int),
        decreases data@.len() - k,
    {
        out.push(data[k]);
        assert(out@ =~= sb@ + cb@ + data@.take(k + 1));
        k = k + 1;
    }
    assert(sb@.take(12) =~= sb@);
    assert(cb@.take(16) =~= cb@);
    assert(data@.take(data@.len() as int) =~= data@);
    out
}

/// The transaction that sends an ioctl request on the WLAN function.
pub fn send_ioctl(kind: u32, cmd: u32, iface: u32, data: &[u8]) -> (r: SpiOp)
    requires
        data@.len() <= IOCTL_MAX_DATA,
    ensures
        r.write@ == le32(
            spec_cmd_word(
                true,
                true,
                FUNC_WLAN,
                0,
                (SDPCM_HEADER_SIZE + CDC_HEADER_SIZE + data@.len()) as u32,
            ),
        ) + spec_ioctl_frame(kind, cmd, iface, data@),
        r.read_len == 0,
{
    let frame = ioctl_frame(kind, cmd, iface, data);
    let total_len = frame.len();
    let c = cmd_word(true, true, FUNC_WLAN, 0, total_len as u32);
    let mut w = u32_to_le_bytes(c);
    let mut f = frame;
    w.append(&mut f);
    SpiOp { write: w, read_len: 0 }
}

/// A little-endian 16-bit field of a packet.
pub open spec fn le16_at(p: Seq<u8>, at: int) -> u16 {
    spec_u16_from_le_bytes(p.subrange(at, at + 2))
}

/// How a received bus packet is handled.
pub enum RxPacket {
    /// Shorter than an SDPCM header.
    TooShort,
    /// The header's length and inverted length disagree.
    LenInvMismatch,
    /// The header's length is not the packet's length.
    LenMismatch,
    /// A control-channel packet too short for its CDC header.
    ControlTooShort,
    /// A control-channel packet (channel 0).
    Control(SdpcmHeader, CdcHeader),
    /// A packet on another channel, which is not handled.
    Ignored(SdpcmHeader, u8),
}

/// Classifies a packet received from the WLAN function.
pub fn rx(packet: &[u8]) -> (r: RxPacket)
    ensures
        packet@.len() < SDPCM_HEADER_SIZE ==> r is TooShort,
        packet@.len() >= SDPCM_HEADER_SIZE ==> {
            let p = packet@;
            let len = le16_at(p, 0);
            let len_inv = le16_at(p, 2);
            let channel = p[5] & 0x0fu8;
            if len != !len_inv {
                r is LenInvMismatch
            } else if len as int != p.len() {
                r is LenMismatch
            } else if channel == 0 {
                if p.len() < SDPCM_HEADER_SIZE + CDC_HEADER_SIZE {
                    r is ControlTooShort
                } else {
                    &&& r matches RxPacket::Control(h, c)
                    &&& h.spec_to_bytes() == p.take(SDPCM_HEADER_SIZE as int)
                    &&& c.spec_to_bytes() == p.subrange(
                        SDPCM_HEADER_SIZE as int,
                        (SDPCM_HEADER_SIZE + CDC_HEADER_SIZE) as int,
                    )
                }
            } else {
                &&& r matches RxPacket::Ignored(h, ch)
                &&& ch == channel
                &&& h.spec_to_bytes() == p.take(SDPCM_HEADER_SIZE as int)
            }
        },
{
    proof {
        lemma_auto_spec_u16_to_from_le_bytes();
    }
    if packet.len() < SDPCM_HEADER_SIZE {
        return RxPacket::TooShort;
    }
    let hb: [u8; 12] = [
        packet[0],
        packet[1],
        packet[2],
        packet[3],
        packet[4],
        packet[5],
        packet[6],
        packet[7],
        packet[8],
        packet[9],
        packet[10],
        packet[11],
    ];
    assert(hb@ =~= packet@.take(12));
    let sdpcm_header = SdpcmHeader::from_bytes(&hb);
    proof {
        let b = sdpcm_header.spec_to_bytes();
        assert(le16(sdpcm_header.len) =~= b.subrange(0, 2));
        assert(le16(sdpcm_header.len_inv) =~= b.subrange(2, 4));
        assert(packet@.subrange(0, 2) =~= b.subrange(0, 2));
        assert(packet@.subrange(2, 4) =~= b.subrange(2, 4));
        assert(spec_u16_to_le_bytes(sdpcm_header.len).len() == 2);
        assert(spec_u16_to_le_bytes(sdpcm_header.len_inv).len() == 2);
        assert(le16_at(packet@, 0) == sdpcm_header.len);
        assert(le16_at(packet@, 2) == sdpcm_header.len_inv);
        assert(b[5] == sdpcm_header.channel_and_flags);
    }
    if sdpcm_header.len != !sdpcm_header.len_inv {
        return RxPacket::LenInvMismatch;
    }
    if sdpcm_header.len as usize != packet.len() {
        return RxPacket::LenMismatch;
    }
    let channel = sdpcm_header.channel_and_flags & 0x0f;
    if channel == 0 {
        if packet.len() < SDPCM_HEADER_SIZE + CDC_HEADER_SIZE {
            return RxPacket::ControlTooShort;
        }
        let cb: [u8; 16] = [
            packet[12],
            packet[13],
            packet[14],
            packet[15],
            packet[16],
            packet[17],
            packet[18],
            packet[19],
            packet[20],
            packet[21],
            packet[22],
            packet[23],
            packet[24],
            packet[25],
            packet[26],
            packet[27],
        ];
        assert(cb@ =~= packet@.subrange(12, 28));
        let cdc_header = CdcHeader::from_bytes(&cb);
        return RxPacket::Control(sdpcm_header, cdc_header);
    }
    RxPacket::Ignored(sdpcm_header, channel)
}

/// Whether the bus interrupt status reports an F2 packet.
pub fn irq_f2_packet_available(irq: u16) -> (r: bool)
    ensures
        r == (irq & IRQ_F2_PACKET_AVAILABLE != 0),
{
    irq & IRQ_F2_PACKET_AVAILABLE != 0
}

/// Length of the F2 packet the bus status reports as available, if any.
pub fn f2_packet_len(status: u32) -> (r: Option<u32>)
    ensures
        status & STATUS_F2_PKT_AVAILABLE == 0 ==> r is None,
        status & STATUS_F2_PKT_AVAILABLE != 0 ==> r == Some(
            (status & STATUS_F2_PKT_LEN_MASK) >> STATUS_F2_PKT_LEN_SHIFT,
        ),
{
    if status & STATUS_F2_PKT_AVAILABLE != 0 {
        Some((status & STATUS_F2_PKT_LEN_MASK) >> STATUS_F2_PKT_LEN_SHIFT)
    } else {
        None
    }
}

/// The transaction that reads an F2 packet of `len` bytes: the packet, then
/// padding to a 4-byte boundary, are clocked in.
pub fn f2_read_op(len: u32) -> (r: SpiOp)
    requires
        len < 0x800,
    ensures
        r.write@ == le32(spec_cmd_word(false, true, FUNC_WLAN, 0, len)),
        r.read_len == len + spec_pad_len(len as int),
{
    let c = cmd_word(false, true, FUNC_WLAN, 0, len);
    SpiOp { write: u32_to_le_bytes(c), read_len: len as usize + pad_len(len as usize) }
}

/// Length of the NVRAM image rounded up to whole 32-bit words.
pub fn nvram_padded_len(len: usize) -> (r: usize)
    requires
        len + 3 <= usize::MAX,
    ensures
        r == (len + 3) / 4 * 4,
        r % 4 == 0,
        len <= r < len + 4,
{
    (len + 3) / 4 * 4
}

/// Word that tells the firmware the NVRAM length: the length in words in
/// the low half and its complement in the high half.
pub fn nvram_len_magic(padded_len: usize) -> (r: u32)
    requires
        padded_len <= u32::MAX,
    ensures
        r == ((!((padded_len / 4) as u32)) << 16u32) | ((padded_len / 4) as u32),
{
    let words = padded_len as u32 / 4;
    (!words << 16u32) | words
}

/// Backplane address at which the NVRAM image is loaded: at the top of the
/// chip's RAM, below the length word.
pub fn nvram_addr(ram_base: u32, ram_size: u32, padded_len: usize) -> (r: u32)
    requires
        padded_len <= u32::MAX,
        ram_base + ram_size - 4 - padded_len >= 0,
        ram_base + ram_size <= u32::MAX,
    ensures
        r == ram_base + ram_size - 4 - padded_len,
{
    ram_base + ram_size - 4 - padded_len as u32
}

/// The `clmload` ioctl payload: the variable name, the download header, then
/// the first 1024 bytes of the CLM blob.
pub fn clm_load_payload(clm: &[u8]) -> (r: Vec<u8>)
    requires
        clm@.len() >= 1024,
    ensures
        r@ == seq![
            0x63u8, 0x6cu8, 0x6du8, 0x6cu8, 0x6fu8, 0x61u8, 0x64u8, 0x00u8,
            0x02u8, 0x10u8, 0x02u8, 0x00u8, 0x00u8, 0x04u8, 0x00u8, 0x00u8,
            0x00u8, 0x00u8, 0x00u8, 0x00u8,
        ] + clm@.take(1024),
        r@.len() == 8 + 12 + 1024,
{
    let mut buf: Vec<u8> = vec![
        0x63u8, 0x6cu8, 0x6du8, 0x6cu8, 0x6fu8, 0x61u8, 0x64u8, 0x00u8,
        0x02u8, 0x10u8, 0x02u8, 0x00u8, 0x00u8, 0x04u8, 0x00u8, 0x00u8,
        0x00u8, 0x00u8, 0x00u8, 0x00u8,
    ];
    let ghost head = buf@;
    let mut i: usize = 0;
    while i < 1024
        invariant
            0 <= i <= 1024,
            clm@.len() >= 1024,
            buf@ == head + clm@.take(i as int),
        decreases 1024 - i,
    {
        buf.push(clm[i]);
        assert(buf@ =~= head + clm@.take(i + 1));
        i = i + 1;
    }
    buf
}

/// An ioctl request built by `ioctl_frame` is accepted by `rx` as a control
/// packet carrying the same two headers.
pub proof fn lemma_ioctl_frame_is_control(kind: u32, cmd: u32, iface: u32, data: Seq<u8>)
    requires
        data.len() <= IOCTL_MAX_DATA,
    ensures
        ({
            let p = spec_ioctl_frame(kind, cmd, iface, data);
            let total_len = (SDPCM_HEADER_SIZE + CDC_HEADER_SIZE + data.len()) as usize;
            &&& p.len() == total_len
            &&& le16_at(p, 0) == !le16_at(p, 2)
            &&& le16_at(p, 0) as int == p.len()
            &&& p[5] & 0x0fu8 == 0
            &&& p.take(SDPCM_HEADER_SIZE as int) == spec_ioctl_sdpcm(total_len).spec_to_bytes()
            &&& p.subrange(SDPCM_HEADER_SIZE as int, (SDPCM_HEADER_SIZE + CDC_HEADER_SIZE) as int)
                == spec_ioctl_cdc(kind, cmd, iface, data.len() as usize).spec_to_bytes()
        }),
{
    lemma_auto_spec_u16_to_from_le_bytes();
    lemma_auto_spec_u32_to_from_le_bytes();
    let total_len = (SDPCM_HEADER_SIZE + CDC_HEADER_SIZE + data.len()) as usize;
    let h = spec_ioctl_sdpcm(total_len);
    let c = spec_ioctl_cdc(kind, cmd, iface, data.len() as usize);
    let hb = h.spec_to_bytes();
    let cb = c.spec_to_bytes();
    let p = spec_ioctl_frame(kind, cmd, iface, data);
    assert(spec_u16_to_le_bytes(h.len).len() == 2);
    assert(spec_u16_to_le_bytes(h.len_inv).len() == 2);
    assert(spec_u32_to_le_bytes(c.cmd).len() == 4);
    assert(spec_u16_to_le_bytes(c.out_len).len() == 2);
    assert(spec_u16_to_le_bytes(c.in_len).len() == 2);
    assert(spec_u16_to_le_bytes(c.flags).len() == 2);
    assert(spec_u16_to_le_bytes(c.id).len() == 2);
    assert(spec_u32_to_le_bytes(c.status).len() == 4);
    assert(hb.len() == 12);
    assert(cb.len() == 16);
    assert(p.take(12) =~= hb);
    assert(p.subrange(12, 28) =~= cb);
    assert(p.subrange(0, 2) =~= spec_u16_to_le_bytes(h.len));
    assert(p.subrange(2, 4) =~= spec_u16_to_le_bytes(h.len_inv));
    let t = total_len;
    assert(t < 0x10000);
    assert(t < 0x10000usize ==> (!t) as u16 == !(t as u16) && !(!(t as u16)) == t as u16
        && (t as u16) as usize == t) by (bit_vector);
    assert(p[5] == 0u8);
    assert(0u8 & 0x0fu8 == 0u8) by (bit_vector);
}

/// The CDC header of an ioctl request carries the payload's length: the
/// little-endian 16-bit field at offset 16 of the frame (the CDC `out_len`)
/// is the number of payload bytes, and the payload follows the two headers.
pub proof fn lemma_ioctl_frame_carries_payload_len(kind: u32, cmd: u32, iface: u32, data: Seq<u8>)
    requires
        data.len() <= IOCTL_MAX_DATA,
    ensures
        ({
            let p = spec_ioctl_frame(kind, cmd, iface, data);
            &&& le16_at(p, 16) as int == data.len()
            &&& p.subrange(28, p.len() as int) == data
        }),
{
    lemma_auto_spec_u16_to_from_le_bytes();
    lemma_auto_spec_u32_to_from_le_bytes();
    lemma_ioctl_frame_is_control(kind, cmd, iface, data);
    let total_len = (SDPCM_HEADER_SIZE + CDC_HEADER_SIZE + data.len()) as usize;
    let c = spec_ioctl_cdc(kind, cmd, iface, data.len() as usize);
    let cb = c.spec_to_bytes();
    let p = spec_ioctl_frame(kind, cmd, iface, data);
    assert(spec_u32_to_le_bytes(c.cmd).len() == 4);
    assert(spec_u16_to_le_bytes(c.out_len).len() == 2);
    assert(p.subrange(12, 28) == cb);
    assert(cb.subrange(4, 6) =~= spec_u16_to_le_bytes(c.out_len));
    assert(p.subrange(16, 18) =~= cb.subrange(4, 6));
    let n = data.len() as usize;
    assert(n < 0x10000usize ==> (n as u16) as usize == n) by (bit_vector);
    assert(p.subrange(28, p.len() as int) =~= data);
}

} // verus!
