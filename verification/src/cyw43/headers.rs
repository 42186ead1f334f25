//! The headers that frame packets exchanged with the WiFi firmware, and their
//! little-endian wire layout (fields in declaration order, no padding).
use vstd::prelude::*;
use vstd::bytes::*;

verus! {

broadcast use vstd::array::group_array_axioms;

/// Wire size of an [`SdpcmHeader`].
pub const SDPCM_HEADER_SIZE: usize = 12;

/// Wire size of a [`CdcHeader`].
pub const CDC_HEADER_SIZE: usize = 16;

/// Wire size of a [`BdcHeader`].
pub const BDC_HEADER_SIZE: usize = 4;

/// Header of every bus packet.
#[derive(Clone, Copy)]
pub struct SdpcmHeader {
    pub len: u16,
    pub len_inv: u16,
    /// Rx/Tx sequence number
    pub sequence: u8,
    ///  4 MSB Channel number, 4 LSB arbitrary flag
    pub channel_and_flags: u8,
    /// Length of next data frame, reserved for Tx
    pub next_length: u8,
    /// Data offset
    pub header_length: u8,
    /// Flow control bits, reserved for Tx
    pub wireless_flow_control: u8,
    /// Maximum Sequence number allowed by firmware for Tx
    pub bus_data_credit: u8,
    /// Reserved
    pub reserved: [u8; 2],
}

/// Header of a control (ioctl) packet, after the [`SdpcmHeader`].
#[derive(Clone, Copy)]
pub struct CdcHeader {
    pub cmd: u32,
    pub out_len: u16,
    pub in_len: u16,
    pub flags: u16,
    pub id: u16,
    pub status: u32,
}

/// Header of a data packet, after the [`SdpcmHeader`].
#[derive(Clone, Copy)]
pub struct BdcHeader {
    pub flags: u8,
    /// 802.1d Priority (low 3 bits)
    pub priority: u8,
    pub flags2: u8,
    /// Offset from end of BDC header to packet data, in 4-uint8_t words. Leaves room for optional headers.
    pub data_offset: u8,
}

/// Little-endian bytes of a 16-bit value.
pub open spec fn le16(x: u16) -> Seq<u8> {
    spec_u16_to_le_bytes(x)
}

/// Little-endian bytes of a 32-bit value.
pub open spec fn le32(x: u32) -> Seq<u8> {
    spec_u32_to_le_bytes(x)
}

proof fn lemma_le_lengths()
    ensures
        forall|x: u16| #[trigger] le16(x).len() == 2,
        forall|x: u32| #[trigger] le32(x).len() == 4,
        forall|x: u16, y: u16| #[trigger] le16(x) == #[trigger] le16(y) ==> x == y,
        forall|x: u32, y: u32| #[trigger] le32(x) == #[trigger] le32(y) ==> x == y,
{
    lemma_auto_spec_u16_to_from_le_bytes();
    lemma_auto_spec_u32_to_from_le_bytes();
    assert forall|x: u16, y: u16| #[trigger] le16(x) == #[trigger] le16(y) implies x == y by {
        assert(spec_u16_to_le_bytes(x).len() == 2);
        assert(spec_u16_to_le_bytes(y).len() == 2);
        assert(spec_u16_from_le_bytes(spec_u16_to_le_bytes(x)) == x);
        assert(spec_u16_from_le_bytes(spec_u16_to_le_bytes(y)) == y);
    }
    assert forall|x: u32, y: u32| #[trigger] le32(x) == #[trigger] le32(y) implies x == y by {
        assert(spec_u32_to_le_bytes(x).len() == 4);
        assert(spec_u32_to_le_bytes(y).len() == 4);
        assert(spec_u32_from_le_bytes(spec_u32_to_le_bytes(x)) == x);
        assert(spec_u32_from_le_bytes(spec_u32_to_le_bytes(y)) == y);
    }
}

/// Reads a little-endian 16-bit value at `at` in `b`.
fn get_u16(b: &[u8], at: usize) -> (r: u16)
    requires
        at + 2 <= b@.len(),
    ensures
        le16(r) == b@.subrange(at as int, at + 2),
{
    proof {
        lemma_auto_spec_u16_to_from_le_bytes();
    }
    let _len = b.len();
    let s = vstd::slice::slice_subrange(b, at, at + 2);
    u16_from_le_bytes(s)
}

/// Reads a little-endian 32-bit value at `at` in `b`.
fn get_u32(b: &[u8], at: usize) -> (r: u32)
    requires
        at + 4 <= b@.len(),
    ensures
        le32(r) == b@.subrange(at as int, at + 4),
{
    proof {
        lemma_auto_spec_u32_to_from_le_bytes();
    }
    let _len = b.len();
    let s = vstd::slice::slice_subrange(b, at, at + 4);
    u32_from_le_bytes(s)
}

impl SdpcmHeader {
    /// The wire layout of this header.
    pub open spec fn spec_to_bytes(self) -> Seq<u8> {
        le16(self.len) + le16(self.len_inv) + seq![
            self.sequence,
            self.channel_and_flags,
            self.next_length,
            self.header_length,
            self.wireless_flow_control,
            self.bus_data_credit,
        ] + self.reserved@
    }

    /// Encodes this header.
    pub fn to_bytes(&self) -> (r: [u8; 12])
        ensures
            r@ == self.spec_to_bytes(),
    {
        proof {
            lemma_auto_spec_u16_to_from_le_bytes();
        }
        let a = u16_to_le_bytes(self.len);
        let b = u16_to_le_bytes(self.len_inv);
        let r = [
            a[0],
            a[1],
            b[0],
            b[1],
            self.sequence,
            self.channel_and_flags,
            self.next_length,
            self.header_length,
            self.wireless_flow_control,
            self.bus_data_credit,
            self.reserved[0],
            self.reserved[1],
        ];
        assert(r@ =~= self.spec_to_bytes());
        r
    }

    /// Decodes a header; encoding the result gives back `bytes`.
    pub fn from_bytes(bytes: &[u8; 12]) -> (r: Self)
        ensures
            r.spec_to_bytes() == bytes@,
    {
        proof {
            lemma_le_lengths();
        }
        let s = vstd::array::array_as_slice(bytes);
        let r = SdpcmHeader {
            len: get_u16(s, 0),
            len_inv: get_u16(s, 2),
            sequence: bytes[4],
            channel_and_flags: bytes[5],
            next_length: bytes[6],
            header_length: bytes[7],
            wireless_flow_control: bytes[8],
            bus_data_credit: bytes[9],
            reserved: [bytes[10], bytes[11]],
        };
        assert(r.spec_to_bytes() =~= bytes@);
        r
    }
}

impl CdcHeader {
    /// The wire layout of this header.
    pub open spec fn spec_to_bytes(self) -> Seq<u8> {
        le32(self.cmd) + le16(self.out_len) + le16(self.in_len) + le16(self.flags) + le16(self.id)
            + le32(self.status)
    }

    /// Encodes this header.
    pub fn to_bytes(&self) -> (r: [u8; 16])
        ensures
            r@ == self.spec_to_bytes(),
    {
        proof {
            lemma_le_lengths();
        }
        let c = u32_to_le_bytes(self.cmd);
        let o = u16_to_le_bytes(self.out_len);
        let i = u16_to_le_bytes(self.in_len);
        let f = u16_to_le_bytes(self.flags);
        let d = u16_to_le_bytes(self.id);
        let s = u32_to_le_bytes(self.status);
        let r = [
            c[0],
            c[1],
            c[2],
            c[3],
            o[0],
            o[1],
            i[0],
            i[1],
            f[0],
            f[1],
            d[0],
            d[1],
            s[0],
            s[1],
            s[2],
            s[3],
        ];
        assert(r@ =~= self.spec_to_bytes());
        r
    }

    /// Decodes a header; encoding the result gives back `bytes`.
    pub fn from_bytes(bytes: &[u8; 16]) -> (r: Self)
        ensures
            r.spec_to_bytes() == bytes@,
    {
        proof {
            lemma_le_lengths();
        }
        let s = vstd::array::array_as_slice(bytes);
        let r = CdcHeader {
            cmd: get_u32(s, 0),
            out_len: get_u16(s, 4),
            in_len: get_u16(s, 6),
            flags: get_u16(s, 8),
            id: get_u16(s, 10),
            status: get_u32(s, 12),
        };
        assert(r.spec_to_bytes() =~= bytes@);
        r
    }
}

impl BdcHeader {
    /// The wire layout of this header.
    pub open spec fn spec_to_bytes(self) -> Seq<u8> {
        seq![self.flags, self.priority, self.flags2, self.data_offset]
    }

    /// Encodes this header.
    pub fn to_bytes(&self) -> (r: [u8; 4])
        ensures
            r@ == self.spec_to_bytes(),
    {
        let r = [self.flags, self.priority, self.flags2, self.data_offset];
        assert(r@ =~= self.spec_to_bytes());
        r
    }

    /// Decodes a header; encoding the result gives back `bytes`.
    pub fn from_bytes(bytes: &[u8; 4]) -> (r: Self)
        ensures
            r.spec_to_bytes() == bytes@,
    {
        let r = BdcHeader {
            flags: bytes[0],
            priority: bytes[1],
            flags2: bytes[2],
            data_offset: bytes[3],
        };
        assert(r.spec_to_bytes() =~= bytes@);
        r
    }
}

/// Two SDPCM headers with the same wire bytes are the same header, so
/// decoding an encoded header gives it back.
pub proof fn lemma_sdpcm_bytes_injective(h1: SdpcmHeader, h2: SdpcmHeader)
    requires
        h1.spec_to_bytes() == h2.spec_to_bytes(),
    ensures
        h1 == h2,
{
    lemma_le_lengths();
    let b1 = h1.spec_to_bytes();
    let b2 = h2.spec_to_bytes();
    assert(le16(h1.len) =~= b1.subrange(0, 2));
    assert(le16(h2.len) =~= b2.subrange(0, 2));
    assert(le16(h1.len_inv) =~= b1.subrange(2, 4));
    assert(le16(h2.len_inv) =~= b2.subrange(2, 4));
    assert(b1[4] == h1.sequence && b2[4] == h2.sequence);
    assert(b1[5] == h1.channel_and_flags && b2[5] == h2.channel_and_flags);
    assert(b1[6] == h1.next_length && b2[6] == h2.next_length);
    assert(b1[7] == h1.header_length && b2[7] == h2.header_length);
    assert(b1[8] == h1.wireless_flow_control && b2[8] == h2.wireless_flow_control);
    assert(b1[9] == h1.bus_data_credit && b2[9] == h2.bus_data_credit);
    assert(b1[10] == h1.reserved@[0] && b2[10] == h2.reserved@[0]);
    assert(b1[11] == h1.reserved@[1] && b2[11] == h2.reserved@[1]);
    assert(h1.reserved =~= h2.reserved);
}

/// Two CDC headers with the same wire bytes are the same header, so
/// decoding an encoded header gives it back.
pub proof fn lemma_cdc_bytes_injective(h1: CdcHeader, h2: CdcHeader)
    requires
        h1.spec_to_bytes() == h2.spec_to_bytes(),
    ensures
        h1 == h2,
{
    lemma_le_lengths();
    let b1 = h1.spec_to_bytes();
    let b2 = h2.spec_to_bytes();
    assert(le32(h1.cmd) =~= b1.subrange(0, 4));
    assert(le32(h2.cmd) =~= b2.subrange(0, 4));
    assert(le16(h1.out_len) =~= b1.subrange(4, 6));
    assert(le16(h2.out_len) =~= b2.subrange(4, 6));
    assert(le16(h1.in_len) =~= b1.subrange(6, 8));
    assert(le16(h2.in_len) =~= b2.subrange(6, 8));
    assert(le16(h1.flags) =~= b1.subrange(8, 10));
    assert(le16(h2.flags) =~= b2.subrange(8, 10));
    assert(le16(h1.id) =~= b1.subrange(10, 12));
    assert(le16(h2.id) =~= b2.subrange(10, 12));
    assert(le32(h1.status) =~= b1.subrange(12, 16));
    assert(le32(h2.status) =~= b2.subrange(12, 16));
}

/// Two BDC headers with the same wire bytes are the same header, so
/// decoding an encoded header gives it back.
pub proof fn lemma_bdc_bytes_injective(h1: BdcHeader, h2: BdcHeader)
    requires
        h1.spec_to_bytes() == h2.spec_to_bytes(),
    ensures
        h1 == h2,
{
    assert(h1.spec_to_bytes()[0] == h2.spec_to_bytes()[0]);
    assert(h1.spec_to_bytes()[1] == h2.spec_to_bytes()[1]);
    assert(h1.spec_to_bytes()[2] == h2.spec_to_bytes()[2]);
    assert(h1.spec_to_bytes()[3] == h2.spec_to_bytes()[3]);
}

} // verus!
