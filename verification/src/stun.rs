use vstd::prelude::*;
use crate::addr::{Endpoint4, ipv4_of, ipv4_from_octets, be16, be16_exec};

verus! {

/// Why a STUN response yielded no public address.
#[derive(Debug, Clone, Copy, PartialEq, Eq, Structural)]
pub enum StunError {
    /// Fewer than 20 bytes, the size of a STUN header.
    TooShort,
    /// Bytes 4..8 are not the magic cookie `21 12 A4 42`.
    BadMagicCookie,
    /// No (XOR-)MAPPED-ADDRESS attribute with an IPv4 address was found.
    NoAddress,
}

impl StunError {
    /// The text with which the discovery reports this error.
    pub fn message(&self) -> (s: String)
        ensures
            s@ == stun_error_text(*self),
    {
        match self {
            StunError::TooShort => "STUN response too short".to_owned(),
            StunError::BadMagicCookie => "Invalid STUN magic cookie received".to_owned(),
            StunError::NoAddress => "STUN response did not contain a valid public address".to_owned(),
        }
    }
}

pub open spec fn stun_error_text(e: StunError) -> Seq<char> {
    match e {
        StunError::TooShort => "STUN response too short"@,
        StunError::BadMagicCookie => "Invalid STUN magic cookie received"@,
        StunError::NoAddress => "STUN response did not contain a valid public address"@,
    }
}

/// Attribute type of MAPPED-ADDRESS.
pub const ATTR_MAPPED_ADDRESS: u16 = 0x0001;
/// Attribute type of XOR-MAPPED-ADDRESS.
pub const ATTR_XOR_MAPPED_ADDRESS: u16 = 0x0020;

/// The 20-byte Binding Request with the given transaction id (RFC 5389 header,
/// no attributes).
pub open spec fn stun_request_bytes(txn: Seq<u8>) -> Seq<u8> {
    seq![0x00u8, 0x01u8, 0x00u8, 0x00u8, 0x21u8, 0x12u8, 0xA4u8, 0x42u8] + txn
}

/// Builds a Binding Request carrying transaction id `txn`.
pub fn build_stun_request(txn: &[u8; 12]) -> (req: [u8; 20])
    ensures
        req@ == stun_request_bytes(txn@),
{
    let mut request = [0u8; 20];
    request[0] = 0x00;
    request[1] = 0x01;
    request[2] = 0x00;
    request[3] = 0x00;
    request[4] = 0x21;
    request[5] = 0x12;
    request[6] = 0xA4;
    request[7] = 0x42;
    let mut i: usize = 8;
    while i < 20
        invariant
            8 <= i <= 20,
            request@.len() == 20,
            request@.subrange(0, 8) == seq![0x00u8, 0x01u8, 0x00u8, 0x00u8, 0x21u8, 0x12u8, 0xA4u8, 0x42u8],
            forall|j: int| 8 <= j < i ==> request@[j] == txn@[j - 8],
        decreases 20 - i,
    {
        request[i] = txn[i - 8];
        i = i + 1;
    }
    assert(request@ =~= stun_request_bytes(txn@));
    request
}

/// One uniformly random byte from the thread-local generator.
#[verifier::external_body]
fn random_byte() -> u8 {
    rand::Rng::gen::<u8>(&mut rand::thread_rng())
}

/// A Binding Request with a fresh random transaction id.
pub fn new_stun_request() -> (req: [u8; 20])
    ensures
        req@.subrange(0, 8) == seq![0x00u8, 0x01u8, 0x00u8, 0x00u8, 0x21u8, 0x12u8, 0xA4u8, 0x42u8],
        req@ == stun_request_bytes(req@.subrange(8, 20)),
{
    let mut txn = [0u8; 12];
    let mut i: usize = 0;
    while i < 12
        invariant
            0 <= i <= 12,
            txn@.len() == 12,
        decreases 12 - i,
    {
        txn[i] = random_byte();
        i = i + 1;
    }
    let req = build_stun_request(&txn);
    assert(req@.subrange(8, 20) =~= txn@);
    assert(req@.subrange(0, 8) =~= seq![0x00u8, 0x01u8, 0x00u8, 0x00u8, 0x21u8, 0x12u8, 0xA4u8, 0x42u8]);
    req
}

/// Offset of the attribute after the one whose value starts at `value_start`
/// and is `value_len` bytes long, padded to a 4-byte boundary.
pub open spec fn next_attr_offset(value_start: int, value_len: int) -> int {
    let end = value_start + value_len;
    if end % 4 != 0 {
        end + (4 - end % 4)
    } else {
        end
    }
}

/// The address in an IPv4 XOR-MAPPED-ADDRESS value starting at `v`.
pub open spec fn xor_mapped_at(buf: Seq<u8>, v: int) -> Endpoint4 {
    Endpoint4 {
        ip: ipv4_of(buf[v + 4] ^ 0x21u8, buf[v + 5] ^ 0x12u8, buf[v + 6] ^ 0xA4u8, buf[v + 7] ^ 0x42u8),
        port: be16(buf[v + 2], buf[v + 3]) ^ 0x2112u16,
    }
}

/// The address in an IPv4 MAPPED-ADDRESS value starting at `v`.
pub open spec fn mapped_at(buf: Seq<u8>, v: int) -> Endpoint4 {
    Endpoint4 {
        ip: ipv4_of(buf[v + 4], buf[v + 5], buf[v + 6], buf[v + 7]),
        port: be16(buf[v + 2], buf[v + 3]),
    }
}

/// Walks the attributes of the first `len` bytes of `buf` from `offset` and gives
/// the first IPv4 (XOR-)MAPPED-ADDRESS. The family byte and the address are read
/// from `buf` at their place even where the attribute declares a shorter value.
pub open spec fn stun_scan(buf: Seq<u8>, len: int, offset: int) -> Option<Endpoint4>
    decreases len + 4 - offset,
{
    if offset + 4 > len {
        None
    } else {
        let attr_type = be16(buf[offset], buf[offset + 1]);
        let attr_len = be16(buf[offset + 2], buf[offset + 3]) as int;
        let v = offset + 4;
        proof {
            lemma_next_offset(v, attr_len);
        }
        if v + attr_len > len {
            None
        } else if attr_type == ATTR_XOR_MAPPED_ADDRESS && buf[v + 1] == 0x01 {
            Some(xor_mapped_at(buf, v))
        } else if attr_type == ATTR_MAPPED_ADDRESS && buf[v + 1] == 0x01 {
            Some(mapped_at(buf, v))
        } else {
            stun_scan(buf, len, next_attr_offset(v, attr_len))
        }
    }
}

/// Every byte that `stun_scan` reads from `offset` on lies inside `buf`.
pub open spec fn stun_scan_in_bounds(buf: Seq<u8>, len: int, offset: int) -> bool
    decreases len + 4 - offset,
{
    if offset + 4 > len {
        true
    } else {
        let attr_type = be16(buf[offset], buf[offset + 1]);
        let attr_len = be16(buf[offset + 2], buf[offset + 3]) as int;
        let v = offset + 4;
        proof {
            lemma_next_offset(v, attr_len);
        }
        if v + attr_len > len {
            true
        } else if attr_type == ATTR_XOR_MAPPED_ADDRESS || attr_type == ATTR_MAPPED_ADDRESS {
            &&& v + 1 < buf.len()
            &&& buf[v + 1] == 0x01 ==> v + 7 < buf.len()
            &&& buf[v + 1] != 0x01 ==> stun_scan_in_bounds(buf, len, next_attr_offset(v, attr_len))
        } else {
            stun_scan_in_bounds(buf, len, next_attr_offset(v, attr_len))
        }
    }
}

/// What parsing the first `len` bytes of `buf` as a Binding Response gives.
pub open spec fn stun_parse(buf: Seq<u8>, len: int) -> Result<Endpoint4, StunError> {
    if len < 20 {
        Err(StunError::TooShort)
    } else if !(buf[4] == 0x21 && buf[5] == 0x12 && buf[6] == 0xA4 && buf[7] == 0x42) {
        Err(StunError::BadMagicCookie)
    } else {
        match stun_scan(buf, len, 20) {
            Some(a) => Ok(a),
            None => Err(StunError::NoAddress),
        }
    }
}

/// The fixed header checks pass: at least 20 bytes and the magic cookie.
pub open spec fn stun_header_ok(buf: Seq<u8>, len: int) -> bool {
    len >= 20 && buf[4] == 0x21 && buf[5] == 0x12 && buf[6] == 0xA4 && buf[7] == 0x42
}

/// Parsing reads only bytes inside `buf`: a reply that fails the header checks
/// is refused before any attribute is read.
pub open spec fn stun_parse_in_bounds(buf: Seq<u8>, len: int) -> bool {
    stun_header_ok(buf, len) ==> stun_scan_in_bounds(buf, len, 20)
}

/// The next attribute starts at the padded end of the current one: the least
/// multiple of 4 at or after the end of its value.
pub proof fn lemma_next_offset(v: int, l: int)
    requires
        0 <= l,
    ensures
        v + l <= next_attr_offset(v, l) <= v + l + 3,
        next_attr_offset(v, l) % 4 == 0,
        forall|m: int| v + l <= m && #[trigger] (m % 4) == 0 ==> next_attr_offset(v, l) <= m,
{
}

/// Decides `stun_parse_in_bounds`; a response outside it would index past the buffer.
pub fn stun_response_in_bounds(buf: &[u8], len: usize) -> (r: bool)
    requires
        len <= buf@.len(),
        buf@.len() <= isize::MAX,
    ensures
        r == stun_parse_in_bounds(buf@, len as int),
{
    if len < 20 {
        return true;
    }
    if !(buf[4] == 0x21 && buf[5] == 0x12 && buf[6] == 0xA4 && buf[7] == 0x42) {
        return true;
    }
    let mut offset: usize = 20;
    while offset + 4 <= len
        invariant
            len <= buf@.len() <= isize::MAX,
            20 <= offset,
            offset <= len + 3,
            stun_parse_in_bounds(buf@, len as int) == stun_scan_in_bounds(buf@, len as int, offset as int),
        decreases len + 4 - offset,
    {
        let attr_type = be16_exec(buf[offset], buf[offset + 1]);
        let attr_len = be16_exec(buf[offset + 2], buf[offset + 3]) as usize;
        let v = offset + 4;
        if v + attr_len > len {
            return true;
        }
        if attr_type == ATTR_XOR_MAPPED_ADDRESS || attr_type == ATTR_MAPPED_ADDRESS {
            if v + 1 >= buf.len() {
                return false;
            }
            if buf[v + 1] == 0x01 {
                return v + 7 < buf.len();
            }
        }
        proof {
            lemma_next_offset(v as int, attr_len as int);
        }
        let mut next = v + attr_len;
        if next % 4 != 0 {
            next = next + (4 - next % 4);
        }
        offset = next;
    }
    true
}

/// Parses the first `len` bytes of `buf` as a STUN Binding Response and gives
/// the IPv4 public address from its first XOR-MAPPED-ADDRESS or MAPPED-ADDRESS
/// attribute.
pub fn parse_stun_response(buf: &[u8], len: usize) -> (res: Result<Endpoint4, StunError>)
    requires
        len <= buf@.len(),
        buf@.len() <= isize::MAX,
        stun_parse_in_bounds(buf@, len as int),
    ensures
        res == stun_parse(buf@, len as int),
        len < 20 ==> res == Err::<Endpoint4, StunError>(StunError::TooShort),
        len >= 20 && !(buf@[4] == 0x21 && buf@[5] == 0x12 && buf@[6] == 0xA4 && buf@[7] == 0x42) ==> res
            == Err::<Endpoint4, StunError>(StunError::BadMagicCookie),
        res is Ok ==> len >= 24,
{
    if len < 20 {
        return Err(StunError::TooShort);
    }
    if !(buf[4] == 0x21 && buf[5] == 0x12 && buf[6] == 0xA4 && buf[7] == 0x42) {
        return Err(StunError::BadMagicCookie);
    }
    let mut offset: usize = 20;
    while offset + 4 <= len
        invariant
            20 <= len <= buf@.len() <= isize::MAX,
            buf@[4] == 0x21 && buf@[5] == 0x12 && buf@[6] == 0xA4 && buf@[7] == 0x42,
            20 <= offset,
            offset <= len + 3,
            stun_scan(buf@, len as int, 20) == stun_scan(buf@, len as int, offset as int),
            stun_scan_in_bounds(buf@, len as int, offset as int),
        decreases len + 4 - offset,
    {
        let attr_type = be16_exec(buf[offset], buf[offset + 1]);
        let attr_len = be16_exec(buf[offset + 2], buf[offset + 3]) as usize;
        let v = offset + 4;
        if v + attr_len > len {
            return Err(StunError::NoAddress);
        }
        if attr_type == ATTR_XOR_MAPPED_ADDRESS {
            if buf[v + 1] == 0x01 {
                let port = be16_exec(buf[v + 2], buf[v + 3]) ^ 0x2112u16;
                let ip = ipv4_from_octets(
                    buf[v + 4] ^ 0x21u8,
                    buf[v + 5] ^ 0x12u8,
                    buf[v + 6] ^ 0xA4u8,
                    buf[v + 7] ^ 0x42u8,
                );
                return Ok(Endpoint4 { ip, port });
            }
        }
        if attr_type == ATTR_MAPPED_ADDRESS {
            if buf[v + 1] == 0x01 {
                let port = be16_exec(buf[v + 2], buf[v + 3]);
                let ip = ipv4_from_octets(buf[v + 4], buf[v + 5], buf[v + 6], buf[v + 7]);
                return Ok(Endpoint4 { ip, port });
            }
        }
        proof {
            lemma_next_offset(v as int, attr_len as int);
        }
        let mut next = v + attr_len;
        if next % 4 != 0 {
            next = next + (4 - next % 4);
        }
        offset = next;
    }
    Err(StunError::NoAddress)
}

/// A Binding Success Response with transaction id `txn` whose only attribute is
/// an IPv4 XOR-MAPPED-ADDRESS carrying `a` (RFC 5389, section 15.2).
pub open spec fn xor_mapped_response(txn: Seq<u8>, a: Endpoint4) -> Seq<u8> {
    let q = a.port ^ 0x2112u16;
    seq![0x01u8, 0x01u8, 0x00u8, 0x0Cu8, 0x21u8, 0x12u8, 0xA4u8, 0x42u8] + txn + seq![
        0x00u8,
        0x20u8,
        0x00u8,
        0x08u8,
        0x00u8,
        0x01u8,
        (q >> 8u16) as u8,
        q as u8,
        ((a.ip >> 24u32) as u8) ^ 0x21u8,
        ((a.ip >> 16u32) as u8) ^ 0x12u8,
        ((a.ip >> 8u32) as u8) ^ 0xA4u8,
        (a.ip as u8) ^ 0x42u8,
    ]
}

/// Discovery gives back the public address that the STUN server saw: the
/// response that reports address `a` parses, within bounds, to `a`.
pub proof fn lemma_stun_reports_mapped_address(txn: Seq<u8>, a: Endpoint4)
    requires
        txn.len() == 12,
    ensures
        stun_parse_in_bounds(xor_mapped_response(txn, a), 32),
        stun_parse(xor_mapped_response(txn, a), 32) == Ok::<Endpoint4, StunError>(a),
{
    let r = xor_mapped_response(txn, a);
    assert(r.len() == 32);
    let q = a.port ^ 0x2112u16;
    let (p1, p0) = ((q >> 8u16) as u8, q as u8);
    let port = a.port;
    assert(be16(p1, p0) ^ 0x2112u16 == port) by (bit_vector)
        requires
            q == port ^ 0x2112u16,
            p1 == (q >> 8u16) as u8,
            p0 == q as u8,
    ;
    let ip = a.ip;
    let (b3, b2, b1, b0) = (
        ((ip >> 24u32) as u8) ^ 0x21u8,
        ((ip >> 16u32) as u8) ^ 0x12u8,
        ((ip >> 8u32) as u8) ^ 0xA4u8,
        (ip as u8) ^ 0x42u8,
    );
    assert(ipv4_of(b3 ^ 0x21u8, b2 ^ 0x12u8, b1 ^ 0xA4u8, b0 ^ 0x42u8) == ip) by (bit_vector)
        requires
            b3 == ((ip >> 24u32) as u8) ^ 0x21u8,
            b2 == ((ip >> 16u32) as u8) ^ 0x12u8,
            b1 == ((ip >> 8u32) as u8) ^ 0xA4u8,
            b0 == (ip as u8) ^ 0x42u8,
    ;
    assert(r[20] == 0x00u8 && r[21] == 0x20u8 && r[22] == 0x00u8 && r[23] == 0x08u8 && r[25] == 0x01u8);
    assert(r[26] == p1 && r[27] == p0 && r[28] == b3 && r[29] == b2 && r[30] == b1 && r[31] == b0);
    assert(be16(r[20], r[21]) == ATTR_XOR_MAPPED_ADDRESS);
    assert(be16(r[22], r[23]) == 8);
    assert(xor_mapped_at(r, 24) == a);
    assert(stun_scan(r, 32, 20) == Some(a));
}

/// An attribute as it is sent: its type and value length (big-endian), its
/// value, and zero bytes up to the next 4-byte boundary (RFC 5389, section 15).
pub open spec fn stun_attr_bytes(attr_type: u16, value: Seq<u8>) -> Seq<u8> {
    let l = value.len() as u16;
    seq![(attr_type >> 8u16) as u8, attr_type as u8, (l >> 8u16) as u8, l as u8] + value + Seq::new(
        ((4 - value.len() % 4) % 4) as nat,
        |i: int| 0u8,
    )
}

/// An IPv4 MAPPED-ADDRESS attribute carrying `a`.
pub open spec fn mapped_address_attr(a: Endpoint4) -> Seq<u8> {
    stun_attr_bytes(
        ATTR_MAPPED_ADDRESS,
        seq![
            0x00u8,
            0x01u8,
            (a.port >> 8u16) as u8,
            a.port as u8,
            (a.ip >> 24u32) as u8,
            (a.ip >> 16u32) as u8,
            (a.ip >> 8u32) as u8,
            a.ip as u8,
        ],
    )
}

/// Attributes that carry no address are skipped, whatever their length: a
/// response (any 20-byte header with the magic cookie) whose first attribute
/// is of another type and whose second is an IPv4 MAPPED-ADDRESS carrying `a`
/// parses, within bounds, to `a`.
pub proof fn lemma_stun_skips_other_attributes(head: Seq<u8>, attr_type: u16, value: Seq<u8>, a: Endpoint4)
    requires
        head.len() == 20,
        head[4] == 0x21 && head[5] == 0x12 && head[6] == 0xA4 && head[7] == 0x42,
        attr_type != ATTR_MAPPED_ADDRESS,
        attr_type != ATTR_XOR_MAPPED_ADDRESS,
        value.len() <= 0xffff,
    ensures
        ({
            let r = head + stun_attr_bytes(attr_type, value) + mapped_address_attr(a);
            &&& stun_parse_in_bounds(r, r.len() as int)
            &&& stun_parse(r, r.len() as int) == Ok::<Endpoint4, StunError>(a)
        }),
{
    let attr = stun_attr_bytes(attr_type, value);
    let m = mapped_address_attr(a);
    let r = head + attr + m;
    let n = r.len() as int;
    let len = value.len() as int;
    let pad = (4 - len % 4) % 4;
    let l = value.len() as u16;
    assert(l == len);
    assert(attr.len() == 4 + len + pad);
    let mvalue = seq![
        0x00u8,
        0x01u8,
        (a.port >> 8u16) as u8,
        a.port as u8,
        (a.ip >> 24u32) as u8,
        (a.ip >> 16u32) as u8,
        (a.ip >> 8u32) as u8,
        a.ip as u8,
    ];
    assert(m.len() == 12);
    let o: int = 20 + attr.len() as int;
    assert(n == o + 12);
    // the first attribute's header
    let (t1, t0) = ((attr_type >> 8u16) as u8, attr_type as u8);
    assert(be16(t1, t0) == attr_type) by (bit_vector)
        requires
            t1 == (attr_type >> 8u16) as u8,
            t0 == attr_type as u8,
    ;
    let (l1, l0) = ((l >> 8u16) as u8, l as u8);
    assert(be16(l1, l0) == l) by (bit_vector)
        requires
            l1 == (l >> 8u16) as u8,
            l0 == l as u8,
    ;
    assert(r[20] == t1 && r[21] == t0 && r[22] == l1 && r[23] == l0);
    // the next attribute starts right after the padding
    lemma_next_offset(24, len);
    assert(next_attr_offset(24, len) == o);
    // the MAPPED-ADDRESS attribute
    let port = a.port;
    let (p1, p0) = ((port >> 8u16) as u8, port as u8);
    assert(be16(p1, p0) == port) by (bit_vector)
        requires
            p1 == (port >> 8u16) as u8,
            p0 == port as u8,
    ;
    let ip = a.ip;
    let (b3, b2, b1, b0) = ((ip >> 24u32) as u8, (ip >> 16u32) as u8, (ip >> 8u32) as u8, ip as u8);
    assert(ipv4_of(b3, b2, b1, b0) == ip) by (bit_vector)
        requires
            b3 == (ip >> 24u32) as u8,
            b2 == (ip >> 16u32) as u8,
            b1 == (ip >> 8u32) as u8,
            b0 == ip as u8,
    ;
    assert(be16(0x00u8, 0x01u8) == ATTR_MAPPED_ADDRESS);
    assert(be16(0x00u8, 0x08u8) == 8u16);
    assert(((1u16 >> 8u16) as u8) == 0u8 && (1u16 as u8) == 1u8 && ((8u16 >> 8u16) as u8) == 0u8 && (8u16
        as u8) == 8u8) by (bit_vector);
    assert(mvalue.len() == 8);
    assert(m[0] == 0x00u8 && m[1] == 0x01u8 && m[2] == 0x00u8 && m[3] == 0x08u8);
    assert(m.subrange(4, 12) =~= mvalue);
    assert(r[o] == m[0] && r[o + 1] == m[1] && r[o + 2] == m[2] && r[o + 3] == m[3]);
    assert(r[o + 5] == m[5] && r[o + 6] == m[6] && r[o + 7] == m[7]);
    assert(r[o + 8] == m[8] && r[o + 9] == m[9] && r[o + 10] == m[10] && r[o + 11] == m[11]);
    assert(r[o + 5] == 0x01u8);
    assert(r[o + 6] == p1 && r[o + 7] == p0);
    assert(r[o + 8] == b3 && r[o + 9] == b2 && r[o + 10] == b1 && r[o + 11] == b0);
    assert(mapped_at(r, o + 4) == a);
    assert(stun_scan(r, n, o) == Some(a));
    assert(stun_scan_in_bounds(r, n, o));
    assert(stun_scan(r, n, 20) == Some(a));
    assert(stun_scan_in_bounds(r, n, 20));
    assert(r[4] == 0x21 && r[5] == 0x12 && r[6] == 0xA4 && r[7] == 0x42);
}

} // verus!
