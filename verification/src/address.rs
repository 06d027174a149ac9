//! IPv4 addresses and their dotted-quad text form.

use vstd::prelude::*;
use vstd::slice::*;
use vstd::string::*;
use crate::error::ErrorKind;

verus! {

/// An IPv4 address, held as its four octets from the most significant one down.
#[derive(Clone, Copy, Debug, PartialEq, Eq, Structural)]
pub struct Ipv4Address {
    pub a: u8,
    pub b: u8,
    pub c: u8,
    pub d: u8,
}

/// The byte of the full stop that separates two octets.
pub const DOT: u8 = 46;

/// The byte of the digit zero.
pub const ZERO: u8 = 48;

/// Whether `b` is an ASCII decimal digit.
pub open spec fn is_digit(b: u8) -> bool {
    48 <= b <= 57
}

/// The decimal text of one octet: one to three digits, no leading zero.
pub open spec fn octet_text(n: u8) -> Seq<u8> {
    if n < 10 {
        seq![(48 + n) as u8]
    } else if n < 100 {
        seq![(48 + n / 10) as u8, (48 + n % 10) as u8]
    } else {
        seq![(48 + n / 100) as u8, (48 + (n / 10) % 10) as u8, (48 + n % 10) as u8]
    }
}

/// The dotted-quad text of an address: its four octets in decimal, joined by
/// full stops.
pub open spec fn dotted_quad(addr: Ipv4Address) -> Seq<u8> {
    octet_text(addr.a) + seq![46u8] + octet_text(addr.b) + seq![46u8] + octet_text(addr.c)
        + seq![46u8] + octet_text(addr.d)
}

/// Whether `bytes` is the dotted-quad text of some address.
pub open spec fn is_dotted_quad(bytes: Seq<u8>) -> bool {
    exists|addr: Ipv4Address| bytes == #[trigger] dotted_quad(addr)
}

/// The address that `bytes` spells, if it spells one.
pub open spec fn address_of(bytes: Seq<u8>) -> Option<Ipv4Address> {
    if is_dotted_quad(bytes) {
        Some(choose|addr: Ipv4Address| bytes == #[trigger] dotted_quad(addr))
    } else {
        None
    }
}

/// What parsing `bytes` gives: the address it spells, or a parse error.
pub open spec fn parsed(bytes: Seq<u8>) -> Result<Ipv4Address, ErrorKind> {
    match address_of(bytes) {
        Some(addr) => Ok(addr),
        None => Err(ErrorKind::ParseError),
    }
}

/// How many digits stand at `start`, counted up to four.
pub open spec fn digit_run(bytes: Seq<u8>, start: int) -> int {
    if !(0 <= start < bytes.len() && is_digit(bytes[start])) {
        0
    } else if !(start + 1 < bytes.len() && is_digit(bytes[start + 1])) {
        1
    } else if !(start + 2 < bytes.len() && is_digit(bytes[start + 2])) {
        2
    } else if !(start + 3 < bytes.len() && is_digit(bytes[start + 3])) {
        3
    } else {
        4
    }
}

/// The octet whose text is the whole run of digits at `start`, with the
/// position just behind it; `None` where the run is empty, too long, has a
/// leading zero or exceeds 255.
#[verifier::opaque]
pub open spec fn scan_octet(bytes: Seq<u8>, start: int) -> Option<(u8, int)> {
    let run = digit_run(bytes, start);
    if run == 1 {
        Some(((bytes[start] - 48) as u8, start + 1))
    } else if run == 2 && bytes[start] != 48 {
        Some((((bytes[start] - 48) * 10 + (bytes[start + 1] - 48)) as u8, start + 2))
    } else if run == 3 && bytes[start] != 48 && (bytes[start] - 48) * 100 + (bytes[start + 1]
        - 48) * 10 + (bytes[start + 2] - 48) <= 255 {
        Some(
            (
                ((bytes[start] - 48) * 100 + (bytes[start + 1] - 48) * 10 + (bytes[start + 2]
                    - 48)) as u8,
                start + 3,
            ),
        )
    } else {
        None
    }
}

/// Whether a full stop stands at `pos`.
pub open spec fn dot_at(bytes: Seq<u8>, pos: int) -> bool {
    0 <= pos < bytes.len() && bytes[pos] == 46
}

/// The address that a left-to-right scan of `bytes` finds: four octets with a
/// full stop after each of the first three and nothing after the fourth.
pub open spec fn scan_dotted_quad(bytes: Seq<u8>) -> Option<Ipv4Address> {
    match scan_octet(bytes, 0) {
        Some((a, end_a)) if dot_at(bytes, end_a) => match scan_octet(bytes, end_a + 1) {
            Some((b, end_b)) if dot_at(bytes, end_b) => match scan_octet(bytes, end_b + 1) {
                Some((c, end_c)) if dot_at(bytes, end_c) => match scan_octet(bytes, end_c + 1) {
                    Some((d, end_d)) if end_d == bytes.len() => Some(Ipv4Address { a, b, c, d }),
                    _ => None,
                },
                _ => None,
            },
            _ => None,
        },
        _ => None,
    }
}

/// An octet that the scan accepts spells exactly the bytes it consumed.
pub proof fn lemma_scan_octet_sound(bytes: Seq<u8>, start: int)
    requires
        scan_octet(bytes, start) is Some,
    ensures
        ({
            let (v, end) = scan_octet(bytes, start)->0;
            &&& start < end <= bytes.len()
            &&& bytes.subrange(start, end) =~= octet_text(v)
            &&& end - start == octet_text(v).len()
        }),
{
    reveal(scan_octet);
}

/// Where the text of `v` stands at `start` and no digit follows it, the scan
/// reads `v` and stops behind it.
pub proof fn lemma_scan_octet_complete(bytes: Seq<u8>, start: int, v: u8)
    requires
        0 <= start,
        start + octet_text(v).len() <= bytes.len(),
        bytes.subrange(start, start + octet_text(v).len()) == octet_text(v),
        start + octet_text(v).len() == bytes.len() || !is_digit(
            bytes[start + octet_text(v).len()],
        ),
    ensures
        scan_octet(bytes, start) == Some((v, start + octet_text(v).len())),
{
    reveal(scan_octet);
    let text = octet_text(v);
    let part = bytes.subrange(start, start + text.len());
    assert forall|i: int| 0 <= i < text.len() implies bytes[start + i] == text[i] by {
        assert(part[i] == bytes[start + i]);
    }
    if v < 10 {
        assert(bytes[start] == text[0]);
    } else if v < 100 {
        assert(bytes[start] == text[0]);
        assert(bytes[start + 1] == text[1]);
    } else {
        assert(bytes[start] == text[0]);
        assert(bytes[start + 1] == text[1]);
        assert(bytes[start + 2] == text[2]);
    }
}

/// A scan that succeeds has read the dotted-quad text of its result.
pub proof fn lemma_scan_sound(bytes: Seq<u8>)
    requires
        scan_dotted_quad(bytes) is Some,
    ensures
        bytes == dotted_quad(scan_dotted_quad(bytes)->0),
{
    let end_a = (scan_octet(bytes, 0)->0).1;
    let end_b = (scan_octet(bytes, end_a + 1)->0).1;
    let end_c = (scan_octet(bytes, end_b + 1)->0).1;
    lemma_scan_octet_sound(bytes, 0);
    lemma_scan_octet_sound(bytes, end_a + 1);
    lemma_scan_octet_sound(bytes, end_b + 1);
    lemma_scan_octet_sound(bytes, end_c + 1);
    let whole = bytes.subrange(0, end_a) + seq![46u8] + bytes.subrange(end_a + 1, end_b) + seq![46u8]
        + bytes.subrange(end_b + 1, end_c) + seq![46u8] + bytes.subrange(end_c + 1, bytes.len() as int);
    assert(bytes =~= whole);
}

/// The scan of an address's dotted-quad text finds that address.
pub proof fn lemma_scan_complete(addr: Ipv4Address)
    ensures
        scan_dotted_quad(dotted_quad(addr)) == Some(addr),
{
    let bytes = dotted_quad(addr);
    let ta = octet_text(addr.a);
    let tb = octet_text(addr.b);
    let tc = octet_text(addr.c);
    let td = octet_text(addr.d);
    let end_a = ta.len() as int;
    let end_b = end_a + 1 + tb.len();
    let end_c = end_b + 1 + tc.len();
    let end_d = end_c + 1 + td.len();
    assert(bytes.len() == end_d);
    assert(bytes.subrange(0, end_a) =~= ta);
    assert(bytes[end_a] == 46);
    assert(bytes.subrange(end_a + 1, end_b) =~= tb);
    assert(bytes[end_b] == 46);
    assert(bytes.subrange(end_b + 1, end_c) =~= tc);
    assert(bytes[end_c] == 46);
    assert(bytes.subrange(end_c + 1, end_d) =~= td);
    lemma_scan_octet_complete(bytes, 0, addr.a);
    lemma_scan_octet_complete(bytes, end_a + 1, addr.b);
    lemma_scan_octet_complete(bytes, end_b + 1, addr.c);
    lemma_scan_octet_complete(bytes, end_c + 1, addr.d);
}

/// Parsing the dotted-quad text of an address gives that address back.
pub proof fn lemma_parse_inverts_text(addr: Ipv4Address)
    ensures
        parsed(dotted_quad(addr)) == Ok::<Ipv4Address, ErrorKind>(addr),
{
    lemma_scan_decides(dotted_quad(addr));
}

/// Two addresses with the same dotted-quad text are the same address.
pub proof fn lemma_dotted_quad_injective(x: Ipv4Address, y: Ipv4Address)
    requires
        dotted_quad(x) == dotted_quad(y),
    ensures
        x == y,
{
    lemma_scan_complete(x);
    lemma_scan_complete(y);
}

/// The scan decides the grammar: it finds an address exactly on the
/// dotted-quad texts, and then the address that the text spells.
pub proof fn lemma_scan_decides(bytes: Seq<u8>)
    ensures
        scan_dotted_quad(bytes) is Some <==> is_dotted_quad(bytes),
        forall|addr: Ipv4Address|
            bytes == #[trigger] dotted_quad(addr) ==> scan_dotted_quad(bytes) == Some(addr),
        scan_dotted_quad(bytes) == address_of(bytes),
{
    if scan_dotted_quad(bytes) is Some {
        lemma_scan_sound(bytes);
    }
    if is_dotted_quad(bytes) {
        lemma_scan_complete(choose|addr: Ipv4Address| bytes == #[trigger] dotted_quad(addr));
    }
    assert forall|addr: Ipv4Address| bytes == #[trigger] dotted_quad(addr) implies scan_dotted_quad(
        bytes,
    ) == Some(addr) by {
        lemma_scan_complete(addr);
    }
}

fn digit_at(bytes: &[u8], pos: usize) -> (r: bool)
    ensures
        r == (pos < bytes@.len() && is_digit(bytes@[pos as int])),
{
    pos < bytes.len() && ZERO <= bytes[pos] && bytes[pos] <= 57
}

fn read_octet(bytes: &[u8], start: usize) -> (r: Option<(u8, usize)>)
    ensures
        match r {
            Some((v, end)) => scan_octet(bytes@, start as int) == Some((v, end as int)),
            None => scan_octet(bytes@, start as int) is None,
        },
{
    proof {
        reveal(scan_octet);
    }
    if !digit_at(bytes, start) {
        return None;
    }
    let d0: u8 = bytes[start] - ZERO;
    if !digit_at(bytes, start + 1) {
        return Some((d0, start + 1));
    }
    let d1: u8 = bytes[start + 1] - ZERO;
    if d0 == 0 {
        return None;
    }
    if !digit_at(bytes, start + 2) {
        return Some((d0 * 10 + d1, start + 2));
    }
    let d2: u8 = bytes[start + 2] - ZERO;
    if digit_at(bytes, start + 3) {
        return None;
    }
    let wide: u16 = (d0 as u16) * 100 + (d1 as u16) * 10 + (d2 as u16);
    if wide > 255 {
        None
    } else {
        Some((wide as u8, start + 3))
    }
}

fn read_dot(bytes: &[u8], pos: usize) -> (r: bool)
    ensures
        r == dot_at(bytes@, pos as int),
{
    pos < bytes.len() && bytes[pos] == DOT
}

fn scan(bytes: &[u8]) -> (r: Option<Ipv4Address>)
    ensures
        r == scan_dotted_quad(bytes@),
{
    let len = bytes.len();
    let (a, end_a) = match read_octet(bytes, 0) {
        Some(found) => found,
        None => { return None; },
    };
    if !read_dot(bytes, end_a) {
        return None;
    }
    let (b, end_b) = match read_octet(bytes, end_a + 1) {
        Some(found) => found,
        None => { return None; },
    };
    if !read_dot(bytes, end_b) {
        return None;
    }
    let (c, end_c) = match read_octet(bytes, end_b + 1) {
        Some(found) => found,
        None => { return None; },
    };
    if !read_dot(bytes, end_c) {
        return None;
    }
    let (d, end_d) = match read_octet(bytes, end_c + 1) {
        Some(found) => found,
        None => { return None; },
    };
    if end_d != len {
        return None;
    }
    Some(Ipv4Address { a, b, c, d })
}

fn push_octet(out: &mut Vec<u8>, n: u8)
    ensures
        final(out)@ == old(out)@ + octet_text(n),
{
    let ghost before = out@;
    if n >= 100 {
        out.push(ZERO + n / 100);
    }
    if n >= 10 {
        out.push(ZERO + (n / 10) % 10);
    }
    out.push(ZERO + n % 10);
    assert(out@ =~= before + octet_text(n));
}

impl Ipv4Address {
    /// Writes the address as dotted-quad text, which parses back to it.
    pub fn to_text(&self) -> (r: Vec<u8>)
        ensures
            r@ == dotted_quad(*self),
            parsed(r@) == Ok::<Ipv4Address, ErrorKind>(*self),
    {
        let mut out: Vec<u8> = Vec::new();
        push_octet(&mut out, self.a);
        out.push(DOT);
        push_octet(&mut out, self.b);
        out.push(DOT);
        push_octet(&mut out, self.c);
        out.push(DOT);
        push_octet(&mut out, self.d);
        proof {
            assert(out@ =~= dotted_quad(*self));
            lemma_parse_inverts_text(*self);
        }
        out
    }
}

/// Parses the dotted-quad text of an IPv4 address.
///
/// Succeeds exactly on the texts of the grammar, with the address that the
/// text spells; every other input is a `ParseError`.
pub fn parse_ipv4_bytes(bytes: &[u8]) -> (r: Result<Ipv4Address, ErrorKind>)
    ensures
        r == parsed(bytes@),
        r is Ok <==> is_dotted_quad(bytes@),
        r is Ok ==> bytes@ == dotted_quad(r->Ok_0),
        r is Err ==> r->Err_0 == ErrorKind::ParseError,
        forall|addr: Ipv4Address| bytes@ == #[trigger] dotted_quad(addr) ==> r == Ok::<Ipv4Address, ErrorKind>(addr),
{
    proof {
        lemma_scan_decides(bytes@);
        if scan_dotted_quad(bytes@) is Some {
            lemma_scan_sound(bytes@);
        }
    }
    match scan(bytes) {
        Some(addr) => Ok(addr),
        None => Err(ErrorKind::ParseError),
    }
}

/// Parses a string as a dotted-quad IPv4 address, by its UTF-8 bytes.
pub fn parse_ipv4(text: &str) -> (r: Result<Ipv4Address, ErrorKind>)
    ensures
        r == parsed(text.spec_bytes()),
        r is Ok <==> is_dotted_quad(text.spec_bytes()),
        r is Ok ==> text.spec_bytes() == dotted_quad(r->Ok_0),
        r is Err ==> r->Err_0 == ErrorKind::ParseError,
        forall|addr: Ipv4Address| text.spec_bytes() == #[trigger] dotted_quad(addr) ==> r == Ok::<Ipv4Address, ErrorKind>(addr),
{
    parse_ipv4_bytes(text.as_bytes())
}

} // verus!
