//! Where the peer is: IPv4 addresses in dotted decimal notation, and ports.

use vstd::prelude::*;
use vstd::string::*;

verus! {

/// The four octets of an IPv4 address, most significant first.
#[derive(Debug, Clone, Copy, PartialEq, Eq, Structural)]
pub struct Ipv4Address {
    pub a: u8,
    pub b: u8,
    pub c: u8,
    pub d: u8,
}

/// The peer that a client talks to.
#[derive(Debug, Clone, Copy, PartialEq, Eq, Structural)]
pub struct SocketAddress {
    pub ip: Ipv4Address,
    pub port: u16,
}

/// The decimal digit of value `d`.
pub open spec fn digit(d: int) -> char {
    (48 + d) as char
}

/// `c` is one of the ten decimal digits.
pub open spec fn is_digit(c: char) -> bool {
    '0' <= c <= '9'
}

/// `n` in decimal, without leading zeros.
pub open spec fn decimal(n: u8) -> Seq<char> {
    if n < 10 {
        seq![digit(n as int)]
    } else if n < 100 {
        seq![digit(n as int / 10), digit(n as int % 10)]
    } else {
        seq![digit(n as int / 100), digit(n as int / 10 % 10), digit(n as int % 10)]
    }
}

impl Ipv4Address {
    /// The address in dotted decimal notation.
    pub open spec fn dotted(self) -> Seq<char> {
        decimal(self.a) + seq!['.'] + decimal(self.b) + seq!['.'] + decimal(self.c) + seq!['.']
            + decimal(self.d)
    }
}

/// `text` is the dotted decimal notation of some address.
pub open spec fn is_dotted(text: Seq<char>) -> bool {
    exists|address: Ipv4Address| text == #[trigger] address.dotted()
}

/// The run of digits of `text` that starts at `from` and cannot be extended ends at `to`, and
/// spells `n`.
spec fn octet_spans(text: Seq<char>, from: int, to: int, n: u8) -> bool {
    &&& 0 <= from <= to <= text.len()
    &&& text.subrange(from, to) == decimal(n)
    &&& to < text.len() ==> !is_digit(text[to])
}

proof fn lemma_decimal_digits(n: u8)
    ensures
        1 <= decimal(n).len() <= 3,
        forall|i: int| 0 <= i < decimal(n).len() ==> is_digit(#[trigger] decimal(n)[i]),
{
}

proof fn lemma_dotted_ascii(address: Ipv4Address)
    ensures
        vstd::utf8::is_ascii_chars(address.dotted()),
{
    lemma_decimal_digits(address.a);
    lemma_decimal_digits(address.b);
    lemma_decimal_digits(address.c);
    lemma_decimal_digits(address.d);
}

/// At most one number can be read at a given place.
proof fn lemma_octet_unique(text: Seq<char>, from: int, to1: int, n1: u8, to2: int, n2: u8)
    requires
        octet_spans(text, from, to1, n1),
        octet_spans(text, from, to2, n2),
    ensures
        to1 == to2,
        n1 == n2,
{
    lemma_decimal_digits(n1);
    lemma_decimal_digits(n2);
    if to1 < to2 {
        assert(text.subrange(from, to2)[to1 - from] == text[to1]);
    }
    if to2 < to1 {
        assert(text.subrange(from, to1)[to2 - from] == text[to2]);
    }
    assert(decimal(n1)[0] == decimal(n2)[0]);
    assert(decimal(n1).len() > 1 ==> decimal(n1)[1] == decimal(n2)[1]);
    assert(decimal(n1).len() > 2 ==> decimal(n1)[2] == decimal(n2)[2]);
}

/// Reads the decimal number at `from`.
fn read_octet(bytes: &[u8], from: usize, Ghost(text): Ghost<Seq<char>>) -> (octet: Option<(u8, usize)>)
    requires
        bytes@.len() == text.len(),
        forall|i: int| 0 <= i < text.len() ==> text[i] as int == #[trigger] bytes@[i] as int,
        from <= text.len(),
    ensures
        match octet {
            Some((n, to)) => octet_spans(text, from as int, to as int, n),
            None => forall|to: int, n: u8| !octet_spans(text, from as int, to, n),
        },
{
    let mut to: usize = from;
    while to < bytes.len() && 48 <= bytes[to] && bytes[to] <= 57
        invariant
            from <= to <= bytes@.len(),
            bytes@.len() == text.len(),
            forall|i: int| 0 <= i < text.len() ==> text[i] as int == #[trigger] bytes@[i] as int,
            forall|i: int| from <= i < to ==> is_digit(#[trigger] text[i]),
        ensures
            from <= to <= text.len(),
            forall|i: int| from <= i < to ==> is_digit(#[trigger] text[i]),
            to < text.len() ==> !is_digit(text[to as int]),
        decreases bytes@.len() - to,
    {
        assert(text[to as int] as int == bytes@[to as int] as int);
        to = to + 1;
    }
    let count: usize = to - from;
    proof {
        assert forall|end: int, n: u8| octet_spans(text, from as int, end, n) implies end == to
            && decimal(n).len() == count && decimal(n) == text.subrange(from as int, to as int) by {
            lemma_decimal_digits(n);
            if to < end {
                assert(text.subrange(from as int, end)[to - from] == text[to as int]);
            }
        }
        if 0 < count <= 3 {
            assert(text.subrange(from as int, to as int)[0] == text[from as int]);
        }
    }
    if count == 0 || count > 3 {
        proof {
            assert forall|end: int, n: u8| !octet_spans(text, from as int, end, n) by {
                lemma_decimal_digits(n);
            }
        }
        return None;
    }
    if count > 1 && bytes[from] == 48 {
        return None;
    }
    let mut value: u16 = bytes[from] as u16 - 48;
    if count > 1 {
        assert(text[from + 1] as int == bytes@[from + 1] as int);
        value = value * 10 + (bytes[from + 1] as u16 - 48);
    }
    if count > 2 {
        assert(text[from + 2] as int == bytes@[from + 2] as int);
        value = value * 10 + (bytes[from + 2] as u16 - 48);
    }
    if value > 255 {
        return None;
    }
    proof {
        assert(text.subrange(from as int, to as int) =~= decimal(value as u8));
    }
    Some((value as u8, to))
}

/// The position after the dot at `at`, if there is one.
fn read_dot(bytes: &[u8], at: usize) -> (after: Option<usize>)
    ensures
        match after {
            Some(next) => at < bytes@.len() && bytes@[at as int] == 46 && next == at + 1,
            None => at >= bytes@.len() || bytes@[at as int] != 46,
        },
{
    if at < bytes.len() && bytes[at] == 46 {
        Some(at + 1)
    } else {
        None
    }
}

/// Dotted decimal notation, read from left to right.
proof fn lemma_dotted_spans(text: Seq<char>, address: Ipv4Address)
    requires
        text == address.dotted(),
    ensures
        ({
            let p = decimal(address.a).len() as int;
            let q = p + 1 + decimal(address.b).len();
            let r = q + 1 + decimal(address.c).len();
            &&& octet_spans(text, 0, p, address.a)
            &&& p < text.len() && text[p] == '.'
            &&& octet_spans(text, p + 1, q, address.b)
            &&& q < text.len() && text[q] == '.'
            &&& octet_spans(text, q + 1, r, address.c)
            &&& r < text.len() && text[r] == '.'
            &&& octet_spans(text, r + 1, text.len() as int, address.d)
        }),
{
    let p = decimal(address.a).len() as int;
    let q = p + 1 + decimal(address.b).len();
    let r = q + 1 + decimal(address.c).len();
    assert(text.subrange(0, p) =~= decimal(address.a));
    assert(text.subrange(p + 1, q) =~= decimal(address.b));
    assert(text.subrange(q + 1, r) =~= decimal(address.c));
    assert(text.subrange(r + 1, text.len() as int) =~= decimal(address.d));
}

/// Reads an address in dotted decimal notation: four numbers from 0 to 255 with a dot between
/// each two, without leading zeros and without anything around them.
pub fn parse_ipv4(text: &str) -> (address: Option<Ipv4Address>)
    ensures
        match address {
            Some(address) => text@ == address.dotted(),
            None => !is_dotted(text@),
        },
{
    if !text.is_ascii() {
        proof {
            assert forall|address: Ipv4Address| text@ != #[trigger] address.dotted() by {
                lemma_dotted_ascii(address);
            }
        }
        return None;
    }
    let bytes = text.as_bytes();
    proof {
        assert(text.spec_bytes() == Seq::new(text@.len(), |i: int| text@[i] as u8));
    }
    proof {
        assert forall|address: Ipv4Address| text@ == #[trigger] address.dotted() implies
            octet_spans(text@, 0, decimal(address.a).len() as int, address.a) by {
            lemma_dotted_spans(text@, address);
        }
    }
    let (a, p) = match read_octet(bytes, 0, Ghost(text@)) {
        Some(octet) => octet,
        None => {
            return None;
        },
    };
    proof {
        assert forall|address: Ipv4Address| text@ == #[trigger] address.dotted() implies
            address.a == a && p < text@.len() && text@[p as int] == '.' && octet_spans(
            text@,
            p + 1,
            p + 1 + decimal(address.b).len(),
            address.b,
        ) by {
            lemma_dotted_spans(text@, address);
            lemma_octet_unique(text@, 0, p as int, a, decimal(address.a).len() as int, address.a);
        }
    }
    let p1 = match read_dot(bytes, p) {
        Some(next) => next,
        None => {
            return None;
        },
    };
    let (b, q) = match read_octet(bytes, p1, Ghost(text@)) {
        Some(octet) => octet,
        None => {
            return None;
        },
    };
    proof {
        assert forall|address: Ipv4Address| text@ == #[trigger] address.dotted() implies
            address.b == b && q < text@.len() && text@[q as int] == '.' && octet_spans(
            text@,
            q + 1,
            q + 1 + decimal(address.c).len(),
            address.c,
        ) by {
            lemma_dotted_spans(text@, address);
            lemma_octet_unique(text@, p1 as int, q as int, b, p1 + decimal(address.b).len(), address.b);
        }
    }
    let q1 = match read_dot(bytes, q) {
        Some(next) => next,
        None => {
            return None;
        },
    };
    let (c, r) = match read_octet(bytes, q1, Ghost(text@)) {
        Some(octet) => octet,
        None => {
            return None;
        },
    };
    proof {
        assert forall|address: Ipv4Address| text@ == #[trigger] address.dotted() implies
            address.c == c && r < text@.len() && text@[r as int] == '.' && octet_spans(
            text@,
            r + 1,
            text@.len() as int,
            address.d,
        ) by {
            lemma_dotted_spans(text@, address);
            lemma_octet_unique(text@, q1 as int, r as int, c, q1 + decimal(address.c).len(), address.c);
        }
    }
    let r1 = match read_dot(bytes, r) {
        Some(next) => next,
        None => {
            return None;
        },
    };
    let (d, end) = match read_octet(bytes, r1, Ghost(text@)) {
        Some(octet) => octet,
        None => {
            return None;
        },
    };
    proof {
        assert forall|address: Ipv4Address| text@ == #[trigger] address.dotted() implies
            end == text@.len() by {
            lemma_octet_unique(text@, r1 as int, end as int, d, text@.len() as int, address.d);
        }
    }
    if end < bytes.len() {
        return None;
    }
    let address = Ipv4Address { a, b, c, d };
    proof {
        assert(text@[p as int] as int == bytes@[p as int]);
        assert(text@[q as int] as int == bytes@[q as int]);
        assert(text@[r as int] as int == bytes@[r as int]);
        let s = text@;
        assert(s =~= s.subrange(0, p as int) + seq!['.'] + s.subrange(p1 as int, q as int) + seq!['.']
            + s.subrange(q1 as int, r as int) + seq!['.'] + s.subrange(r1 as int, s.len() as int));
    }
    Some(address)
}

/// No two addresses have the same notation.
pub proof fn law_notation_is_unambiguous(first: Ipv4Address, second: Ipv4Address)
    requires
        first.dotted() == second.dotted(),
    ensures
        first == second,
{
    let text = first.dotted();
    lemma_dotted_spans(text, first);
    lemma_dotted_spans(text, second);
    let p = decimal(first.a).len() as int;
    lemma_octet_unique(text, 0, p, first.a, decimal(second.a).len() as int, second.a);
    let q = p + 1 + decimal(first.b).len();
    lemma_octet_unique(text, p + 1, q, first.b, p + 1 + decimal(second.b).len(), second.b);
    let r = q + 1 + decimal(first.c).len();
    lemma_octet_unique(text, q + 1, r, first.c, q + 1 + decimal(second.c).len(), second.c);
    lemma_octet_unique(text, r + 1, text.len() as int, first.d, text.len() as int, second.d);
}

} // verus!
