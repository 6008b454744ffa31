//! What dotted decimal notation is, told by the numbers that it spells.

use crate::ipv4::{decimal, is_dotted, Ipv4Address};
use vstd::prelude::*;

verus! {

/// The number that a row of decimal digits spells.
pub open spec fn number(digits: Seq<char>) -> int
    decreases digits.len(),
{
    if digits.len() == 0 {
        0
    } else {
        10 * number(digits.drop_last()) + (digits.last() as int - '0' as int)
    }
}

/// The text spells a number the way an address does: with decimal digits alone, at least one of
/// them, and without a leading zero.
pub open spec fn spells(text: Seq<char>, n: int) -> bool {
    &&& text.len() > 0
    &&& forall|i: int| 0 <= i < text.len() ==> '0' <= #[trigger] text[i] <= '9'
    &&& text.len() > 1 ==> text[0] != '0'
    &&& number(text) == n
}

proof fn lemma_number_grows(text: Seq<char>)
    requires
        text.len() > 0,
        forall|i: int| 0 <= i < text.len() ==> '0' <= #[trigger] text[i] <= '9',
        text[0] != '0',
    ensures
        number(text) >= 1,
        text.len() >= 2 ==> number(text) >= 10,
        text.len() >= 3 ==> number(text) >= 100,
        text.len() >= 4 ==> number(text) >= 1000,
    decreases text.len(),
{
    let before = text.drop_last();
    assert('0' <= text[text.len() - 1] <= '9');
    if text.len() > 1 {
        assert(before[0] == text[0]);
        assert forall|i: int| 0 <= i < before.len() implies '0' <= #[trigger] before[i] <= '9' by {
            assert(before[i] == text[i]);
        }
        lemma_number_grows(before);
    } else {
        assert(before =~= Seq::empty());
        assert(number(before) == 0);
        assert('0' <= text[0] <= '9');
    }
}

proof fn lemma_number_of_few(text: Seq<char>)
    requires
        1 <= text.len() <= 3,
    ensures
        text.len() == 1 ==> number(text) == text[0] as int - 48,
        text.len() == 2 ==> number(text) == 10 * (text[0] as int - 48) + (text[1] as int - 48),
        text.len() == 3 ==> number(text) == 100 * (text[0] as int - 48) + 10 * (text[1] as int - 48)
            + (text[2] as int - 48),
{
    reveal_with_fuel(number, 4);
}

/// Every octet is written in exactly one way, and that way spells it.
pub proof fn law_octet_is_spelled(text: Seq<char>, n: u8)
    ensures
        spells(decimal(n), n as int),
        spells(text, n as int) <==> text == decimal(n),
{
    lemma_number_of_few(decimal(n));
    if spells(text, n as int) {
        if text[0] != '0' {
            lemma_number_grows(text);
        }
        lemma_number_of_few(text);
        assert('0' <= text[0] <= '9');
        if text.len() > 1 {
            assert('0' <= text[1] <= '9');
        }
        if text.len() > 2 {
            assert('0' <= text[2] <= '9');
        }
        assert(text =~= decimal(n));
    }
}

/// An address is written as its four octets, most significant first, with a dot between each two.
pub proof fn law_address_is_written_octet_by_octet(
    address: Ipv4Address,
    a: Seq<char>,
    b: Seq<char>,
    c: Seq<char>,
    d: Seq<char>,
)
    requires
        spells(a, address.a as int),
        spells(b, address.b as int),
        spells(c, address.c as int),
        spells(d, address.d as int),
    ensures
        address.dotted() == a + seq!['.'] + b + seq!['.'] + c + seq!['.'] + d,
{
    law_octet_is_spelled(a, address.a);
    law_octet_is_spelled(b, address.b);
    law_octet_is_spelled(c, address.c);
    law_octet_is_spelled(d, address.d);
}

/// The text consists of four numbers from 0 to 255 with a dot between each two.
pub open spec fn four_octets(
    text: Seq<char>,
    a: Seq<char>,
    b: Seq<char>,
    c: Seq<char>,
    d: Seq<char>,
) -> bool {
    &&& text == a + seq!['.'] + b + seq!['.'] + c + seq!['.'] + d
    &&& spells(a, number(a)) && number(a) <= 255
    &&& spells(b, number(b)) && number(b) <= 255
    &&& spells(c, number(c)) && number(c) <= 255
    &&& spells(d, number(d)) && number(d) <= 255
}

proof fn lemma_number_is_not_negative(text: Seq<char>)
    requires
        forall|i: int| 0 <= i < text.len() ==> '0' <= #[trigger] text[i] <= '9',
    ensures
        number(text) >= 0,
    decreases text.len(),
{
    if text.len() > 0 {
        let before = text.drop_last();
        assert('0' <= text[text.len() - 1] <= '9');
        assert forall|i: int| 0 <= i < before.len() implies '0' <= #[trigger] before[i] <= '9' by {
            assert(before[i] == text[i]);
        }
        lemma_number_is_not_negative(before);
    }
}

/// A text is an address in dotted decimal notation exactly if it consists of four numbers from 0
/// to 255 with a dot between each two.
pub proof fn law_notation_is_four_octets(text: Seq<char>)
    ensures
        is_dotted(text) <==> exists|a: Seq<char>, b: Seq<char>, c: Seq<char>, d: Seq<char>|
            four_octets(text, a, b, c, d),
{
    if is_dotted(text) {
        let address = choose|address: Ipv4Address| text == #[trigger] address.dotted();
        let (a, b, c, d) = (
            decimal(address.a),
            decimal(address.b),
            decimal(address.c),
            decimal(address.d),
        );
        law_octet_is_spelled(a, address.a);
        law_octet_is_spelled(b, address.b);
        law_octet_is_spelled(c, address.c);
        law_octet_is_spelled(d, address.d);
        law_address_is_written_octet_by_octet(address, a, b, c, d);
        assert(four_octets(text, a, b, c, d));
    }
    if exists|a: Seq<char>, b: Seq<char>, c: Seq<char>, d: Seq<char>|
        four_octets(text, a, b, c, d) {
        let (a, b, c, d) = choose|a: Seq<char>, b: Seq<char>, c: Seq<char>, d: Seq<char>|
            four_octets(text, a, b, c, d);
        lemma_number_is_not_negative(a);
        lemma_number_is_not_negative(b);
        lemma_number_is_not_negative(c);
        lemma_number_is_not_negative(d);
        let address = Ipv4Address {
            a: number(a) as u8,
            b: number(b) as u8,
            c: number(c) as u8,
            d: number(d) as u8,
        };
        law_address_is_written_octet_by_octet(address, a, b, c, d);
        assert(text == address.dotted());
    }
}

} // verus!
