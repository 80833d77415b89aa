//! Device identities: the (vendor, product) pair that names a device model,
//! its canonical text form, and the matcher that compares a discovered device
//! with the configured target.
//!
//! The canonical text of an identity is four lowercase hexadecimal digits for
//! the vendor, a colon, and four for the product, as in `046d:c547`. A
//! configured text names an identity when it equals that form up to the case
//! of its letters. There are no wildcards.

use crate::text::{ascii_lower, lowered};
use vstd::arithmetic::div_mod::{
    lemma_div_denominator, lemma_fundamental_div_mod, lemma_fundamental_div_mod_converse,
};
use vstd::prelude::*;
use vstd::string::*;

verus! {

/// The vendor and product numbers that a device reports on the bus.
#[derive(Clone, Copy, Debug, PartialEq, Eq, Hash, Structural)]
pub struct DeviceIdentity {
    pub vendor_id: u16,
    pub product_id: u16,
}

/// The identity the daemon watches for. It is read once from the
/// configuration; `wanted` is `None` when the configured text names no
/// identity at all, and such a target matches no device.
#[derive(Clone, Copy, Debug, PartialEq, Eq, Structural)]
pub struct TargetIdentity {
    pub wanted: Option<DeviceIdentity>,
}

/// The lowercase hexadecimal digit for a value below sixteen.
pub open spec fn hex_digit(n: int) -> char {
    if n < 10 {
        ('0' as int + n) as char
    } else {
        ('a' as int + (n - 10)) as char
    }
}

/// The four hexadecimal digits of a 16-bit number, most significant first.
pub open spec fn hex_quad(value: u16) -> Seq<char> {
    seq![
        hex_digit(value as int / 4096),
        hex_digit(value as int / 256 % 16),
        hex_digit(value as int / 16 % 16),
        hex_digit(value as int % 16),
    ]
}

/// The number that four digit values spell, most significant first.
pub open spec fn quad_value(d0: int, d1: int, d2: int, d3: int) -> int {
    d0 * 4096 + d1 * 256 + d2 * 16 + d3
}

/// Whether a character is a hexadecimal digit of either case.
pub open spec fn is_hex_char(c: char) -> bool {
    ('0' <= c && c <= '9') || ('a' <= c && c <= 'f') || ('A' <= c && c <= 'F')
}

/// The value of a hexadecimal digit of either case.
pub open spec fn hex_char_value(c: char) -> int {
    if '0' <= c && c <= '9' {
        c as int - '0' as int
    } else if 'a' <= c && c <= 'f' {
        c as int - 'a' as int + 10
    } else {
        c as int - 'A' as int + 10
    }
}

/// A digit value is the digit that `hex_digit` writes for it, and nothing
/// else lowers to that digit.
pub proof fn lemma_hex_digit_round_trip(c: char)
    ensures
        is_hex_char(c) ==> 0 <= hex_char_value(c) < 16 && hex_digit(hex_char_value(c))
            == ascii_lower(c),
        !is_hex_char(c) ==> forall|n: int| 0 <= n < 16 ==> #[trigger] hex_digit(n) != ascii_lower(c),
        forall|n: int|
            0 <= n < 16 && #[trigger] hex_digit(n) == ascii_lower(c) ==> n == hex_char_value(c),
{
}

/// Distinct digit values below sixteen have distinct digits.
pub proof fn lemma_hex_digit_is_injective(m: int, n: int)
    requires
        0 <= m < 16,
        0 <= n < 16,
        hex_digit(m) == hex_digit(n),
    ensures
        m == n,
{
}

/// The digits of a 16-bit number are below sixteen and spell that number.
pub proof fn lemma_quad_value_of_digits(value: u16)
    ensures
        0 <= value as int / 4096 < 16,
        0 <= value as int / 256 % 16 < 16,
        0 <= value as int / 16 % 16 < 16,
        0 <= value as int % 16 < 16,
        quad_value(
            value as int / 4096,
            value as int / 256 % 16,
            value as int / 16 % 16,
            value as int % 16,
        ) == value,
{
    let v = value as int;
    lemma_fundamental_div_mod(v, 16);
    lemma_fundamental_div_mod(v / 16, 16);
    lemma_fundamental_div_mod(v / 256, 16);
    assert(v / 16 / 16 == v / 256) by {
        lemma_div_denominator(v, 16, 16);
    }
    assert(v / 256 / 16 == v / 4096) by {
        lemma_div_denominator(v, 256, 16);
    }
    assert(v / 4096 < 16) by {
        lemma_fundamental_div_mod(v, 4096);
    }
    assert(v / 4096 % 16 == v / 4096);
}

/// Four digit values below sixteen are the digits of the number they spell.
pub proof fn lemma_digits_of_quad_value(d0: int, d1: int, d2: int, d3: int)
    requires
        0 <= d0 < 16,
        0 <= d1 < 16,
        0 <= d2 < 16,
        0 <= d3 < 16,
    ensures
        0 <= quad_value(d0, d1, d2, d3) < 65536,
        quad_value(d0, d1, d2, d3) / 4096 == d0,
        quad_value(d0, d1, d2, d3) / 256 % 16 == d1,
        quad_value(d0, d1, d2, d3) / 16 % 16 == d2,
        quad_value(d0, d1, d2, d3) % 16 == d3,
{
    let v = quad_value(d0, d1, d2, d3);
    lemma_fundamental_div_mod_converse(v, 4096, d0, d1 * 256 + d2 * 16 + d3);
    lemma_fundamental_div_mod_converse(v, 256, d0 * 16 + d1, d2 * 16 + d3);
    lemma_fundamental_div_mod_converse(v, 16, d0 * 256 + d1 * 16 + d2, d3);
    lemma_fundamental_div_mod_converse(d0 * 16 + d1, 16, d0, d1);
    lemma_fundamental_div_mod_converse(d0 * 256 + d1 * 16 + d2, 16, d0 * 16 + d1, d2);
}

/// Two 16-bit numbers with the same four digits are equal.
pub proof fn lemma_hex_quad_is_injective(a: u16, b: u16)
    requires
        hex_quad(a) == hex_quad(b),
    ensures
        a == b,
{
    let qa = hex_quad(a);
    let qb = hex_quad(b);
    lemma_quad_value_of_digits(a);
    lemma_quad_value_of_digits(b);
    assert(qa[0] == qb[0] && qa[1] == qb[1] && qa[2] == qb[2] && qa[3] == qb[3]);
    lemma_hex_digit_is_injective(a as int / 4096, b as int / 4096);
    lemma_hex_digit_is_injective(a as int / 256 % 16, b as int / 256 % 16);
    lemma_hex_digit_is_injective(a as int / 16 % 16, b as int / 16 % 16);
    lemma_hex_digit_is_injective(a as int % 16, b as int % 16);
}

impl DeviceIdentity {
    /// Pairs a vendor number with a product number.
    pub fn new(vendor_id: u16, product_id: u16) -> (identity: DeviceIdentity)
        ensures
            identity == (DeviceIdentity { vendor_id, product_id }),
    {
        DeviceIdentity { vendor_id, product_id }
    }

    /// The canonical text: vendor digits, a colon, product digits.
    pub open spec fn rendering(self) -> Seq<char> {
        hex_quad(self.vendor_id) + seq![':'] + hex_quad(self.product_id)
    }

    /// Whether a configured text names this identity: it does when it is the
    /// canonical text up to the case of its letters.
    pub open spec fn named_by(self, text: Seq<char>) -> bool {
        lowered(text) == self.rendering()
    }
}

/// The one-character text of the lowercase digit for a value below sixteen.
fn hex_digit_text(n: u8) -> (text: &'static str)
    requires
        n < 16,
    ensures
        text@ == seq![hex_digit(n as int)],
{
    let digits: &'static str = "0123456789abcdef";
    proof {
        reveal_strlit("0123456789abcdef");
    }
    let from: usize = n as usize;
    let text = digits.substring_ascii(from, from + 1);
    assert(text@ =~= seq![hex_digit(n as int)]);
    text
}

/// Appends the four digits of a 16-bit number to a text.
fn push_hex_quad(text: &mut String, value: u16)
    ensures
        final(text)@ == old(text)@ + hex_quad(value),
{
    let d0: u8 = (value / 4096) as u8;
    let d1: u8 = (value / 256 % 16) as u8;
    let d2: u8 = (value / 16 % 16) as u8;
    let d3: u8 = (value % 16) as u8;
    text.append(hex_digit_text(d0));
    text.append(hex_digit_text(d1));
    text.append(hex_digit_text(d2));
    text.append(hex_digit_text(d3));
    assert(text@ =~= old(text)@ + hex_quad(value));
}

/// The value of a hexadecimal digit of either case, or `None` for any other
/// character.
fn hex_value(c: char) -> (value: Option<u8>)
    ensures
        match value {
            Some(n) => is_hex_char(c) && n as int == hex_char_value(c),
            None => !is_hex_char(c),
        },
{
    if '0' <= c && c <= '9' {
        Some(c as u8 - '0' as u8)
    } else if 'a' <= c && c <= 'f' {
        Some(c as u8 - 'a' as u8 + 10)
    } else if 'A' <= c && c <= 'F' {
        Some(c as u8 - 'A' as u8 + 10)
    } else {
        None
    }
}

/// Reads four hexadecimal digits of a text, starting at `from`.
fn parse_hex_quad(text: &str, from: usize) -> (value: Option<u16>)
    requires
        from + 4 <= text@.len() <= usize::MAX,
    ensures
        match value {
            Some(v) => lowered(text@).subrange(from as int, from + 4) == hex_quad(v),
            None => forall|v: u16| lowered(text@).subrange(from as int, from + 4) != hex_quad(v),
        },
{
    let c0 = text.get_char(from);
    let c1 = text.get_char(from + 1);
    let c2 = text.get_char(from + 2);
    let c3 = text.get_char(from + 3);
    let ghost part = lowered(text@).subrange(from as int, from + 4);
    proof {
        lemma_hex_digit_round_trip(c0);
        lemma_hex_digit_round_trip(c1);
        lemma_hex_digit_round_trip(c2);
        lemma_hex_digit_round_trip(c3);
        assert(part[0] == ascii_lower(c0) && part[1] == ascii_lower(c1));
        assert(part[2] == ascii_lower(c2) && part[3] == ascii_lower(c3));
    }
    let digits = (hex_value(c0), hex_value(c1), hex_value(c2), hex_value(c3));
    match digits {
        (Some(d0), Some(d1), Some(d2), Some(d3)) => {
            proof {
                lemma_digits_of_quad_value(d0 as int, d1 as int, d2 as int, d3 as int);
            }
            let value: u16 = (d0 as u16) * 4096 + (d1 as u16) * 256 + (d2 as u16) * 16 + (d3 as u16);
            assert(part =~= hex_quad(value));
            Some(value)
        },
        _ => {
            assert forall|v: u16| part != hex_quad(v) by {
                lemma_quad_value_of_digits(v);
                let quad = hex_quad(v);
                assert(quad[0] == hex_digit(v as int / 4096));
                assert(quad[1] == hex_digit(v as int / 256 % 16));
                assert(quad[2] == hex_digit(v as int / 16 % 16));
                assert(quad[3] == hex_digit(v as int % 16));
            }
            None
        },
    }
}

impl DeviceIdentity {
    /// Writes the canonical text of this identity.
    pub fn render(&self) -> (text: String)
        ensures
            text@ == self.rendering(),
    {
        let mut text = String::new();
        push_hex_quad(&mut text, self.vendor_id);
        text.append(":");
        push_hex_quad(&mut text, self.product_id);
        proof {
            reveal_strlit(":");
            assert(":"@ =~= seq![':']);
            assert(text@ =~= self.rendering());
        }
        text
    }

    /// Reads the identity that a configured text names. The result is `Some`
    /// exactly when the text is the canonical text of an identity up to the
    /// case of its letters, and then holds that identity.
    pub fn parse(text: &str) -> (parsed: Option<DeviceIdentity>)
        ensures
            match parsed {
                Some(identity) => identity.named_by(text@),
                None => forall|identity: DeviceIdentity| !identity.named_by(text@),
            },
    {
        let ghost low = lowered(text@);
        if text.unicode_len() != 9 {
            assert forall|identity: DeviceIdentity| !identity.named_by(text@) by {
                assert(identity.rendering().len() == 9);
            }
            return None;
        }
        let vendor = parse_hex_quad(text, 0);
        let colon = text.get_char(4);
        let product = parse_hex_quad(text, 5);
        match (vendor, product) {
            (Some(vendor_id), Some(product_id)) => {
                if colon == ':' {
                    let identity = DeviceIdentity { vendor_id, product_id };
                    proof {
                        assert(low.subrange(0, 4) == hex_quad(vendor_id));
                        assert(low.subrange(5, 9) == hex_quad(product_id));
                        assert(low =~= low.subrange(0, 4) + seq![low[4]] + low.subrange(5, 9));
                    }
                    Some(identity)
                } else {
                    assert forall|identity: DeviceIdentity| !identity.named_by(text@) by {
                        assert(identity.rendering()[4] == ':');
                        assert(low[4] == ascii_lower(colon));
                    }
                    None
                }
            },
            _ => {
                assert forall|identity: DeviceIdentity| !identity.named_by(text@) by {
                    let r = identity.rendering();
                    if low == r {
                        assert(r.subrange(0, 4) =~= hex_quad(identity.vendor_id));
                        assert(r.subrange(5, 9) =~= hex_quad(identity.product_id));
                    }
                }
                None
            },
        }
    }
}

impl TargetIdentity {
    /// Whether a discovered identity is the one watched for.
    pub open spec fn accepts(self, identity: DeviceIdentity) -> bool {
        self.wanted == Some(identity)
    }

    /// The target that watches for one given identity.
    pub fn of(identity: DeviceIdentity) -> (target: TargetIdentity)
        ensures
            target.wanted == Some(identity),
    {
        TargetIdentity { wanted: Some(identity) }
    }

    /// Reads the target from its configured text. The target accepts exactly
    /// the identity that the text names; a text that names none gives a
    /// target that accepts nothing.
    pub fn parse(text: &str) -> (target: TargetIdentity)
        ensures
            forall|identity: DeviceIdentity|
                #[trigger] target.accepts(identity) <==> identity.named_by(text@),
    {
        let wanted = DeviceIdentity::parse(text);
        let target = TargetIdentity { wanted };
        proof {
            assert forall|identity: DeviceIdentity|
                #[trigger] target.accepts(identity) <==> identity.named_by(text@) by {
                if let Some(found) = wanted {
                    if identity.named_by(text@) {
                        lemma_rendering_is_injective(identity, found);
                    }
                }
            }
        }
        target
    }
}

/// Compares a discovered identity with the target: true exactly when both
/// numbers are equal.
pub fn matches(identity: DeviceIdentity, target: &TargetIdentity) -> (matched: bool)
    ensures
        matched == target.accepts(identity),
{
    match target.wanted {
        Some(wanted) => wanted.vendor_id == identity.vendor_id && wanted.product_id
            == identity.product_id,
        None => false,
    }
}

/// Two identities with one canonical text are one identity, so a text names
/// at most one identity.
pub proof fn lemma_rendering_is_injective(a: DeviceIdentity, b: DeviceIdentity)
    requires
        a.rendering() == b.rendering(),
    ensures
        a == b,
{
    let ra = a.rendering();
    let rb = b.rendering();
    assert(ra.subrange(0, 4) =~= hex_quad(a.vendor_id));
    assert(rb.subrange(0, 4) =~= hex_quad(b.vendor_id));
    assert(ra.subrange(5, 9) =~= hex_quad(a.product_id));
    assert(rb.subrange(5, 9) =~= hex_quad(b.product_id));
    lemma_hex_quad_is_injective(a.vendor_id, b.vendor_id);
    lemma_hex_quad_is_injective(a.product_id, b.product_id);
}

/// The canonical text of an identity names that identity: rendering and then
/// parsing gives the identity back.
pub proof fn law_rendering_names_itself(identity: DeviceIdentity)
    ensures
        identity.named_by(identity.rendering()),
{
    lemma_quad_value_of_digits(identity.vendor_id);
    lemma_quad_value_of_digits(identity.product_id);
    assert(lowered(identity.rendering()) =~= identity.rendering());
}

} // verus!
