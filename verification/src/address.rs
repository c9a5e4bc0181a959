//! IPv4 addresses as 32-bit values, with their dotted-quad text.

use vstd::prelude::*;
use vstd::string::*;

verus! {

/// An IPv4 address, held as its big-endian 32-bit value.
#[derive(Clone, Copy, Debug, PartialEq, Eq, Structural)]
pub struct Address {
    pub bits: u32,
}

/// The `i`-th octet of a 32-bit address, counted from the most significant.
pub open spec fn octet(bits: u32, i: int) -> u8 {
    if i == 0 {
        ((bits >> 24) & 0xff) as u8
    } else if i == 1 {
        ((bits >> 16) & 0xff) as u8
    } else if i == 2 {
        ((bits >> 8) & 0xff) as u8
    } else {
        (bits & 0xff) as u8
    }
}

/// The 32-bit value whose octets, most significant first, are `a`, `b`, `c`, `d`.
pub open spec fn assemble(a: u8, b: u8, c: u8, d: u8) -> u32 {
    ((a as u32) << 24) | ((b as u32) << 16) | ((c as u32) << 8) | (d as u32)
}

/// Taking a value apart into octets and assembling them again gives the value back.
pub proof fn assemble_octets(bits: u32)
    ensures
        assemble(octet(bits, 0), octet(bits, 1), octet(bits, 2), octet(bits, 3)) == bits,
{
    let a: u32 = (bits >> 24) & 0xff;
    let b: u32 = (bits >> 16) & 0xff;
    let c: u32 = (bits >> 8) & 0xff;
    let d: u32 = bits & 0xff;
    assert(a < 256 && b < 256 && c < 256 && d < 256 && ((a << 24) | (b << 16) | (c << 8) | d)
        == bits) by (bit_vector)
        requires
            a == (bits >> 24) & 0xff,
            b == (bits >> 16) & 0xff,
            c == (bits >> 8) & 0xff,
            d == bits & 0xff,
    ;
}

/// Each octet of an assembled value is the octet it was assembled from.
pub proof fn octets_of_assemble(a: u8, b: u8, c: u8, d: u8)
    ensures
        octet(assemble(a, b, c, d), 0) == a,
        octet(assemble(a, b, c, d), 1) == b,
        octet(assemble(a, b, c, d), 2) == c,
        octet(assemble(a, b, c, d), 3) == d,
{
    let x: u32 = assemble(a, b, c, d);
    assert((x >> 24) & 0xff == a as u32 && (x >> 16) & 0xff == b as u32 && (x >> 8) & 0xff
        == c as u32 && x & 0xff == d as u32) by (bit_vector)
        requires
            x == ((a as u32) << 24) | ((b as u32) << 16) | ((c as u32) << 8) | (d as u32),
    ;
}

/// The character that writes the digit `d`.
pub open spec fn digit_char(d: nat) -> char {
    if d == 0 {
        '0'
    } else if d == 1 {
        '1'
    } else if d == 2 {
        '2'
    } else if d == 3 {
        '3'
    } else if d == 4 {
        '4'
    } else if d == 5 {
        '5'
    } else if d == 6 {
        '6'
    } else if d == 7 {
        '7'
    } else if d == 8 {
        '8'
    } else {
        '9'
    }
}

/// The decimal numeral of `n`, without leading zeros.
pub open spec fn decimal(n: nat) -> Seq<char>
    decreases n,
{
    if n < 10 {
        seq![digit_char(n)]
    } else {
        decimal(n / 10).push(digit_char(n % 10))
    }
}

/// The dotted-quad text of a 32-bit address.
pub open spec fn dotted(bits: u32) -> Seq<char> {
    decimal(octet(bits, 0) as nat) + seq!['.'] + decimal(octet(bits, 1) as nat) + seq!['.']
        + decimal(octet(bits, 2) as nat) + seq!['.'] + decimal(octet(bits, 3) as nat)
}

/// Whether `c` is one of the ten decimal digits.
pub open spec fn is_digit(c: char) -> bool {
    '0' <= c && c <= '9'
}

/// The value of the digit `c`.
pub open spec fn digit_of(c: char) -> nat {
    (c as u32 - '0' as u32) as nat
}

/// Where the run of digits that starts at `i` ends: the first position from `i`
/// on that holds no digit, or the length of `s`.
pub open spec fn digits_end(s: Seq<char>, i: int) -> int
    decreases s.len() - i,
{
    if 0 <= i < s.len() && is_digit(s[i]) {
        digits_end(s, i + 1)
    } else {
        i
    }
}

/// The number that the digits `s[i..j]` write in decimal.
pub open spec fn numeral(s: Seq<char>, i: int, j: int) -> nat
    decreases j - i,
{
    if j <= i {
        0
    } else {
        numeral(s, i, j - 1) * 10 + digit_of(s[j - 1])
    }
}

/// The octet written at `i`, with the position after it: one to three digits,
/// no zero in front of another digit, and a value of at most 255.
pub open spec fn octet_at(s: Seq<char>, i: int) -> Option<(u8, int)> {
    let j = digits_end(s, i);
    if 1 <= j - i <= 3 && (j - i > 1 ==> s[i] != '0') && numeral(s, i, j) <= 255 {
        Some((numeral(s, i, j) as u8, j))
    } else {
        None
    }
}

/// The `k` octets written from `i` to the end of `s`, one dot between each two.
pub open spec fn octets_at(s: Seq<char>, i: int, k: nat) -> Option<Seq<u8>>
    decreases k,
{
    match octet_at(s, i) {
        None => None,
        Some((v, j)) => if k <= 1 {
            if j == s.len() {
                Some(seq![v])
            } else {
                None
            }
        } else if j < s.len() && s[j] == '.' {
            match octets_at(s, j + 1, (k - 1) as nat) {
                None => None,
                Some(rest) => Some(seq![v] + rest),
            }
        } else {
            None
        },
    }
}

/// The address that a dotted-quad text writes: four octets in decimal, a dot
/// between each two and nothing else.
pub open spec fn parse_dotted(s: Seq<char>) -> Option<u32> {
    match octets_at(s, 0, 4) {
        None => None,
        Some(o) => Some(assemble(o[0], o[1], o[2], o[3])),
    }
}

proof fn digits_end_bounds(s: Seq<char>, i: int)
    requires
        0 <= i <= s.len(),
    ensures
        i <= digits_end(s, i) <= s.len(),
        forall|k: int| i <= k < digits_end(s, i) ==> is_digit(#[trigger] s[k]),
    decreases s.len() - i,
{
    if i < s.len() && is_digit(s[i]) {
        digits_end_bounds(s, i + 1);
    }
}

fn digit_text(d: u8) -> (r: &'static str)
    requires
        d < 10,
    ensures
        r@ == seq![digit_char(d as nat)],
{
    proof {
        reveal_strlit("0");
        reveal_strlit("1");
        reveal_strlit("2");
        reveal_strlit("3");
        reveal_strlit("4");
        reveal_strlit("5");
        reveal_strlit("6");
        reveal_strlit("7");
        reveal_strlit("8");
        reveal_strlit("9");
    }
    let r = if d == 0 {
        "0"
    } else if d == 1 {
        "1"
    } else if d == 2 {
        "2"
    } else if d == 3 {
        "3"
    } else if d == 4 {
        "4"
    } else if d == 5 {
        "5"
    } else if d == 6 {
        "6"
    } else if d == 7 {
        "7"
    } else if d == 8 {
        "8"
    } else {
        "9"
    };
    assert(r@ =~= seq![digit_char(d as nat)]);
    r
}

/// Appends the decimal numeral of `v` to `out`.
pub fn push_decimal(out: &mut String, v: u8)
    ensures
        final(out)@ == old(out)@ + decimal(v as nat),
{
    let ghost before = out@;
    if v >= 100 {
        out.append(digit_text(v / 100));
        out.append(digit_text((v / 10) % 10));
        out.append(digit_text(v % 10));
        proof {
            reveal_with_fuel(decimal, 3);
            assert(out@ =~= before + decimal(v as nat));
        }
    } else if v >= 10 {
        out.append(digit_text(v / 10));
        out.append(digit_text(v % 10));
        proof {
            reveal_with_fuel(decimal, 2);
            assert(out@ =~= before + decimal(v as nat));
        }
    } else {
        out.append(digit_text(v));
        assert(out@ =~= before + decimal(v as nat));
    }
}

fn read_octet(text: &str, len: usize, i: usize) -> (r: Option<(u8, usize)>)
    requires
        len == text@.len(),
        i <= len,
    ensures
        match r {
            Some((v, j)) => octet_at(text@, i as int) == Some((v, j as int)) && i < j <= len,
            None => octet_at(text@, i as int) is None,
        },
{
    let mut j: usize = i;
    let mut value: u32 = 0;
    let mut leading_zero: bool = false;
    let mut stopped: bool = false;
    while !stopped && j < len && j - i < 4
        invariant
            len == text@.len(),
            i <= j <= len,
            j - i <= 4,
            digits_end(text@, i as int) == digits_end(text@, j as int),
            value == numeral(text@, i as int, j as int),
            j - i == 0 ==> value == 0,
            j - i == 1 ==> value <= 9,
            j - i == 2 ==> value <= 99,
            j - i == 3 ==> value <= 999,
            j - i == 4 ==> value <= 9999,
            leading_zero <==> (j > i && text@[i as int] == '0'),
            stopped ==> j < len && !is_digit(text@[j as int]),
        decreases len - j + (if stopped { 0int } else { 1int }),
    {
        let c = text.get_char(j);
        if c >= '0' && c <= '9' {
            if j == i && c == '0' {
                leading_zero = true;
            }
            let d: u32 = c as u32 - '0' as u32;
            value = value * 10 + d;
            j = j + 1;
        } else {
            stopped = true;
        }
    }
    proof {
        digits_end_bounds(text@, j as int);
    }
    if j == i || j - i > 3 || (leading_zero && j - i > 1) || value > 255 {
        None
    } else {
        Some((value as u8, j))
    }
}

proof fn digit_char_facts(d: nat)
    requires
        d < 10,
    ensures
        is_digit(digit_char(d)),
        digit_of(digit_char(d)) == d,
        digit_char(d) == '0' <==> d == 0,
{
}

proof fn decimal_digits(n: nat)
    requires
        n <= 255,
    ensures
        n < 10 ==> decimal(n) == seq![digit_char(n)],
        10 <= n < 100 ==> decimal(n) == seq![digit_char(n / 10), digit_char(n % 10)],
        100 <= n ==> decimal(n) == seq![
            digit_char(n / 100),
            digit_char((n / 10) % 10),
            digit_char(n % 10),
        ],
{
    reveal_with_fuel(decimal, 3);
    if n < 10 {
    } else if n < 100 {
        assert(decimal(n) =~= seq![digit_char(n / 10), digit_char(n % 10)]);
    } else {
        assert((n / 10) / 10 == n / 100);
        assert(decimal(n) =~= seq![
            digit_char(n / 100),
            digit_char((n / 10) % 10),
            digit_char(n % 10),
        ]);
    }
}

proof fn octet_at_written(s: Seq<char>, i: int, n: nat)
    requires
        n <= 255,
        0 <= i,
        i + decimal(n).len() <= s.len(),
        forall|k: int| 0 <= k < decimal(n).len() ==> s[i + k] == #[trigger] decimal(n)[k],
        i + decimal(n).len() < s.len() ==> !is_digit(s[i + decimal(n).len()]),
    ensures
        octet_at(s, i) == Some((n as u8, i + decimal(n).len())),
{
    decimal_digits(n);
    reveal_with_fuel(digits_end, 4);
    reveal_with_fuel(numeral, 4);
    if n < 10 {
        digit_char_facts(n);
        assert(s[i] == decimal(n)[0]);
    } else if n < 100 {
        digit_char_facts(n / 10);
        digit_char_facts(n % 10);
        assert(s[i] == decimal(n)[0]);
        assert(s[i + 1] == decimal(n)[1]);
    } else {
        digit_char_facts(n / 100);
        digit_char_facts((n / 10) % 10);
        digit_char_facts(n % 10);
        assert(s[i] == decimal(n)[0]);
        assert(s[i + 1] == decimal(n)[1]);
        assert(s[i + 2] == decimal(n)[2]);
        assert((n / 100) * 100 + ((n / 10) % 10) * 10 + n % 10 == n);
    }
}

/// The dotted-quad text of an address is read back as that address.
pub proof fn dotted_parses_back(bits: u32)
    ensures
        parse_dotted(dotted(bits)) == Some(bits),
{
    let a = octet(bits, 0);
    let b = octet(bits, 1);
    let c = octet(bits, 2);
    let d = octet(bits, 3);
    let ta = decimal(a as nat);
    let tb = decimal(b as nat);
    let tc = decimal(c as nat);
    let td = decimal(d as nat);
    let dot = seq!['.'];
    let s = dotted(bits);
    assert(s == ta + dot + tb + dot + tc + dot + td);
    decimal_digits(a as nat);
    decimal_digits(b as nat);
    decimal_digits(c as nat);
    decimal_digits(d as nat);
    let i1 = ta.len() + 1;
    let i2 = i1 + tb.len() + 1;
    let i3 = i2 + tc.len() + 1;
    assert(s.len() == i3 + td.len());
    assert forall|k: int| 0 <= k < ta.len() implies s[0 + k] == #[trigger] ta[k] by {}
    assert(s[i1 - 1] == '.');
    assert forall|k: int| 0 <= k < tb.len() implies s[i1 + k] == #[trigger] tb[k] by {}
    assert(s[i2 - 1] == '.');
    assert forall|k: int| 0 <= k < tc.len() implies s[i2 + k] == #[trigger] tc[k] by {}
    assert(s[i3 - 1] == '.');
    assert forall|k: int| 0 <= k < td.len() implies s[i3 + k] == #[trigger] td[k] by {}
    octet_at_written(s, 0, a as nat);
    octet_at_written(s, i1 as int, b as nat);
    octet_at_written(s, i2 as int, c as nat);
    octet_at_written(s, i3 as int, d as nat);
    reveal_with_fuel(octets_at, 5);
    let o = octets_at(s, 0, 4);
    assert(o == Some(seq![a] + (seq![b] + (seq![c] + seq![d]))));
    assemble_octets(bits);
}

/// The loopback address 127.0.0.1 as a 32-bit value.
pub proof fn loopback_bits()
    ensures
        assemble(127, 0, 0, 1) == 0x7f00_0001,
{
    assert(((127u8 as u32) << 24) | ((0u8 as u32) << 16) | ((0u8 as u32) << 8) | (1u8 as u32)
        == 0x7f00_0001u32) by (bit_vector);
}

impl Address {
    /// The address `a.b.c.d`.
    pub fn new(a: u8, b: u8, c: u8, d: u8) -> (r: Address)
        ensures
            r.bits == assemble(a, b, c, d),
    {
        Address { bits: ((a as u32) << 24) | ((b as u32) << 16) | ((c as u32) << 8) | (d as u32) }
    }

    /// The four octets, most significant first.
    pub fn octets(&self) -> (r: [u8; 4])
        ensures
            forall|i: int| 0 <= i < 4 ==> r[i] == octet(self.bits, i),
    {
        let bits = self.bits;
        let a: u32 = (bits >> 24) & 0xff;
        let b: u32 = (bits >> 16) & 0xff;
        let c: u32 = (bits >> 8) & 0xff;
        let d: u32 = bits & 0xff;
        assert(a < 256 && b < 256 && c < 256 && d < 256) by (bit_vector)
            requires
                a == (bits >> 24) & 0xff,
                b == (bits >> 16) & 0xff,
                c == (bits >> 8) & 0xff,
                d == bits & 0xff,
        ;
        [a as u8, b as u8, c as u8, d as u8]
    }
    /// The dotted-quad text of the address.
    pub fn to_string(&self) -> (r: String)
        ensures
            r@ == dotted(self.bits),
    {
        proof {
            reveal_strlit(".");
        }
        let o = self.octets();
        let mut out = String::new();
        push_decimal(&mut out, o[0]);
        out.append(".");
        push_decimal(&mut out, o[1]);
        out.append(".");
        push_decimal(&mut out, o[2]);
        out.append(".");
        push_decimal(&mut out, o[3]);
        assert(out@ =~= dotted(self.bits));
        out
    }

    /// Reads a dotted-quad text; `None` where the text is no such thing.
    pub fn parse(text: &str) -> (r: Option<Address>)
        ensures
            match r {
                Some(a) => parse_dotted(text@) == Some(a.bits),
                None => parse_dotted(text@) is None,
            },
    {
        proof {
            reveal_with_fuel(octets_at, 5);
        }
        let len = text.unicode_len();
        let (a, i1) = match read_octet(text, len, 0) {
            Some(p) => p,
            None => return None,
        };
        if i1 >= len || text.get_char(i1) != '.' {
            return None;
        }
        let (b, i2) = match read_octet(text, len, i1 + 1) {
            Some(p) => p,
            None => return None,
        };
        if i2 >= len || text.get_char(i2) != '.' {
            return None;
        }
        let (c, i3) = match read_octet(text, len, i2 + 1) {
            Some(p) => p,
            None => return None,
        };
        if i3 >= len || text.get_char(i3) != '.' {
            return None;
        }
        let (d, i4) = match read_octet(text, len, i3 + 1) {
            Some(p) => p,
            None => return None,
        };
        if i4 != len {
            return None;
        }
        Some(Address::new(a, b, c, d))
    }
}

} // verus!
