//! Text output through the firmware's teletype service in real mode.
//!
//! The functions here produce the requests, one value of AX for each
//! character; whoever may call the firmware issues them in order.

use vstd::prelude::*;
use vstd::string::StrSliceExecFns;

verus! {

/// Function number of the teletype service, in the high byte of AX.
pub const TELETYPE: u16 = 0x0e00;

/// Carriage return.
pub const CR: u8 = 0x0D;

/// Line feed.
pub const LF: u8 = 0x0A;

/// The request that prints `c`: the function number above the character.
pub open spec fn request(c: u8) -> u16 {
    (c as u16) | TELETYPE
}

/// The requests that print `chars`, one for each character, in order.
pub open spec fn requests(chars: Seq<u8>) -> Seq<u16> {
    Seq::new(chars.len(), |i: int| request(chars[i]))
}

/// The bytes of "Fail: ".
pub open spec fn fail_prefix() -> Seq<u8> {
    seq![0x46u8, 0x61u8, 0x69u8, 0x6Cu8, 0x3Au8, 0x20u8]
}

/// The character that shows digit `d` of a number: `0` to `9`, then `a` to
/// `f`.
pub open spec fn digit_char(d: int) -> u8 {
    if d <= 9 {
        (d + 0x30) as u8
    } else {
        (d - 10 + 0x61) as u8
    }
}

/// The base that numbers are printed in: 16 or 10.
pub open spec fn radix(hex: bool) -> nat {
    if hex {
        16
    } else {
        10
    }
}

/// The digits of `n` in base 16 or 10, most significant first, without
/// leading zeros; the number 0 has the one digit `0`.
pub open spec fn digits(n: nat, hex: bool) -> Seq<u8>
    decreases n,
{
    if n < radix(hex) {
        seq![digit_char(n as int)]
    } else if hex {
        digits(n / 16, hex).push(digit_char((n % 16) as int))
    } else {
        digits(n / 10, hex).push(digit_char((n % 10) as int))
    }
}

/// The number that a digit character stands for.
pub open spec fn digit_value(c: u8) -> nat {
    if c <= 0x39 {
        (c - 0x30) as nat
    } else {
        (c - 0x61 + 10) as nat
    }
}

/// The number that a sequence of digit characters, most significant first,
/// stands for in base 16 or 10.
pub open spec fn digits_value(s: Seq<u8>, hex: bool) -> nat
    decreases s.len(),
{
    if s.len() == 0 {
        0
    } else {
        digits_value(s.drop_last(), hex) * radix(hex) + digit_value(s.last())
    }
}

/// The bytes sent for a text: a line feed is sent as carriage return and line
/// feed, any other ASCII character as itself, and any other character as a
/// question mark.
pub open spec fn text_bytes(text: Seq<char>) -> Seq<u8>
    decreases text.len(),
{
    if text.len() == 0 {
        Seq::<u8>::empty()
    } else {
        text_bytes(text.drop_last()) + char_bytes(text.last())
    }
}

/// The bytes sent for one character of a text.
pub open spec fn char_bytes(c: char) -> Seq<u8> {
    if c == '\n' {
        seq![CR, LF]
    } else if (c as u32) < 128 {
        seq![c as u8]
    } else {
        seq![0x3Fu8]
    }
}

/// The request that prints one character.
pub fn print_char(c: u8) -> (r: u16)
    ensures
        r == request(c),
{
    (c as u16) | TELETYPE
}

/// Appends the requests for `chars` to `out`.
fn push_chars(out: &mut Vec<u16>, chars: &[u8])
    ensures
        final(out)@ == old(out)@ + requests(chars@),
{
    let ghost start = out@;
    let mut i: usize = 0;
    while i < chars.len()
        invariant
            i <= chars@.len(),
            out@.len() == start.len() + i,
            forall|j: int| 0 <= j < start.len() ==> out@[j] == start[j],
            forall|j: int| 0 <= j < i ==> out@[start.len() + j] == request(chars@[j]),
        decreases chars@.len() - i,
    {
        out.push(print_char(chars[i]));
        i += 1;
    }
    assert(out@ =~= start + requests(chars@));
}

/// The requests that print `chars`.
pub fn print_chars(chars: &[u8]) -> (r: Vec<u16>)
    ensures
        r@ == requests(chars@),
{
    let mut out: Vec<u16> = Vec::new();
    push_chars(&mut out, chars);
    assert(out@ =~= requests(chars@));
    out
}

/// The requests that print `chars` and then end the line with carriage
/// return and line feed.
pub fn printline(chars: &[u8]) -> (r: Vec<u16>)
    ensures
        r@ == requests(chars@ + seq![CR, LF]),
{
    let mut out: Vec<u16> = Vec::new();
    push_chars(&mut out, chars);
    out.push(print_char(CR));
    out.push(print_char(LF));
    assert(out@ =~= requests(chars@ + seq![CR, LF]));
    out
}

/// The requests that print `chars`. The entry stage knows the function under
/// this name.
pub fn print(chars: &[u8]) -> (r: Vec<u16>)
    ensures
        r@ == requests(chars@),
{
    print_chars(chars)
}

/// The requests that print `chars` and end the line. The entry stage knows
/// the function under this name.
pub fn println(chars: &[u8]) -> (r: Vec<u16>)
    ensures
        r@ == requests(chars@ + seq![CR, LF]),
{
    printline(chars)
}

/// The requests of the last message before the processor is parked: "Fail: ",
/// the code, and the end of the line.
pub fn fail(code: &[u8]) -> (r: Vec<u16>)
    ensures
        r@ == requests(fail_prefix() + code@ + seq![CR, LF]),
{
    let prefix: [u8; 6] = [0x46, 0x61, 0x69, 0x6C, 0x3A, 0x20];
    let mut out: Vec<u16> = Vec::new();
    push_chars(&mut out, prefix.as_slice());
    assert(prefix@ =~= fail_prefix());
    push_chars(&mut out, code);
    out.push(print_char(CR));
    out.push(print_char(LF));
    assert(out@ =~= requests(fail_prefix() + code@ + seq![CR, LF]));
    out
}

/// The requests of the entry stage's last message: "Fail: ", the one
/// character that names the failure, and the end of the line.
pub fn fail_rs(code: u8) -> (r: Vec<u16>)
    ensures
        r@ == requests(fail_prefix() + seq![code] + seq![CR, LF]),
{
    let prefix: [u8; 6] = [0x46, 0x61, 0x69, 0x6C, 0x3A, 0x20];
    let mut out: Vec<u16> = Vec::new();
    push_chars(&mut out, prefix.as_slice());
    assert(prefix@ =~= fail_prefix());
    out.push(print_char(code));
    out.push(print_char(CR));
    out.push(print_char(LF));
    assert(out@ =~= requests(fail_prefix() + seq![code] + seq![CR, LF]));
    out
}

/// The requests that print a text.
pub fn print_str(text: &str) -> (r: Vec<u16>)
    ensures
        r@ == requests(text_bytes(text@)),
{
    let mut out: Vec<u16> = Vec::new();
    let n: usize = text.unicode_len();
    let mut i: usize = 0;
    while i < n
        invariant
            i <= n,
            n == text@.len(),
            out@ == requests(text_bytes(text@.take(i as int))),
        decreases n - i,
    {
        let c: char = text.get_char(i);
        proof {
            let now = text@.take(i + 1);
            assert(now.drop_last() =~= text@.take(i as int));
            assert(now.last() == c);
        }
        if (c as u32) < 128 {
            if c == '\n' {
                out.push(print_char(CR));
                out.push(print_char(LF));
            } else {
                out.push(print_char(c as u8));
            }
        } else {
            out.push(print_char(0x3F));
        }
        assert(out@ =~= requests(text_bytes(text@.take(i + 1))));
        i += 1;
    }
    assert(text@.take(n as int) =~= text@);
    out
}

/// Collects requests for the teletype service until they are issued.
#[derive(Debug)]
pub struct BiosWriter {
    /// The requests not issued yet, oldest first.
    pub pending: Vec<u16>,
}

impl BiosWriter {
    /// A writer with nothing to issue.
    pub fn new() -> (r: BiosWriter)
        ensures
            r.pending@.len() == 0,
    {
        BiosWriter { pending: Vec::new() }
    }

    /// Adds the requests that print a text.
    pub fn write_str(&mut self, text: &str)
        ensures
            final(self).pending@ == old(self).pending@ + requests(text_bytes(text@)),
    {
        let mut more: Vec<u16> = print_str(text);
        self.pending.append(&mut more);
    }
}

/// Appends to `out` the requests for the digits of `num` in base 16 or 10.
fn push_number(out: &mut Vec<u16>, num: u32, hex: bool)
    ensures
        final(out)@ == old(out)@ + requests(digits(num as nat, hex)),
{
    let ghost start = out@;
    let mut reversed: Vec<u8> = Vec::new();
    let ghost mut tail: Seq<u8> = Seq::empty();
    let mut rest: u32 = num;
    loop
        invariant_except_break
            tail.len() == reversed@.len(),
            forall|j: int| 0 <= j < tail.len() ==> tail[j] == reversed@[reversed@.len() - 1 - j],
            digits(num as nat, hex) == digits(rest as nat, hex) + tail,
        ensures
            tail.len() == reversed@.len(),
            forall|j: int| 0 <= j < tail.len() ==> tail[j] == reversed@[reversed@.len() - 1 - j],
            digits(num as nat, hex) == tail,
        decreases rest,
    {
        let digit: u32 = if hex {
            rest & 0x0F
        } else {
            rest % 10
        };
        let next: u32 = if hex {
            rest >> 4
        } else {
            rest / 10
        };
        proof {
            if hex {
                assert(rest & 0x0F == rest % 16 && rest >> 4 == rest / 16) by (bit_vector);
            }
        }
        let value: u8 = if digit <= 9 {
            digit as u8 + 0x30
        } else {
            digit as u8 - 10 + 0x61
        };
        let ghost before = tail;
        reversed.push(value);
        proof {
            tail = seq![value] + tail;
            if rest as nat >= radix(hex) {
                assert(digits(rest as nat, hex) == digits(next as nat, hex).push(value));
                assert(digits(next as nat, hex).push(value) + before =~= digits(next as nat, hex)
                    + tail);
            } else {
                assert(digits(rest as nat, hex) =~= seq![value]);
                assert(seq![value] + before =~= tail);
            }
        }
        if next == 0 {
            break;
        }
        rest = next;
    }
    let n: usize = reversed.len();
    let mut i: usize = 0;
    while i < n
        invariant
            i <= n,
            n == reversed@.len(),
            n == tail.len(),
            out@.len() == start.len() + i,
            forall|j: int| 0 <= j < tail.len() ==> tail[j] == reversed@[reversed@.len() - 1 - j],
            forall|j: int| 0 <= j < start.len() ==> out@[j] == start[j],
            forall|j: int| 0 <= j < i ==> out@[start.len() + j] == request(tail[j]),
        decreases n - i,
    {
        out.push(print_char(reversed[n - 1 - i]));
        i += 1;
    }
    assert(out@ =~= start + requests(tail));
}

/// The requests that print `num` in decimal.
pub fn print_dec(num: u16) -> (r: Vec<u16>)
    ensures
        r@ == requests(digits(num as nat, false)),
{
    let mut out: Vec<u16> = Vec::new();
    push_number(&mut out, num as u32, false);
    assert(out@ =~= requests(digits(num as nat, false)));
    out
}

/// The requests that print `num` in hexadecimal after "0x".
pub fn print_hex(num: u16) -> (r: Vec<u16>)
    ensures
        r@ == requests(seq![0x30u8, 0x78u8]) + requests(digits(num as nat, true)),
{
    print_hex32(num as u32)
}

/// The requests that print `num` in hexadecimal after "0x".
pub fn print_hex32(num: u32) -> (r: Vec<u16>)
    ensures
        r@ == requests(seq![0x30u8, 0x78u8]) + requests(digits(num as nat, true)),
{
    let mut out: Vec<u16> = Vec::new();
    out.push(print_char(0x30));
    out.push(print_char(0x78));
    assert(out@ =~= requests(seq![0x30u8, 0x78u8]));
    push_number(&mut out, num, true);
    out
}

/// The digits printed for a number stand for that number: reading them back
/// in the same base gives the number printed.
pub proof fn lemma_digits_value(n: nat, hex: bool)
    ensures
        digits(n, hex).len() >= 1,
        digits_value(digits(n, hex), hex) == n,
    decreases n,
{
    let s = digits(n, hex);
    if n < radix(hex) {
        assert(s.drop_last().len() == 0);
        assert(digits_value(s.drop_last(), hex) == 0);
        assert(s.last() == digit_char(n as int));
    } else if hex {
        lemma_digits_value(n / 16, hex);
        assert(s.drop_last() =~= digits(n / 16, hex));
        assert(s.last() == digit_char((n % 16) as int));
    } else {
        lemma_digits_value(n / 10, hex);
        assert(s.drop_last() =~= digits(n / 10, hex));
        assert(s.last() == digit_char((n % 10) as int));
    }
}

} // verus!
