//! What travels on the serial line, byte for byte.

use vstd::prelude::*;

verus! {

/// Symbol rate of the line, for every exchange.
pub const BAUD_RATE: u32 = 115200;

/// How long a handshake waits on the port, in milliseconds.
pub const HANDSHAKE_TIMEOUT_MS: u64 = 1000;

/// How long a command waits on the port, in milliseconds.
pub const COMMAND_TIMEOUT_MS: u64 = 10;

/// The byte by which the device confirms a handshake: ASCII `!`.
pub const ACKNOWLEDGE: u8 = 0x21;

/// ASCII `,`, which parts the two fields of a command.
pub const COMMA: u8 = 0x2c;

/// ASCII line feed, which ends the challenge and every command.
pub const LINE_FEED: u8 = 0x0a;

/// ASCII `0`; the other nine digits follow it in order.
pub const DIGIT_ZERO: u8 = 0x30;

/// ASCII code of the decimal digit `d`.
pub open spec fn digit(d: nat) -> u8
    recommends
        d < 10,
{
    (DIGIT_ZERO + d) as u8
}

/// Decimal notation of `n` in ASCII, most significant digit first, without
/// leading zeros; zero is written `0`.
pub open spec fn decimal(n: nat) -> Seq<u8>
    decreases n,
{
    if n < 10 {
        seq![digit(n)]
    } else {
        decimal(n / 10).push(digit(n % 10))
    }
}

/// Whether `byte` is an ASCII decimal digit.
pub open spec fn is_digit(byte: u8) -> bool {
    DIGIT_ZERO <= byte <= DIGIT_ZERO + 9
}

/// Whether `s` is a numeral: one digit or more, the first of them not `0`
/// unless it is the only one.
pub open spec fn is_numeral(s: Seq<u8>) -> bool {
    &&& s.len() >= 1
    &&& forall|i: int| 0 <= i < s.len() ==> is_digit(#[trigger] s[i])
    &&& s.len() > 1 ==> s[0] != DIGIT_ZERO
}

/// The number that the digits `s` denote in place-value notation to base ten.
pub open spec fn denoted(s: Seq<u8>) -> nat
    decreases s.len(),
{
    if s.len() == 0 {
        0
    } else {
        10 * denoted(s.drop_last()) + (s.last() - DIGIT_ZERO) as nat
    }
}

/// The decimal notation of a number is a numeral and denotes that number.
pub proof fn lemma_decimal_denotes(n: nat)
    ensures
        is_numeral(decimal(n)),
        denoted(decimal(n)) == n,
    decreases n,
{
    if n < 10 {
        assert(denoted(decimal(n).drop_last()) == 0);
    } else {
        // The digits before the last are those of `n / 10`, which is not
        // zero: they do not begin with `0`.
        lemma_decimal_denotes(n / 10);
        let high = decimal(n / 10);
        assert(decimal(n).drop_last() =~= high);
        if high.len() == 1 {
            assert(denoted(high.drop_last()) == 0);
        }
    }
}

/// It is the only one: a numeral is the decimal notation of the number it
/// denotes. That number is zero only if the numeral begins with `0`.
pub proof fn lemma_numeral_is_decimal(s: Seq<u8>)
    requires
        is_numeral(s),
    ensures
        decimal(denoted(s)) == s,
        s[0] != DIGIT_ZERO ==> denoted(s) >= 1,
    decreases s.len(),
{
    let high = s.drop_last();
    let last = (s.last() - DIGIT_ZERO) as nat;
    if s.len() == 1 {
        assert(denoted(high) == 0);
    } else {
        // `high` is a numeral that does not begin with `0`: the number it
        // denotes is not zero, and the one `s` denotes is ten at least.
        lemma_numeral_is_decimal(high);
        assert(denoted(s) == 10 * denoted(high) + last);
        assert(high.push(s.last()) =~= s);
    }
}

/// Appends the decimal notation of `n` to `out`.
pub fn push_decimal(out: &mut Vec<u8>, n: u32)
    ensures
        final(out)@ == old(out)@ + decimal(n as nat),
{
    let ghost before = out@;
    // The digits below `rest`, least significant first.
    let mut low: Vec<u8> = Vec::new();
    let mut rest: u32 = n;
    while rest >= 10
        invariant
            decimal(n as nat) == decimal(rest as nat) + low@.reverse(),
        decreases rest,
    {
        let last: u8 = DIGIT_ZERO + (rest % 10) as u8;
        low.push(last);
        rest = rest / 10;
    }
    out.push(DIGIT_ZERO + rest as u8);
    let mut i: usize = low.len();
    while i > 0
        invariant
            i <= low.len(),
            rest < 10,
            out@ == before + decimal(rest as nat) + low@.reverse().take(low.len() - i),
        decreases i,
    {
        i -= 1;
        out.push(low[i]);
    }
}

/// The handshake challenge: the ASCII text `CHECK` and a line feed.
pub open spec fn challenge() -> Seq<u8> {
    seq!['C' as u8, 'H' as u8, 'E' as u8, 'C' as u8, 'K' as u8, LINE_FEED]
}

/// The bytes that open a handshake.
pub fn handshake_challenge() -> (bytes: Vec<u8>)
    ensures
        bytes@ == challenge(),
{
    let mut bytes: Vec<u8> = Vec::new();
    bytes.push(0x43);
    bytes.push(0x48);
    bytes.push(0x45);
    bytes.push(0x43);
    bytes.push(0x4b);
    bytes.push(LINE_FEED);
    bytes
}

/// Whether `byte`, the device's answer to the challenge, confirms the
/// handshake: it does if and only if it is [`ACKNOWLEDGE`].
pub fn is_acknowledgement(byte: u8) -> (confirmed: bool)
    ensures
        confirmed == (byte == ACKNOWLEDGE),
{
    byte == ACKNOWLEDGE
}

/// The command that sets `channel` to `value`: the channel in decimal, a
/// comma, the value in decimal, a line feed.
pub open spec fn command_payload(channel: u16, value: u8) -> Seq<u8> {
    decimal(channel as nat) + seq![COMMA] + decimal(value as nat) + seq![LINE_FEED]
}

/// The bytes of the command that sets `channel` to `value`.
pub fn encode_command(channel: u16, value: u8) -> (bytes: Vec<u8>)
    ensures
        bytes@ == command_payload(channel, value),
{
    let mut bytes: Vec<u8> = Vec::new();
    push_decimal(&mut bytes, channel as u32);
    bytes.push(COMMA);
    push_decimal(&mut bytes, value as u32);
    bytes.push(LINE_FEED);
    bytes
}

} // verus!
