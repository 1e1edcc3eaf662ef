//! Telemetry: the measurements that the report task produces, and the text line
//! that carries each of them to the host.

use vstd::prelude::*;

verus! {

/// One measurement of a power monitor.
#[derive(Debug, Clone, Copy, PartialEq, Eq, Structural)]
pub struct Measurement {
    /// The monitor's I2C address.
    pub source: u8,
    /// Bus voltage, in millivolts.
    pub voltage: u32,
    /// Current, in milliamperes.
    pub current: i32,
    /// Power, in milliwatts.
    pub power: u32,
    /// Shunt voltage, in microvolts (0 when it could not be read).
    pub shunt: i32,
}

/// The decimal digits of `n`, most significant first, without leading zeros.
pub open spec fn digits(n: nat) -> Seq<u8>
    decreases n,
{
    if n < 10 {
        seq![(48 + n) as u8]
    } else {
        digits(n / 10).push((48 + n % 10) as u8)
    }
}

/// The decimal text of `v`, with a leading minus sign when it is negative.
pub open spec fn decimal(v: int) -> Seq<u8> {
    if v < 0 {
        seq![45u8] + digits((-v) as nat)
    } else {
        digits(v as nat)
    }
}

/// The telemetry line of a measurement: source, voltage, current, power and shunt
/// voltage in decimal, separated by commas, ended by a carriage return and a line feed.
pub open spec fn line_of(m: Measurement) -> Seq<u8> {
    decimal(m.source as int) + seq![44u8] + decimal(m.voltage as int) + seq![44u8] + decimal(
        m.current as int,
    ) + seq![44u8] + decimal(m.power as int) + seq![44u8] + decimal(m.shunt as int) + seq![13u8, 10u8]
}

/// The number that the decimal digits `s` spell, most significant first.
pub open spec fn digits_value(s: Seq<u8>) -> int
    decreases s.len(),
{
    if s.len() == 0 {
        0
    } else {
        10 * digits_value(s.drop_last()) + (s.last() - 48)
    }
}

/// The digits of a number spell that number, and are all decimal digits: reading
/// a telemetry field back gives the measured value.
pub proof fn lemma_digits_value(n: nat)
    ensures
        digits_value(digits(n)) == n,
        forall|i: int| 0 <= i < digits(n).len() ==> 48 <= #[trigger] digits(n)[i] <= 57,
    decreases n,
{
    if n >= 10 {
        lemma_digits_value(n / 10);
        assert(digits(n).drop_last() =~= digits(n / 10));
        assert(digits(n).last() == (48 + n % 10) as u8);
        assert(((48 + n % 10) as u8) - 48 == n % 10);
        assert(10 * (n / 10) + n % 10 == n);
        let s = digits(n);
        assert(s.len() > 0);
        assert(digits_value(s) == 10 * digits_value(s.drop_last()) + (s.last() - 48));
        assert forall|i: int| 0 <= i < digits(n).len() implies 48 <= #[trigger] digits(n)[i] <= 57 by {
            if i < digits(n / 10).len() {
                assert(digits(n)[i] == digits(n / 10)[i]);
            }
        }
    } else {
        let s = digits(n);
        assert(s.drop_last() =~= Seq::<u8>::empty());
        assert(digits_value(s) == 10 * digits_value(s.drop_last()) + (s.last() - 48));
    }
}

/// Whether every byte of `s` is a decimal digit.
pub open spec fn all_digits(s: Seq<u8>) -> bool {
    forall|i: int| 0 <= i < s.len() ==> 48 <= #[trigger] s[i] <= 57
}

/// Whether the text `s` is the signed decimal of `v`: a minus sign exactly when
/// `v` is negative, then at least one digit, the digits spelling the magnitude of `v`.
pub open spec fn spells(s: Seq<u8>, v: int) -> bool {
    if v < 0 {
        &&& s.len() >= 2
        &&& s[0] == 45
        &&& all_digits(s.drop_first())
        &&& digits_value(s.drop_first()) == -v
    } else {
        &&& s.len() >= 1
        &&& all_digits(s)
        &&& digits_value(s) == v
    }
}

proof fn lemma_digits_nonempty(n: nat)
    ensures
        digits(n).len() >= 1,
    decreases n,
{
    if n >= 10 {
        lemma_digits_nonempty(n / 10);
    }
}

/// The signed decimal text of a number spells that number.
pub proof fn lemma_decimal_spells(v: int)
    ensures
        spells(decimal(v), v),
{
    if v < 0 {
        let n = (-v) as nat;
        lemma_digits_value(n);
        lemma_digits_nonempty(n);
        assert(decimal(v).drop_first() =~= digits(n));
    } else {
        lemma_digits_value(v as nat);
        lemma_digits_nonempty(v as nat);
    }
}

/// A telemetry line is five fields separated by commas and ended by a carriage
/// return and a line feed, and each field is the signed decimal of its value:
/// the source address, the voltage, the current, the power and the shunt voltage,
/// in that order. A negative current or shunt voltage reads back negative.
pub proof fn lemma_line_fields(m: Measurement)
    ensures
        exists|f0: Seq<u8>, f1: Seq<u8>, f2: Seq<u8>, f3: Seq<u8>, f4: Seq<u8>|
            #![trigger spells(f0, m.source as int), spells(f1, m.voltage as int), spells(f2, m.current as int), spells(f3, m.power as int), spells(f4, m.shunt as int)]
            spells(f0, m.source as int) && spells(f1, m.voltage as int) && spells(f2, m.current as int)
                && spells(f3, m.power as int) && spells(f4, m.shunt as int) && line_of(m) == f0
                + seq![44u8] + f1 + seq![44u8] + f2 + seq![44u8] + f3 + seq![44u8] + f4 + seq![
                13u8,
                10u8,
            ],
{
    lemma_decimal_spells(m.source as int);
    lemma_decimal_spells(m.voltage as int);
    lemma_decimal_spells(m.current as int);
    lemma_decimal_spells(m.power as int);
    lemma_decimal_spells(m.shunt as int);
    let f0 = decimal(m.source as int);
    let f1 = decimal(m.voltage as int);
    let f2 = decimal(m.current as int);
    let f3 = decimal(m.power as int);
    let f4 = decimal(m.shunt as int);
    assert(line_of(m) == f0 + seq![44u8] + f1 + seq![44u8] + f2 + seq![44u8] + f3 + seq![44u8] + f4
        + seq![13u8, 10u8]);
}

fn push_digits(out: &mut Vec<u8>, n: u32)
    ensures
        final(out)@ == old(out)@ + digits(n as nat),
    decreases n,
{
    if n >= 10 {
        push_digits(out, n / 10);
    }
    let d: u8 = (n % 10) as u8;
    out.push(48 + d);
    assert(final(out)@ =~= old(out)@ + digits(n as nat));
}

fn push_unsigned(out: &mut Vec<u8>, v: u32)
    ensures
        final(out)@ == old(out)@ + decimal(v as int),
{
    push_digits(out, v);
}

fn push_signed(out: &mut Vec<u8>, v: i32)
    ensures
        final(out)@ == old(out)@ + decimal(v as int),
{
    if v < 0 {
        out.push(45);
        let magnitude: u32 = (0i64 - v as i64) as u32;
        push_digits(out, magnitude);
        assert(final(out)@ =~= old(out)@ + decimal(v as int));
    } else {
        push_digits(out, v as u32);
    }
}

impl Measurement {
    /// The telemetry line of this measurement.
    pub fn to_line(&self) -> (r: Vec<u8>)
        ensures
            r@ == line_of(*self),
    {
        let mut out: Vec<u8> = Vec::new();
        push_unsigned(&mut out, self.source as u32);
        out.push(44);
        push_unsigned(&mut out, self.voltage);
        out.push(44);
        push_signed(&mut out, self.current);
        out.push(44);
        push_unsigned(&mut out, self.power);
        out.push(44);
        push_signed(&mut out, self.shunt);
        out.push(13);
        out.push(10);
        assert(out@ =~= line_of(*self));
        out
    }
}

/// What came of sending a telemetry line.
#[derive(Debug, Clone, Copy, PartialEq, Eq, Structural)]
pub enum WriteOutcome {
    /// The line went out.
    Sent,
    /// The line did not fit the endpoint buffer.
    BufferOverflow,
    /// The endpoint is disabled: the host went away.
    Disabled,
}

/// What the telemetry link does next.
#[derive(Debug, Clone, Copy, PartialEq, Eq, Structural)]
pub enum LinkNext {
    /// Wait for the next measurement.
    NextMeasurement,
    /// Report the overflow, then wait for the next measurement.
    ReportOverflow,
    /// Wait for the host to connect again.
    AwaitConnection,
}

/// What follows the sending of a line.
pub fn after_write(outcome: WriteOutcome) -> (r: LinkNext)
    ensures
        r == match outcome {
            WriteOutcome::Sent => LinkNext::NextMeasurement,
            WriteOutcome::BufferOverflow => LinkNext::ReportOverflow,
            WriteOutcome::Disabled => LinkNext::AwaitConnection,
        },
{
    match outcome {
        WriteOutcome::Sent => LinkNext::NextMeasurement,
        WriteOutcome::BufferOverflow => LinkNext::ReportOverflow,
        WriteOutcome::Disabled => LinkNext::AwaitConnection,
    }
}

} // verus!
