//! Text layer of the control files.
//!
//! Each control file holds one unsigned 8-bit decimal as ASCII text,
//! optionally surrounded by whitespace. Reading trims the content and parses
//! the remainder; writing renders the value as plain decimal digits. The spec
//! functions here say exactly which byte sequences parse, to which value, and
//! which fault any other content raises.

use vstd::prelude::*;

verus! {

/// Why a control file's content did not parse as a value.
#[derive(Clone, Copy, Debug, PartialEq, Eq, Structural)]
pub enum ParseFault {
    /// The content was empty, or nothing but whitespace.
    Empty,
    /// A byte that cannot be part of a decimal number.
    InvalidDigit,
    /// The number is too large for the 8-bit range.
    PosOverflow,
    /// A negative number below zero.
    NegOverflow,
}

impl ParseFault {
    /// The message the fault carries.
    pub open spec fn text(self) -> Seq<char> {
        match self {
            ParseFault::Empty => "cannot parse integer from empty string"@,
            ParseFault::InvalidDigit => "invalid digit found in string"@,
            ParseFault::PosOverflow => "number too large to fit in target type"@,
            ParseFault::NegOverflow => "number too small to fit in target type"@,
        }
    }

    /// The message the fault carries.
    pub fn message(&self) -> (r: &'static str)
        ensures
            r@ == self.text(),
    {
        match self {
            ParseFault::Empty => "cannot parse integer from empty string",
            ParseFault::InvalidDigit => "invalid digit found in string",
            ParseFault::PosOverflow => "number too large to fit in target type",
            ParseFault::NegOverflow => "number too small to fit in target type",
        }
    }
}

/// ASCII whitespace: tab through carriage return, and the space byte.
pub open spec fn is_ascii_ws(b: u8) -> bool {
    b == 32 || (9 <= b && b <= 13)
}

/// An ASCII decimal digit.
pub open spec fn is_digit(b: u8) -> bool {
    48 <= b && b <= 57
}

/// The value of a digit byte.
pub open spec fn digit_val(b: u8) -> int {
    b - 48
}

/// The sequence with its leading whitespace removed.
pub open spec fn trim_start(s: Seq<u8>) -> Seq<u8>
    decreases s.len(),
{
    if s.len() > 0 && is_ascii_ws(s[0]) {
        trim_start(s.drop_first())
    } else {
        s
    }
}

/// The sequence with its trailing whitespace removed.
pub open spec fn trim_end(s: Seq<u8>) -> Seq<u8>
    decreases s.len(),
{
    if s.len() > 0 && is_ascii_ws(s[s.len() - 1]) {
        trim_end(s.drop_last())
    } else {
        s
    }
}

/// The sequence with whitespace removed on both sides.
pub open spec fn trimmed(s: Seq<u8>) -> Seq<u8> {
    trim_end(trim_start(s))
}

/// Left-to-right scan of the digits of a non-negative number, from an
/// accumulated value. The first offending byte decides the fault: a non-digit
/// raises `InvalidDigit`, a digit that takes the value past 255 raises
/// `PosOverflow`.
pub open spec fn scan_pos(ds: Seq<u8>, acc: int) -> Result<u8, ParseFault>
    decreases ds.len(),
{
    if ds.len() == 0 {
        Ok(acc as u8)
    } else if !is_digit(ds[0]) {
        Err(ParseFault::InvalidDigit)
    } else if acc * 10 + digit_val(ds[0]) > 255 {
        Err(ParseFault::PosOverflow)
    } else {
        scan_pos(ds.drop_first(), acc * 10 + digit_val(ds[0]))
    }
}

/// Scan of the digits after a minus sign: in the unsigned range only zeros
/// can follow, and the first nonzero digit raises `NegOverflow`.
pub open spec fn scan_neg(ds: Seq<u8>) -> Result<u8, ParseFault>
    decreases ds.len(),
{
    if ds.len() == 0 {
        Ok(0u8)
    } else if !is_digit(ds[0]) {
        Err(ParseFault::InvalidDigit)
    } else if digit_val(ds[0]) > 0 {
        Err(ParseFault::NegOverflow)
    } else {
        scan_neg(ds.drop_first())
    }
}

/// What an already trimmed byte sequence parses to as a `u8`: an optional
/// sign byte (`+` is 43, `-` is 45) followed by at least one decimal digit.
pub open spec fn parse_u8(t: Seq<u8>) -> Result<u8, ParseFault> {
    if t.len() == 0 {
        Err(ParseFault::Empty)
    } else if t[0] == 43 || t[0] == 45 {
        if t.len() == 1 {
            Err(ParseFault::InvalidDigit)
        } else if t[0] == 43 {
            scan_pos(t.drop_first(), 0)
        } else {
            scan_neg(t.drop_first())
        }
    } else {
        scan_pos(t, 0)
    }
}

/// The decimal digits of `n`, most significant first.
pub open spec fn dec_digits(n: nat) -> Seq<u8>
    decreases n,
{
    if n < 10 {
        seq![(48 + n) as u8]
    } else {
        dec_digits(n / 10).push((48 + n % 10) as u8)
    }
}

/// The byte written for the turbo flag: `1` disables turbo, `0` enables it.
pub open spec fn flag_bytes(no_turbo: bool) -> Seq<u8> {
    if no_turbo {
        seq![49u8]
    } else {
        seq![48u8]
    }
}

fn is_ws(b: u8) -> (r: bool)
    ensures
        r == is_ascii_ws(b),
{
    b == 32 || (9 <= b && b <= 13)
}

fn scan_digits(raw: &Vec<u8>, start: usize, end: usize) -> (r: Result<u8, ParseFault>)
    requires
        start <= end <= raw@.len(),
    ensures
        r == scan_pos(raw@.subrange(start as int, end as int), 0),
{
    let mut i = start;
    let mut acc: u16 = 0;
    while i < end
        invariant
            start <= i <= end <= raw@.len(),
            acc <= 255,
            scan_pos(raw@.subrange(start as int, end as int), 0) == scan_pos(
                raw@.subrange(i as int, end as int),
                acc as int,
            ),
        decreases end - i,
    {
        let b = raw[i];
        proof {
            let rem = raw@.subrange(i as int, end as int);
            assert(rem[0] == b);
            assert(rem.drop_first() =~= raw@.subrange(i as int + 1, end as int));
        }
        if b < 48 || b > 57 {
            return Err(ParseFault::InvalidDigit);
        }
        let d = (b - 48) as u16;
        let next = acc * 10 + d;
        if next > 255 {
            return Err(ParseFault::PosOverflow);
        }
        acc = next;
        i = i + 1;
    }
    proof {
        assert(raw@.subrange(i as int, end as int) =~= Seq::<u8>::empty());
    }
    Ok(acc as u8)
}

fn scan_sign_digits(raw: &Vec<u8>, start: usize, end: usize) -> (r: Result<u8, ParseFault>)
    requires
        start <= end <= raw@.len(),
    ensures
        r == scan_neg(raw@.subrange(start as int, end as int)),
{
    let mut i = start;
    while i < end
        invariant
            start <= i <= end <= raw@.len(),
            scan_neg(raw@.subrange(start as int, end as int)) == scan_neg(
                raw@.subrange(i as int, end as int),
            ),
        decreases end - i,
    {
        let b = raw[i];
        proof {
            let rem = raw@.subrange(i as int, end as int);
            assert(rem[0] == b);
            assert(rem.drop_first() =~= raw@.subrange(i as int + 1, end as int));
        }
        if b < 48 || b > 57 {
            return Err(ParseFault::InvalidDigit);
        }
        if b > 48 {
            return Err(ParseFault::NegOverflow);
        }
        i = i + 1;
    }
    proof {
        assert(raw@.subrange(i as int, end as int) =~= Seq::<u8>::empty());
    }
    Ok(0)
}

/// Parse a control file's content: trim the surrounding ASCII whitespace,
/// then read the remainder as a decimal `u8`.
pub fn parse_field(raw: &Vec<u8>) -> (r: Result<u8, ParseFault>)
    ensures
        r == parse_u8(trimmed(raw@)),
{
    let ghost s0 = raw@;
    let n = raw.len();
    let mut lo: usize = 0;
    proof {
        assert(s0.subrange(0, n as int) =~= s0);
    }
    while lo < n && is_ws(raw[lo])
        invariant
            lo <= n,
            n == s0.len(),
            s0 == raw@,
            trim_start(s0) == trim_start(s0.subrange(lo as int, n as int)),
        decreases n - lo,
    {
        proof {
            let sub = s0.subrange(lo as int, n as int);
            assert(sub[0] == s0[lo as int]);
            assert(sub.drop_first() =~= s0.subrange(lo as int + 1, n as int));
            assert(trim_start(sub) == trim_start(sub.drop_first()));
        }
        lo = lo + 1;
    }
    if lo == n {
        proof {
            assert(s0.subrange(n as int, n as int) =~= Seq::<u8>::empty());
            assert(trim_start(Seq::<u8>::empty()) == Seq::<u8>::empty());
            assert(trim_end(Seq::<u8>::empty()) == Seq::<u8>::empty());
        }
        return Err(ParseFault::Empty);
    }
    proof {
        let sub = s0.subrange(lo as int, n as int);
        assert(sub[0] == s0[lo as int]);
        assert(trim_start(sub) == sub);
    }
    let mut hi: usize = n;
    while is_ws(raw[hi - 1])
        invariant
            lo < hi <= n,
            n == s0.len(),
            s0 == raw@,
            !is_ascii_ws(s0[lo as int]),
            trim_start(s0) == s0.subrange(lo as int, n as int),
            trim_end(s0.subrange(lo as int, n as int)) == trim_end(
                s0.subrange(lo as int, hi as int),
            ),
        decreases hi,
    {
        proof {
            let sub = s0.subrange(lo as int, hi as int);
            assert(sub[sub.len() - 1] == s0[hi as int - 1]);
            assert(sub.drop_last() =~= s0.subrange(lo as int, hi as int - 1));
            assert(trim_end(sub) == trim_end(sub.drop_last()));
        }
        hi = hi - 1;
    }
    let ghost t = s0.subrange(lo as int, hi as int);
    proof {
        assert(t[t.len() - 1] == s0[hi as int - 1]);
        assert(trim_end(t) == t);
        assert(trimmed(s0) == t);
        assert(t[0] == s0[lo as int]);
    }
    let first = raw[lo];
    if first == 43 || first == 45 {
        // a sign byte alone is not a number
        if lo + 1 == hi {
            return Err(ParseFault::InvalidDigit);
        }
        proof {
            assert(t.drop_first() =~= s0.subrange(lo as int + 1, hi as int));
        }
        if first == 43 {
            scan_digits(raw, lo + 1, hi)
        } else {
            scan_sign_digits(raw, lo + 1, hi)
        }
    } else {
        scan_digits(raw, lo, hi)
    }
}

/// Render a percentage as the decimal text a control file takes.
pub fn render_pct(v: u8) -> (r: Vec<u8>)
    ensures
        r@ == dec_digits(v as nat),
{
    let mut r: Vec<u8> = Vec::new();
    if v >= 100 {
        r.push(48 + v / 100);
    }
    if v >= 10 {
        r.push(48 + (v / 10) % 10);
    }
    r.push(48 + v % 10);
    proof {
        let n = v as nat;
        if v < 10 {
            assert(r@ =~= dec_digits(n));
        } else if v < 100 {
            assert((v as int) / 10 < 10);
            assert((v as int) / 10 % 10 == (v as int) / 10);
            assert(r@ =~= dec_digits(n / 10).push((48 + n % 10) as u8));
        } else {
            vstd::arithmetic::div_mod::lemma_div_denominator(v as int, 10, 10);
            assert((v as int) / 10 / 10 == (v as int) / 100);
            assert(n / 10 >= 10);
            assert(n / 10 / 10 < 10);
            assert(dec_digits(n / 10 / 10) =~= seq![(48 + n / 10 / 10) as u8]);
            assert(dec_digits(n / 10) =~= dec_digits(n / 10 / 10).push((48 + (n / 10) % 10) as u8));
            assert(r@ =~= dec_digits(n / 10).push((48 + n % 10) as u8));
        }
    }
    r
}

/// Render the turbo flag as the single byte a control file takes.
pub fn render_flag(no_turbo: bool) -> (r: Vec<u8>)
    ensures
        r@ == flag_bytes(no_turbo),
{
    let mut r: Vec<u8> = Vec::new();
    if no_turbo {
        r.push(49);
    } else {
        r.push(48);
    }
    proof {
        assert(r@ =~= flag_bytes(no_turbo));
    }
    r
}

proof fn lemma_dec_digits_are_digits(n: nat)
    ensures
        dec_digits(n).len() >= 1,
        forall|i: int| 0 <= i < dec_digits(n).len() ==> is_digit(#[trigger] dec_digits(n)[i]),
    decreases n,
{
    if n < 10 {
        assert(dec_digits(n) =~= seq![(48 + n) as u8]);
    } else {
        lemma_dec_digits_are_digits(n / 10);
        assert(dec_digits(n) =~= dec_digits(n / 10).push((48 + n % 10) as u8));
        assert forall|i: int| 0 <= i < dec_digits(n).len() implies is_digit(
            #[trigger] dec_digits(n)[i],
        ) by {
            if i < dec_digits(n / 10).len() {
                assert(dec_digits(n)[i] == dec_digits(n / 10)[i]);
            } else {
                assert(dec_digits(n)[i] == (48 + n % 10) as u8);
            }
        }
    }
}

/// A sequence of digits carries no whitespace to trim.
proof fn lemma_trim_digits(s: Seq<u8>)
    requires
        s.len() >= 1,
        forall|i: int| 0 <= i < s.len() ==> is_digit(#[trigger] s[i]),
    ensures
        trimmed(s) == s,
{
    assert(!is_ascii_ws(s[0]));
    assert(!is_ascii_ws(s[s.len() - 1]));
    assert(trim_start(s) == s);
    assert(trim_end(s) == s);
}

/// Appending a digit to a scanned sequence scans to ten times the value plus
/// that digit, and keeps every fault of the shorter scan.
proof fn lemma_scan_push(ds: Seq<u8>, d: u8, acc: int)
    requires
        0 <= acc <= 255,
    ensures
        scan_pos(ds.push(d), acc) == (match scan_pos(ds, acc) {
            Ok(m) => {
                if !is_digit(d) {
                    Err(ParseFault::InvalidDigit)
                } else if (m as int) * 10 + digit_val(d) > 255 {
                    Err(ParseFault::PosOverflow)
                } else {
                    Ok(((m as int) * 10 + digit_val(d)) as u8)
                }
            },
            Err(e) => Err::<u8, ParseFault>(e),
        }),
    decreases ds.len(),
{
    if ds.len() == 0 {
        assert(ds.push(d)[0] == d);
        assert(ds.push(d).drop_first() =~= Seq::<u8>::empty());
        assert(scan_pos(ds, acc) == Ok::<u8, ParseFault>(acc as u8));
        if is_digit(d) && acc * 10 + digit_val(d) <= 255 {
            assert(scan_pos(Seq::<u8>::empty(), acc * 10 + digit_val(d)) == Ok::<u8, ParseFault>(
                (acc * 10 + digit_val(d)) as u8,
            ));
            assert(scan_pos(ds.push(d), acc) == Ok::<u8, ParseFault>(
                (acc * 10 + digit_val(d)) as u8,
            ));
        }
    } else {
        assert(ds.push(d)[0] == ds[0]);
        if is_digit(ds[0]) && acc * 10 + digit_val(ds[0]) <= 255 {
            assert(ds.push(d).drop_first() =~= ds.drop_first().push(d));
            lemma_scan_push(ds.drop_first(), d, acc * 10 + digit_val(ds[0]));
        }
    }
}

/// The digits of `n` scan back to `n`.
proof fn lemma_scan_dec_digits(n: nat)
    requires
        n <= 255,
    ensures
        scan_pos(dec_digits(n), 0) == Ok::<u8, ParseFault>(n as u8),
    decreases n,
{
    if n < 10 {
        let ds = dec_digits(n);
        assert(ds =~= seq![(48 + n) as u8]);
        assert(ds.drop_first() =~= Seq::<u8>::empty());
        assert(scan_pos(ds.drop_first(), n as int) == Ok::<u8, ParseFault>(n as u8));
    } else {
        lemma_scan_dec_digits(n / 10);
        lemma_scan_push(dec_digits(n / 10), (48 + n % 10) as u8, 0);
        vstd::arithmetic::div_mod::lemma_fundamental_div_mod(n as int, 10);
        assert((n / 10) as int * 10 + digit_val((48 + n % 10) as u8) == n as int);
    }
}

/// Round trip at the text level: the decimal rendering of a percentage
/// parses back to the same value.
pub proof fn lemma_pct_text_round_trip(v: u8)
    ensures
        parse_u8(trimmed(dec_digits(v as nat))) == Ok::<u8, ParseFault>(v),
{
    let ds = dec_digits(v as nat);
    lemma_dec_digits_are_digits(v as nat);
    lemma_trim_digits(ds);
    lemma_scan_dec_digits(v as nat);
    assert(is_digit(ds[0]));
    assert(ds[0] != 43 && ds[0] != 45);
}

/// Round trip for the turbo flag: its rendered byte parses back to a value
/// that is nonzero exactly when turbo is disabled.
pub proof fn lemma_flag_text_round_trip(no_turbo: bool)
    ensures
        parse_u8(trimmed(flag_bytes(no_turbo))) == Ok::<u8, ParseFault>(
            if no_turbo {
                1u8
            } else {
                0u8
            },
        ),
{
    let t = flag_bytes(no_turbo);
    assert(is_digit(t[0]));
    lemma_trim_digits(t);
    assert(t.drop_first() =~= Seq::<u8>::empty());
    if no_turbo {
        assert(scan_pos(t.drop_first(), 1) == Ok::<u8, ParseFault>(1u8));
    } else {
        assert(scan_pos(t.drop_first(), 0) == Ok::<u8, ParseFault>(0u8));
    }
}

} // verus!
