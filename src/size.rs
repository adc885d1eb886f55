use vstd::prelude::*;

verus! {

/// Sizes above this many bytes are shown in gigabytes.
pub const GIGABYTE_THRESHOLD: u64 = 1_000_000_000;

/// Sizes above this many bytes are shown in megabytes.
pub const MEGABYTE_THRESHOLD: u64 = 1_000_000;

/// Sizes above this many bytes are shown in kilobytes.
pub const KILOBYTE_THRESHOLD: u64 = 1_000;

/// The unit a byte count is reported in.
#[derive(Debug, Clone, Copy, PartialEq, Eq, Structural)]
pub enum SizeUnit {
    Bytes,
    Kilobytes,
    Megabytes,
    Gigabytes,
}

/// The bucket of a byte count; a count equal to a threshold stays in the
/// lower bucket.
pub open spec fn unit_for(byte_count: nat) -> SizeUnit {
    if byte_count > GIGABYTE_THRESHOLD {
        SizeUnit::Gigabytes
    } else if byte_count > MEGABYTE_THRESHOLD {
        SizeUnit::Megabytes
    } else if byte_count > KILOBYTE_THRESHOLD {
        SizeUnit::Kilobytes
    } else {
        SizeUnit::Bytes
    }
}

/// How many bytes make one hundredth of the unit (a byte is never split).
pub open spec fn bytes_per_hundredth(unit: SizeUnit) -> nat {
    match unit {
        SizeUnit::Gigabytes => 10_000_000,
        SizeUnit::Megabytes => 10_000,
        SizeUnit::Kilobytes => 10,
        SizeUnit::Bytes => 1,
    }
}

/// `n / d` rounded to the nearest integer, halves rounded up.
pub open spec fn rounded_quotient(n: nat, d: nat) -> nat
    recommends
        d > 0,
{
    (n + d / 2) / d
}

/// The reported value of a byte count, in hundredths of its unit: the count
/// divided by the unit, rounded to two decimal places.
pub open spec fn hundredths_for(byte_count: nat) -> nat {
    match unit_for(byte_count) {
        SizeUnit::Bytes => byte_count * 100,
        u => rounded_quotient(byte_count, bytes_per_hundredth(u)),
    }
}

pub open spec fn unit_symbol(unit: SizeUnit) -> Seq<char> {
    match unit {
        SizeUnit::Bytes => seq!['B'],
        SizeUnit::Kilobytes => seq!['K', 'B'],
        SizeUnit::Megabytes => seq!['M', 'B'],
        SizeUnit::Gigabytes => seq!['G', 'B'],
    }
}

/// The decimal digits of `n`, without leading zeros ("0" for zero).
pub open spec fn decimal_text(n: nat) -> Seq<char>
    decreases n,
{
    if n < 10 {
        seq![digit_char(n)]
    } else {
        decimal_text(n / 10) + seq![digit_char(n % 10)]
    }
}

pub open spec fn digit_char(d: nat) -> char {
    if d < 10 {
        ((d + 48) as u8) as char
    } else {
        '?'
    }
}

/// A value given in hundredths, written with as few decimals as it needs:
/// 150 is "1.5", 100 is "1", 105 is "1.05".
pub open spec fn hundredths_text(h: nat) -> Seq<char> {
    let whole = decimal_text(h / 100);
    let frac = h % 100;
    if frac == 0 {
        whole
    } else if frac % 10 == 0 {
        whole + seq!['.', digit_char(frac / 10)]
    } else {
        whole + seq!['.', digit_char(frac / 10), digit_char(frac % 10)]
    }
}

/// The report of a byte count: its value, a space, and its unit.
pub open spec fn size_text(byte_count: nat) -> Seq<char> {
    hundredths_text(hundredths_for(byte_count)) + seq![' '] + unit_symbol(unit_for(byte_count))
}

impl SizeUnit {
    /// The unit's symbol as shown to the user.
    pub fn symbol(&self) -> (r: &'static str)
        ensures
            r@ == unit_symbol(*self),
    {
        match self {
            SizeUnit::Bytes => {
                proof { reveal_strlit("B"); }
                "B"
            },
            SizeUnit::Kilobytes => {
                proof { reveal_strlit("KB"); }
                "KB"
            },
            SizeUnit::Megabytes => {
                proof { reveal_strlit("MB"); }
                "MB"
            },
            SizeUnit::Gigabytes => {
                proof { reveal_strlit("GB"); }
                "GB"
            },
        }
    }
}

/// A byte count scaled to a human-readable unit. The value is kept in
/// hundredths of the unit, so that it is exact at any scale.
#[derive(Debug, Clone, Copy, PartialEq, Eq, Structural)]
pub struct FileSize {
    pub hundredths: u64,
    pub units: SizeUnit,
}

proof fn lemma_rounded_quotient(n: nat, d: nat, q: nat, r: nat)
    requires
        d > 0,
        d % 2 == 0,
        q == n / d,
        r == n % d,
    ensures
        rounded_quotient(n, d) == if r >= d / 2 { q + 1 } else { q },
{
    let h = d / 2;
    assert(n == q * d + r) by (nonlinear_arith)
        requires q == n / d, r == n % d, d > 0;
    assert(r < d);
    if r >= h {
        assert(n + h == (q + 1) * d + (r - h)) by (nonlinear_arith)
            requires n == q * d + r, d == 2 * h, r >= h;
        assert((n + h) / d == q + 1) by (nonlinear_arith)
            requires n + h == (q + 1) * d + (r - h), r - h < d, r >= h, d > 0;
    } else {
        assert(n + h == q * d + (r + h)) by (nonlinear_arith)
            requires n == q * d + r;
        assert((n + h) / d == q) by (nonlinear_arith)
            requires n + h == q * d + (r + h), r + h < d, d > 0;
    }
}

fn rounded_div(n: u64, d: u64) -> (r: u64)
    requires
        d > 0,
        d % 2 == 0,
    ensures
        r == rounded_quotient(n as nat, d as nat),
{
    let q = n / d;
    let rem = n % d;
    proof {
        lemma_rounded_quotient(n as nat, d as nat, q as nat, rem as nat);
        assert(q < u64::MAX) by (nonlinear_arith)
            requires q == n / d, d >= 2;
    }
    if rem >= d / 2 {
        q + 1
    } else {
        q
    }
}

impl FileSize {
    /// Scales a byte count: above 1,000,000,000 to gigabytes, above
    /// 1,000,000 to megabytes, above 1,000 to kilobytes, else bytes; the
    /// scaled value is rounded to two decimal places.
    pub fn from_byte_count(byte_count: u64) -> (r: Self)
        ensures
            r.units == unit_for(byte_count as nat),
            r.hundredths == hundredths_for(byte_count as nat),
    {
        if byte_count > GIGABYTE_THRESHOLD {
            FileSize { hundredths: rounded_div(byte_count, 10_000_000), units: SizeUnit::Gigabytes }
        } else if byte_count > MEGABYTE_THRESHOLD {
            FileSize { hundredths: rounded_div(byte_count, 10_000), units: SizeUnit::Megabytes }
        } else if byte_count > KILOBYTE_THRESHOLD {
            FileSize { hundredths: rounded_div(byte_count, 10), units: SizeUnit::Kilobytes }
        } else {
            FileSize { hundredths: byte_count * 100, units: SizeUnit::Bytes }
        }
    }

    /// The value and unit as shown to the user, such as "1.5 KB".
    pub fn to_text(&self) -> (r: String)
        ensures
            r@ == hundredths_text(self.hundredths as nat) + seq![' '] + unit_symbol(self.units),
    {
        let mut s = String::new();
        append_hundredths(&mut s, self.hundredths);
        s.append(" ");
        s.append(self.units.symbol());
        proof { reveal_strlit(" "); }
        s
    }
}

/// The report of a byte count, such as "1000 B", "1.5 KB" or "1 MB".
pub fn format_size(byte_count: u64) -> (r: String)
    ensures
        r@ == size_text(byte_count as nat),
{
    FileSize::from_byte_count(byte_count).to_text()
}

fn digit_str(d: u64) -> (r: &'static str)
    requires
        d < 10,
    ensures
        r@ == seq![digit_char(d as nat)],
{
    let r = match d {
        0 => "0",
        1 => "1",
        2 => "2",
        3 => "3",
        4 => "4",
        5 => "5",
        6 => "6",
        7 => "7",
        8 => "8",
        _ => "9",
    };
    proof {
        reveal_strlit("0");
        reveal_strlit("1");
        reveal_strlit("2");
        reveal_strlit("3");
        reveal_strlit("4");
        reveal_strlit("5");
        reveal_strlit("6");
        reveal_strlit("7");
        reveal_strlit("8");
        reveal_strlit("9");
    }
    r
}

/// Appends the decimal digits of `n`.
pub fn append_decimal(s: &mut String, n: u64)
    ensures
        final(s)@ == old(s)@ + decimal_text(n as nat),
    decreases n,
{
    if n >= 10 {
        append_decimal(s, n / 10);
    }
    s.append(digit_str(n % 10));
}

fn append_hundredths(s: &mut String, h: u64)
    ensures
        final(s)@ == old(s)@ + hundredths_text(h as nat),
{
    append_decimal(s, h / 100);
    let frac = h % 100;
    if frac != 0 {
        s.append(".");
        s.append(digit_str(frac / 10));
        if frac % 10 != 0 {
            s.append(digit_str(frac % 10));
        }
        proof { reveal_strlit("."); }
    }
}

} // verus!
