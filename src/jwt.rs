use vstd::prelude::*;

verus! {

/// Why a duration such as `30m` could not be read.
#[derive(Debug, Clone, Copy, PartialEq, Eq, Structural)]
pub enum DurationError {
    /// Fewer than two characters: no room for a number and a unit.
    TooShort,
    /// The part before the unit is not a decimal number that fits in `u64`.
    InvalidNumber,
    /// The last character is none of `d`, `h`, `m`, `s`.
    InvalidUnit,
    /// The number of seconds does not fit in `u64`.
    Overflow,
}

/// A decimal digit.
pub open spec fn is_digit_char(c: char) -> bool {
    '0' <= c <= '9'
}

/// The value of a sequence of decimal digits, most significant first.
pub open spec fn digits_value(s: Seq<char>) -> int
    decreases s.len(),
{
    if s.len() == 0 {
        0
    } else {
        digits_value(s.drop_last()) * 10 + (s.last() as u32 - 48)
    }
}

/// The digits of a number, after an optional leading `+`.
pub open spec fn unsigned_digits(s: Seq<char>) -> Seq<char> {
    if s.len() > 0 && s[0] == '+' {
        s.drop_first()
    } else {
        s
    }
}

/// The `u64` that a text writes in decimal, as `str::parse` reads it.
pub open spec fn parsed_u64(s: Seq<char>) -> Option<u64> {
    let d = unsigned_digits(s);
    if d.len() > 0 && (forall|i: int| 0 <= i < d.len() ==> is_digit_char(#[trigger] d[i]))
        && digits_value(d) <= u64::MAX {
        Some(digits_value(d) as u64)
    } else {
        None
    }
}

/// The seconds in one unit of a duration.
pub open spec fn unit_seconds(c: char) -> Option<u64> {
    if c == 'd' {
        Some(86400)
    } else if c == 'h' {
        Some(3600)
    } else if c == 'm' {
        Some(60)
    } else if c == 's' {
        Some(1)
    } else {
        None
    }
}

/// What reading a duration gives: a number followed by a one-letter unit,
/// in seconds.
pub open spec fn duration_outcome(s: Seq<char>) -> Result<u64, DurationError> {
    if s.len() < 2 {
        Err(DurationError::TooShort)
    } else {
        match parsed_u64(s.drop_last()) {
            None => Err(DurationError::InvalidNumber),
            Some(n) => match unit_seconds(s.last()) {
                None => Err(DurationError::InvalidUnit),
                Some(k) => if n * k > u64::MAX {
                    Err(DurationError::Overflow)
                } else {
                    Ok((n * k) as u64)
                },
            },
        }
    }
}

/// Reads a decimal `u64` with an optional leading `+`.
fn parse_u64(s: &str) -> (r: Option<u64>)
    ensures
        r == parsed_u64(s@),
{
    let n = s.unicode_len();
    let mut i: usize = 0;
    if n > 0 && s.get_char(0) == '+' {
        i = 1;
    }
    let start = i;
    let ghost d = unsigned_digits(s@);
    assert(d =~= s@.subrange(start as int, n as int));
    if i == n {
        return None;
    }
    let mut over = false;
    let mut v: u64 = 0;
    let ghost mut val: int = 0;
    while i < n
        invariant
            n == s@.len(),
            start <= i <= n,
            d == s@.subrange(start as int, n as int),
            d == unsigned_digits(s@),
            val == digits_value(s@.subrange(start as int, i as int)),
            val >= 0,
            forall|j: int| start <= j < i ==> is_digit_char(#[trigger] s@[j]),
            over <==> val > u64::MAX,
            !over ==> v == val,
        decreases n - i,
    {
        let c = s.get_char(i);
        if c < '0' || c > '9' {
            assert(!is_digit_char(d[i - start]));
            assert(!(forall|j: int| 0 <= j < d.len() ==> is_digit_char(#[trigger] d[j])));
            return None;
        }
        let digit: u64 = (c as u32 - 48) as u64;
        proof {
            let p = s@.subrange(start as int, i as int + 1);
            assert(p.drop_last() =~= s@.subrange(start as int, i as int));
            val = val * 10 + digit;
        }
        if !over {
            if v > (u64::MAX - digit) / 10 {
                assert(v * 10 + digit > u64::MAX) by (nonlinear_arith)
                    requires
                        v > (u64::MAX - digit) / 10,
                        digit <= 9,
                ;
                over = true;
            } else {
                assert(v * 10 + digit <= u64::MAX) by (nonlinear_arith)
                    requires
                        v <= (u64::MAX - digit) / 10,
                        digit <= 9,
                ;
                v = v * 10 + digit;
            }
        }
        i = i + 1;
    }
    assert(s@.subrange(start as int, n as int) == d);
    if over {
        None
    } else {
        Some(v)
    }
}

/// Reads a duration such as `14d`, `3h`, `30m` or `45s` as a number of
/// seconds.
pub fn parse_duration(input: &str) -> (r: Result<u64, DurationError>)
    ensures
        r == duration_outcome(input@),
{
    let n = input.unicode_len();
    if n < 2 {
        return Err(DurationError::TooShort);
    }
    let number = input.substring_char(0, n - 1);
    let unit = input.get_char(n - 1);
    assert(number@ =~= input@.drop_last());
    let value = match parse_u64(number) {
        Some(v) => v,
        None => {
            return Err(DurationError::InvalidNumber);
        },
    };
    let seconds: u64 = if unit == 'd' {
        86400
    } else if unit == 'h' {
        3600
    } else if unit == 'm' {
        60
    } else if unit == 's' {
        1
    } else {
        return Err(DurationError::InvalidUnit);
    };
    match value.checked_mul(seconds) {
        Some(total) => Ok(total),
        None => Err(DurationError::Overflow),
    }
}

/// The claims of a token: its subject, its audience and when it expires, in
/// seconds since the epoch.
#[derive(Debug)]
pub struct Claims {
    pub sub: String,
    pub aud: String,
    pub exp: u64,
}

impl Claims {
    /// The claims of a token issued at `now` that expires after the duration
    /// `exp`.
    pub fn expiring(sub: &str, aud: &str, exp: &str, now: u64) -> (r: Result<Claims, DurationError>)
        ensures
            match (r, duration_outcome(exp@)) {
                (Ok(c), Ok(d)) => c.sub@ == sub@ && c.aud@ == aud@ && c.exp == now + d,
                (Err(e), Ok(d)) => e == DurationError::Overflow && now + d > u64::MAX,
                (Err(e), Err(f)) => e == f,
                _ => false,
            },
    {
        let d = parse_duration(exp)?;
        match now.checked_add(d) {
            Some(t) => Ok(Claims { sub: sub.to_owned(), aud: aud.to_owned(), exp: t }),
            None => Err(DurationError::Overflow),
        }
    }
}

} // verus!
