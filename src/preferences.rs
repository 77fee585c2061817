use vstd::prelude::*;

verus! {

/// Inclusive bounds on a candidate's age in years.
#[derive(Clone, Copy, Debug, PartialEq, Eq, Structural)]
pub struct AgeRange {
    pub min: i32,
    pub max: i32,
}

/// A user's matching preferences. An empty list puts no filter on its
/// dimension; `None` leaves the age or distance unfiltered.
#[derive(Debug)]
pub struct Preferences {
    pub age_range: Option<AgeRange>,
    /// Largest distance to a candidate, in kilometres.
    pub distance_max: Option<i32>,
    pub gender_preference: Vec<String>,
    pub ethnicity_preference: Vec<String>,
    pub religion_preference: Vec<String>,
}

/// A calendar day.
#[derive(Clone, Copy, Debug, PartialEq, Eq, Structural)]
pub struct Date {
    pub year: u32,
    pub month: u32,
    pub day: u32,
}

/// The value of a decimal digit.
pub open spec fn digit_of(c: char) -> Option<nat> {
    match c {
        '0' => Some(0nat),
        '1' => Some(1nat),
        '2' => Some(2nat),
        '3' => Some(3nat),
        '4' => Some(4nat),
        '5' => Some(5nat),
        '6' => Some(6nat),
        '7' => Some(7nat),
        '8' => Some(8nat),
        '9' => Some(9nat),
        _ => None,
    }
}

/// The value of a run of decimal digits; `None` if a character is not one.
pub open spec fn digits_value(s: Seq<char>) -> Option<nat>
    decreases s.len(),
{
    if s.len() == 0 {
        Some(0nat)
    } else {
        match (digits_value(s.drop_last()), digit_of(s.last())) {
            (Some(a), Some(d)) => Some(a * 10 + d),
            _ => None,
        }
    }
}

/// The date written `YYYY-MM-DD`, with a month from 1 to 12 and a day from 1
/// to 31; `None` for any other text.
pub open spec fn parse_date(s: Seq<char>) -> Option<Date> {
    if s.len() == 10 && s[4] == '-' && s[7] == '-' {
        match (
            digits_value(s.subrange(0, 4)),
            digits_value(s.subrange(5, 7)),
            digits_value(s.subrange(8, 10)),
        ) {
            (Some(y), Some(m), Some(d)) => if 1 <= m <= 12 && 1 <= d <= 31 {
                Some(Date { year: y as u32, month: m as u32, day: d as u32 })
            } else {
                None
            },
            _ => None,
        }
    } else {
        None
    }
}

/// Full years from `birth` to `today`.
pub open spec fn age_on(birth: Date, today: Date) -> int {
    today.year - birth.year - if today.month < birth.month || (today.month == birth.month
        && today.day < birth.day) {
        1int
    } else {
        0int
    }
}

fn digit(c: char) -> (r: Option<u32>)
    ensures
        r matches Some(d) ==> digit_of(c) == Some(d as nat),
        r is None ==> digit_of(c) is None,
{
    match c {
        '0' => Some(0),
        '1' => Some(1),
        '2' => Some(2),
        '3' => Some(3),
        '4' => Some(4),
        '5' => Some(5),
        '6' => Some(6),
        '7' => Some(7),
        '8' => Some(8),
        '9' => Some(9),
        _ => None,
    }
}

proof fn lemma_digits_bound(s: Seq<char>)
    requires
        digits_value(s) is Some,
    ensures
        digits_value(s)->0 < pow10(s.len()),
    decreases s.len(),
{
    if s.len() > 0 {
        lemma_digits_bound(s.drop_last());
    }
}

pub open spec fn pow10(n: nat) -> nat
    decreases n,
{
    if n == 0 {
        1
    } else {
        10 * pow10((n - 1) as nat)
    }
}

/// The value of the digits of `s` from `start` to `end` (at most four).
fn read_digits(s: &str, start: usize, end: usize) -> (r: Option<u32>)
    requires
        start <= end <= s@.len(),
        end - start <= 4,
    ensures
        r matches Some(v) ==> digits_value(s@.subrange(start as int, end as int)) == Some(
            v as nat,
        ),
        r is None ==> digits_value(s@.subrange(start as int, end as int)) is None,
{
    let mut value: u32 = 0;
    let mut i: usize = start;
    while i < end
        invariant
            start <= i <= end <= s@.len(),
            end - start <= 4,
            digits_value(s@.subrange(start as int, i as int)) == Some(value as nat),
        decreases end - i,
    {
        let c = s.get_char(i);
        assert(s@.subrange(start as int, i + 1).drop_last() =~= s@.subrange(start as int, i as int));
        match digit(c) {
            Some(d) => {
                proof {
                    lemma_digits_bound(s@.subrange(start as int, i as int));
                    assert(pow10(0) == 1);
                    assert(pow10(1) == 10);
                    assert(pow10(2) == 100);
                    assert(pow10(3) == 1000);
                }
                value = value * 10 + d;
            },
            None => {
                proof {
                    lemma_prefix_fails(s@.subrange(start as int, end as int), (i - start) as nat);
                    assert(s@.subrange(start as int, end as int).subrange(0, i - start + 1)
                        =~= s@.subrange(start as int, i + 1));
                }
                return None;
            },
        }
        i = i + 1;
    }
    Some(value)
}

/// A run with a non-digit has no value.
proof fn lemma_prefix_fails(s: Seq<char>, k: nat)
    requires
        k < s.len(),
        digits_value(s.subrange(0, k as int + 1)) is None,
    ensures
        digits_value(s) is None,
    decreases s.len(),
{
    if k + 1 < s.len() {
        assert(s.drop_last().subrange(0, k as int + 1) =~= s.subrange(0, k as int + 1));
        lemma_prefix_fails(s.drop_last(), k);
    } else {
        assert(s.subrange(0, k as int + 1) =~= s);
    }
}

/// Reads a date written `YYYY-MM-DD`.
pub fn parse_birthdate(s: &str) -> (r: Option<Date>)
    ensures
        r == parse_date(s@),
{
    let n = s.unicode_len();
    if n != 10 {
        return None;
    }
    if s.get_char(4) != '-' || s.get_char(7) != '-' {
        return None;
    }
    let y = read_digits(s, 0, 4);
    let m = read_digits(s, 5, 7);
    let d = read_digits(s, 8, 10);
    match (y, m, d) {
        (Some(y), Some(m), Some(d)) => {
            if 1 <= m && m <= 12 && 1 <= d && d <= 31 {
                Some(Date { year: y, month: m, day: d })
            } else {
                None
            }
        },
        _ => None,
    }
}

/// Full years from `birth` to `today`.
pub fn age(birth: Date, today: Date) -> (r: i64)
    ensures
        r == age_on(birth, today),
{
    let before = today.month < birth.month || (today.month == birth.month && today.day < birth.day);
    let years = today.year as i64 - birth.year as i64;
    if before {
        years - 1
    } else {
        years
    }
}

} // verus!
