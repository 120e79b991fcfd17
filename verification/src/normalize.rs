//! The temporal normalizer: a raw date/time text plus an optional named
//! time zone, to a single absolute instant.
//!
//! Three encodings are accepted, tried in strict order with the first
//! success winning: the UTC-suffixed form `YYYYMMDDTHHMMSSZ`; the bare
//! form `YYYYMMDDTHHMMSS` read as local time of the named zone, when a
//! zone was supplied and resolves; and the bare form read as UTC.

use vstd::prelude::*;

use chrono::Datelike;
use chrono::LocalResult;
use chrono::NaiveDate;
use chrono::TimeZone;
use chrono::Timelike;
use chrono_tz::Tz;

use crate::datetime::DateTime;
use crate::props::{Prop, PropV};
use vstd::string::StrSliceExecFns;

verus! {

/// Whether a character is a decimal digit.
pub open spec fn is_digit(c: char) -> bool {
    48 <= c as u32 <= 57
}

/// The value of a decimal digit character.
pub open spec fn digit(c: char) -> int {
    c as u32 - 48
}

/// Whether every character in the half-open range is a decimal digit.
pub open spec fn all_digits(s: Seq<char>, from: int, to: int) -> bool {
    forall|k: int| from <= k < to ==> is_digit(s[k])
}

/// The number read from two digit characters.
pub open spec fn two_digit(s: Seq<char>, i: int) -> int {
    10 * digit(s[i]) + digit(s[i + 1])
}

/// The number read from four digit characters.
pub open spec fn four_digit(s: Seq<char>, i: int) -> int {
    1000 * digit(s[i]) + 100 * digit(s[i + 1]) + 10 * digit(s[i + 2]) + digit(s[i + 3])
}

/// The bare form: eight digits, a 'T', six digits, naming a real date
/// and time of day.
pub open spec fn local_form(s: Seq<char>) -> Option<DateTime> {
    if s.len() == 15 && s[8] == 'T' && all_digits(s, 0, 8) && all_digits(s, 9, 15) {
        let dt = DateTime {
            year: four_digit(s, 0) as u16,
            month: two_digit(s, 4) as u8,
            day: two_digit(s, 6) as u8,
            hour: two_digit(s, 9) as u8,
            minute: two_digit(s, 11) as u8,
            second: two_digit(s, 13) as u8,
        };
        if dt.valid() {
            Some(dt)
        } else {
            None
        }
    } else {
        None
    }
}

/// The UTC-suffixed form: the bare form followed by 'Z'.
pub open spec fn utc_form(s: Seq<char>) -> Option<DateTime> {
    if s.len() == 16 && s[15] == 'Z' {
        local_form(s.subrange(0, 15))
    } else {
        None
    }
}

/// The instant that the named time zone assigns to a local civil time:
/// what the zone database used by the resolver fixes for that pair, or
/// nothing when the zone is unknown or the local time does not name a
/// single instant in it.
pub uninterp spec fn zoned_utc_of(zone: Seq<char>, local: DateTime) -> Option<DateTime>;

/// Resolves a zone name and converts a local civil time in that zone to
/// UTC.
///
/// Relies on chrono_tz's zone table (the parse of a zone name) and on
/// chrono's from_local_datetime and with_timezone: with a fixed zone
/// database the outcome is a function of the zone name and the local
/// civil time alone, None when the zone is unknown, the local time has
/// no single UTC instant in that zone, or its fields (a leap second)
/// cannot be carried through the conversion.
#[verifier::external_body]
fn zoned_to_utc(zone: &str, local: DateTime) -> (r: Option<DateTime>)
    requires
        local.valid(),
    ensures
        r == zoned_utc_of(zone@, local),
{
    let tz: Tz = match zone.parse() { Ok(t) => t, Err(_) => return None };
    let nt = NaiveDate::from_ymd_opt(local.year as i32, local.month as u32, local.day as u32)?
        .and_hms_opt(local.hour as u32, local.minute as u32, local.second as u32)?;
    let t = match tz.from_local_datetime(&nt) { LocalResult::Single(t) => t, _ => return None };
    let u = t.with_timezone(&chrono::Utc);
    let y = u.year();
    if y < 0 || y > 9999 { return None }
    Some(DateTime { year: y as u16, month: u.month() as u8, day: u.day() as u8,
        hour: u.hour() as u8, minute: u.minute() as u8, second: u.second() as u8 })
}

/// The normalized instant of a raw value and an optional zone name: the
/// UTC-suffixed form wins; then the bare form converted from the named
/// zone; then the bare form read as UTC; else nothing.
pub open spec fn spec_normalize(value: Seq<char>, tzid: Option<Seq<char>>) -> Option<DateTime> {
    if utc_form(value) is Some {
        utc_form(value)
    } else {
        match (tzid, local_form(value)) {
            (Some(z), Some(dt)) => if zoned_utc_of(z, dt) is Some {
                zoned_utc_of(z, dt)
            } else {
                Some(dt)
            },
            _ => local_form(value),
        }
    }
}

fn read_digit(s: &str, i: usize) -> (r: Option<u32>)
    requires
        i < s@.len(),
    ensures
        r == (if is_digit(s@[i as int]) {
            Some(digit(s@[i as int]) as u32)
        } else {
            None::<u32>
        }),
{
    let c = s.get_char(i);
    let v = c as u32;
    if 48 <= v && v <= 57 {
        Some(v - 48)
    } else {
        None
    }
}

fn read2(s: &str, i: usize) -> (r: Option<u32>)
    requires
        i + 1 < s@.len(),
        s@.len() <= usize::MAX,
    ensures
        r == (if all_digits(s@, i as int, i + 2) {
            Some(two_digit(s@, i as int) as u32)
        } else {
            None::<u32>
        }),
        r is Some ==> all_digits(s@, i as int, i + 2),
{
    let a = match read_digit(s, i) {
        Some(d) => d,
        None => return None,
    };
    let b = match read_digit(s, i + 1) {
        Some(d) => d,
        None => return None,
    };
    Some(10 * a + b)
}

fn read4(s: &str, i: usize) -> (r: Option<u32>)
    requires
        i + 3 < s@.len(),
        s@.len() <= usize::MAX,
    ensures
        r == (if all_digits(s@, i as int, i + 4) {
            Some(four_digit(s@, i as int) as u32)
        } else {
            None::<u32>
        }),
        r is Some ==> all_digits(s@, i as int, i + 4),
{
    let a = match read2(s, i) {
        Some(d) => d,
        None => return None,
    };
    let b = match read2(s, i + 2) {
        Some(d) => d,
        None => return None,
    };
    Some(100 * a + b)
}

/// Reads the bare form `YYYYMMDDTHHMMSS`.
pub fn parse_local_form(s: &str) -> (r: Option<DateTime>)
    ensures
        r == local_form(s@),
{
    let n = s.unicode_len();
    if n != 15 {
        return None;
    }
    if s.get_char(8) != 'T' {
        return None;
    }
    let y = match read4(s, 0) {
        Some(v) => v,
        None => return None,
    };
    let mo = match read2(s, 4) {
        Some(v) => v,
        None => return None,
    };
    let d = match read2(s, 6) {
        Some(v) => v,
        None => return None,
    };
    let h = match read2(s, 9) {
        Some(v) => v,
        None => return None,
    };
    let mi = match read2(s, 11) {
        Some(v) => v,
        None => return None,
    };
    let se = match read2(s, 13) {
        Some(v) => v,
        None => return None,
    };
    DateTime::new(y as u16, mo as u8, d as u8, h as u8, mi as u8, se as u8)
}

/// Reads the UTC-suffixed form `YYYYMMDDTHHMMSSZ`.
pub fn parse_utc_form(s: &str) -> (r: Option<DateTime>)
    ensures
        r == utc_form(s@),
{
    let n = s.unicode_len();
    if n != 16 {
        return None;
    }
    if s.get_char(15) != 'Z' {
        return None;
    }
    let head = s.substring_char(0, 15);
    parse_local_form(head)
}

/// Normalizes a raw date/time text with an optional zone name to an
/// absolute instant.
pub fn normalize_datetime(value: &str, tzid: Option<&String>) -> (r: Option<DateTime>)
    ensures
        r == spec_normalize(value@, tzid.deep_view()),
{
    if let Some(dt) = parse_utc_form(value) {
        return Some(dt);
    }
    let local = parse_local_form(value);
    match (tzid, local) {
        (Some(z), Some(dt)) => match zoned_to_utc(z.as_str(), dt) {
            Some(u) => Some(u),
            None => Some(dt),
        },
        _ => local,
    }
}

/// The first `TZID` parameter that carries a value, read front to back.
pub open spec fn tzid_of_params(params: Seq<(Seq<char>, Seq<Seq<char>>)>) -> Option<Seq<char>>
    decreases params.len(),
{
    if params.len() == 0 {
        None
    } else if params[0].0 == "TZID"@ && params[0].1.len() > 0 {
        Some(params[0].1[0])
    } else {
        tzid_of_params(params.drop_first())
    }
}

/// The zone name attached to a property, if any.
pub open spec fn tzid_of(p: PropV) -> Option<Seq<char>> {
    match p.params {
        Some(ps) => tzid_of_params(ps),
        None => None,
    }
}

fn find_tzid<'a>(params: &'a Vec<(String, Vec<String>)>) -> (r: Option<&'a String>)
    ensures
        r.deep_view() == tzid_of_params(params.deep_view()),
{
    let ghost full = params.deep_view();
    let mut i: usize = 0;
    proof {
        assert(full.skip(0) =~= full);
    }
    while i < params.len()
        invariant
            i <= params.len(),
            full == params.deep_view(),
            tzid_of_params(full) == tzid_of_params(full.skip(i as int)),
        decreases params.len() - i,
    {
        proof {
            assert(full.skip(i as int)[0] == full[i as int]);
        }
        if crate::props::str_eq(params[i].0.as_str(), "TZID") && params[i].1.len() > 0 {
            return Some(&params[i].1[0]);
        }
        proof {
            assert(full.skip(i as int).drop_first() =~= full.skip(i + 1));
        }
        i = i + 1;
    }
    None
}

/// The absolute instant named by a date-valued property: its value
/// normalized under its zone name, when it has a value at all.
pub open spec fn prop_date(p: PropV) -> Option<DateTime> {
    match p.value {
        Some(v) => spec_normalize(v, tzid_of(p)),
        None => None,
    }
}

/// Reads a date-valued property as an absolute instant.
pub fn parse_date_time_from_property(prop: &Prop) -> (r: Option<DateTime>)
    ensures
        r == prop_date(prop@),
{
    let tzid = match &prop.params {
        Some(ps) => find_tzid(ps),
        None => None,
    };
    match &prop.value {
        Some(v) => normalize_datetime(v.as_str(), tzid),
        None => None,
    }
}

} // verus!
