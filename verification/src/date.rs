//! Calendar days and the retention rules that decide which backups expire.
//!
//! A calendar day is represented by its day number counted from the common
//! era, the numbering in which 0001-01-01 is day 1 (`num_days_from_ce`).
use chrono::Datelike;
use crate::text::{last_index_of, rfind_char};
use vstd::prelude::*;
use vstd::string::*;

verus! {

/// The earliest day number a calendar date can take (year -262143, January 1st).
pub open spec fn min_day() -> int {
    -95746129
}

/// The latest day number a calendar date can take (year 262142, December 31st).
pub open spec fn max_day() -> int {
    95745399
}

/// A day number that denotes a representable calendar date.
pub open spec fn is_valid_day(d: int) -> bool {
    min_day() <= d <= max_day()
}

/// The number of days kept when no retention is configured.
pub open spec fn spec_retention_days_or_default(retention_days: Option<u32>) -> nat {
    match retention_days {
        Some(n) => n as nat,
        None => 2,
    }
}

/// The first day that is still kept: everything strictly before it expires.
pub open spec fn retention_cutoff(today: int, retention_days: Option<u32>) -> int {
    today - (spec_retention_days_or_default(retention_days) - 1)
}

/// A backup made on `item_day` has expired on `today`.
pub open spec fn spec_is_expired(item_day: int, today: int, retention_days: Option<u32>) -> bool {
    item_day < retention_cutoff(today, retention_days)
}

/// The cutoff of `today` under `retention_days` is a representable date.
pub open spec fn cutoff_in_range(today: int, retention_days: Option<u32>) -> bool {
    is_valid_day(retention_cutoff(today, retention_days))
}

/// The retention in days, two when none is configured.
pub fn retention_days_or_default(retention_days: Option<u32>) -> (r: u32)
    ensures
        r == spec_retention_days_or_default(retention_days),
{
    match retention_days {
        Some(n) => n,
        None => 2,
    }
}

/// The day from which backups are kept, or `None` when that day lies outside
/// the representable calendar.
pub fn retention_cutoff_day(today: i32, retention_days: Option<u32>) -> (r: Option<i32>)
    requires
        is_valid_day(today as int),
    ensures
        r matches Some(c) ==> c == retention_cutoff(today as int, retention_days),
        r is Some <==> cutoff_in_range(today as int, retention_days),
{
    let days = retention_days_or_default(retention_days) as i64;
    let cutoff = today as i64 - (days - 1);
    if -95746129 <= cutoff && cutoff <= 95745399 {
        Some(cutoff as i32)
    } else {
        None
    }
}

/// Whether a backup made on `item_date` has expired on `today`: the latest
/// `retention_days` days (two by default), today included, are kept and
/// everything older expires.
pub fn is_expired_by_retention_days(item_date: i32, today: i32, retention_days: Option<u32>) -> (r:
    bool)
    requires
        is_valid_day(item_date as int),
        is_valid_day(today as int),
        cutoff_in_range(today as int, retention_days),
    ensures
        r == spec_is_expired(item_date as int, today as int, retention_days),
{
    let days = retention_days_or_default(retention_days) as i64;
    let cutoff = today as i64 - (days - 1);
    (item_date as i64) < cutoff
}


/// The day number of the calendar day in which a UTC instant `secs` seconds
/// after 1970-01-01T00:00:00Z falls (1970-01-01 is day 719163).
pub open spec fn spec_day_of_secs(secs: int) -> int {
    secs / 86400 + 719163
}

/// Seconds and sub-second nanoseconds that denote a representable UTC instant:
/// its day is a representable date, and the nanoseconds stay below one second
/// except during a leap second (the last second of a minute).
pub open spec fn is_valid_timestamp(secs: int, nanos: int) -> bool {
    &&& is_valid_day(spec_day_of_secs(secs))
    &&& (nanos < 1_000_000_000 || (nanos < 2_000_000_000 && secs % 60 == 59))
}

/// An instant in UTC, held as seconds since the Unix epoch and nanoseconds.
#[derive(Clone, Copy, Debug, PartialEq, Eq, Structural)]
pub struct UtcTime {
    secs: i64,
    nanos: u32,
}

impl UtcTime {
    #[verifier::type_invariant]
    spec fn well_formed(self) -> bool {
        is_valid_timestamp(self.secs as int, self.nanos as int)
    }

    /// Seconds since 1970-01-01T00:00:00Z.
    pub closed spec fn spec_secs(self) -> int {
        self.secs as int
    }

    /// Nanoseconds past `spec_secs`.
    pub closed spec fn spec_nanos(self) -> int {
        self.nanos as int
    }

    /// The calendar day of this instant.
    pub open spec fn spec_day(self) -> int {
        spec_day_of_secs(self.spec_secs())
    }

    /// The instant `secs` seconds and `nanos` nanoseconds after the Unix
    /// epoch, or `None` when no such UTC instant is representable.
    pub fn from_timestamp(secs: i64, nanos: u32) -> (r: Option<UtcTime>)
        ensures
            r is Some <==> is_valid_timestamp(secs as int, nanos as int),
            r matches Some(t) ==> t.spec_secs() == secs && t.spec_nanos() == nanos,
    {
        // The first and last second of the representable days.
        let lo: i64 = -8334601228800;
        let hi: i64 = 8210266876799;
        proof {
            assert(spec_day_of_secs(lo as int) == min_day());
            assert(spec_day_of_secs(hi as int) == max_day());
            assert(spec_day_of_secs(lo as int - 1) == min_day() - 1);
            assert(spec_day_of_secs(hi as int + 1) == max_day() + 1);
        }
        if secs < lo || secs > hi {
            proof {
                if secs < lo {
                    lemma_day_monotonic(secs as int, lo as int - 1);
                } else {
                    lemma_day_monotonic(hi as int + 1, secs as int);
                }
            }
            return None;
        }
        proof {
            lemma_day_monotonic(lo as int, secs as int);
            lemma_day_monotonic(secs as int, hi as int);
        }
        let offset: u64 = (secs - lo) as u64;
        proof {
            lemma_mod_shift(secs as int, lo as int);
        }
        let leap_second = offset % 60 == 59;
        if nanos < 1_000_000_000 || (nanos < 2_000_000_000 && leap_second) {
            Some(UtcTime { secs, nanos })
        } else {
            None
        }
    }

    /// Seconds since the Unix epoch.
    pub fn timestamp(&self) -> (r: i64)
        ensures
            r == self.spec_secs(),
    {
        self.secs
    }

    /// Nanoseconds past the second.
    pub fn timestamp_subsec_nanos(&self) -> (r: u32)
        ensures
            r == self.spec_nanos(),
    {
        self.nanos
    }

    /// The instant written as `%Y%m%d_%H%M%S`, the stamp in backup file
    /// names.
    /// For a day of the years 1 to 9999, the stamp writes the day so that a
    /// backup file name carrying it reads back as that day.
    pub fn format_backup_stamp(&self) -> (r: String)
        ensures
            r@ == spec_backup_stamp(self.spec_secs(), self.spec_nanos()),
            is_four_digit_year_day(self.spec_day()) ==> stamp_writes_day(r@, self.spec_day()),
            is_four_digit_year_day(self.spec_day()) ==> forall|database: Seq<char>|
                #[trigger] spec_parse_backup_date(archive_name(database, r@)) == Some(
                    self.spec_day() as i32,
                ),
    {
        proof {
            use_type_invariant(self);
        }
        let r = utc_backup_stamp(self.secs, self.nanos);
        proof {
            if is_four_digit_year_day(self.spec_day()) {
                assert forall|database: Seq<char>|
                    #[trigger] spec_parse_backup_date(archive_name(database, r@)) == Some(
                        self.spec_day() as i32,
                    ) by {
                    crate::laws::law_stamped_backup_name_yields_its_day(
                        database,
                        r@,
                        self.spec_day(),
                    );
                }
            }
        }
        r
    }

    /// The calendar day in UTC, as a day number from the common era.
    pub fn date_naive(&self) -> (r: i32)
        ensures
            r == self.spec_day(),
            is_valid_day(r as int),
    {
        proof {
            use_type_invariant(self);
        }
        utc_day_number(self.secs, self.nanos)
    }
}

/// Two instants are the same exactly when their seconds and nanoseconds are.
pub proof fn lemma_time_eq(a: UtcTime, b: UtcTime)
    ensures
        (a == b) <==> (a.spec_secs() == b.spec_secs() && a.spec_nanos() == b.spec_nanos()),
{
}

/// A later instant does not fall on an earlier day.
pub proof fn lemma_day_monotonic(a: int, b: int)
    requires
        a <= b,
    ensures
        spec_day_of_secs(a) <= spec_day_of_secs(b),
{
    assert(a / 86400 <= b / 86400) by (nonlinear_arith)
        requires
            a <= b,
    ;
}

/// Shifting by a multiple of a day keeps the second within the minute.
proof fn lemma_mod_shift(secs: int, lo: int)
    requires
        lo == -8334601228800,
    ensures
        (secs - lo) % 60 == secs % 60,
{
    assert((secs + 138910020480 * 60) % 60 == secs % 60) by (nonlinear_arith);
}

/// `chrono::DateTime::<Utc>::from_timestamp` followed by `date_naive` and
/// `num_days_from_ce`: the calendar day, counted from the common era, of the
/// instant `secs` seconds after the Unix epoch. Claimed: `from_timestamp`
/// succeeds on every valid timestamp and the day is the floor of `secs`
/// divided by 86400, plus the day number of 1970-01-01.
#[verifier::external_body]
fn utc_day_number(secs: i64, nanos: u32) -> (r: i32)
    requires
        is_valid_timestamp(secs as int, nanos as int),
    ensures
        r == spec_day_of_secs(secs as int),
{
    chrono::DateTime::from_timestamp(secs, nanos).unwrap().date_naive().num_days_from_ce()
}


/// `DateTime::<Utc>::format("%Y%m%d_%H%M%S")` of the instant `secs` seconds
/// and `nanos` nanoseconds after the Unix epoch.
pub uninterp spec fn spec_backup_stamp(secs: int, nanos: int) -> Seq<char>;

/// The day numbers of the years 1 to 9999, whose dates `%Y%m%d` writes as
/// eight digits without a sign.
pub open spec fn is_four_digit_year_day(d: int) -> bool {
    1 <= d <= 3652059
}

/// `c` is one of the digits `0` to `9`.
pub open spec fn is_digit(c: char) -> bool {
    '0' <= c <= '9'
}

/// The name of the archive of a backup of `database` stamped `stamp`:
/// `{database}_{stamp}.7z`.
pub open spec fn archive_name(database: Seq<char>, stamp: Seq<char>) -> Seq<char> {
    database + seq!['_'] + stamp + seq!['.', '7', 'z']
}

/// The stamp `s` writes the day `d`: eight digits of the date, a `_`, six
/// digits of the time, and the date part reads back as `d`.
pub open spec fn stamp_writes_day(s: Seq<char>, d: int) -> bool {
    &&& s.len() == 15
    &&& s[8] == '_'
    &&& forall|i: int| 0 <= i < 15 && i != 8 ==> is_digit(#[trigger] s[i])
    &&& spec_parse_compact_date(s.subrange(0, 8)) == Some(d as i32)
}

/// `chrono::DateTime::<Utc>::from_timestamp` followed by
/// `format("%Y%m%d_%H%M%S").to_string()`. Claimed: `from_timestamp` succeeds
/// on every valid timestamp and the text is a function of the instant alone.
/// For a day of the years 1 to 9999 it is also claimed that `%Y`, `%m`,
/// `%d`, `%H`, `%M` and `%S` write four, two, two, two, two and two digits,
/// and that `NaiveDate::parse_from_str(_, "%Y%m%d")` reads the date part
/// back as the same day; which digits they are is left to the name.
#[verifier::external_body]
fn utc_backup_stamp(secs: i64, nanos: u32) -> (r: String)
    requires
        is_valid_timestamp(secs as int, nanos as int),
    ensures
        r@ == spec_backup_stamp(secs as int, nanos as int),
        is_four_digit_year_day(spec_day_of_secs(secs as int)) ==> stamp_writes_day(
            r@,
            spec_day_of_secs(secs as int),
        ),
{
    chrono::DateTime::from_timestamp(secs, nanos).unwrap().format("%Y%m%d_%H%M%S").to_string()
}

/// `NaiveDate::parse_from_str(s, "%Y%m%d")`: the day number of the date
/// written in `s` as year, month and day, or `None` when `s` is not such a
/// date.
pub uninterp spec fn spec_parse_compact_date(s: Seq<char>) -> Option<i32>;

/// `chrono::NaiveDate::parse_from_str(s, "%Y%m%d")` followed by
/// `num_days_from_ce`. Claimed: the result is a function of `s` alone, and a
/// parsed date is a representable one. How the format is matched is left to
/// the name and not stated here.
#[verifier::external_body]
fn parse_compact_date(s: &str) -> (r: Option<i32>)
    ensures
        r == spec_parse_compact_date(s@),
        r matches Some(d) ==> is_valid_day(d as int),
{
    chrono::NaiveDate::parse_from_str(s, "%Y%m%d").ok().map(|d| d.num_days_from_ce())
}

/// The name without its `.7z` extension, when it has one.
pub open spec fn strip_7z_suffix(name: Seq<char>) -> Option<Seq<char>> {
    if name.len() >= 3 && name.subrange(name.len() - 3, name.len() as int) == seq!['.', '7', 'z'] {
        Some(name.subrange(0, name.len() - 3))
    } else {
        None
    }
}

/// The date field of a backup file name `{database}_{YYYYMMDD}_{HHMMSS}.7z`:
/// after removing `.7z`, the text between the last `_` and the `_` before it
/// (or the start of the name when there is only one `_`).
pub open spec fn backup_date_field(filename: Seq<char>) -> Option<Seq<char>> {
    match strip_7z_suffix(filename) {
        None => None,
        Some(stem) => {
            let i = last_index_of(stem, '_');
            if i < 0 {
                None
            } else {
                let rest = stem.subrange(0, i);
                let j = last_index_of(rest, '_');
                Some(rest.subrange(j + 1, rest.len() as int))
            }
        },
    }
}

/// The day a backup file name was stamped with.
pub open spec fn spec_parse_backup_date(filename: Seq<char>) -> Option<i32> {
    match backup_date_field(filename) {
        Some(field) => spec_parse_compact_date(field),
        None => None,
    }
}

/// The date field of a backup file name, as `backup_date_field` describes
/// it.
pub fn backup_date_text(filename: &str) -> (r: Option<&str>)
    ensures
        match r {
            Some(field) => backup_date_field(filename@) == Some(field@),
            None => backup_date_field(filename@) is None,
        },
{
    let n = filename.unicode_len();
    if n < 3 || filename.get_char(n - 3) != '.' || filename.get_char(n - 2) != '7'
        || filename.get_char(n - 1) != 'z' {
        proof {
            if n >= 3 {
                let tail = filename@.subrange(n - 3, n as int);
                if tail == seq!['.', '7', 'z'] {
                    assert(tail[0] == filename@[n - 3]);
                    assert(tail[1] == filename@[n - 2]);
                    assert(tail[2] == filename@[n - 1]);
                }
            }
        }
        return None;
    }
    proof {
        assert(filename@.subrange(n - 3, n as int) =~= seq!['.', '7', 'z']);
    }
    let stem = filename.substring_char(0, n - 3);
    match rfind_char(stem, '_') {
        None => None,
        Some(i) => {
            let rest = stem.substring_char(0, i);
            let start = match rfind_char(rest, '_') {
                Some(j) => j + 1,
                None => 0,
            };
            Some(rest.substring_char(start, i))
        },
    }
}

/// The day encoded in a backup file name such as `mydb_20260608_143025.7z`.
pub fn parse_backup_date(filename: &str) -> (r: Option<i32>)
    ensures
        r == spec_parse_backup_date(filename@),
        r matches Some(d) ==> is_valid_day(d as int),
{
    match backup_date_text(filename) {
        Some(field) => parse_compact_date(field),
        None => None,
    }
}

/// Whether `date` falls before yesterday, `today` being the current day.
/// Nothing falls before the day preceding the earliest representable date.
pub fn is_yesterday_before(date: UtcTime, today: i32) -> (r: bool)
    requires
        is_valid_day(today as int),
    ensures
        r == (today > min_day() && date.spec_day() < today - 1),
{
    if today > -95746129 {
        let yesterday = today - 1;
        date.date_naive() < yesterday
    } else {
        false
    }
}

} // verus!
