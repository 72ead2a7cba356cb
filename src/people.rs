//! Per-user tables: the time zone of a user, and whose birthday is today.
//! A table is a list of rows of text cells, as read from its file.

use chrono::Datelike;
use vstd::prelude::*;

use crate::summary::opt_chars;
use crate::text::{owned, push_str};

verus! {

pub open spec fn rows_view(rows: Vec<Vec<String>>) -> Seq<Seq<Seq<char>>> {
    rows@.map_values(|r: Vec<String>| r@.map_values(|c: String| c@))
}

/// The zone listed for `user`: the second cell of the first row whose first
/// cell is `user`.
pub open spec fn zone_lookup(rows: Seq<Seq<Seq<char>>>, user: Seq<char>, from: int) -> Option<
    Seq<char>,
>
    decreases rows.len() - from,
{
    if from < 0 || from >= rows.len() {
        None
    } else if rows[from].len() > 0 && rows[from][0] == user {
        if rows[from].len() > 1 {
            Some(rows[from][1])
        } else {
            None
        }
    } else {
        zone_lookup(rows, user, from + 1)
    }
}

/// Finds the zone listed for `user`.
pub fn zone_of_user(rows: &Vec<Vec<String>>, user: &str) -> (r: Option<String>)
    ensures
        opt_chars(r) == zone_lookup(rows_view(*rows), user@, 0),
{
    let ghost v = rows_view(*rows);
    let wanted = owned(user);
    let mut i: usize = 0;
    while i < rows.len()
        invariant
            i <= rows@.len() == v.len(),
            v == rows_view(*rows),
            wanted@ == user@,
            zone_lookup(v, user@, i as int) == zone_lookup(v, user@, 0),
        decreases rows.len() - i,
    {
        let row = &rows[i];
        assert(v[i as int] == row@.map_values(|c: String| c@));
        if row.len() > 0 && row[0] == wanted {
            assert(v[i as int][0] == row@[0]@);
            if row.len() > 1 {
                assert(v[i as int][1] == row@[1]@);
                return Some(row[1].clone());
            } else {
                return None;
            }
        }
        proof {
            if row@.len() > 0 {
                assert(v[i as int][0] == row@[0]@);
            }
        }
        i = i + 1;
    }
    None
}

/// Why a user's local time could not be given.
#[derive(Clone, Debug, PartialEq, Eq)]
pub enum TimeError {
    /// The user has no row, or the row names no zone.
    NotListed,
    /// The row names a zone that the zone database does not know.
    UnknownZone(String),
    /// The instant cannot be shown in that zone.
    OutOfRange,
}

impl TimeError {
    pub open spec fn text_spec(&self) -> Seq<char> {
        match self {
            TimeError::NotListed => "Timezone not found"@,
            TimeError::UnknownZone(z) => "Invalid timezone: "@ + z@,
            TimeError::OutOfRange => "Time out of range"@,
        }
    }

    /// The message shown for this error.
    pub fn text(&self) -> (r: String)
        ensures
            r@ == self.text_spec(),
    {
        match self {
            TimeError::NotListed => owned("Timezone not found"),
            TimeError::UnknownZone(z) => {
                let mut r = owned("Invalid timezone: ");
                push_str(&mut r, z.as_str());
                r
            },
            TimeError::OutOfRange => owned("Time out of range"),
        }
    }
}

/// Whether the zone database knows a zone of this name.
pub uninterp spec fn zone_known(name: Seq<char>) -> bool;

/// The instant `unix_secs` in zone `zone`, written after `pattern`; `None`
/// where the zone, the instant or the pattern is not accepted.
pub uninterp spec fn zone_time_text(zone: Seq<char>, unix_secs: i64, pattern: Seq<char>) -> Option<
    Seq<char>,
>;

/// Relies on chrono_tz's FromStr for Tz, a lookup in its zone table.
#[verifier::external_body]
fn is_known_zone(name: &str) -> (r: bool)
    ensures
        r == zone_known(name@),
{
    name.parse::<chrono_tz::Tz>().is_ok()
}

/// Relies on chrono's DateTime::from_timestamp, with_timezone with a
/// chrono_tz zone, and StrftimeItems::parse with format_with_items and
/// DelayedFormat::write_to to write it (an item that cannot be written gives
/// `None`).
#[verifier::external_body]
fn format_zone_time(zone: &str, unix_secs: i64, pattern: &str) -> (r: Option<String>)
    ensures
        opt_chars(r) == zone_time_text(zone@, unix_secs, pattern@),
{
    let tz: chrono_tz::Tz = zone.parse().ok()?;
    let at = chrono::DateTime::from_timestamp(unix_secs, 0)?;
    let items = chrono::format::StrftimeItems::new(pattern).parse().ok()?;
    let mut out = String::new();
    at.with_timezone(&tz).format_with_items(items.iter()).write_to(&mut out).ok()?;
    Some(out)
}

/// A user's local time at `unix_secs` as hours, minutes, day and month, or
/// why it cannot be given.
pub open spec fn local_time_spec(rows: Seq<Seq<Seq<char>>>, user: Seq<char>, unix_secs: i64) -> Result<
    Seq<char>,
    Option<Seq<char>>,
> {
    match zone_lookup(rows, user, 0) {
        None => Err(None),
        Some(z) => if !zone_known(z) {
            Err(Some(z))
        } else {
            match zone_time_text(z, unix_secs, "%H:%M %d/%m"@) {
                Some(t) => Ok(t),
                None => Err(None),
            }
        },
    }
}

/// The local time of `user` at `unix_secs`, by the zone their row names.
pub fn user_local_time(rows: &Vec<Vec<String>>, user: &str, unix_secs: i64) -> (r: Result<
    String,
    TimeError,
>)
    ensures
        match r {
            Ok(t) => local_time_spec(rows_view(*rows), user@, unix_secs) == Ok::<
                Seq<char>,
                Option<Seq<char>>,
            >(t@),
            Err(TimeError::UnknownZone(z)) => local_time_spec(rows_view(*rows), user@, unix_secs)
                == Err::<Seq<char>, Option<Seq<char>>>(Some(z@)),
            Err(TimeError::NotListed) => zone_lookup(rows_view(*rows), user@, 0) is None,
            Err(TimeError::OutOfRange) => zone_lookup(rows_view(*rows), user@, 0) matches Some(z)
                && zone_known(z) && zone_time_text(z, unix_secs, "%H:%M %d/%m"@) is None,
        },
{
    let zone = match zone_of_user(rows, user) {
        Some(z) => z,
        None => {
            return Err(TimeError::NotListed);
        },
    };
    if !is_known_zone(zone.as_str()) {
        return Err(TimeError::UnknownZone(zone));
    }
    match format_zone_time(zone.as_str(), unix_secs, "%H:%M %d/%m") {
        Some(t) => Ok(t),
        None => Err(TimeError::OutOfRange),
    }
}

/// The calendar date (year, month, day) that `text` denotes when read after
/// `pattern`, if it denotes one.
pub uninterp spec fn parsed_date(text: Seq<char>, pattern: Seq<char>) -> Option<(i32, u32, u32)>;

/// Relies on chrono's NaiveDate::parse_from_str, with Datelike's year,
/// month and day to read the result.
#[verifier::external_body]
fn parse_date(text: &str, pattern: &str) -> (r: Option<(i32, u32, u32)>)
    ensures
        r == parsed_date(text@, pattern@),
{
    let d = chrono::NaiveDate::parse_from_str(text, pattern).ok()?;
    Some((d.year(), d.month(), d.day()))
}

/// A birthday row as read: the name, and the date when the row has one that
/// parses.
pub type BirthdayEntry = (String, Option<(i32, u32, u32)>);

pub open spec fn entries_view(entries: Vec<BirthdayEntry>) -> Seq<(Seq<char>, Option<(i32, u32, u32)>)> {
    entries@.map_values(|e: BirthdayEntry| (e.0@, e.1))
}

/// The entry a row gives: its name and the date its second cell denotes
/// (written year-month-day);
/// a row of fewer than two cells gives no date.
pub open spec fn row_entry(row: Seq<Seq<char>>) -> (Seq<char>, Option<(i32, u32, u32)>) {
    if row.len() >= 2 {
        (row[0], parsed_date(row[1], "%Y-%m-%d"@))
    } else {
        (Seq::empty(), None)
    }
}

/// Reads every row of a birthday table.
pub fn birthday_entries(rows: &Vec<Vec<String>>) -> (r: Vec<BirthdayEntry>)
    ensures
        entries_view(r) == rows_view(*rows).map_values(|row: Seq<Seq<char>>| row_entry(row)),
{
    let ghost v = rows_view(*rows);
    let mut out: Vec<BirthdayEntry> = Vec::new();
    let mut i: usize = 0;
    while i < rows.len()
        invariant
            i <= rows@.len() == v.len(),
            v == rows_view(*rows),
            entries_view(out) == v.subrange(0, i as int).map_values(
                |row: Seq<Seq<char>>| row_entry(row),
            ),
        decreases rows.len() - i,
    {
        let row = &rows[i];
        assert(v[i as int] == row@.map_values(|c: String| c@));
        let e: BirthdayEntry = if row.len() >= 2 {
            assert(v[i as int][0] == row@[0]@);
            assert(v[i as int][1] == row@[1]@);
            (row[0].clone(), parse_date(row[1].as_str(), "%Y-%m-%d"))
        } else {
            (String::new(), None)
        };
        assert((e.0@, e.1) == row_entry(v[i as int]));
        let ghost prev = entries_view(out);
        let ghost ev = (e.0@, e.1);
        out.push(e);
        assert(entries_view(out) =~= prev.push(ev));
        i = i + 1;
        assert(entries_view(out) =~= v.subrange(0, i as int).map_values(
            |row: Seq<Seq<char>>| row_entry(row),
        ));
    }
    assert(v.subrange(0, v.len() as int) =~= v);
    out
}

/// Entry `i` is outdone by a later entry of the same name with a date: the
/// later one counts, as a later row of a table replaces an earlier one.
pub open spec fn superseded(entries: Seq<(Seq<char>, Option<(i32, u32, u32)>)>, i: int) -> bool {
    exists|j: int| i < j < entries.len() && (#[trigger] entries[j]).1 is Some && entries[j].0 == entries[i].0
}

/// Whether entry `i` is a birthday on `month`/`day`.
pub open spec fn celebrates(entries: Seq<(Seq<char>, Option<(i32, u32, u32)>)>, i: int, month: u32, day: u32) -> bool {
    &&& entries[i].1 matches Some(d)
    &&& d.1 == month && d.2 == day
    &&& !superseded(entries, i)
}

/// The names whose birthday is on `month`/`day`, in row order, from entry
/// `from` on.
pub open spec fn celebrants_from(
    entries: Seq<(Seq<char>, Option<(i32, u32, u32)>)>,
    month: u32,
    day: u32,
    from: int,
) -> Seq<Seq<char>>
    decreases entries.len() - from,
{
    if from < 0 || from >= entries.len() {
        Seq::empty()
    } else {
        (if celebrates(entries, from, month, day) {
            seq![entries[from].0]
        } else {
            Seq::empty()
        }) + celebrants_from(entries, month, day, from + 1)
    }
}

fn is_superseded(entries: &Vec<BirthdayEntry>, i: usize) -> (r: bool)
    requires
        i < entries@.len(),
    ensures
        r == superseded(entries_view(*entries), i as int),
{
    let ghost v = entries_view(*entries);
    let n = entries.len();
    let mut j: usize = i + 1;
    while j < n
        invariant
            i < j <= n == entries@.len() == v.len(),
            v == entries_view(*entries),
            forall|k: int| i < k < j ==> !((#[trigger] v[k]).1 is Some && v[k].0 == v[i as int].0),
        decreases n - j,
    {
        assert(v[j as int] == (entries@[j as int].0@, entries@[j as int].1));
        assert(v[i as int] == (entries@[i as int].0@, entries@[i as int].1));
        if entries[j].1.is_some() && entries[j].0 == entries[i].0 {
            return true;
        }
        j = j + 1;
    }
    false
}

/// The names whose birthday is on `month`/`day`: each entry with a date on
/// that day that no later entry of the same name outdoes, in row order.
pub fn birthdays_on(entries: &Vec<BirthdayEntry>, month: u32, day: u32) -> (r: Vec<String>)
    ensures
        r@.map_values(|s: String| s@) == celebrants_from(entries_view(*entries), month, day, 0),
{
    let ghost v = entries_view(*entries);
    let mut out: Vec<String> = Vec::new();
    let mut i: usize = 0;
    while i < entries.len()
        invariant
            i <= entries@.len() == v.len(),
            v == entries_view(*entries),
            out@.map_values(|s: String| s@) + celebrants_from(v, month, day, i as int)
                == celebrants_from(v, month, day, 0),
        decreases entries.len() - i,
    {
        assert(v[i as int] == (entries@[i as int].0@, entries@[i as int].1));
        let ghost before = out@.map_values(|s: String| s@);
        let hit = match entries[i].1 {
            Some(d) => d.1 == month && d.2 == day && !is_superseded(entries, i),
            None => false,
        };
        if hit {
            out.push(entries[i].0.clone());
        }
        assert(out@.map_values(|s: String| s@) + celebrants_from(v, month, day, i + 1) =~= before
            + celebrants_from(v, month, day, i as int));
        i = i + 1;
    }
    assert(out@.map_values(|s: String| s@) + Seq::<Seq<char>>::empty() =~= out@.map_values(|s: String| s@));
    out
}

pub open spec fn greeting(name: Seq<char>) -> Seq<char> {
    "🎉 Happy Birthday, "@ + name + "! 🎂"@
}

/// The birthday message for `name`.
pub fn birthday_greeting(name: &str) -> (r: String)
    ensures
        r@ == greeting(name@),
{
    let mut r = owned("🎉 Happy Birthday, ");
    push_str(&mut r, name);
    push_str(&mut r, "! 🎂");
    r
}

} // verus!
