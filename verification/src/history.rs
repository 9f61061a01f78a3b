//! The record of applied wallpapers: which were set, newest last, and how to
//! get back to an earlier one.

use vstd::prelude::*;
use vstd::string::*;

use crate::text::{decimal, digit_char, push_padded, string_from_chars, zero_pad};

verus! {

/// A moment in local time, broken into the fields that are shown, with the
/// offset from UTC it was taken in.
#[derive(Clone, Copy, Debug, PartialEq, Eq)]
pub struct Timestamp {
    pub year: i32,
    pub month: u32,
    pub day: u32,
    pub hour: u32,
    pub minute: u32,
    pub second: u32,
    pub nanosecond: u32,
    pub offset_seconds: i32,
}

/// One applied wallpaper.
#[derive(Clone, Debug, PartialEq, Eq)]
pub struct HistoryEntry {
    pub timestamp: Timestamp,
    pub source: String,
    pub image_url: String,
    pub local_path: Option<String>,
}

/// The applied wallpapers, oldest first.
#[derive(Debug)]
pub struct History {
    pub entries: Vec<HistoryEntry>,
}

/// One line of the history listing: its number (1 for the newest), the
/// time, the service and the image URL.
#[derive(Clone, Debug, PartialEq, Eq)]
pub struct ListingLine {
    pub number: usize,
    pub time: String,
    pub source: String,
    pub image_url: String,
}

/// How many wallpapers the history keeps.
pub const MAX_ENTRIES: usize = 50;

// ---------------------------------------------------------------------------
// Time display
// ---------------------------------------------------------------------------

/// The year as shown: four digits, zero-padded, for years `0..=9999`;
/// otherwise a sign followed by at least four digits.
pub open spec fn year_text(year: i32) -> Seq<char> {
    if 0 <= year < 10000 {
        zero_pad(decimal(year as nat), 4)
    } else if year < 0 {
        seq!['-'] + zero_pad(decimal((-year) as nat), 4)
    } else {
        seq!['+'] + zero_pad(decimal(year as nat), 4)
    }
}

/// A field shown with at least two digits.
pub open spec fn two_digits(n: u32) -> Seq<char> {
    zero_pad(decimal(n as nat), 2)
}

/// The seconds as shown: a leap second, kept as second 59 with a
/// nanosecond count of a second or more, shows as 60.
pub open spec fn shown_second(t: Timestamp) -> nat {
    (t.second + t.nanosecond / 1_000_000_000) as nat
}

/// The moment as shown in the listing: `YYYY-MM-DD hh:mm:ss`.
pub open spec fn time_text(t: Timestamp) -> Seq<char> {
    year_text(t.year) + seq!['-'] + two_digits(t.month) + seq!['-'] + two_digits(t.day)
        + seq![' '] + two_digits(t.hour) + seq![':'] + two_digits(t.minute) + seq![':']
        + zero_pad(decimal(shown_second(t)), 2)
}

impl Timestamp {
    /// The moment as shown in the listing: `YYYY-MM-DD hh:mm:ss`.
    pub fn display(&self) -> (r: String)
        ensures
            r@ == time_text(*self),
    {
        let mut out: Vec<char> = Vec::new();
        if self.year >= 0 && self.year < 10000 {
            push_padded(&mut out, self.year as u64, 4);
        } else if self.year < 0 {
            out.push('-');
            let magnitude: i64 = -(self.year as i64);
            push_padded(&mut out, magnitude as u64, 4);
        } else {
            out.push('+');
            push_padded(&mut out, self.year as u64, 4);
        }
        assert(out@ =~= year_text(self.year));
        out.push('-');
        push_padded(&mut out, self.month as u64, 2);
        out.push('-');
        push_padded(&mut out, self.day as u64, 2);
        out.push(' ');
        push_padded(&mut out, self.hour as u64, 2);
        out.push(':');
        push_padded(&mut out, self.minute as u64, 2);
        out.push(':');
        let shown: u64 = self.second as u64 + (self.nanosecond / 1_000_000_000) as u64;
        push_padded(&mut out, shown, 2);
        assert(out@ =~= time_text(*self));
        string_from_chars(out.as_slice())
    }
}

// ---------------------------------------------------------------------------
// The history
// ---------------------------------------------------------------------------

/// The most recent `MAX_ENTRIES` of `entries`, in their order.
pub open spec fn keep_recent(entries: Seq<HistoryEntry>) -> Seq<HistoryEntry> {
    if entries.len() > MAX_ENTRIES {
        entries.skip(entries.len() - MAX_ENTRIES)
    } else {
        entries
    }
}

/// The history after recording `entry`: it goes last, and only the most
/// recent `MAX_ENTRIES` are kept.
pub open spec fn recorded(entries: Seq<HistoryEntry>, entry: HistoryEntry) -> Seq<HistoryEntry> {
    keep_recent(entries.push(entry))
}

/// The entry `steps` back from the newest: `steps == 1` is the one before the
/// newest. Nothing for `steps == 0` or when the history is not that long.
pub open spec fn entry_back(entries: Seq<HistoryEntry>, steps: int) -> Option<HistoryEntry> {
    if steps == 0 || steps >= entries.len() {
        None
    } else {
        Some(entries[entries.len() - 1 - steps])
    }
}

/// The entry shown under `number` in the listing (1 is the newest).
pub open spec fn listed_entry(entries: Seq<HistoryEntry>, number: int) -> HistoryEntry {
    entries[entries.len() - number]
}

/// `line` shows `entry` under `number`.
pub open spec fn shows(line: ListingLine, number: int, entry: HistoryEntry) -> bool {
    &&& line.number == number
    &&& line.time@ == time_text(entry.timestamp)
    &&& line.source@ == entry.source@
    &&& line.image_url@ == entry.image_url@
}

/// The saved file applied again on revert: the recorded one unless it no
/// longer exists.
pub open spec fn path_to_apply(local_path: Option<String>, exists: bool) -> Option<String> {
    if local_path is Some && !exists {
        None
    } else {
        local_path
    }
}

impl HistoryEntry {
    /// A copy of the entry.
    pub fn duplicate(&self) -> (r: HistoryEntry)
        ensures
            r == *self,
    {
        let local_path = match &self.local_path {
            Some(p) => Some(p.clone()),
            None => None,
        };
        HistoryEntry {
            timestamp: self.timestamp,
            source: self.source.clone(),
            image_url: self.image_url.clone(),
            local_path,
        }
    }

    /// The saved file to apply again when reverting to this entry: the
    /// recorded one, unless it was recorded but no longer exists, in which
    /// case the image is applied from its URL.
    pub fn revert_path(&self, local_path_exists: bool) -> (r: Option<String>)
        ensures
            r == path_to_apply(self.local_path, local_path_exists),
    {
        match &self.local_path {
            Some(p) => {
                if local_path_exists {
                    Some(p.clone())
                } else {
                    None
                }
            },
            None => None,
        }
    }
}

impl History {
    /// An empty history.
    pub fn new() -> (h: History)
        ensures
            h.entries@ == Seq::<HistoryEntry>::empty(),
    {
        History { entries: Vec::new() }
    }

    /// Records that a wallpaper was applied: the entry goes last, and the
    /// oldest entries are dropped so that at most `MAX_ENTRIES` remain.
    pub fn add(
        &mut self,
        timestamp: Timestamp,
        source: &str,
        image_url: &str,
        local_path: Option<String>,
    )
        ensures
            final(self).entries@ == recorded(old(self).entries@, final(self).entries@.last()),
            final(self).entries@.last().timestamp == timestamp,
            final(self).entries@.last().source@ == source@,
            final(self).entries@.last().image_url@ == image_url@,
            final(self).entries@.last().local_path == local_path,
    {
        let entry = HistoryEntry {
            timestamp,
            source: source.to_owned(),
            image_url: image_url.to_owned(),
            local_path,
        };
        self.entries.push(entry);
        if self.entries.len() > MAX_ENTRIES {
            let excess: usize = self.entries.len() - MAX_ENTRIES;
            let recent = self.entries.split_off(excess);
            self.entries = recent;
        }
    }

    /// The entry `steps` back from the newest (`1` is the wallpaper before
    /// the current one); nothing for `0` or beyond the oldest.
    pub fn get(&self, steps: usize) -> (r: Option<HistoryEntry>)
        ensures
            r == entry_back(self.entries@, steps as int),
    {
        let len: usize = self.entries.len();
        if steps == 0 || len == 0 || steps >= len {
            return None;
        }
        Some(self.entries[len - 1 - steps].duplicate())
    }

    /// The listing of the history, newest first, numbered from 1.
    pub fn list(&self) -> (r: Vec<ListingLine>)
        ensures
            r@.len() == self.entries@.len(),
            forall|k: int|
                0 <= k < r@.len() ==> shows(
                    #[trigger] r@[k],
                    k + 1,
                    listed_entry(self.entries@, k + 1),
                ),
    {
        let len: usize = self.entries.len();
        let mut lines: Vec<ListingLine> = Vec::new();
        let mut k: usize = 0;
        while k < len
            invariant
                len == self.entries@.len(),
                k <= len,
                lines@.len() == k,
                forall|j: int|
                    0 <= j < k ==> shows(
                        #[trigger] lines@[j],
                        j + 1,
                        listed_entry(self.entries@, j + 1),
                    ),
            decreases len - k,
        {
            let entry = &self.entries[len - 1 - k];
            let line = ListingLine {
                number: k + 1,
                time: entry.timestamp.display(),
                source: entry.source.clone(),
                image_url: entry.image_url.clone(),
            };
            lines.push(line);
            k = k + 1;
        }
        lines
    }
}

impl Default for History {
    fn default() -> (h: History)
        ensures
            h.entries@ == Seq::<HistoryEntry>::empty(),
    {
        History::new()
    }
}

// ---------------------------------------------------------------------------
// Laws
// ---------------------------------------------------------------------------

/// After recording, the history holds at most 50 entries, the
/// recorded one is the newest, and every entry kept was already there, in the
/// same order, directly before it.
pub proof fn lemma_recorded_shape(entries: Seq<HistoryEntry>, entry: HistoryEntry)
    ensures
        recorded(entries, entry).len() <= 50,
        recorded(entries, entry).len() == if entries.len() + 1 > 50 {
            50int
        } else {
            entries.len() + 1int
        },
        recorded(entries, entry).last() == entry,
        forall|i: int|
            0 <= i < recorded(entries, entry).len() - 1 ==> #[trigger] recorded(entries, entry)[i]
                == entries[entries.len() - (recorded(entries, entry).len() - 1) + i],
{
}

/// Going back one step right after recording a wallpaper gives the wallpaper
/// that was newest before it.
pub proof fn lemma_revert_after_add(entries: Seq<HistoryEntry>, entry: HistoryEntry)
    requires
        entries.len() >= 1,
    ensures
        entry_back(recorded(entries, entry), 1) == Some(entries.last()),
{
}

/// Reverting applies the recorded file exactly when one was recorded and
/// still exists; otherwise no file (the image is applied from its URL).
pub proof fn lemma_revert_file(local_path: Option<String>, exists: bool)
    ensures
        path_to_apply(local_path, exists) is Some <==> (local_path is Some && exists),
        path_to_apply(local_path, exists) is Some ==> path_to_apply(local_path, exists)
            == local_path,
{
}

/// Going back counts from the newest entry: no step, or as many steps as
/// there are entries or more, gives nothing; `steps` steps back otherwise
/// gives the entry `steps` places before the newest. The listing's number 1
/// is the newest entry, and each later number is one entry older.
pub proof fn lemma_steps_back(entries: Seq<HistoryEntry>, steps: int)
    ensures
        entry_back(entries, 0) is None,
        steps >= entries.len() ==> entry_back(entries, steps) is None,
        1 <= steps < entries.len() ==> entry_back(entries, steps) == Some(
            entries[entries.len() - 1 - steps],
        ),
        entries.len() >= 1 ==> listed_entry(entries, 1) == entries.last(),
        1 <= steps <= entries.len() ==> listed_entry(entries, steps) == entries[entries.len()
            - steps],
{
}

/// The time shown for a moment in years `0..=9999` whose fields are below
/// 100 is nineteen characters: four year digits, `-`, two month digits,
/// `-`, two day digits, a space, and two digits each for hour, minute and
/// second, separated by `:`; a leap second shows as `60`.
pub proof fn lemma_time_layout(t: Timestamp)
    requires
        0 <= t.year <= 9999,
        t.month < 100,
        t.day < 100,
        t.hour < 100,
        t.minute < 100,
        t.second + t.nanosecond / 1_000_000_000 < 100,
    ensures
        time_text(t) == seq![
            digit_char((t.year / 1000) as nat),
            digit_char((t.year / 100 % 10) as nat),
            digit_char((t.year / 10 % 10) as nat),
            digit_char((t.year % 10) as nat),
            '-',
            digit_char((t.month / 10) as nat),
            digit_char((t.month % 10) as nat),
            '-',
            digit_char((t.day / 10) as nat),
            digit_char((t.day % 10) as nat),
            ' ',
            digit_char((t.hour / 10) as nat),
            digit_char((t.hour % 10) as nat),
            ':',
            digit_char((t.minute / 10) as nat),
            digit_char((t.minute % 10) as nat),
            ':',
            digit_char(((t.second + t.nanosecond / 1_000_000_000) / 10) as nat),
            digit_char(((t.second + t.nanosecond / 1_000_000_000) % 10) as nat),
        ],
{
    lemma_two_digits(t.month as nat);
    lemma_two_digits(t.day as nat);
    lemma_two_digits(t.hour as nat);
    lemma_two_digits(t.minute as nat);
    lemma_two_digits(shown_second(t));
    lemma_four_digits(t.year as nat);
    assert(time_text(t) =~= seq![
        digit_char((t.year / 1000) as nat),
        digit_char((t.year / 100 % 10) as nat),
        digit_char((t.year / 10 % 10) as nat),
        digit_char((t.year % 10) as nat),
        '-',
        digit_char((t.month / 10) as nat),
        digit_char((t.month % 10) as nat),
        '-',
        digit_char((t.day / 10) as nat),
        digit_char((t.day % 10) as nat),
        ' ',
        digit_char((t.hour / 10) as nat),
        digit_char((t.hour % 10) as nat),
        ':',
        digit_char((t.minute / 10) as nat),
        digit_char((t.minute % 10) as nat),
        ':',
        digit_char(((t.second + t.nanosecond / 1_000_000_000) / 10) as nat),
        digit_char(((t.second + t.nanosecond / 1_000_000_000) % 10) as nat),
    ]);
}

/// A number below 100 shows as its tens digit and its units digit.
pub proof fn lemma_two_digits(n: nat)
    requires
        n < 100,
    ensures
        zero_pad(decimal(n), 2) == seq![digit_char(n / 10), digit_char(n % 10)],
{
    if n < 10 {
        assert(zero_pad(decimal(n), 2) =~= seq![digit_char(n / 10), digit_char(n % 10)]);
    } else {
        assert(decimal(n / 10) == seq![digit_char(n / 10)]);
        assert(zero_pad(decimal(n), 2) =~= seq![digit_char(n / 10), digit_char(n % 10)]);
    }
}

/// A number below 10000 shows with four digits, zero-padded.
pub proof fn lemma_four_digits(n: nat)
    requires
        n < 10000,
    ensures
        zero_pad(decimal(n), 4) == seq![
            digit_char(n / 1000),
            digit_char(n / 100 % 10),
            digit_char(n / 10 % 10),
            digit_char(n % 10),
        ],
{
    let target = seq![
        digit_char(n / 1000),
        digit_char(n / 100 % 10),
        digit_char(n / 10 % 10),
        digit_char(n % 10),
    ];
    if n < 10 {
        assert(zero_pad(decimal(n), 4) =~= target);
    } else if n < 100 {
        assert(decimal(n / 10) == seq![digit_char(n / 10)]);
        assert(n / 10 == n / 10 % 10);
        assert(zero_pad(decimal(n), 4) =~= target);
    } else if n < 1000 {
        assert(decimal(n / 10 / 10) == seq![digit_char(n / 10 / 10)]);
        assert(decimal(n / 10) == seq![digit_char(n / 10 / 10), digit_char(n / 10 % 10)]);
        assert(n / 10 / 10 == n / 100 % 10);
        assert(zero_pad(decimal(n), 4) =~= target);
    } else {
        assert(decimal(n / 10 / 10 / 10) == seq![digit_char(n / 10 / 10 / 10)]);
        assert(decimal(n / 10 / 10) == seq![digit_char(n / 10 / 10 / 10), digit_char(n / 10 / 10 % 10)]);
        assert(decimal(n / 10) == seq![
            digit_char(n / 10 / 10 / 10),
            digit_char(n / 10 / 10 % 10),
            digit_char(n / 10 % 10),
        ]);
        assert(n / 10 / 10 / 10 == n / 1000);
        assert(n / 10 / 10 % 10 == n / 100 % 10);
        assert(zero_pad(decimal(n), 4) =~= target);
    }
}

/// The entry listed under number `steps + 1` is the one that going back
/// `steps` steps restores.
pub proof fn lemma_listing_matches_revert(entries: Seq<HistoryEntry>, steps: int)
    requires
        1 <= steps < entries.len(),
    ensures
        entry_back(entries, steps) == Some(listed_entry(entries, steps + 1)),
{
}

} // verus!
