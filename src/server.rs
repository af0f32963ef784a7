use vstd::prelude::*;

use crate::apod::{ApodView, EarendelApod};
use crate::error::EarendelError;

verus! {

/// A calendar day, as the number of days since the first day of the common
/// era (that day is 1).
#[derive(Clone, Copy, Debug, PartialEq, Eq, Structural)]
pub struct CalendarDay {
    pub days_from_ce: i32,
}

/// Relies on std's `SystemTime::now` and `SystemTime::duration_since` for the
/// time since the Unix epoch, then on chrono's `DateTime::from_timestamp`,
/// `DateTime::date_naive` and `Datelike::num_days_from_ce`: today's date in
/// UTC, as a day number. None of these calls panics; a clock before 1970, or
/// past the dates that chrono represents, gives `None`. The clock decides the
/// value, so nothing is stated of it.
#[verifier::external_body]
fn utc_today() -> (r: Option<CalendarDay>) {
    let elapsed = std::time::SystemTime::now().duration_since(std::time::UNIX_EPOCH).ok()?;
    let secs = i64::try_from(elapsed.as_secs()).ok()?;
    let now = chrono::DateTime::from_timestamp(secs, 0)?;
    Some(CalendarDay { days_from_ce: chrono::Datelike::num_days_from_ce(&now.date_naive()) })
}

impl CalendarDay {
    /// Today's date in UTC, or `None` where the system clock reads a time
    /// that has no such date.
    pub fn today() -> (r: Option<CalendarDay>) {
        utc_today()
    }
}

/// The cache slot, as mathematical values: the day of the entry and its record.
pub type CacheView = Option<(CalendarDay, ApodView)>;

/// The record that a lookup on `today` returns from the slot: the entry's,
/// if it was fetched that same day.
pub open spec fn cache_hit(slot: CacheView, today: CalendarDay) -> Option<ApodView> {
    match slot {
        Some((day, record)) => if day == today {
            Some(record)
        } else {
            None
        },
        None => None,
    }
}

/// The slot after a fetch made on `today` has come back: a fetched record
/// replaces whatever was there; a failure leaves the slot as it was.
pub open spec fn after_fetch(
    slot: CacheView,
    today: CalendarDay,
    fetched: Result<ApodView, EarendelError>,
) -> CacheView {
    match fetched {
        Ok(record) => Some((today, record)),
        Err(_) => slot,
    }
}

/// The view of an optional record.
pub open spec fn opt_apod_view(o: Option<EarendelApod>) -> Option<ApodView> {
    match o {
        Some(a) => Some(a@),
        None => None,
    }
}

/// The view of a fetch's outcome.
pub open spec fn fetched_view(r: Result<EarendelApod, EarendelError>) -> Result<ApodView, EarendelError> {
    match r {
        Ok(a) => Ok(a@),
        Err(e) => Err(e),
    }
}

/// The manager of the picture of the day and of its single-entry, day-keyed
/// cache.
pub struct EarendelServer {
    cached_state: Option<(CalendarDay, EarendelApod)>,
}

impl EarendelServer {
    /// The cache slot of this server.
    pub closed spec fn cached(&self) -> CacheView {
        match self.cached_state {
            Some((day, record)) => Some((day, record@)),
            None => None,
        }
    }

    /// A server whose cache is empty.
    pub fn new() -> (r: EarendelServer)
        ensures
            r.cached() is None,
    {
        EarendelServer { cached_state: None }
    }

    /// The cached record for a lookup made on `today`, or `None` where the
    /// record has to be fetched.
    pub fn cached_apod(&self, today: CalendarDay) -> (r: Option<EarendelApod>)
        ensures
            opt_apod_view(r) == cache_hit(self.cached(), today),
    {
        match &self.cached_state {
            Some((day, record)) => {
                if *day == today {
                    Some(record.duplicate())
                } else {
                    None
                }
            },
            None => None,
        }
    }

    /// Starts getting the picture of the day: reads today's UTC date and
    /// returns it with the cached record, or with `None` where the picture has
    /// to be fetched and then handed to [`EarendelServer::record_apod`]. A
    /// clock that gives no date is a clock failure.
    pub fn get_apod_image(&self) -> (r: Result<(CalendarDay, Option<EarendelApod>), EarendelError>)
        ensures
            match r {
                Ok((today, cached)) => opt_apod_view(cached) == cache_hit(self.cached(), today),
                Err(e) => e == EarendelError::Clock,
            },
    {
        match CalendarDay::today() {
            Some(today) => Ok((today, self.cached_apod(today))),
            None => Err(EarendelError::Clock),
        }
    }

    /// Finishes a fetch made on `today`: a fetched record is stored under that
    /// day, replacing any earlier entry, and returned; a failure is returned
    /// as it is and leaves the cache alone.
    pub fn record_apod(
        &mut self,
        today: CalendarDay,
        fetched: Result<EarendelApod, EarendelError>,
    ) -> (r: Result<EarendelApod, EarendelError>)
        ensures
            fetched_view(r) == fetched_view(fetched),
            final(self).cached() == after_fetch(old(self).cached(), today, fetched_view(fetched)),
    {
        match fetched {
            Ok(record) => {
                let kept = record.duplicate();
                self.cached_state = Some((today, kept));
                Ok(record)
            },
            Err(e) => Err(e),
        }
    }
}

impl Default for EarendelServer {
    /// A server whose cache is empty.
    fn default() -> (r: EarendelServer)
        ensures
            r.cached() is None,
    {
        EarendelServer::new()
    }
}

/// Once a fetch made on a day has succeeded, every lookup on that same day
/// is served from the cache, with the fetched record, so no second fetch
/// happens that day.
pub proof fn lemma_fetched_once_per_day(slot: CacheView, today: CalendarDay, record: ApodView)
    ensures
        cache_hit(after_fetch(slot, today, Ok(record)), today) == Some(record),
{
}

/// A lookup never returns an entry stamped with another day, such as
/// yesterday: such a lookup has to fetch.
pub proof fn lemma_stale_entry_refetched(day: CalendarDay, record: ApodView, today: CalendarDay)
    requires
        day != today,
    ensures
        cache_hit(Some((day, record)), today) is None,
{
}

} // verus!
