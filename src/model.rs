//! The storage snapshot that views are built from: camera records, their
//! per-day statistics, and the id-ordered camera collection.
use vstd::prelude::*;
use crate::sorted_map::{holds, SortedMap};

verus! {

/// A time range in 90 kHz ticks; both bounds are always present together.
#[derive(Clone, Copy, Debug)]
pub struct Range90k {
    pub start: i64,
    pub end: i64,
}

/// One calendar day in the camera's configured time zone: its printable
/// identifier (such as `2016-01-01`) and the 90 kHz bounds of that day.
#[derive(Debug)]
pub struct DayKey {
    pub text: String,
    pub start_90k: i64,
    pub end_90k: i64,
}

impl DayKey {
    /// The start and end of the day, taken from the key alone.
    pub fn bounds(&self) -> (r: Range90k)
        ensures
            r.start == self.start_90k,
            r.end == self.end_90k,
    {
        Range90k { start: self.start_90k, end: self.end_90k }
    }
}

/// What was recorded within one day.
#[derive(Clone, Copy, Debug)]
pub struct DayStats {
    pub duration_90k: i64,
}

/// A camera as storage holds it. `days` is keyed by each day's start, so
/// that it is walked in the day keys' ascending order.
pub struct CameraRecord {
    pub uuid: u128,
    pub short_name: String,
    pub description: String,
    pub retain_bytes: i64,
    pub range: Option<Range90k>,
    pub duration_90k: i64,
    pub sample_file_bytes: i64,
    pub days: SortedMap<(DayKey, DayStats)>,
}

impl CameraRecord {
    /// Days are keyed by their start, and a camera without a recorded range
    /// has recorded nothing.
    pub open spec fn wf(&self) -> bool {
        &&& self.range is None ==> self.duration_90k == 0 && self.sample_file_bytes == 0
        &&& self.days.wf()
        &&& forall|i: int|
            0 <= i < self.days.entries().len() ==> #[trigger] self.days.entries()[i].0
                == self.days.entries()[i].1.0.start_90k
    }

    /// A camera with no recordings and no days yet.
    pub fn new(uuid: u128, short_name: String, description: String, retain_bytes: i64) -> (r:
        CameraRecord)
        ensures
            r.wf(),
            r.uuid == uuid,
            r.short_name == short_name,
            r.description == description,
            r.retain_bytes == retain_bytes,
            r.range.is_none(),
            r.duration_90k == 0,
            r.sample_file_bytes == 0,
            r.days.entries().len() == 0,
    {
        CameraRecord {
            uuid,
            short_name,
            description,
            retain_bytes,
            range: None,
            duration_90k: 0,
            sample_file_bytes: 0,
            days: SortedMap::new(),
        }
    }

    /// Records `stats` for the day `key`, replacing what that day held.
    pub fn set_day(&mut self, key: DayKey, stats: DayStats)
        requires
            old(self).wf(),
        ensures
            final(self).wf(),
            final(self).uuid == old(self).uuid,
            final(self).short_name == old(self).short_name,
            final(self).description == old(self).description,
            final(self).retain_bytes == old(self).retain_bytes,
            final(self).range == old(self).range,
            final(self).duration_90k == old(self).duration_90k,
            final(self).sample_file_bytes == old(self).sample_file_bytes,
            exists|i: int|
                0 <= i < final(self).days.entries().len() && #[trigger] final(self).days.entries()[i].1
                    == (key, stats),
            forall|i: int|
                0 <= i < final(self).days.entries().len() ==> #[trigger] final(self).days.entries()[i]
                    == (key.start_90k, (key, stats)) || (final(self).days.entries()[i].0
                    != key.start_90k && holds(old(self).days.entries(), final(self).days.entries()[i])),
            forall|i: int|
                0 <= i < old(self).days.entries().len() && #[trigger] old(self).days.entries()[i].0
                    != key.start_90k ==> holds(final(self).days.entries(), old(self).days.entries()[i]),
    {
        let ghost k = key;
        let start = key.start_90k;
        self.days.insert(start, (key, stats));
        let ghost j = choose|j: int|
            0 <= j < self.days.entries().len() && self.days.entries()[j] == (start, (k, stats));
        assert(self.days.entries()[j].1 == (k, stats));
        assert forall|i: int|
            0 <= i < self.days.entries().len() implies #[trigger] self.days.entries()[i].0
            == self.days.entries()[i].1.0.start_90k by {
            let e = self.days.entries()[i];
            if e != (start, (k, stats)) {
                let j = choose|j: int|
                    0 <= j < old(self).days.entries().len() && old(self).days.entries()[j] == e;
                assert(old(self).days.entries()[j].0 == old(self).days.entries()[j].1.0.start_90k);
            }
        }
    }
}

} // verus!
