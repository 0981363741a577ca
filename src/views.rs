//! Client-facing views of a storage snapshot. Id-keyed collections become
//! lists in id order; day summaries stay keyed by the day's identifier.
use vstd::prelude::*;
use crate::model::{CameraRecord, DayKey, DayStats};
use crate::sorted_map::SortedMap;

verus! {

/// One day's summary: the bounds come from the day key, the duration from
/// what was recorded that day.
#[derive(Clone, Copy, Debug)]
pub struct CameraDayValue {
    pub start_time_90k: i64,
    pub end_time_90k: i64,
    pub total_duration_90k: i64,
}

/// The summary entry of one day: its identifier and its values.
pub open spec fn day_summary(key: DayKey, stats: DayStats) -> (String, CameraDayValue) {
    (
        key.text,
        CameraDayValue {
            start_time_90k: key.start_90k,
            end_time_90k: key.end_90k,
            total_duration_90k: stats.duration_90k,
        },
    )
}

/// The public view of one camera. `days` is `None` when day summaries were
/// not asked for.
#[derive(Debug)]
pub struct Camera {
    pub uuid: u128,
    pub short_name: String,
    pub description: String,
    pub retain_bytes: i64,
    pub min_start_time_90k: Option<i64>,
    pub max_end_time_90k: Option<i64>,
    pub total_duration_90k: i64,
    pub total_sample_file_bytes: i64,
    pub days: Option<Vec<(String, CameraDayValue)>>,
}

/// `d` lists the summaries of the days of `days`, in the same order.
pub open spec fn summarizes(
    d: Seq<(String, CameraDayValue)>,
    days: Seq<(i64, (DayKey, DayStats))>,
) -> bool {
    &&& d.len() == days.len()
    &&& forall|i: int| 0 <= i < d.len() ==> #[trigger] d[i] == day_summary(days[i].1.0, days[i].1.1)
}

impl Camera {
    /// This is the view of `c`, with day summaries exactly when `include_days`.
    pub open spec fn shows(&self, c: &CameraRecord, include_days: bool) -> bool {
        &&& self.uuid == c.uuid
        &&& self.short_name == c.short_name
        &&& self.description == c.description
        &&& self.retain_bytes == c.retain_bytes
        &&& self.min_start_time_90k == match c.range {
            Some(r) => Some(r.start),
            None => None::<i64>,
        }
        &&& self.max_end_time_90k == match c.range {
            Some(r) => Some(r.end),
            None => None::<i64>,
        }
        &&& self.total_duration_90k == c.duration_90k
        &&& self.total_sample_file_bytes == c.sample_file_bytes
        &&& (self.days is Some <==> include_days)
        &&& include_days ==> summarizes(self.days->0@, c.days.entries())
    }

    pub fn new(c: &CameraRecord, include_days: bool) -> (r: Camera)
        ensures
            r.shows(c, include_days),
    {
        Camera {
            uuid: c.uuid,
            short_name: c.short_name.clone(),
            description: c.description.clone(),
            retain_bytes: c.retain_bytes,
            min_start_time_90k: match &c.range {
                Some(r) => Some(r.start),
                None => None,
            },
            max_end_time_90k: match &c.range {
                Some(r) => Some(r.end),
                None => None,
            },
            total_duration_90k: c.duration_90k,
            total_sample_file_bytes: c.sample_file_bytes,
            days: if include_days {
                Some(Camera::summarize_days(&c.days))
            } else {
                None
            },
        }
    }

    /// One summary per day, in the days' order.
    pub fn summarize_days(days: &SortedMap<(DayKey, DayStats)>) -> (r: Vec<(String, CameraDayValue)>)
        ensures
            summarizes(r@, days.entries()),
    {
        let mut out: Vec<(String, CameraDayValue)> = Vec::new();
        let n = days.len();
        let mut i: usize = 0;
        while i < n
            invariant
                n == days.entries().len(),
                i <= n,
                out@.len() == i,
                forall|j: int|
                    0 <= j < i ==> #[trigger] out@[j] == day_summary(
                        days.entries()[j].1.0,
                        days.entries()[j].1.1,
                    ),
            decreases n - i,
        {
            let e = days.entry(i);
            let bounds = e.1.0.bounds();
            out.push(
                (
                    e.1.0.text.clone(),
                    CameraDayValue {
                        start_time_90k: bounds.start,
                        end_time_90k: bounds.end,
                        total_duration_90k: e.1.1.duration_90k,
                    },
                ),
            );
            i = i + 1;
        }
        out
    }
}

/// The camera listing: the server's time zone and every camera, in
/// ascending order of the cameras' internal ids, which are not shown.
#[derive(Debug)]
pub struct TopLevel {
    pub time_zone_name: String,
    pub cameras: Vec<Camera>,
}

/// `v` holds the view of each camera of `cameras`, in the same order.
pub open spec fn lists(v: Seq<Camera>, cameras: Seq<(i64, CameraRecord)>, include_days: bool) -> bool {
    &&& v.len() == cameras.len()
    &&& forall|i: int| 0 <= i < v.len() ==> #[trigger] v[i].shows(&cameras[i].1, include_days)
}

impl TopLevel {
    pub fn new(time_zone_name: &str, cameras: &SortedMap<CameraRecord>, include_days: bool) -> (r:
        TopLevel)
        ensures
            r.time_zone_name@ == time_zone_name@,
            lists(r.cameras@, cameras.entries(), include_days),
    {
        TopLevel {
            time_zone_name: time_zone_name.to_owned(),
            cameras: TopLevel::camera_list(cameras, include_days),
        }
    }

    /// The views of the cameras, in the map's key order.
    pub fn camera_list(cameras: &SortedMap<CameraRecord>, include_days: bool) -> (r: Vec<Camera>)
        ensures
            lists(r@, cameras.entries(), include_days),
    {
        let mut out: Vec<Camera> = Vec::new();
        let n = cameras.len();
        let mut i: usize = 0;
        while i < n
            invariant
                n == cameras.entries().len(),
                i <= n,
                out@.len() == i,
                forall|j: int|
                    0 <= j < i ==> #[trigger] out@[j].shows(&cameras.entries()[j].1, include_days),
            decreases n - i,
        {
            let e = cameras.entry(i);
            out.push(Camera::new(&e.1, include_days));
            i = i + 1;
        }
        out
    }
}

/// One stored segment of video, as listed to clients.
#[derive(Debug)]
pub struct Recording {
    pub start_time_90k: i64,
    pub end_time_90k: i64,
    pub sample_file_bytes: i64,
    pub video_samples: i64,
    pub video_sample_entry_sha1: String,
    pub start_id: i32,
    pub end_id: Option<i32>,
    pub video_sample_entry_width: u16,
    pub video_sample_entry_height: u16,
}

/// A camera's segments, in the order storage supplied them.
#[derive(Debug)]
pub struct ListRecordings {
    pub recordings: Vec<Recording>,
}

} // verus!
