use nvr_json::model::{CameraRecord, DayKey, DayStats, Range90k};
use nvr_json::sorted_map::SortedMap;
use nvr_json::views::{Camera, CameraDayValue, ListRecordings, Recording, TopLevel};

const UUID_ONES: u128 = 0x1111_1111_1111_1111_1111_1111_1111_1111;

fn camera(uuid: u128, short_name: &str) -> CameraRecord {
    CameraRecord::new(uuid, short_name.to_string(), String::new(), 0)
}

fn day(text: &str, start: i64, end: i64) -> DayKey {
    DayKey { text: text.to_string(), start_90k: start, end_90k: end }
}

fn recording(end_id: Option<i32>) -> Recording {
    Recording {
        start_time_90k: 130985461191810,
        end_time_90k: 130985466591817,
        sample_file_bytes: 8192,
        video_samples: 1800,
        video_sample_entry_sha1: "e99e21a4d7a89fe6f89c6e5e6bcc64d1b3a5af0b".to_string(),
        start_id: 1,
        end_id,
        video_sample_entry_width: 1920,
        video_sample_entry_height: 1080,
    }
}

#[test]
fn camera_without_recordings_and_empty_days() {
    let c = camera(UUID_ONES, "front");
    let v = Camera::new(&c, true);
    assert_eq!(
        v.to_json(),
        "{\"uuid\":\"11111111-1111-1111-1111-111111111111\",\"shortName\":\"front\",\
         \"description\":\"\",\"retainBytes\":0,\"minStartTime90k\":null,\
         \"maxEndTime90k\":null,\"totalDuration90k\":0,\"totalSampleFileBytes\":0,\"days\":{}}"
    );
}

#[test]
fn day_entry_takes_bounds_from_key() {
    let mut c = camera(UUID_ONES, "front");
    c.set_day(day("2016-01-01", 0, 7776000000), DayStats { duration_90k: 3600000 });
    let v = Camera::new(&c, true);
    let days = v.days.as_ref().unwrap();
    assert_eq!(days.len(), 1);
    assert_eq!(days[0].0, "2016-01-01");
    let mut out = String::new();
    days[0].1.write_json(&mut out);
    assert_eq!(out, "{\"startTime90k\":0,\"endTime90k\":7776000000,\"totalDuration90k\":3600000}");
    assert!(v.to_json().ends_with(
        ",\"days\":{\"2016-01-01\":{\"startTime90k\":0,\"endTime90k\":7776000000,\
         \"totalDuration90k\":3600000}}}"
    ));
}

#[test]
fn day_bounds_independent_of_duration() {
    let mut c = camera(UUID_ONES, "front");
    c.set_day(day("2016-01-02", 7776000000, 15552000000), DayStats { duration_90k: 0 });
    c.set_day(day("2016-01-01", 0, 7776000000), DayStats { duration_90k: 7776000000 });
    let v = Camera::new(&c, true);
    let days = v.days.as_ref().unwrap();
    assert_eq!(days.len(), 2);
    assert_eq!(days[0].0, "2016-01-01");
    assert_eq!(days[0].1.start_time_90k, 0);
    assert_eq!(days[0].1.end_time_90k, 7776000000);
    assert_eq!(days[0].1.total_duration_90k, 7776000000);
    assert_eq!(days[1].0, "2016-01-02");
    assert_eq!(days[1].1.start_time_90k, 7776000000);
    assert_eq!(days[1].1.end_time_90k, 15552000000);
    assert_eq!(days[1].1.total_duration_90k, 0);
}

#[test]
fn set_day_replaces_same_day() {
    let mut c = camera(UUID_ONES, "front");
    c.set_day(day("2016-01-01", 0, 7776000000), DayStats { duration_90k: 5 });
    c.set_day(day("2016-01-01", 0, 7776000000), DayStats { duration_90k: 9 });
    assert_eq!(c.days.len(), 1);
    assert_eq!(c.days.entry(0).1 .1.duration_90k, 9);
}

#[test]
fn days_omitted_when_not_requested() {
    let mut c = camera(UUID_ONES, "front");
    c.set_day(day("2016-01-01", 0, 7776000000), DayStats { duration_90k: 3600000 });
    let v = Camera::new(&c, false);
    assert!(v.days.is_none());
    let json = v.to_json();
    assert!(!json.contains("days"));
    assert!(json.ends_with("\"totalSampleFileBytes\":0}"));
}

#[test]
fn days_present_with_every_key() {
    let mut c = camera(UUID_ONES, "front");
    c.set_day(day("2016-01-03", 2, 3), DayStats { duration_90k: 1 });
    c.set_day(day("2016-01-01", 0, 1), DayStats { duration_90k: 1 });
    c.set_day(day("2016-01-02", 1, 2), DayStats { duration_90k: 1 });
    let v = Camera::new(&c, true);
    let keys: Vec<&str> = v.days.as_ref().unwrap().iter().map(|d| d.0.as_str()).collect();
    assert_eq!(keys, vec!["2016-01-01", "2016-01-02", "2016-01-03"]);
}

#[test]
fn camera_with_recordings_shows_range() {
    let mut c = CameraRecord::new(0xa1a2a3a4b1b2c1c2d1d2d3d4d5d6d7d8, "back".to_string(), "yard".to_string(), 1048576);
    c.range = Some(Range90k { start: -90000, end: 180000 });
    c.duration_90k = 270000;
    c.sample_file_bytes = 4096;
    let v = Camera::new(&c, false);
    assert_eq!(v.min_start_time_90k, Some(-90000));
    assert_eq!(v.max_end_time_90k, Some(180000));
    assert_eq!(
        v.to_json(),
        "{\"uuid\":\"a1a2a3a4-b1b2-c1c2-d1d2-d3d4d5d6d7d8\",\"shortName\":\"back\",\
         \"description\":\"yard\",\"retainBytes\":1048576,\"minStartTime90k\":-90000,\
         \"maxEndTime90k\":180000,\"totalDuration90k\":270000,\"totalSampleFileBytes\":4096}"
    );
}

#[test]
fn no_recordings_gives_null_bounds() {
    let c = camera(UUID_ONES, "front");
    let v = Camera::new(&c, false);
    assert_eq!(v.min_start_time_90k, None);
    assert_eq!(v.max_end_time_90k, None);
    assert_eq!(v.total_duration_90k, 0);
    let json = v.to_json();
    assert!(json.contains("\"minStartTime90k\":null,\"maxEndTime90k\":null,\"totalDuration90k\":0"));
}

#[test]
fn strings_are_escaped() {
    let c = CameraRecord::new(0, "a\"b\\c".to_string(), "line\nnext\ttab\u{1}\u{8}\u{c}\r".to_string(), 0);
    let json = Camera::new(&c, false).to_json();
    assert!(json.starts_with("{\"uuid\":\"00000000-0000-0000-0000-000000000000\","));
    assert!(json.contains("\"shortName\":\"a\\\"b\\\\c\""));
    assert!(json.contains("\"description\":\"line\\nnext\\ttab\\u0001\\b\\f\\r\""));
}

#[test]
fn cameras_listed_in_id_order() {
    let mut m: SortedMap<CameraRecord> = SortedMap::new();
    m.insert(3, camera(3, "c"));
    m.insert(1, camera(1, "a"));
    m.insert(2, camera(2, "b"));
    let top = TopLevel::new("America/Los_Angeles", &m, false);
    let names: Vec<&str> = top.cameras.iter().map(|c| c.short_name.as_str()).collect();
    assert_eq!(names, vec!["a", "b", "c"]);

    let mut other: SortedMap<CameraRecord> = SortedMap::new();
    other.insert(2, camera(2, "b"));
    other.insert(1, camera(1, "a"));
    other.insert(3, camera(3, "c"));
    let top2 = TopLevel::new("America/Los_Angeles", &other, false);
    assert_eq!(top.to_json(), top2.to_json());
}

#[test]
fn insert_replaces_equal_key() {
    let mut m: SortedMap<CameraRecord> = SortedMap::new();
    m.insert(7, camera(1, "old"));
    m.insert(7, camera(2, "new"));
    assert_eq!(m.len(), 1);
    assert_eq!(m.entry(0).0, 7);
    assert_eq!(m.entry(0).1.short_name, "new");
}

#[test]
fn top_level_json() {
    let mut m: SortedMap<CameraRecord> = SortedMap::new();
    m.insert(2, camera(2, "b"));
    m.insert(1, camera(UUID_ONES, "a"));
    let top = TopLevel::new("UTC", &m, true);
    assert_eq!(top.time_zone_name, "UTC");
    assert_eq!(
        top.to_json(),
        "{\"timeZoneName\":\"UTC\",\"cameras\":[\
         {\"uuid\":\"11111111-1111-1111-1111-111111111111\",\"shortName\":\"a\",\
         \"description\":\"\",\"retainBytes\":0,\"minStartTime90k\":null,\
         \"maxEndTime90k\":null,\"totalDuration90k\":0,\"totalSampleFileBytes\":0,\"days\":{}},\
         {\"uuid\":\"00000000-0000-0000-0000-000000000002\",\"shortName\":\"b\",\
         \"description\":\"\",\"retainBytes\":0,\"minStartTime90k\":null,\
         \"maxEndTime90k\":null,\"totalDuration90k\":0,\"totalSampleFileBytes\":0,\"days\":{}}]}"
    );
}

#[test]
fn top_level_empty() {
    let m: SortedMap<CameraRecord> = SortedMap::new();
    let top = TopLevel::new("UTC", &m, false);
    assert!(top.cameras.is_empty());
    assert_eq!(top.to_json(), "{\"timeZoneName\":\"UTC\",\"cameras\":[]}");
}

#[test]
fn recording_without_end_id() {
    assert_eq!(
        recording(None).to_json(),
        "{\"startTime90k\":130985461191810,\"endTime90k\":130985466591817,\
         \"sampleFileBytes\":8192,\"videoSamples\":1800,\
         \"videoSampleEntrySha1\":\"e99e21a4d7a89fe6f89c6e5e6bcc64d1b3a5af0b\",\
         \"startId\":1,\"videoSampleEntryWidth\":1920,\"videoSampleEntryHeight\":1080}"
    );
}

#[test]
fn recording_with_end_id() {
    let json = recording(Some(4)).to_json();
    assert!(json.contains("\"startId\":1,\"endId\":4,\"videoSampleEntryWidth\":1920"));
    assert!(!json.contains("null"));
}

#[test]
fn list_recordings_keeps_order() {
    let l = ListRecordings { recordings: vec![recording(Some(-2)), recording(None)] };
    let json = l.to_json();
    assert!(json.starts_with("{\"recordings\":[{\"startTime90k\":"));
    assert!(json.contains("\"endId\":-2,"));
    assert_eq!(json.matches("\"endId\"").count(), 1);
    assert!(json.ends_with("\"videoSampleEntryHeight\":1080}]}"));
    let empty = ListRecordings { recordings: Vec::new() };
    assert_eq!(empty.to_json(), "{\"recordings\":[]}");
}

#[test]
fn day_value_extremes() {
    let v = CameraDayValue { start_time_90k: i64::MIN, end_time_90k: i64::MAX, total_duration_90k: -1 };
    let mut out = String::from("x");
    v.write_json(&mut out);
    assert_eq!(
        out,
        "x{\"startTime90k\":-9223372036854775808,\"endTime90k\":9223372036854775807,\"totalDuration90k\":-1}"
    );
}

#[test]
fn day_key_bounds() {
    let k = day("2016-01-01", 0, 7776000000);
    let b = k.bounds();
    assert_eq!((b.start, b.end), (0, 7776000000));
}
