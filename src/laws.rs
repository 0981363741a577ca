//! Properties of the views and their JSON text that hold for every input.
use vstd::prelude::*;
use crate::json::{
    camera_members, day_member, days_text, int_text, member, nullable_int_text,
    object, quoted, recording_members, uuid_text,
};
use crate::model::CameraRecord;
use crate::sorted_map::{ascending, holds, SortedMap};
use crate::views::{lists, Camera, Recording, TopLevel};

verus! {

/// Two ascending entry lists that hold the same entries are the same list.
proof fn lemma_ascending_unique<V>(a: Seq<(i64, V)>, b: Seq<(i64, V)>)
    requires
        ascending(a),
        ascending(b),
        forall|e: (i64, V)| holds(a, e) <==> holds(b, e),
    ensures
        a == b,
    decreases a.len() + b.len(),
{
    if a.len() == 0 {
        if b.len() > 0 {
            assert(holds(b, b[0]));
        }
        assert(a =~= b);
    } else if b.len() == 0 {
        assert(holds(a, a[0]));
    } else {
        assert(holds(a, a[0]));
        assert(holds(b, b[0]));
        let j = choose|j: int| 0 <= j < b.len() && b[j] == a[0];
        let k = choose|k: int| 0 <= k < a.len() && a[k] == b[0];
        assert(j == 0);
        let a2 = a.drop_first();
        let b2 = b.drop_first();
        assert forall|e: (i64, V)| holds(a2, e) <==> holds(b2, e) by {
            if holds(a2, e) {
                let i = choose|i: int| 0 <= i < a2.len() && a2[i] == e;
                assert(a[i + 1] == e);
                assert(holds(a, e));
                let m = choose|m: int| 0 <= m < b.len() && b[m] == e;
                assert(m != 0);
                assert(b2[m - 1] == e);
            }
            if holds(b2, e) {
                let i = choose|i: int| 0 <= i < b2.len() && b2[i] == e;
                assert(b[i + 1] == e);
                assert(holds(b, e));
                let m = choose|m: int| 0 <= m < a.len() && a[m] == e;
                assert(m != 0);
                assert(a2[m - 1] == e);
            }
        }
        lemma_ascending_unique(a2, b2);
        assert(a[0] == b[0]);
        assert(a =~= seq![a[0]] + a2);
        assert(b =~= seq![b[0]] + b2);
    }
}

/// The camera listing is ordered by ascending internal id, and whatever order
/// the cameras were inserted in, maps that hold the same cameras give the same
/// listing: the `i`-th listed camera shows the camera with the `i`-th smallest id.
pub proof fn lemma_cameras_in_id_order(
    a: &SortedMap<CameraRecord>,
    b: &SortedMap<CameraRecord>,
    top: &TopLevel,
    include_days: bool,
)
    requires
        a.wf(),
        b.wf(),
        forall|e: (i64, CameraRecord)| holds(a.entries(), e) <==> holds(b.entries(), e),
        lists(top.cameras@, a.entries(), include_days),
    ensures
        lists(top.cameras@, b.entries(), include_days),
        forall|i: int, j: int|
            0 <= i < j < top.cameras@.len() ==> a.entries()[i].0 < a.entries()[j].0,
{
    lemma_ascending_unique(a.entries(), b.entries());
}

/// A camera that has recorded nothing shows `null` for both time bounds and
/// `0` for its total duration.
pub proof fn lemma_no_recordings(c: &CameraRecord, v: &Camera, include_days: bool)
    requires
        c.wf(),
        c.range is None,
        v.shows(c, include_days),
    ensures
        v.min_start_time_90k is None,
        v.max_end_time_90k is None,
        v.total_duration_90k == 0,
        camera_members(v)[4] == member("minStartTime90k"@, seq!['n', 'u', 'l', 'l']),
        camera_members(v)[5] == member("maxEndTime90k"@, seq!['n', 'u', 'l', 'l']),
        camera_members(v)[6] == member("totalDuration90k"@, seq!['0']),
{
    assert(int_text(0) == seq!['0']);
}

/// Without day summaries the camera object has exactly its eight other
/// members and no `days` member; with them, `days` comes last and holds one
/// member per day of the record, named by the day's identifier, in day order.
pub proof fn lemma_days_member(c: &CameraRecord, v: &Camera, include_days: bool)
    requires
        v.shows(c, include_days),
    ensures
        !include_days ==> camera_members(v) == seq![
            member("uuid"@, quoted(uuid_text(c.uuid))),
            member("shortName"@, quoted(c.short_name@)),
            member("description"@, quoted(c.description@)),
            member("retainBytes"@, int_text(c.retain_bytes as int)),
            member("minStartTime90k"@, nullable_int_text(v.min_start_time_90k)),
            member("maxEndTime90k"@, nullable_int_text(v.max_end_time_90k)),
            member("totalDuration90k"@, int_text(c.duration_90k as int)),
            member("totalSampleFileBytes"@, int_text(c.sample_file_bytes as int)),
        ],
        include_days ==> {
            let d = v.days->0@;
            &&& camera_members(v).len() == 9
            &&& camera_members(v)[8] == member("days"@, days_text(d))
            &&& d.len() == c.days.entries().len()
            &&& forall|i: int|
                0 <= i < d.len() ==> #[trigger] d[i].0 == c.days.entries()[i].1.0.text
        },
{
}

/// Each day's summary takes its bounds from the day key and only its total
/// duration from the day's statistics, whatever that duration is.
pub proof fn lemma_day_bounds_from_key(c: &CameraRecord, v: &Camera)
    requires
        v.shows(c, true),
    ensures
        forall|i: int|
            0 <= i < c.days.entries().len() ==> {
                let key = c.days.entries()[i].1.0;
                let stats = c.days.entries()[i].1.1;
                &&& (#[trigger] v.days->0@[i]).1.start_time_90k == key.start_90k
                &&& v.days->0@[i].1.end_time_90k == key.end_90k
                &&& v.days->0@[i].1.total_duration_90k == stats.duration_90k
                &&& day_member(v.days->0@[i]) == member(
                    key.text@,
                    object(
                        seq![
                            member("startTime90k"@, int_text(key.start_90k as int)),
                            member("endTime90k"@, int_text(key.end_90k as int)),
                            member("totalDuration90k"@, int_text(stats.duration_90k as int)),
                        ],
                    ),
                )
            },
{
}

/// A segment without an end id has no `endId` member; one with an end id has
/// it right after `startId`, as a number.
pub proof fn lemma_end_id_member(r: &Recording)
    ensures
        r.end_id is None ==> recording_members(r) == seq![
            member("startTime90k"@, int_text(r.start_time_90k as int)),
            member("endTime90k"@, int_text(r.end_time_90k as int)),
            member("sampleFileBytes"@, int_text(r.sample_file_bytes as int)),
            member("videoSamples"@, int_text(r.video_samples as int)),
            member("videoSampleEntrySha1"@, quoted(r.video_sample_entry_sha1@)),
            member("startId"@, int_text(r.start_id as int)),
            member("videoSampleEntryWidth"@, int_text(r.video_sample_entry_width as int)),
            member("videoSampleEntryHeight"@, int_text(r.video_sample_entry_height as int)),
        ],
        r.end_id is Some ==> recording_members(r).len() == 9 && recording_members(r)[6] == member(
            "endId"@,
            int_text(r.end_id->0 as int),
        ),
{
    assert(r.end_id is None ==> recording_members(r) =~= seq![
        member("startTime90k"@, int_text(r.start_time_90k as int)),
        member("endTime90k"@, int_text(r.end_time_90k as int)),
        member("sampleFileBytes"@, int_text(r.sample_file_bytes as int)),
        member("videoSamples"@, int_text(r.video_samples as int)),
        member("videoSampleEntrySha1"@, quoted(r.video_sample_entry_sha1@)),
        member("startId"@, int_text(r.start_id as int)),
        member("videoSampleEntryWidth"@, int_text(r.video_sample_entry_width as int)),
        member("videoSampleEntryHeight"@, int_text(r.video_sample_entry_height as int)),
    ]);
}

} // verus!
