//! JSON text of the views. Field names are lower camel case; an absent time
//! bound is written `null`, while a section that was not asked for (`days`)
//! or does not apply (`endId`) is left out.
use vstd::prelude::*;
use vstd::arithmetic::power::pow;
use crate::views::{Camera, CameraDayValue, ListRecordings, Recording, TopLevel};

verus! {

/// The lowercase hexadecimal digits.
pub open spec fn hex_digits() -> Seq<char> {
    seq!['0', '1', '2', '3', '4', '5', '6', '7', '8', '9', 'a', 'b', 'c', 'd', 'e', 'f']
}

/// Decimal digits of `n`, most significant first.
pub open spec fn nat_text(n: nat) -> Seq<char>
    decreases n,
{
    if n < 10 {
        seq![hex_digits()[n as int]]
    } else {
        nat_text(n / 10).push(hex_digits()[(n % 10) as int])
    }
}

/// Decimal text of an integer, with `-` before a negative one.
pub open spec fn int_text(v: int) -> Seq<char> {
    if v < 0 {
        seq!['-'] + nat_text((-v) as nat)
    } else {
        nat_text(v as nat)
    }
}

/// The `i`-th of the 32 hex digits of `v`, most significant first.
pub open spec fn uuid_nibble(v: u128, i: int) -> int {
    (v as int / pow(16, (31 - i) as nat)) % 16
}

/// Standard hyphenated lowercase text of a UUID held as a big-endian `u128`:
/// 8-4-4-4-12 hex digits.
pub open spec fn uuid_text(v: u128) -> Seq<char> {
    Seq::new(
        36,
        |j: int|
            if j == 8 || j == 13 || j == 18 || j == 23 {
                '-'
            } else {
                hex_digits()[uuid_nibble(
                    v,
                    j - (if j < 8 {
                        0int
                    } else if j < 13 {
                        1int
                    } else if j < 18 {
                        2int
                    } else if j < 23 {
                        3int
                    } else {
                        4int
                    }),
                )]
            },
    )
}

/// Relies on `ToString` for `i64`: the decimal form, `-` first when negative.
#[verifier::external_body]
fn decimal(v: i64) -> (r: String)
    ensures
        r@ == int_text(v as int),
{
    v.to_string()
}

/// Relies on `uuid::Uuid::from_u128` (big-endian) and its `Display`, which
/// writes the lowercase hyphenated form.
#[verifier::external_body]
fn hyphenated(v: u128) -> (r: String)
    ensures
        r@ == uuid_text(v),
{
    uuid::Uuid::from_u128(v).to_string()
}

/// Relies on `String::push`: appends one character.
#[verifier::external_body]
fn push_char(out: &mut String, c: char)
    ensures
        final(out)@ == old(out)@.push(c),
{
    out.push(c)
}

/// A character as it stands inside a JSON string.
pub open spec fn escaped_char(c: char) -> Seq<char> {
    if c == '"' {
        seq!['\\', '"']
    } else if c == '\\' {
        seq!['\\', '\\']
    } else if c == '\n' {
        seq!['\\', 'n']
    } else if c == '\r' {
        seq!['\\', 'r']
    } else if c == '\t' {
        seq!['\\', 't']
    } else if c == '\x08' {
        seq!['\\', 'b']
    } else if c == '\x0c' {
        seq!['\\', 'f']
    } else if (c as u32) < 0x20 {
        seq!['\\', 'u', '0', '0', hex_digits()[((c as u32) / 16) as int], hex_digits()[((c as u32) % 16) as int]]
    } else {
        seq![c]
    }
}

pub open spec fn escaped(s: Seq<char>) -> Seq<char>
    decreases s.len(),
{
    if s.len() == 0 {
        Seq::empty()
    } else {
        escaped(s.drop_last()) + escaped_char(s.last())
    }
}

/// A JSON string literal holding `s`.
pub open spec fn quoted(s: Seq<char>) -> Seq<char> {
    seq!['"'] + escaped(s) + seq!['"']
}

/// Appends the escaped form of `c`.
fn push_escaped_char(out: &mut String, c: char)
    ensures
        final(out)@ == old(out)@ + escaped_char(c),
{
    let ghost before = out@;
    if c == '"' || c == '\\' {
        push_char(out, '\\');
        push_char(out, c);
    } else if c == '\n' {
        push_char(out, '\\');
        push_char(out, 'n');
    } else if c == '\r' {
        push_char(out, '\\');
        push_char(out, 'r');
    } else if c == '\t' {
        push_char(out, '\\');
        push_char(out, 't');
    } else if c == '\x08' {
        push_char(out, '\\');
        push_char(out, 'b');
    } else if c == '\x0c' {
        push_char(out, '\\');
        push_char(out, 'f');
    } else if (c as u32) < 0x20 {
        let digits = vec!['0', '1', '2', '3', '4', '5', '6', '7', '8', '9', 'a', 'b', 'c', 'd', 'e', 'f'];
        assert(digits@ == hex_digits());
        let n = c as u32;
        push_char(out, '\\');
        push_char(out, 'u');
        push_char(out, '0');
        push_char(out, '0');
        push_char(out, digits[(n / 16) as usize]);
        push_char(out, digits[(n % 16) as usize]);
    } else {
        push_char(out, c);
    }
    assert(out@ =~= before + escaped_char(c));
}

/// Appends `s` as a JSON string literal.
pub fn push_quoted(out: &mut String, s: &str)
    ensures
        final(out)@ == old(out)@ + quoted(s@),
{
    let ghost before = out@;
    push_char(out, '"');
    let n = s.unicode_len();
    let mut i: usize = 0;
    while i < n
        invariant
            n == s@.len(),
            i <= n,
            out@ == before + seq!['"'] + escaped(s@.subrange(0, i as int)),
        decreases n - i,
    {
        let c = s.get_char(i);
        push_escaped_char(out, c);
        assert(s@.subrange(0, i + 1).drop_last() =~= s@.subrange(0, i as int));
        i = i + 1;
        assert(out@ =~= before + seq!['"'] + escaped(s@.subrange(0, i as int)));
    }
    assert(s@.subrange(0, n as int) =~= s@);
    push_char(out, '"');
    assert(out@ =~= before + quoted(s@));
}

/// Appends the decimal text of `v`.
pub fn push_int(out: &mut String, v: i64)
    ensures
        final(out)@ == old(out)@ + int_text(v as int),
{
    let d = decimal(v);
    out.append(d.as_str());
}

/// Items separated by commas.
pub open spec fn joined(items: Seq<Seq<char>>) -> Seq<char>
    decreases items.len(),
{
    if items.len() == 0 {
        Seq::empty()
    } else if items.len() == 1 {
        items[0]
    } else {
        joined(items.drop_last()) + seq![','] + items.last()
    }
}

/// A JSON object with the given `"name":value` members.
pub open spec fn object(members: Seq<Seq<char>>) -> Seq<char> {
    seq!['{'] + joined(members) + seq!['}']
}

/// A JSON array with the given elements.
pub open spec fn array(items: Seq<Seq<char>>) -> Seq<char> {
    seq!['['] + joined(items) + seq![']']
}

/// One `"name":value` member.
pub open spec fn member(name: Seq<char>, value: Seq<char>) -> Seq<char> {
    quoted(name) + seq![':'] + value
}

/// An optional number: its text, or `null`.
pub open spec fn nullable_int_text(v: Option<i64>) -> Seq<char> {
    match v {
        Some(x) => int_text(x as int),
        None => seq!['n', 'u', 'l', 'l'],
    }
}

pub open spec fn day_value_text(v: CameraDayValue) -> Seq<char> {
    object(
        seq![
            member("startTime90k"@, int_text(v.start_time_90k as int)),
            member("endTime90k"@, int_text(v.end_time_90k as int)),
            member("totalDuration90k"@, int_text(v.total_duration_90k as int)),
        ],
    )
}

pub open spec fn day_member(e: (String, CameraDayValue)) -> Seq<char> {
    member(e.0@, day_value_text(e.1))
}

/// The day summaries as an object keyed by day identifier, in list order.
pub open spec fn days_text(d: Seq<(String, CameraDayValue)>) -> Seq<char> {
    object(d.map_values(|e: (String, CameraDayValue)| day_member(e)))
}

/// The members of a camera's object; `days` only when present.
pub open spec fn camera_members(c: &Camera) -> Seq<Seq<char>> {
    let base = seq![
        member("uuid"@, quoted(uuid_text(c.uuid))),
        member("shortName"@, quoted(c.short_name@)),
        member("description"@, quoted(c.description@)),
        member("retainBytes"@, int_text(c.retain_bytes as int)),
        member("minStartTime90k"@, nullable_int_text(c.min_start_time_90k)),
        member("maxEndTime90k"@, nullable_int_text(c.max_end_time_90k)),
        member("totalDuration90k"@, int_text(c.total_duration_90k as int)),
        member("totalSampleFileBytes"@, int_text(c.total_sample_file_bytes as int)),
    ];
    match c.days {
        Some(d) => base.push(member("days"@, days_text(d@))),
        None => base,
    }
}

pub open spec fn camera_text(c: &Camera) -> Seq<char> {
    object(camera_members(c))
}

/// The cameras as an array, each element a camera object.
pub open spec fn cameras_text(cs: Seq<Camera>) -> Seq<char> {
    array(cs.map_values(|c: Camera| camera_text(&c)))
}

pub open spec fn top_level_text(t: &TopLevel) -> Seq<char> {
    object(
        seq![
            member("timeZoneName"@, quoted(t.time_zone_name@)),
            member("cameras"@, cameras_text(t.cameras@)),
        ],
    )
}

/// The members of a segment's object; `endId` only when present.
pub open spec fn recording_members(r: &Recording) -> Seq<Seq<char>> {
    let head = seq![
        member("startTime90k"@, int_text(r.start_time_90k as int)),
        member("endTime90k"@, int_text(r.end_time_90k as int)),
        member("sampleFileBytes"@, int_text(r.sample_file_bytes as int)),
        member("videoSamples"@, int_text(r.video_samples as int)),
        member("videoSampleEntrySha1"@, quoted(r.video_sample_entry_sha1@)),
        member("startId"@, int_text(r.start_id as int)),
    ];
    let with_end = match r.end_id {
        Some(e) => head.push(member("endId"@, int_text(e as int))),
        None => head,
    };
    with_end + seq![
        member("videoSampleEntryWidth"@, int_text(r.video_sample_entry_width as int)),
        member("videoSampleEntryHeight"@, int_text(r.video_sample_entry_height as int)),
    ]
}

pub open spec fn recording_text(r: &Recording) -> Seq<char> {
    object(recording_members(r))
}

pub open spec fn recordings_text(rs: Seq<Recording>) -> Seq<char> {
    array(rs.map_values(|r: Recording| recording_text(&r)))
}

pub open spec fn list_recordings_text(l: &ListRecordings) -> Seq<char> {
    object(seq![member("recordings"@, recordings_text(l.recordings@))])
}

proof fn lemma_joined_push(s: Seq<Seq<char>>, x: Seq<char>)
    ensures
        joined(s.push(x)) == (if s.len() == 0 {
            x
        } else {
            joined(s) + seq![','] + x
        }),
{
    assert(s.push(x).drop_last() =~= s);
}

/// Appends the separator (none before the first member or element).
fn push_separator(
    out: &mut String,
    Ghost(prefix): Ghost<Seq<char>>,
    Ghost(items): Ghost<Seq<Seq<char>>>,
    count: usize,
)
    requires
        count == items.len(),
        old(out)@ == prefix + joined(items),
    ensures
        forall|v: Seq<char>|
            #![trigger joined(items.push(v))]
            final(out)@ + v == prefix + joined(items.push(v)),
{
    if count > 0 {
        push_char(out, ',');
    }
    let ghost after = out@;
    assert forall|v: Seq<char>| #![trigger joined(items.push(v))] after + v == prefix + joined(items.push(v)) by {
        lemma_joined_push(items, v);
        assert(after + v =~= prefix + joined(items.push(v)));
    }
}

/// Appends the separator and `"name":`.
fn push_key(
    out: &mut String,
    Ghost(prefix): Ghost<Seq<char>>,
    Ghost(members): Ghost<Seq<Seq<char>>>,
    count: usize,
    name: &str,
)
    requires
        count == members.len(),
        old(out)@ == prefix + joined(members),
    ensures
        forall|v: Seq<char>|
            #![trigger joined(members.push(member(name@, v)))]
            final(out)@ + v == prefix + joined(members.push(member(name@, v))),
{
    push_separator(out, Ghost(prefix), Ghost(members), count);
    let ghost mid = out@;
    push_quoted(out, name);
    push_char(out, ':');
    let ghost after = out@;
    assert forall|v: Seq<char>|
        #![trigger joined(members.push(member(name@, v)))]
        after + v == prefix + joined(members.push(member(name@, v))) by {
        assert(after + v =~= mid + member(name@, v));
    }
}

impl CameraDayValue {
    pub fn write_json(&self, out: &mut String)
        ensures
            final(out)@ == old(out)@ + day_value_text(*self),
    {
        let ghost p = out@;
        push_char(out, '{');
        let ghost prefix = out@;
        let ghost ms: Seq<Seq<char>> = Seq::empty();
        assert(out@ =~= prefix + joined(ms));
        push_key(out, Ghost(prefix), Ghost(ms), 0, "startTime90k");
        push_int(out, self.start_time_90k);
        proof { ms = ms.push(member("startTime90k"@, int_text(self.start_time_90k as int))); }
        push_key(out, Ghost(prefix), Ghost(ms), 1, "endTime90k");
        push_int(out, self.end_time_90k);
        proof { ms = ms.push(member("endTime90k"@, int_text(self.end_time_90k as int))); }
        push_key(out, Ghost(prefix), Ghost(ms), 2, "totalDuration90k");
        push_int(out, self.total_duration_90k);
        proof { ms = ms.push(member("totalDuration90k"@, int_text(self.total_duration_90k as int))); }
        push_char(out, '}');
        assert(ms =~= seq![
            member("startTime90k"@, int_text(self.start_time_90k as int)),
            member("endTime90k"@, int_text(self.end_time_90k as int)),
            member("totalDuration90k"@, int_text(self.total_duration_90k as int)),
        ]);
        assert(out@ =~= p + day_value_text(*self));
    }
}

/// Appends the day summaries as an object keyed by day identifier.
fn push_days(out: &mut String, d: &Vec<(String, CameraDayValue)>)
    ensures
        final(out)@ == old(out)@ + days_text(d@),
{
    let ghost p = out@;
    push_char(out, '{');
    let ghost prefix = out@;
    let ghost f = |e: (String, CameraDayValue)| day_member(e);
    let n = d.len();
    let mut i: usize = 0;
    assert(out@ =~= prefix + joined(d@.take(0).map_values(f)));
    while i < n
        invariant
            n == d@.len(),
            i <= n,
            f == (|e: (String, CameraDayValue)| day_member(e)),
            out@ == prefix + joined(d@.take(i as int).map_values(f)),
        decreases n - i,
    {
        let ghost ms = d@.take(i as int).map_values(f);
        let e = &d[i];
        push_key(out, Ghost(prefix), Ghost(ms), i, e.0.as_str());
        e.1.write_json(out);
        assert(d@.take(i + 1).map_values(f) =~= ms.push(member(e.0@, day_value_text(e.1))));
        i = i + 1;
    }
    assert(d@.take(n as int) =~= d@);
    push_char(out, '}');
    assert(out@ =~= p + days_text(d@));
}

/// Appends an optional number, `null` when absent.
fn push_nullable_int(out: &mut String, v: Option<i64>)
    ensures
        final(out)@ == old(out)@ + nullable_int_text(v),
{
    let ghost p = out@;
    match v {
        Some(x) => push_int(out, x),
        None => {
            push_char(out, 'n');
            push_char(out, 'u');
            push_char(out, 'l');
            push_char(out, 'l');
        },
    }
    assert(out@ =~= p + nullable_int_text(v));
}

impl Camera {
    pub fn write_json(&self, out: &mut String)
        ensures
            final(out)@ == old(out)@ + camera_text(self),
    {
        let ghost p = out@;
        push_char(out, '{');
        let ghost prefix = out@;
        let ghost ms: Seq<Seq<char>> = Seq::empty();
        assert(out@ =~= prefix + joined(ms));
        push_key(out, Ghost(prefix), Ghost(ms), 0, "uuid");
        let u = hyphenated(self.uuid);
        push_quoted(out, u.as_str());
        proof { ms = ms.push(member("uuid"@, quoted(uuid_text(self.uuid)))); }
        push_key(out, Ghost(prefix), Ghost(ms), 1, "shortName");
        push_quoted(out, self.short_name.as_str());
        proof { ms = ms.push(member("shortName"@, quoted(self.short_name@))); }
        push_key(out, Ghost(prefix), Ghost(ms), 2, "description");
        push_quoted(out, self.description.as_str());
        proof { ms = ms.push(member("description"@, quoted(self.description@))); }
        push_key(out, Ghost(prefix), Ghost(ms), 3, "retainBytes");
        push_int(out, self.retain_bytes);
        proof { ms = ms.push(member("retainBytes"@, int_text(self.retain_bytes as int))); }
        push_key(out, Ghost(prefix), Ghost(ms), 4, "minStartTime90k");
        push_nullable_int(out, self.min_start_time_90k);
        proof { ms = ms.push(member("minStartTime90k"@, nullable_int_text(self.min_start_time_90k))); }
        push_key(out, Ghost(prefix), Ghost(ms), 5, "maxEndTime90k");
        push_nullable_int(out, self.max_end_time_90k);
        proof { ms = ms.push(member("maxEndTime90k"@, nullable_int_text(self.max_end_time_90k))); }
        push_key(out, Ghost(prefix), Ghost(ms), 6, "totalDuration90k");
        push_int(out, self.total_duration_90k);
        proof { ms = ms.push(member("totalDuration90k"@, int_text(self.total_duration_90k as int))); }
        push_key(out, Ghost(prefix), Ghost(ms), 7, "totalSampleFileBytes");
        push_int(out, self.total_sample_file_bytes);
        proof {
            ms = ms.push(member("totalSampleFileBytes"@, int_text(self.total_sample_file_bytes as int)));
        }
        match &self.days {
            Some(d) => {
                push_key(out, Ghost(prefix), Ghost(ms), 8, "days");
                push_days(out, d);
                proof { ms = ms.push(member("days"@, days_text(d@))); }
            },
            None => {},
        }
        push_char(out, '}');
        assert(ms =~= camera_members(self));
        assert(out@ =~= p + camera_text(self));
    }

    /// The camera's JSON object.
    pub fn to_json(&self) -> (r: String)
        ensures
            r@ == camera_text(self),
    {
        let mut out = String::new();
        self.write_json(&mut out);
        assert(out@ =~= camera_text(self));
        out
    }
}

/// Appends the cameras as an array of camera objects.
fn push_cameras(out: &mut String, cs: &Vec<Camera>)
    ensures
        final(out)@ == old(out)@ + cameras_text(cs@),
{
    let ghost p = out@;
    push_char(out, '[');
    let ghost prefix = out@;
    let ghost f = |c: Camera| camera_text(&c);
    let n = cs.len();
    let mut i: usize = 0;
    assert(out@ =~= prefix + joined(cs@.take(0).map_values(f)));
    while i < n
        invariant
            n == cs@.len(),
            i <= n,
            f == (|c: Camera| camera_text(&c)),
            out@ == prefix + joined(cs@.take(i as int).map_values(f)),
        decreases n - i,
    {
        let ghost items = cs@.take(i as int).map_values(f);
        push_separator(out, Ghost(prefix), Ghost(items), i);
        cs[i].write_json(out);
        assert(cs@.take(i + 1).map_values(f) =~= items.push(camera_text(&cs@[i as int])));
        i = i + 1;
    }
    assert(cs@.take(n as int) =~= cs@);
    push_char(out, ']');
    assert(out@ =~= p + cameras_text(cs@));
}

impl TopLevel {
    /// The listing's JSON object: the time zone and the array of cameras.
    pub fn to_json(&self) -> (r: String)
        ensures
            r@ == top_level_text(self),
    {
        let mut out = String::new();
        push_char(&mut out, '{');
        let ghost prefix = out@;
        let ghost ms: Seq<Seq<char>> = Seq::empty();
        assert(out@ =~= prefix + joined(ms));
        push_key(&mut out, Ghost(prefix), Ghost(ms), 0, "timeZoneName");
        push_quoted(&mut out, self.time_zone_name.as_str());
        proof { ms = ms.push(member("timeZoneName"@, quoted(self.time_zone_name@))); }
        push_key(&mut out, Ghost(prefix), Ghost(ms), 1, "cameras");
        push_cameras(&mut out, &self.cameras);
        proof { ms = ms.push(member("cameras"@, cameras_text(self.cameras@))); }
        push_char(&mut out, '}');
        assert(ms =~= seq![
            member("timeZoneName"@, quoted(self.time_zone_name@)),
            member("cameras"@, cameras_text(self.cameras@)),
        ]);
        assert(out@ =~= top_level_text(self));
        out
    }
}

impl Recording {
    pub fn write_json(&self, out: &mut String)
        ensures
            final(out)@ == old(out)@ + recording_text(self),
    {
        let ghost p = out@;
        push_char(out, '{');
        let ghost prefix = out@;
        let ghost ms: Seq<Seq<char>> = Seq::empty();
        assert(out@ =~= prefix + joined(ms));
        push_key(out, Ghost(prefix), Ghost(ms), 0, "startTime90k");
        push_int(out, self.start_time_90k);
        proof { ms = ms.push(member("startTime90k"@, int_text(self.start_time_90k as int))); }
        push_key(out, Ghost(prefix), Ghost(ms), 1, "endTime90k");
        push_int(out, self.end_time_90k);
        proof { ms = ms.push(member("endTime90k"@, int_text(self.end_time_90k as int))); }
        push_key(out, Ghost(prefix), Ghost(ms), 2, "sampleFileBytes");
        push_int(out, self.sample_file_bytes);
        proof { ms = ms.push(member("sampleFileBytes"@, int_text(self.sample_file_bytes as int))); }
        push_key(out, Ghost(prefix), Ghost(ms), 3, "videoSamples");
        push_int(out, self.video_samples);
        proof { ms = ms.push(member("videoSamples"@, int_text(self.video_samples as int))); }
        push_key(out, Ghost(prefix), Ghost(ms), 4, "videoSampleEntrySha1");
        push_quoted(out, self.video_sample_entry_sha1.as_str());
        proof {
            ms = ms.push(member("videoSampleEntrySha1"@, quoted(self.video_sample_entry_sha1@)));
        }
        push_key(out, Ghost(prefix), Ghost(ms), 5, "startId");
        push_int(out, self.start_id as i64);
        proof { ms = ms.push(member("startId"@, int_text(self.start_id as int))); }
        let mut count: usize = 6;
        match self.end_id {
            Some(e) => {
                push_key(out, Ghost(prefix), Ghost(ms), 6, "endId");
                push_int(out, e as i64);
                proof { ms = ms.push(member("endId"@, int_text(e as int))); }
                count = 7;
            },
            None => {},
        }
        push_key(out, Ghost(prefix), Ghost(ms), count, "videoSampleEntryWidth");
        push_int(out, self.video_sample_entry_width as i64);
        proof {
            ms = ms.push(member("videoSampleEntryWidth"@, int_text(self.video_sample_entry_width as int)));
        }
        push_key(out, Ghost(prefix), Ghost(ms), count + 1, "videoSampleEntryHeight");
        push_int(out, self.video_sample_entry_height as i64);
        proof {
            ms = ms.push(
                member("videoSampleEntryHeight"@, int_text(self.video_sample_entry_height as int)),
            );
        }
        push_char(out, '}');
        assert(ms =~= recording_members(self));
        assert(out@ =~= p + recording_text(self));
    }

    /// The segment's JSON object.
    pub fn to_json(&self) -> (r: String)
        ensures
            r@ == recording_text(self),
    {
        let mut out = String::new();
        self.write_json(&mut out);
        assert(out@ =~= recording_text(self));
        out
    }
}

/// Appends the segments as an array of segment objects.
fn push_recordings(out: &mut String, rs: &Vec<Recording>)
    ensures
        final(out)@ == old(out)@ + recordings_text(rs@),
{
    let ghost p = out@;
    push_char(out, '[');
    let ghost prefix = out@;
    let ghost f = |r: Recording| recording_text(&r);
    let n = rs.len();
    let mut i: usize = 0;
    assert(out@ =~= prefix + joined(rs@.take(0).map_values(f)));
    while i < n
        invariant
            n == rs@.len(),
            i <= n,
            f == (|r: Recording| recording_text(&r)),
            out@ == prefix + joined(rs@.take(i as int).map_values(f)),
        decreases n - i,
    {
        let ghost items = rs@.take(i as int).map_values(f);
        push_separator(out, Ghost(prefix), Ghost(items), i);
        rs[i].write_json(out);
        assert(rs@.take(i + 1).map_values(f) =~= items.push(recording_text(&rs@[i as int])));
        i = i + 1;
    }
    assert(rs@.take(n as int) =~= rs@);
    push_char(out, ']');
    assert(out@ =~= p + recordings_text(rs@));
}

impl ListRecordings {
    /// The listing's JSON object: the array of segments under `recordings`.
    pub fn to_json(&self) -> (r: String)
        ensures
            r@ == list_recordings_text(self),
    {
        let mut out = String::new();
        push_char(&mut out, '{');
        let ghost prefix = out@;
        let ghost ms: Seq<Seq<char>> = Seq::empty();
        assert(out@ =~= prefix + joined(ms));
        push_key(&mut out, Ghost(prefix), Ghost(ms), 0, "recordings");
        push_recordings(&mut out, &self.recordings);
        proof { ms = ms.push(member("recordings"@, recordings_text(self.recordings@))); }
        push_char(&mut out, '}');
        assert(ms =~= seq![member("recordings"@, recordings_text(self.recordings@))]);
        assert(out@ =~= list_recordings_text(self));
        out
    }
}

} // verus!
