use vstd::prelude::*;
use arrayvec::ArrayVec;

verus! {

/// The interrupt that a CD-ROM response raises, with its response bytes.
pub enum ResponseType {
    INT3(ArrayVec<u8, 8>),
    INT2(ArrayVec<u8, 8>),
    INT5([u8; 2]),
    INT1,
}

impl ResponseType {
    pub open spec fn spec_code(&self) -> u8 {
        match self {
            ResponseType::INT1 => 1,
            ResponseType::INT2(_) => 2,
            ResponseType::INT3(_) => 3,
            ResponseType::INT5(_) => 5,
        }
    }

    /// The interrupt number.
    pub fn code(&self) -> (r: u8)
        ensures
            r == self.spec_code(),
    {
        match self {
            ResponseType::INT1 => 1,
            ResponseType::INT2(_) => 2,
            ResponseType::INT3(_) => 3,
            ResponseType::INT5(_) => 5,
        }
    }
}

/// Bytes of one raw CD sector.
pub const SECTOR_SIZE: usize = 0x930;

/// Kind of a track.
#[derive(Debug, Clone, Copy, PartialEq, Eq, Structural)]
pub enum TrackType {
    Audio,
    Mode2352,
}

/// An index point of a track: its number and its byte position.
#[derive(Clone, Copy)]
pub struct TrackIndex {
    pub id: u8,
    pub lba: usize,
}

/// A track: its number, kind and index points.
pub struct Track {
    pub id: u8,
    pub track_type: TrackType,
    pub indexes: Vec<TrackIndex>,
}

/// A disc image: its raw sectors, the read position and the track list.
pub struct Image {
    pub read_head: usize,
    pub data: Vec<u8>,
    pub tracks: Vec<Track>,
}

/// `(minutes, seconds, sector)` of byte position `read_head`, each cut to
/// 8 bits; the seconds are taken as the minutes modulo 60.
pub open spec fn spec_mm_ss_ff(read_head: int) -> (u8, u8, u8) {
    let sectors = read_head / (SECTOR_SIZE as int);
    let secs = sectors / 75;
    let sect = sectors % 75;
    let mins = secs / 60;
    ((mins as u8), ((mins % 60) as u8), (sect as u8))
}

/// Number of leading entries of `s` (sorted by position) that start at or
/// before `pos`.
pub open spec fn spec_count_before(s: Seq<usize>, pos: int) -> int
    decreases s.len(),
{
    if s.len() == 0 || s[0] > pos {
        0
    } else {
        1 + spec_count_before(s.drop_first(), pos)
    }
}

/// `n - 1`, or 0.
pub open spec fn spec_sat_dec(n: int) -> int {
    if n > 0 { n - 1 } else { 0 }
}

impl Image {
    /// The answer to GetlocP: the current track and index, the position
    /// within the track (from the index's start) and on the disc, each as
    /// `(minutes, seconds, sector)`.
    pub open spec fn spec_position_info(&self) -> Seq<u8> {
        let t = spec_sat_dec(spec_count_before(self.track_starts(), self.read_head as int));
        let i = spec_sat_dec(spec_count_before(self.index_starts(t), self.read_head as int));
        let idx = self.tracks@[t].indexes@[i];
        let tp = spec_mm_ss_ff(spec_sat_dec(self.read_head - idx.lba + 1));
        let dp = spec_mm_ss_ff(self.read_head as int);
        seq![self.tracks@[t].id, idx.id, tp.0, tp.1, tp.2, dp.0, dp.1, dp.2]
    }

    /// Start positions of the tracks (of their first index).
    pub open spec fn track_starts(&self) -> Seq<usize> {
        Seq::new(self.tracks@.len(), |i: int| self.tracks@[i].indexes@[0].lba)
    }

    /// Positions of the indexes of track `t`.
    pub open spec fn index_starts(&self, t: int) -> Seq<usize> {
        Seq::new(self.tracks@[t].indexes@.len(), |i: int| self.tracks@[t].indexes@[i].lba)
    }

    /// At least one track; every track has an index; tracks and indexes are
    /// in disc order.
    pub open spec fn wf(&self) -> bool {
        &&& self.tracks@.len() > 0
        &&& forall|t: int| 0 <= t < self.tracks@.len() ==> #[trigger] self.tracks@[t].indexes@.len() > 0
        &&& forall|i: int, j: int| 0 <= i <= j < self.tracks@.len() ==> self.tracks@[i].indexes@[0].lba <= self.tracks@[j].indexes@[0].lba
        &&& forall|t: int, i: int, j: int| 0 <= t < self.tracks@.len() && 0 <= i <= j < self.tracks@[t].indexes@.len()
            ==> self.tracks@[t].indexes@[i].lba <= self.tracks@[t].indexes@[j].lba
    }

    /// The image of a disc whose raw sectors are `contents`: two seconds of
    /// empty sectors (the lead-in) followed by the contents, read from the
    /// start, with one data track.
    pub fn from_contents(contents: Vec<u8>) -> (r: Image)
        requires
            contents@.len() + 2 * 75 * SECTOR_SIZE <= usize::MAX,
        ensures
            r.wf(),
            r.read_head == 0,
            r.data@ == Seq::new(2 * 75 * SECTOR_SIZE as nat, |i: int| 0u8) + contents@,
            r.tracks@.len() == 1,
            r.tracks@[0].id == 0 && r.tracks@[0].track_type == TrackType::Mode2352,
            r.tracks@[0].indexes@ == seq![TrackIndex { id: 1, lba: 0 }],
    {
        let mut data: Vec<u8> = Vec::new();
        let lead = 2 * 75 * SECTOR_SIZE;
        let mut i: usize = 0;
        while i < lead
            invariant
                i <= lead,
                lead == 2 * 75 * SECTOR_SIZE,
                data@ == Seq::new(i as nat, |k: int| 0u8),
            decreases lead - i,
        {
            data.push(0);
            i = i + 1;
            assert(data@ =~= Seq::new(i as nat, |k: int| 0u8));
        }
        let mut j: usize = 0;
        while j < contents.len()
            invariant
                j <= contents@.len(),
                data@ == Seq::new(lead as nat, |k: int| 0u8) + contents@.subrange(0, j as int),
            decreases contents@.len() - j,
        {
            data.push(contents[j]);
            j = j + 1;
            assert(data@ =~= Seq::new(lead as nat, |k: int| 0u8) + contents@.subrange(0, j as int));
        }
        assert(contents@.subrange(0, contents@.len() as int) =~= contents@);
        let mut indexes: Vec<TrackIndex> = Vec::new();
        indexes.push(TrackIndex { id: 1, lba: 0 });
        let mut tracks: Vec<Track> = Vec::new();
        tracks.push(Track { id: 0, track_type: TrackType::Mode2352, indexes });
        assert(indexes@ =~= seq![TrackIndex { id: 1, lba: 0 }]);
        Image { read_head: 0, data, tracks }
    }

    /// Moves the read position to `mins:secs:sect`.
    pub fn seek_location(&mut self, mins: u8, secs: u8, sect: u8)
        ensures
            final(self).read_head == ((mins as int) * 4500 + (secs as int) * 75 + (sect as int)) * SECTOR_SIZE,
            final(self).data == old(self).data && final(self).tracks == old(self).tracks,
    {
        let sectors = ((mins as usize) * 75 * 60) + ((secs as usize) * 75) + (sect as usize);
        self.read_head = sectors * SECTOR_SIZE;
    }

    /// The sector at the read position; the position moves past it.
    pub fn advance_sector(&mut self) -> (r: Vec<u8>)
        requires
            old(self).read_head + SECTOR_SIZE <= old(self).data@.len(),
        ensures
            r@ == old(self).data@.subrange(old(self).read_head as int, old(self).read_head + SECTOR_SIZE),
            final(self).read_head == old(self).read_head + SECTOR_SIZE,
            final(self).data == old(self).data && final(self).tracks == old(self).tracks,
    {
        let _len = self.data.len();
        let start = self.read_head;
        self.read_head = self.read_head + SECTOR_SIZE;
        let mut out: Vec<u8> = Vec::new();
        let mut i = start;
        while i < self.read_head
            invariant
                start <= i <= self.read_head,
                self.read_head == start + SECTOR_SIZE,
                self.read_head <= self.data@.len(),
                out@ == self.data@.subrange(start as int, i as int),
            decreases self.read_head - i,
        {
            out.push(self.data[i]);
            i = i + 1;
            assert(out@ =~= self.data@.subrange(start as int, i as int));
        }
        out
    }

    /// Moves the read position back to the end of the lead-in.
    pub fn reset_read_head(&mut self)
        ensures
            final(self).read_head == SECTOR_SIZE * 150,
            final(self).data == old(self).data && final(self).tracks == old(self).tracks,
    {
        self.read_head = SECTOR_SIZE * 75 * 2;
    }

    /// Number of the first track.
    pub fn first_track_id(&self) -> (r: u8)
        requires
            self.tracks@.len() > 0,
        ensures
            r == self.tracks@[0].id,
    {
        self.tracks[0].id
    }

    /// Number of the last track (taken from the first track's entry).
    pub fn last_track_id(&self) -> (r: u8)
        requires
            self.tracks@.len() > 0,
        ensures
            r == self.tracks@[0].id,
    {
        self.tracks[0].id
    }

    /// `(minutes, seconds, sector)` of byte position `read_head`.
    pub fn mm_ss_ff(&self, read_head: usize) -> (r: (u8, u8, u8))
        ensures
            r == spec_mm_ss_ff(read_head as int),
    {
        let sectors = read_head / SECTOR_SIZE;
        let secs = sectors / 75;
        let sect = sectors % 75;
        let mins = secs / 60;
        let secs = mins % 60;
        (mins as u8, secs as u8, sect as u8)
    }

    /// Start of track `track_id` (its index 1, or its second index when the
    /// first is not index 1), as `(minutes, seconds, sector)`.
    pub fn track_mm_ss_ff(&self, track_id: u8) -> (r: (u8, u8, u8))
        requires
            1 <= track_id <= self.tracks@.len(),
            self.tracks@[track_id - 1].indexes@.len() > 0,
            self.tracks@[track_id - 1].indexes@[0].id != 1 ==> self.tracks@[track_id - 1].indexes@.len() > 1,
        ensures
            r == spec_mm_ss_ff(
                (if self.tracks@[track_id - 1].indexes@[0].id == 1 {
                    self.tracks@[track_id - 1].indexes@[0].lba
                } else {
                    self.tracks@[track_id - 1].indexes@[1].lba
                }) as int,
            ),
    {
        let track = &self.tracks[track_id as usize - 1];
        let start = if track.indexes[0].id == 1 {
            track.indexes[0].lba
        } else {
            track.indexes[1].lba
        };
        self.mm_ss_ff(start)
    }

    /// End of the disc, as `(minutes, seconds, sector)`.
    pub fn last_track_end(&self) -> (r: (u8, u8, u8))
        ensures
            r == spec_mm_ss_ff(self.data@.len() as int),
    {
        self.mm_ss_ff(self.data.len())
    }

    /// The current track and index numbers, the position within the track
    /// and on the disc (as `(minutes, seconds, sector)`): the answer to
    /// GetlocP.
    pub fn current_position_info(&self) -> (r: [u8; 8])
        requires
            self.wf(),
        ensures
            r@ == self.spec_position_info(),
    {
        let mut n: usize = 0;
        assert(self.track_starts().skip(0) =~= self.track_starts());
        while n < self.tracks.len() && self.tracks[n].indexes[0].lba <= self.read_head
            invariant
                self.wf(),
                n <= self.tracks@.len(),
                spec_count_before(self.track_starts(), self.read_head as int) == n + spec_count_before(
                    self.track_starts().skip(n as int),
                    self.read_head as int,
                ),
            decreases self.tracks@.len() - n,
        {
            proof {
                assert(self.track_starts().skip(n as int).drop_first() =~= self.track_starts().skip(n + 1));
            }
            n = n + 1;
        }
        let ghost count = spec_count_before(self.track_starts(), self.read_head as int);
        proof {
            if n < self.tracks@.len() {
                assert(self.track_starts().skip(n as int)[0] == self.tracks@[n as int].indexes@[0].lba);
            } else {
                assert(self.track_starts().skip(n as int).len() == 0);
            }
        }
        let t = if n > 0 { n - 1 } else { 0 };
        let track = &self.tracks[t];
        let mut m: usize = 0;
        assert(self.index_starts(t as int).skip(0) =~= self.index_starts(t as int));
        while m < track.indexes.len() && track.indexes[m].lba <= self.read_head
            invariant
                self.wf(),
                t < self.tracks@.len(),
                track == self.tracks@[t as int],
                m <= track.indexes@.len(),
                spec_count_before(self.index_starts(t as int), self.read_head as int) == m + spec_count_before(
                    self.index_starts(t as int).skip(m as int),
                    self.read_head as int,
                ),
            decreases track.indexes@.len() - m,
        {
            proof {
                assert(self.index_starts(t as int).skip(m as int).drop_first() =~= self.index_starts(t as int).skip(m + 1));
            }
            m = m + 1;
        }
        proof {
            if m < track.indexes@.len() {
                assert(self.index_starts(t as int).skip(m as int)[0] == track.indexes@[m as int].lba);
            } else {
                assert(self.index_starts(t as int).skip(m as int).len() == 0);
            }
        }
        let i = if m > 0 { m - 1 } else { 0 };
        let index = track.indexes[i];
        let rel = if self.read_head > index.lba { self.read_head - index.lba } else { 0 };
        let track_pos = self.mm_ss_ff(rel);
        let disk_pos = self.mm_ss_ff(self.read_head);
        let r = [track.id, index.id, track_pos.0, track_pos.1, track_pos.2, disk_pos.0, disk_pos.1, disk_pos.2];
        assert(r@ =~= seq![track.id, index.id, track_pos.0, track_pos.1, track_pos.2, disk_pos.0, disk_pos.1, disk_pos.2]);
        r
    }
}

} // verus!
