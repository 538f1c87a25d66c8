use vstd::prelude::*;
use std::collections::VecDeque;
use arrayvec::ArrayVec;
use crate::arrayvec_specs::{
    bytes1024, bytes1024_clear, bytes1024_get, bytes1024_len, bytes1024_new, bytes1024_push, bytes16, bytes16_clear,
    bytes16_len, bytes16_new, bytes16_push, bytes16_remove_first, bytes8, bytes8_new, bytes8_push, bytes8_len,
    bytes8_get, responses2, responses2_len, responses2_new, responses2_push,
};
use crate::cdrom::{spec_mm_ss_ff, Image, ResponseType, SECTOR_SIZE};
use crate::arrayvec_specs::{responses2_remove_first, tasks32_len};
use crate::memory_bus::MemoryBus;
use crate::addressable::{AccessWidth, Addressable};
use crate::bytes::spec_read_le;
use crate::irq::with_bit;
use crate::scheduler::{lemma_unscheduled_sorted, spec_insert_task, spec_unscheduled, Event, Task};

verus! {

/// Typical delay of a command's first response, in CPU cycles.
pub const AVG_1ST_RESP_GENERIC: u64 = 0xC4E1;
/// Typical delay of the first response of Init and of the TOC commands.
pub const AVG_1ST_RESP_INIT: u64 = 0x13CCE;
/// Typical delay of GetID's second response.
pub const AVG_2ND_RESP_GET_ID: u64 = 0x4A00;
/// Typical delay of Pause's second response.
pub const AVG_2ND_RESP_PAUSE: u64 = 0x0021_181C;
/// Typical delay of SeekL's second response.
pub const AVG_2ND_RESP_SEEKL: u64 = 0x6E1CD;
/// Time between two sectors at normal speed.
pub const AVG_RATE_INT1: u64 = 0x6E1CD;

/// Why the CD-ROM controller could not carry out a request.
#[derive(Clone, Copy, PartialEq, Eq, Structural, Debug)]
pub enum CdRomError {
    /// The command needs a disc and there is none.
    NoDisk,
    /// The command (or Test sub-command) is not one the drive knows.
    UnknownCommand,
    /// The register is not handled for this bank, offset or width.
    Register,
    /// A position on the disc does not fit in two BCD digits.
    BadPosition,
    /// The result FIFO was read while empty.
    EmptyResults,
    /// The parameter FIFO is full.
    FullParameters,
    /// The event queue has no room for the responses.
    SchedulerFull,
    /// The read position is past the end of the disc.
    EndOfDisc,
    /// An XA-ADPCM audio sector, which this drive does not decode.
    XaAudio,
    /// A CD-DA sector arrived while CD-DA reading is off.
    Cdda,
}

/// Drive status: bit 7 playing, 6 seeking, 5 reading, 4 shell open, 3 ID
/// error, 2 seek error, 1 motor on, 0 error.
#[derive(Clone, Copy, PartialEq, Eq, Structural, Debug)]
pub struct Status(pub u8);

impl Status {
    /// The status with the error bit set.
    pub fn with_error(&self) -> (r: u8)
        ensures
            r == self.0 | 1,
    {
        self.0 | 0x01
    }
}

/// Drive speed (mode bit 7).
#[derive(Clone, Copy, PartialEq, Eq, Structural, Debug)]
pub enum Speed {
    Normal,
    Double,
}

/// What a read sector delivers (mode bit 5).
#[derive(Clone, Copy, PartialEq, Eq, Structural, Debug)]
pub enum SectorSize {
    /// 800h bytes of user data.
    DataOnly,
    /// 924h bytes: the whole sector but its sync bytes.
    WholeSectorExceptSyncBytes,
}

/// The speed that mode byte `mode` selects.
pub open spec fn spec_speed(mode: u8) -> Speed {
    if (mode >> 7u8) & 1 == 1 {
        Speed::Double
    } else {
        Speed::Normal
    }
}

/// A delay at the drive's speed: halved at double speed.
pub open spec fn spec_transform(s: Speed, value: u64) -> u64 {
    match s {
        Speed::Normal => value,
        Speed::Double => value / 2,
    }
}

impl Speed {
    /// The speed of mode byte `mode`.
    pub fn from_mode(mode: u8) -> (r: Speed)
        ensures
            r == spec_speed(mode),
    {
        if (mode >> 7) & 1 == 1 {
            Speed::Double
        } else {
            Speed::Normal
        }
    }

    /// `value` at this speed: halved at double speed.
    pub fn transform(self, value: u64) -> (r: u64)
        ensures
            r == spec_transform(self, value),
    {
        match self {
            Speed::Normal => value,
            Speed::Double => value / 2,
        }
    }
}

impl SectorSize {
    /// The sector size of mode byte `mode`.
    pub fn from_mode(mode: u8) -> (r: SectorSize)
        ensures
            r == (if (mode >> 5u8) & 1 == 1 { SectorSize::WholeSectorExceptSyncBytes } else { SectorSize::DataOnly }),
    {
        if (mode >> 5) & 1 == 1 {
            SectorSize::WholeSectorExceptSyncBytes
        } else {
            SectorSize::DataOnly
        }
    }
}

/// `val` read as two BCD digits, when both are decimal digits.
pub open spec fn spec_from_bcd(val: u8) -> Option<u8> {
    let ones = val & 0xf;
    let tens = val >> 4u8;
    if tens <= 9 && ones <= 9 {
        Some((10 * tens + ones) as u8)
    } else {
        None
    }
}

/// `val` as two BCD digits, when it is at most 99.
pub open spec fn spec_to_bcd(val: u8) -> Option<u8> {
    if val > 99 {
        None
    } else {
        Some((((val / 10) as u8) << 4u8) | ((val % 10) as u8))
    }
}

/// Reads two BCD digits.
pub fn from_bcd(val: u8) -> (r: Option<u8>)
    ensures
        r == spec_from_bcd(val),
{
    let ones = val & 0xf;
    let tens = val >> 4;
    if tens <= 9 && ones <= 9 {
        Some(10 * tens + ones)
    } else {
        None
    }
}

/// Writes two BCD digits.
pub fn to_bcd(val: u8) -> (r: Option<u8>)
    ensures
        r == spec_to_bcd(val),
{
    if val > 99 {
        return None;
    }
    let tens = val / 10;
    let ones = val % 10;
    Some((tens << 4) | ones)
}

/// Every byte of `info` as two BCD digits, `None` if one is above 99.
fn bcd_all(info: [u8; 8]) -> (r: Option<[u8; 8]>)
    ensures
        match r {
            Some(b) => spec_bcd_all(info@) == Some(b@),
            None => spec_bcd_all(info@) is None,
        },
{
    let mut out = [0u8; 8];
    let mut i: usize = 0;
    while i < 8
        invariant
            i <= 8,
            out@.len() == 8,
            forall|k: int| 0 <= k < i ==> #[trigger] info@[k] <= 99,
            forall|k: int| 0 <= k < i ==> #[trigger] out@[k] == spec_to_bcd(info@[k])->0,
        decreases 8 - i,
    {
        match to_bcd(info[i]) {
            Some(b) => {
                let ghost before = out@;
                out[i] = b;
                assert(out@ == before.update(i as int, b));
                assert(spec_to_bcd(info@[i as int]) == Some(b));
                assert forall|k: int| 0 <= k < i + 1 implies #[trigger] out@[k] == spec_to_bcd(info@[k])->0 by {
                    if k < i {
                        assert(out@[k] == before[k]);
                    }
                }
            },
            None => {
                assert(!(info@[i as int] <= 99));
                return None;
            },
        }
        i = i + 1;
    }
    assert(info@.len() == 8);
    assert(forall|k: int| 0 <= k < info@.len() ==> info@[k] <= 99);
    assert(out@ =~= info@.map_values(|x: u8| spec_to_bcd(x)->0));
    Some(out)
}

/// A response as plain values: its interrupt number and its bytes.
pub open spec fn spec_response(r: ResponseType) -> (u8, Seq<u8>) {
    match r {
        ResponseType::INT3(x) => (3, bytes8(x)),
        ResponseType::INT2(x) => (2, bytes8(x)),
        ResponseType::INT5(a) => (5, seq![a[0], a[1]]),
        ResponseType::INT1 => (1, Seq::<u8>::empty()),
    }
}

/// The responses a command gives, in order, each with its delay.
pub struct CommandResponse {
    pub responses: ArrayVec<(ResponseType, u64), 2>,
}

/// The responses as plain values: interrupt number, bytes, delay.
pub open spec fn spec_responses(c: CommandResponse) -> Seq<(u8, Seq<u8>, u64)> {
    responses2(c.responses).map_values(|p: (ResponseType, u64)| (spec_response(p.0).0, spec_response(p.0).1, p.1))
}

/// The single error response INT5 with the status' error bit set and
/// `err`.
pub open spec fn spec_error(status: u8, err: u8) -> Seq<(u8, Seq<u8>, u64)> {
    seq![(5u8, seq![status | 1, err], AVG_1ST_RESP_INIT)]
}

fn bytes_of<const N: usize>(data: [u8; N]) -> (r: ArrayVec<u8, 8>)
    requires
        N <= 8,
    ensures
        bytes8(r) == data@,
{
    let mut v = bytes8_new();
    let mut i: usize = 0;
    while i < N
        invariant
            i <= N <= 8,
            bytes8(v) == data@.subrange(0, i as int),
        decreases N - i,
    {
        bytes8_push(&mut v, data[i]);
        i = i + 1;
        assert(bytes8(v) =~= data@.subrange(0, i as int));
    }
    assert(data@.subrange(0, N as int) =~= data@);
    v
}

impl CommandResponse {
    pub fn new() -> (r: CommandResponse)
        ensures
            spec_responses(r) == Seq::<(u8, Seq<u8>, u64)>::empty(),
            responses2(r.responses).len() == 0,
    {
        let r = CommandResponse { responses: responses2_new() };
        assert(spec_responses(r) =~= Seq::<(u8, Seq<u8>, u64)>::empty());
        r
    }

    fn add(self, res: ResponseType, delay: u64) -> (r: CommandResponse)
        requires
            responses2(self.responses).len() < 2,
        ensures
            spec_responses(r) == spec_responses(self).push((spec_response(res).0, spec_response(res).1, delay)),
            responses2(r.responses) == responses2(self.responses).push((res, delay)),
    {
        let mut s = self;
        responses2_push(&mut s.responses, (res, delay));
        assert(spec_responses(s) =~= spec_responses(self).push((spec_response(res).0, spec_response(res).1, delay)));
        s
    }

    /// Adds an INT3 (acknowledge) response with `data`.
    pub fn int3<const N: usize>(self, data: [u8; N], delay: u64) -> (r: CommandResponse)
        requires
            N <= 8,
            responses2(self.responses).len() < 2,
        ensures
            responses2(r.responses).len() == responses2(self.responses).len() + 1,
            spec_responses(r) == spec_responses(self).push((3u8, data@, delay)),
    {
        let res = ResponseType::INT3(bytes_of(data));
        self.add(res, delay)
    }

    /// Adds an INT2 (complete) response with `data`.
    pub fn int2<const N: usize>(self, data: [u8; N], delay: u64) -> (r: CommandResponse)
        requires
            N <= 8,
            responses2(self.responses).len() < 2,
        ensures
            responses2(r.responses).len() == responses2(self.responses).len() + 1,
            spec_responses(r) == spec_responses(self).push((2u8, data@, delay)),
    {
        let res = ResponseType::INT2(bytes_of(data));
        self.add(res, delay)
    }

    /// Adds an INT5 (error) response with `data`.
    pub fn int5(self, data: [u8; 2], delay: u64) -> (r: CommandResponse)
        requires
            responses2(self.responses).len() < 2,
        ensures
            responses2(r.responses).len() == responses2(self.responses).len() + 1,
            spec_responses(r) == spec_responses(self).push((5u8, data@, delay)),
    {
        let res = ResponseType::INT5(data);
        let r = self.add(res, delay);
        assert(data@ =~= seq![data[0], data[1]]);
        r
    }

    /// Adds an INT1 (data ready) response.
    pub fn int1(self, delay: u64) -> (r: CommandResponse)
        requires
            responses2(self.responses).len() < 2,
        ensures
            responses2(r.responses).len() == responses2(self.responses).len() + 1,
            spec_responses(r) == spec_responses(self).push((1u8, Seq::<u8>::empty(), delay)),
    {
        self.add(ResponseType::INT1, delay)
    }
}

/// The error response for a status and an error byte.
fn error_response(stat: &Status, err_byte: u8) -> (r: CommandResponse)
    ensures
        spec_responses(r) == spec_error(stat.0, err_byte),
        responses2(r.responses).len() == 1,
{
    let r = CommandResponse::new().int5([stat.with_error(), err_byte], AVG_1ST_RESP_INIT);
    assert(spec_responses(r) =~= spec_error(stat.0, err_byte));
    r
}

/// The CD-ROM controller: the host interface registers, the parameter and
/// result FIFOs, the data buffer, the audio buffer and the disc.
pub struct CDRom {
    pub status: Status,
    /// Index/status register: bits 1-0 the register bank, 3 parameter FIFO
    /// empty, 4 parameter FIFO not full, 5 result FIFO not empty, 6 data
    /// request.
    pub hsts: u8,
    pub adpctl: u8,
    /// Interrupt enable: bits 2-0 for the response interrupts.
    pub hintmsk: u8,
    /// Mode: bit 7 double speed, 6 XA-ADPCM, 5 whole sector, 3 XA filter,
    /// 0 CD-DA.
    pub mode: u8,
    pub parameters: ArrayVec<u8, 1024>,
    pub results: ArrayVec<u8, 16>,
    /// Interrupt flags: bits 2-0 the pending response's interrupt.
    pub hinsts: u8,
    pub hcpctl: u8,
    pub disk: Option<Image>,
    pub data_buffer: VecDeque<u8>,
    pub audio_muted: bool,
    pub l2l_volume: u8,
    pub l2r_volume: u8,
    pub r2l_volume: u8,
    pub r2r_volume: u8,
    pub filter_file: u8,
    pub filter_channel: u8,
    pub audio_buffer: VecDeque<i16>,
}

/// `r` is a response list equal to `resp`.
pub open spec fn spec_gives(r: Result<CommandResponse, CdRomError>, resp: Seq<(u8, Seq<u8>, u64)>) -> bool {
    r matches Ok(c) && spec_responses(c) == resp && responses2(c.responses).len() == resp.len()
}

/// The disc with its read position back at the end of the lead-in.
pub open spec fn spec_reset_disk(d: Option<Image>) -> Option<Image> {
    match d {
        Some(i) => Some(Image { read_head: (SECTOR_SIZE * 150) as usize, ..i }),
        None => None,
    }
}

/// Every byte of `s` as two BCD digits, `None` if one is above 99.
pub open spec fn spec_bcd_all(s: Seq<u8>) -> Option<Seq<u8>> {
    if forall|i: int| 0 <= i < s.len() ==> s[i] <= 99 {
        Some(s.map_values(|x: u8| spec_to_bcd(x)->0))
    } else {
        None
    }
}

/// SetLoc's target as `(minutes, seconds, sector)`: three BCD parameters,
/// seconds below 60 and sectors below 75.
pub open spec fn spec_setloc_target(p: Seq<u8>) -> Option<(u8, u8, u8)> {
    match (spec_from_bcd(p[0]), spec_from_bcd(p[1]), spec_from_bcd(p[2])) {
        (Some(m), Some(sec), Some(f)) => if sec < 60 && f < 75 {
            Some((m, sec, f))
        } else {
            None
        },
        _ => None,
    }
}

/// The start of track `track` (`0` for the end of the disc) as
/// `(minutes, seconds)`, `None` where the disc has no such track.
pub open spec fn spec_track_start(d: Image, track: u8) -> Option<(u8, u8)> {
    if track == 0 {
        let p = spec_mm_ss_ff(d.data@.len() as int);
        Some((p.0, p.1))
    } else if track <= d.tracks@.len() && d.tracks@[track - 1].indexes@.len() > 0 && (d.tracks@[track - 1].indexes@[0].id != 1
        ==> d.tracks@[track - 1].indexes@.len() > 1) {
        let ix = d.tracks@[track - 1].indexes@;
        let p = spec_mm_ss_ff((if ix[0].id == 1 { ix[0].lba } else { ix[1].lba }) as int);
        Some((p.0, p.1))
    } else {
        None
    }
}

/// What command `cmd` does to the drive (`o` becomes `n`) and answers.
pub open spec fn spec_command(o: CDRom, n: CDRom, cmd: u8, r: Result<CommandResponse, CdRomError>) -> bool {
    let p = o.params();
    let st = o.status.0;
    let ack = seq![(3u8, seq![st], AVG_1ST_RESP_GENERIC)];
    if cmd == 0x00 {
        n == o && spec_gives(r, seq![(5u8, seq![0x11u8, 0x40u8], AVG_1ST_RESP_GENERIC)])
    } else if cmd == 0x01 {
        n == o && spec_gives(r, if p.len() != 0 { spec_error(st, 0x20) } else { ack })
    } else if cmd == 0x02 {
        if p.len() != 3 {
            n == o && spec_gives(r, spec_error(st, 0x20))
        } else {
            match spec_setloc_target(p) {
                None => n == o && spec_gives(r, spec_error(st, 0x10)),
                Some(t) => match o.disk {
                    None => n == o && r == Err::<CommandResponse, CdRomError>(CdRomError::NoDisk),
                    Some(d) => spec_gives(r, ack) && n == (CDRom {
                        disk: Some(Image { read_head: (((t.0 as int) * 4500 + (t.1 as int) * 75 + (t.2 as int)) * SECTOR_SIZE) as usize, ..d }),
                        ..o
                    }),
                },
            }
        }
    } else if cmd == 0x06 || cmd == 0x1b {
        if p.len() != 0 {
            n == o && spec_gives(r, spec_error(st, 0x20))
        } else {
            n == (CDRom { status: Status(st | 0x20), ..o }) && spec_gives(
                r,
                seq![
                    (3u8, seq![st | 0x20], AVG_1ST_RESP_GENERIC),
                    (1u8, Seq::<u8>::empty(), (AVG_1ST_RESP_GENERIC + spec_transform(spec_speed(o.mode), AVG_RATE_INT1)) as u64),
                ],
            )
        }
    } else if cmd == 0x08 {
        if p.len() != 0 {
            n == o && spec_gives(r, spec_error(st, 0x20))
        } else {
            let delay: u64 = if spec_speed(o.mode) == Speed::Normal { 0x0D3_8ACA } else { 0x18A_6076 };
            n == (CDRom { status: Status(st & !0x22u8), disk: spec_reset_disk(o.disk), ..o }) && spec_gives(
                r,
                seq![(3u8, seq![st & !0x20u8], AVG_1ST_RESP_INIT), (2u8, seq![st & !0x22u8], delay)],
            )
        }
    } else if cmd == 0x09 {
        if p.len() != 0 {
            n == o && spec_gives(r, spec_error(st, 0x20))
        } else {
            n == (CDRom { status: Status(st & !0x20u8), ..o }) && spec_gives(
                r,
                seq![(3u8, seq![st], AVG_1ST_RESP_GENERIC), (2u8, seq![st & !0x20u8], (AVG_1ST_RESP_GENERIC + AVG_2ND_RESP_PAUSE) as u64)],
            )
        }
    } else if cmd == 0x0a {
        if p.len() != 0 {
            n == o && spec_gives(r, spec_error(st, 0x20))
        } else {
            n == (CDRom { mode: 0x20, status: Status(st | 0x02), disk: spec_reset_disk(o.disk), ..o }) && spec_gives(
                r,
                seq![(3u8, seq![st], AVG_1ST_RESP_GENERIC), (2u8, seq![st | 0x02], (AVG_1ST_RESP_GENERIC + AVG_2ND_RESP_SEEKL) as u64)],
            )
        }
    } else if cmd == 0x0c {
        if p.len() != 0 {
            n == o && spec_gives(r, spec_error(st, 0x20))
        } else {
            n == (CDRom { audio_muted: false, ..o }) && spec_gives(r, ack)
        }
    } else if cmd == 0x0d {
        if p.len() != 2 {
            n == o && spec_gives(r, spec_error(st, 0x20))
        } else {
            n == (CDRom { filter_file: p[0], filter_channel: p[1], ..o }) && spec_gives(r, ack)
        }
    } else if cmd == 0x0e {
        if p.len() != 1 {
            n == o && spec_gives(r, spec_error(st, 0x20))
        } else {
            n == (CDRom { mode: p[0], ..o }) && spec_gives(r, ack)
        }
    } else if cmd == 0x11 {
        n == o && if p.len() != 0 {
            spec_gives(r, spec_error(st, 0x20))
        } else {
            match o.disk {
                None => r == Err::<CommandResponse, CdRomError>(CdRomError::NoDisk),
                Some(d) => match spec_bcd_all(d.spec_position_info()) {
                    Some(b) => spec_gives(r, seq![(3u8, b, AVG_1ST_RESP_GENERIC)]),
                    None => r == Err::<CommandResponse, CdRomError>(CdRomError::BadPosition),
                },
            }
        }
    } else if cmd == 0x13 {
        n == o && if p.len() != 0 {
            spec_gives(r, spec_error(st, 0x20))
        } else {
            match o.disk {
                None => r == Err::<CommandResponse, CdRomError>(CdRomError::NoDisk),
                Some(d) => match spec_to_bcd(d.tracks@[0].id) {
                    Some(b) => spec_gives(r, seq![(3u8, seq![st, b, b], AVG_1ST_RESP_INIT)]),
                    None => r == Err::<CommandResponse, CdRomError>(CdRomError::BadPosition),
                },
            }
        }
    } else if cmd == 0x14 {
        n == o && if p.len() != 1 {
            spec_gives(r, spec_error(st, 0x20))
        } else {
            match o.disk {
                None => r == Err::<CommandResponse, CdRomError>(CdRomError::NoDisk),
                Some(d) => match spec_from_bcd(p[0]) {
                    Some(t) => if t <= d.tracks@[0].id {
                        match spec_track_start(d, t) {
                            Some(ms) => match (spec_to_bcd(ms.0), spec_to_bcd(ms.1)) {
                                (Some(bm), Some(bs)) => spec_gives(r, seq![(3u8, seq![st, bm, bs], AVG_1ST_RESP_INIT)]),
                                _ => r == Err::<CommandResponse, CdRomError>(CdRomError::BadPosition),
                            },
                            None => r == Err::<CommandResponse, CdRomError>(CdRomError::BadPosition),
                        }
                    } else {
                        spec_gives(r, spec_error(st, 0x10))
                    },
                    None => spec_gives(r, spec_error(st, 0x10)),
                },
            }
        }
    } else if cmd == 0x15 {
        if p.len() != 0 {
            n == o && spec_gives(r, spec_error(st, 0x20))
        } else {
            n == (CDRom { status: Status(st & !0x40u8), ..o }) && spec_gives(
                r,
                seq![(3u8, seq![st | 0x40], AVG_1ST_RESP_GENERIC), (2u8, seq![st & !0x40u8], (AVG_1ST_RESP_GENERIC + AVG_2ND_RESP_SEEKL) as u64)],
            )
        }
    } else if cmd == 0x19 {
        n == o && if p.len() != 1 {
            spec_gives(r, spec_error(st, 0x20))
        } else if p[0] == 0x20 {
            spec_gives(r, seq![(3u8, seq![149u8, 5u8, 22u8, 193u8], AVG_1ST_RESP_GENERIC)])
        } else {
            r == Err::<CommandResponse, CdRomError>(CdRomError::UnknownCommand)
        }
    } else if cmd == 0x1a {
        n == o && if p.len() != 0 {
            spec_gives(r, spec_error(st, 0x20))
        } else {
            spec_gives(
                r,
                seq![
                    (3u8, seq![st], AVG_1ST_RESP_GENERIC),
                    (2u8, seq![0x02u8, 0x00, 0x20, 0x00, 0x53, 0x43, 0x45, 0x41], (AVG_1ST_RESP_GENERIC + AVG_2ND_RESP_GET_ID) as u64),
                ],
            )
        }
    } else {
        n == o && r == Err::<CommandResponse, CdRomError>(CdRomError::UnknownCommand)
    }
}

impl CDRom {
    pub open spec fn params(&self) -> Seq<u8> {
        bytes1024(self.parameters)
    }

    pub open spec fn wf(&self) -> bool {
        self.disk matches Some(d) ==> d.wf()
    }

    fn ack(&self) -> (r: CommandResponse)
        ensures
            spec_gives(Ok::<CommandResponse, CdRomError>(r), seq![(3u8, seq![self.status.0], AVG_1ST_RESP_GENERIC)]),
    {
        let r = CommandResponse::new().int3([self.status.0], AVG_1ST_RESP_GENERIC);
        assert(seq![self.status.0] =~= [self.status.0]@);
        r
    }

    fn param_error(&self) -> (r: Result<CommandResponse, CdRomError>)
        ensures
            spec_gives(r, spec_error(self.status.0, 0x20)),
    {
        Ok(error_response(&self.status, 0x20))
    }

    /// Command 00h: not a command; INT5 11h, 40h.
    pub fn cmd_unused(&mut self) -> (r: Result<CommandResponse, CdRomError>)
        ensures
            spec_command(*old(self), *final(self), 0x00, r),
    {
        let r = CommandResponse::new().int5([0x11, 0x40], AVG_1ST_RESP_GENERIC);
        assert(seq![0x11u8, 0x40u8] =~= [0x11u8, 0x40u8]@);
        Ok(r)
    }

    /// The answer to a command the drive refuses: error 40h.
    pub fn invalid(&mut self) -> (r: Result<CommandResponse, CdRomError>)
        ensures
            *final(self) == *old(self),
            spec_gives(r, spec_error(old(self).status.0, 0x40)),
    {
        Ok(error_response(&self.status, 0x40))
    }

    /// Nop (01h): the status.
    pub fn cmd_nop(&mut self) -> (r: Result<CommandResponse, CdRomError>)
        ensures
            spec_command(*old(self), *final(self), 0x01, r),
    {
        if bytes1024_len(&self.parameters) != 0 {
            return self.param_error();
        }
        Ok(self.ack())
    }

    /// Test (19h): sub-command 20h gives the drive BIOS date and version.
    pub fn cmd_test(&mut self) -> (r: Result<CommandResponse, CdRomError>)
        ensures
            spec_command(*old(self), *final(self), 0x19, r),
    {
        if bytes1024_len(&self.parameters) != 1 {
            return self.param_error();
        }
        let sub = bytes1024_get(&self.parameters, 0);
        if sub == 0x20 {
            let r = CommandResponse::new().int3([149u8, 5, 22, 193], AVG_1ST_RESP_GENERIC);
            assert(seq![149u8, 5u8, 22u8, 193u8] =~= [149u8, 5, 22, 193]@);
            Ok(r)
        } else {
            Err(CdRomError::UnknownCommand)
        }
    }

    /// SetLoc (02h): moves the read position to the BCD minutes, seconds and
    /// sector given.
    pub fn cmd_setloc(&mut self) -> (r: Result<CommandResponse, CdRomError>)
        ensures
            spec_command(*old(self), *final(self), 0x02, r),
    {
        if bytes1024_len(&self.parameters) != 3 {
            return self.param_error();
        }
        let amm = from_bcd(bytes1024_get(&self.parameters, 0));
        let ass = from_bcd(bytes1024_get(&self.parameters, 1));
        let asect = from_bcd(bytes1024_get(&self.parameters, 2));
        let (m, sec, f) = match (amm, ass, asect) {
            (Some(m), Some(sec), Some(f)) => {
                if sec < 60 && f < 75 {
                    (m, sec, f)
                } else {
                    return Ok(error_response(&self.status, 0x10));
                }
            },
            _ => {
                return Ok(error_response(&self.status, 0x10));
            },
        };
        let ack = self.ack();
        match self.disk.as_mut() {
            Some(d) => {
                d.seek_location(m, sec, f);
            },
            None => {
                return Err(CdRomError::NoDisk);
            },
        }
        Ok(ack)
    }

    /// SeekL (15h): INT3 with the seek bit set, then INT2 once the seek is
    /// done.
    pub fn cmd_seekl(&mut self) -> (r: Result<CommandResponse, CdRomError>)
        ensures
            spec_command(*old(self), *final(self), 0x15, r),
    {
        if bytes1024_len(&self.parameters) != 0 {
            return self.param_error();
        }
        let seeking = self.status.0 | 0x40;
        self.status = Status(self.status.0 & !0x40u8);
        let r = CommandResponse::new().int3([seeking], AVG_1ST_RESP_GENERIC).int2(
            [self.status.0],
            AVG_1ST_RESP_GENERIC + AVG_2ND_RESP_SEEKL,
        );
        assert(seq![seeking] =~= [seeking]@);
        assert(seq![self.status.0] =~= [self.status.0]@);
        assert(spec_responses(r) =~= seq![
            (3u8, seq![seeking], AVG_1ST_RESP_GENERIC),
            (2u8, seq![self.status.0], (AVG_1ST_RESP_GENERIC + AVG_2ND_RESP_SEEKL) as u64),
        ]);
        Ok(r)
    }

    /// SetMode (0Eh): the mode byte.
    pub fn cmd_setmode(&mut self) -> (r: Result<CommandResponse, CdRomError>)
        ensures
            spec_command(*old(self), *final(self), 0x0e, r),
    {
        if bytes1024_len(&self.parameters) != 1 {
            return self.param_error();
        }
        self.mode = bytes1024_get(&self.parameters, 0);
        Ok(self.ack())
    }

    /// SetFilter (0Dh): the file and channel of the XA sectors to play.
    pub fn cmd_set_filter(&mut self) -> (r: Result<CommandResponse, CdRomError>)
        ensures
            spec_command(*old(self), *final(self), 0x0d, r),
    {
        if bytes1024_len(&self.parameters) != 2 {
            return self.param_error();
        }
        self.filter_file = bytes1024_get(&self.parameters, 0);
        self.filter_channel = bytes1024_get(&self.parameters, 1);
        Ok(self.ack())
    }

    /// GetlocP (11h): the current track, index and positions, in BCD.
    pub fn get_locp(&mut self) -> (r: Result<CommandResponse, CdRomError>)
        requires
            old(self).wf(),
        ensures
            spec_command(*old(self), *final(self), 0x11, r),
    {
        if bytes1024_len(&self.parameters) != 0 {
            return self.param_error();
        }
        let info = match &self.disk {
            Some(d) => d.current_position_info(),
            None => {
                return Err(CdRomError::NoDisk);
            },
        };
        match bcd_all(info) {
            Some(out) => {
                let r = CommandResponse::new().int3(out, AVG_1ST_RESP_GENERIC);
                assert(spec_responses(r) =~= seq![(3u8, out@, AVG_1ST_RESP_GENERIC)]);
                Ok(r)
            },
            None => Err(CdRomError::BadPosition),
        }
    }

    /// ReadN (06h) and ReadS (1Bh): starts reading; INT1 comes with each
    /// sector.
    pub fn cmd_readn(&mut self) -> (r: Result<CommandResponse, CdRomError>)
        ensures
            spec_command(*old(self), *final(self), 0x06, r),
    {
        if bytes1024_len(&self.parameters) != 0 {
            return self.param_error();
        }
        self.status = Status(self.status.0 | 0x20);
        let rate = Speed::from_mode(self.mode).transform(AVG_RATE_INT1);
        let r = CommandResponse::new().int3([self.status.0], AVG_1ST_RESP_GENERIC).int1(AVG_1ST_RESP_GENERIC + rate);
        assert(seq![self.status.0] =~= [self.status.0]@);
        assert(spec_responses(r) =~= seq![
            (3u8, seq![self.status.0], AVG_1ST_RESP_GENERIC),
            (1u8, Seq::<u8>::empty(), (AVG_1ST_RESP_GENERIC + rate) as u64),
        ]);
        Ok(r)
    }

    /// ReadS (1Bh): as ReadN.
    pub fn cmd_reads(&mut self) -> (r: Result<CommandResponse, CdRomError>)
        ensures
            spec_command(*old(self), *final(self), 0x1b, r),
    {
        self.cmd_readn()
    }

    /// Demute (0Ch): CD audio goes to the SPU again.
    pub fn cmd_demute(&mut self) -> (r: Result<CommandResponse, CdRomError>)
        ensures
            spec_command(*old(self), *final(self), 0x0c, r),
    {
        if bytes1024_len(&self.parameters) != 0 {
            return self.param_error();
        }
        self.audio_muted = false;
        Ok(self.ack())
    }

    /// Pause (09h): reading stops; INT3 with the old status, INT2 with the
    /// new one.
    pub fn cmd_pause(&mut self) -> (r: Result<CommandResponse, CdRomError>)
        ensures
            spec_command(*old(self), *final(self), 0x09, r),
    {
        if bytes1024_len(&self.parameters) != 0 {
            return self.param_error();
        }
        let current = self.status.0;
        self.status = Status(self.status.0 & !0x20u8);
        let r = CommandResponse::new().int3([current], AVG_1ST_RESP_GENERIC).int2(
            [self.status.0],
            AVG_1ST_RESP_GENERIC + AVG_2ND_RESP_PAUSE,
        );
        assert(seq![current] =~= [current]@);
        assert(seq![self.status.0] =~= [self.status.0]@);
        assert(spec_responses(r) =~= seq![
            (3u8, seq![current], AVG_1ST_RESP_GENERIC),
            (2u8, seq![self.status.0], (AVG_1ST_RESP_GENERIC + AVG_2ND_RESP_PAUSE) as u64),
        ]);
        Ok(r)
    }

    /// GetID (1Ah): a licensed data disc of the American region.
    pub fn cmd_getid(&mut self) -> (r: Result<CommandResponse, CdRomError>)
        ensures
            spec_command(*old(self), *final(self), 0x1a, r),
    {
        if bytes1024_len(&self.parameters) != 0 {
            return self.param_error();
        }
        let id = [0x02u8, 0x00, 0x20, 0x00, 0x53, 0x43, 0x45, 0x41];
        let r = CommandResponse::new().int3([self.status.0], AVG_1ST_RESP_GENERIC).int2(
            id,
            AVG_1ST_RESP_GENERIC + AVG_2ND_RESP_GET_ID,
        );
        assert(seq![self.status.0] =~= [self.status.0]@);
        assert(seq![0x02u8, 0x00, 0x20, 0x00, 0x53, 0x43, 0x45, 0x41] =~= id@);
        assert(spec_responses(r) =~= seq![
            (3u8, seq![self.status.0], AVG_1ST_RESP_GENERIC),
            (2u8, seq![0x02u8, 0x00, 0x20, 0x00, 0x53, 0x43, 0x45, 0x41], (AVG_1ST_RESP_GENERIC + AVG_2ND_RESP_GET_ID) as u64),
        ]);
        Ok(r)
    }

    /// Init (0Ah): mode 20h, the read position back at the start, the
    /// motor on.
    pub fn cmd_init(&mut self) -> (r: Result<CommandResponse, CdRomError>)
        ensures
            spec_command(*old(self), *final(self), 0x0a, r),
    {
        if bytes1024_len(&self.parameters) != 0 {
            return self.param_error();
        }
        self.mode = 0x20;
        if let Some(d) = self.disk.as_mut() {
            d.reset_read_head();
        }
        let old_status = self.status.0;
        self.status = Status(self.status.0 | 0x02);
        let r = CommandResponse::new().int3([old_status], AVG_1ST_RESP_GENERIC).int2(
            [self.status.0],
            AVG_1ST_RESP_GENERIC + AVG_2ND_RESP_SEEKL,
        );
        assert(seq![old_status] =~= [old_status]@);
        assert(seq![self.status.0] =~= [self.status.0]@);
        assert(spec_responses(r) =~= seq![
            (3u8, seq![old_status], AVG_1ST_RESP_GENERIC),
            (2u8, seq![self.status.0], (AVG_1ST_RESP_GENERIC + AVG_2ND_RESP_SEEKL) as u64),
        ]);
        Ok(r)
    }

    /// GetTN (13h): the first and last track numbers, in BCD.
    pub fn cmd_gettn(&mut self) -> (r: Result<CommandResponse, CdRomError>)
        requires
            old(self).wf(),
        ensures
            spec_command(*old(self), *final(self), 0x13, r),
    {
        if bytes1024_len(&self.parameters) != 0 {
            return self.param_error();
        }
        let (first, last) = match &self.disk {
            Some(d) => (d.first_track_id(), d.last_track_id()),
            None => {
                return Err(CdRomError::NoDisk);
            },
        };
        let (bf, bl) = match (to_bcd(first), to_bcd(last)) {
            (Some(a), Some(b)) => (a, b),
            _ => {
                return Err(CdRomError::BadPosition);
            },
        };
        let r = CommandResponse::new().int3([self.status.0, bf, bl], AVG_1ST_RESP_INIT);
        assert(seq![self.status.0, bf, bl] =~= [self.status.0, bf, bl]@);
        Ok(r)
    }

    /// GetTD (14h): the start of a track (0: the end of the disc) as BCD
    /// minutes and seconds.
    pub fn cmd_gettd(&mut self) -> (r: Result<CommandResponse, CdRomError>)
        requires
            old(self).wf(),
        ensures
            spec_command(*old(self), *final(self), 0x14, r),
    {
        if bytes1024_len(&self.parameters) != 1 {
            return self.param_error();
        }
        let p0 = bytes1024_get(&self.parameters, 0);
        let d = match &self.disk {
            Some(d) => d,
            None => {
                return Err(CdRomError::NoDisk);
            },
        };
        let last = d.last_track_id();
        let track = match from_bcd(p0) {
            Some(t) => {
                if t <= last {
                    t
                } else {
                    return Ok(error_response(&self.status, 0x10));
                }
            },
            None => {
                return Ok(error_response(&self.status, 0x10));
            },
        };
        let (mm, ss) = if track != 0 {
            let n = d.tracks.len();
            if track as usize > n {
                return Err(CdRomError::BadPosition);
            }
            let t = &d.tracks[track as usize - 1];
            if t.indexes.len() == 0 || (t.indexes[0].id != 1 && t.indexes.len() < 2) {
                return Err(CdRomError::BadPosition);
            }
            let (a, b, _) = d.track_mm_ss_ff(track);
            (a, b)
        } else {
            let (a, b, _) = d.last_track_end();
            (a, b)
        };
        let (bm, bs) = match (to_bcd(mm), to_bcd(ss)) {
            (Some(a), Some(b)) => (a, b),
            _ => {
                return Err(CdRomError::BadPosition);
            },
        };
        let r = CommandResponse::new().int3([self.status.0, bm, bs], AVG_1ST_RESP_INIT);
        assert(seq![self.status.0, bm, bs] =~= [self.status.0, bm, bs]@);
        Ok(r)
    }

    /// Stop (08h): reading stops, the read position goes back to the start
    /// and the motor stops.
    pub fn cmd_stop(&mut self) -> (r: Result<CommandResponse, CdRomError>)
        ensures
            spec_command(*old(self), *final(self), 0x08, r),
    {
        if bytes1024_len(&self.parameters) != 0 {
            return self.param_error();
        }
        if let Some(d) = self.disk.as_mut() {
            d.reset_read_head();
        }
        let s0 = self.status.0;
        self.status = Status(self.status.0 & !0x20u8);
        let first = self.status.0;
        self.status = Status(self.status.0 & !0x02u8);
        let delay: u64 = match Speed::from_mode(self.mode) {
            Speed::Normal => 0x0D3_8ACA,
            Speed::Double => 0x18A_6076,
        };
        let r = CommandResponse::new().int3([first], AVG_1ST_RESP_INIT).int2([self.status.0], delay);
        assert(seq![first] =~= [first]@);
        assert(seq![self.status.0] =~= [self.status.0]@);
        let s2 = self.status.0;
        assert(s2 == s0 & !0x22u8) by (bit_vector)
            requires
                first == s0 & !0x20u8,
                s2 == first & !0x02u8,
        ;
        assert(spec_responses(r) =~= seq![(3u8, seq![first], AVG_1ST_RESP_INIT), (2u8, seq![s2], delay)]);
        Ok(r)
    }

    /// A drive with `disk`: everything clear but the parameter FIFO's
    /// empty and not-full flags.
    pub fn new(disk: Option<Image>) -> (r: CDRom)
        ensures
            r.status.0 == 0 && r.hsts == 0x18 && r.mode == 0 && r.hintmsk == 0 && r.hinsts == 0,
            r.params().len() == 0 && bytes16(r.results).len() == 0,
            r.data_buffer@.len() == 0 && r.audio_buffer@.len() == 0 && !r.audio_muted,
            r.disk == disk,
    {
        CDRom {
            status: Status(0),
            hsts: 0x18,
            adpctl: 0,
            hintmsk: 0,
            mode: 0,
            parameters: bytes1024_new(),
            results: bytes16_new(),
            hinsts: 0,
            hcpctl: 0,
            disk,
            data_buffer: VecDeque::new(),
            audio_muted: false,
            l2l_volume: 0,
            l2r_volume: 0,
            r2l_volume: 0,
            r2r_volume: 0,
            filter_file: 0,
            filter_channel: 0,
            audio_buffer: VecDeque::new(),
        }
    }
}


/// Every delay of `s` fits in 32 bits.
pub open spec fn spec_short_delays(s: Seq<(ResponseType, u64)>) -> bool {
    forall|i: int| 0 <= i < s.len() ==> #[trigger] s[i].1 < 0x1_0000_0000u64
}

/// The responses of a command each give their delay to the queue at once.
proof fn lemma_command_delays(o: CDRom, n: CDRom, cmd: u8, r: Result<CommandResponse, CdRomError>)
    requires
        spec_command(o, n, cmd, r),
    ensures
        r matches Ok(c) ==> spec_short_delays(responses2(c.responses)),
{
    if let Ok(c) = r {
        assert forall|i: int| 0 <= i < responses2(c.responses).len() implies #[trigger] responses2(c.responses)[i].1
            < 0x1_0000_0000u64 by {
            assert(spec_responses(c)[i].2 == responses2(c.responses)[i].1);
            if i == 0 {
            } else {
            }
        }
    }
}

/// The repeat period that the queue gets with a response: a sector's time
/// at the drive's speed for INT1, none for the others.
pub open spec fn spec_repeat(res: ResponseType, mode: u8) -> Option<u64> {
    match res {
        ResponseType::INT1 => Some(spec_transform(spec_speed(mode), AVG_RATE_INT1)),
        _ => None,
    }
}

/// The queue `s` once each of `resps` is scheduled in turn, `delay` cycles
/// after `cycle`.
pub open spec fn spec_schedule_responses(s: Seq<Task>, cycle: u64, resps: Seq<(ResponseType, u64)>, mode: u8) -> Seq<Task>
    decreases resps.len(),
{
    if resps.len() == 0 {
        s
    } else {
        let res = resps[0].0;
        let ev = Event::CDRomResultIrq(res);
        let t = Task { cycle: (cycle + resps[0].1) as u64, event: ev, repeat: spec_repeat(res, mode) };
        spec_schedule_responses(spec_insert_task(spec_unscheduled(s, ev), t), cycle, resps.drop_first(), mode)
    }
}

/// The event queue can take a command's responses: at most 30 pending
/// events and a cycle count far from overflowing.
pub open spec fn spec_room(b: MemoryBus) -> bool {
    b.scheduler.view().len() <= 30 && b.scheduler.cycle < crate::scheduler::CYCLE_LIMIT
}

/// What writing command `cmd` does to the bus (`o` becomes `n`).
pub open spec fn spec_process_command(o: MemoryBus, n: MemoryBus, cmd: u8, r: Result<(), CdRomError>) -> bool {
    if !spec_room(o) {
        r == Err::<(), CdRomError>(CdRomError::SchedulerFull) && n == o
    } else {
        let s0 = if cmd == 8 || cmd == 9 {
            spec_unscheduled(o.scheduler.view(), Event::CDRomResultIrq(ResponseType::INT1))
        } else {
            o.scheduler.view()
        };
        &&& n == (MemoryBus { cdrom: n.cdrom, scheduler: n.scheduler, ..o })
        &&& n.scheduler.cycle == o.scheduler.cycle
        &&& n.scheduler.wf()
        &&& exists|c: CDRom, resp: Result<CommandResponse, CdRomError>| #[trigger] spec_command(o.cdrom, c, cmd, resp) && match resp {
            Err(e) => r == Err::<(), CdRomError>(e) && n.cdrom == o.cdrom && n.scheduler.view() == s0,
            Ok(cr) => {
                &&& r is Ok
                &&& n.cdrom == (CDRom { parameters: n.cdrom.parameters, hsts: c.hsts | 0x30, ..c })
                &&& n.cdrom.params().len() == 0
                &&& n.scheduler.view() == spec_schedule_responses(s0, o.scheduler.cycle, responses2(cr.responses), c.mode)
            },
        }
    }
}

impl CDRom {
    /// Carries out command `cmd` on the drive and gives its responses.
    fn run_command(&mut self, cmd: u8) -> (r: Result<CommandResponse, CdRomError>)
        requires
            old(self).wf(),
        ensures
            final(self).wf(),
            spec_command(*old(self), *final(self), cmd, r),
            r matches Ok(c) ==> spec_short_delays(responses2(c.responses)),
    {
        let r = match cmd {
            0x00 => self.cmd_unused(),
            0x01 => self.cmd_nop(),
            0x02 => self.cmd_setloc(),
            0x06 => self.cmd_readn(),
            0x08 => self.cmd_stop(),
            0x09 => self.cmd_pause(),
            0x0a => self.cmd_init(),
            0x0c => self.cmd_demute(),
            0x0e => self.cmd_setmode(),
            0x0d => self.cmd_set_filter(),
            0x11 => self.get_locp(),
            0x14 => self.cmd_gettd(),
            0x15 => self.cmd_seekl(),
            0x19 => self.cmd_test(),
            0x1a => self.cmd_getid(),
            0x1b => self.cmd_reads(),
            0x13 => self.cmd_gettn(),
            _ => Err(CdRomError::UnknownCommand),
        };
        proof {
            lemma_command_delays(*old(self), *self, cmd, r);
        }
        r
    }

    /// A command written to the command register: the drive carries it out,
    /// the parameter FIFO empties, the result and parameter flags of the
    /// status register are set, and each response is queued after its
    /// delay (INT1 repeating once per sector). Stop and Pause first take
    /// pending INT1s off the queue.
    pub fn process_command(system: &mut MemoryBus, cmd: u8) -> (r: Result<(), CdRomError>)
        requires
            old(system).wf(),
        ensures
            final(system).wf(),
            spec_process_command(*old(system), *final(system), cmd, r),
    {
        if !(tasks32_len(&system.scheduler.tasks) <= 30 && system.scheduler.cycle < crate::scheduler::CYCLE_LIMIT) {
            return Err(CdRomError::SchedulerFull);
        }
        if cmd == 0x08 || cmd == 0x09 {
            system.scheduler.unschedule(&Event::CDRomResultIrq(ResponseType::INT1));
        }
        proof {
            lemma_unscheduled_sorted(old(system).scheduler.view(), Event::CDRomResultIrq(ResponseType::INT1));
        }
        let ghost s0 = system.scheduler.view();
        let resp = system.cdrom.run_command(cmd);
        let ghost c = system.cdrom;
        let ghost resp_g = resp;
        let mut cr = match resp {
            Ok(cr) => cr,
            Err(e) => {
                assert(spec_command(old(system).cdrom, c, cmd, resp_g));
                return Err(e);
            },
        };
        bytes1024_clear(&mut system.cdrom.parameters);
        system.cdrom.hsts = system.cdrom.hsts | 0x30;
        let mode = system.cdrom.mode;
        let cycle = system.scheduler.cycle;
        let ghost pre = *system;
        let ghost all = responses2(cr.responses);
        while responses2_len(&cr.responses) > 0
            invariant
                system.scheduler.wf(),
                system.scheduler.cycle == cycle,
                cycle < crate::scheduler::CYCLE_LIMIT,
                system.scheduler.view().len() + responses2(cr.responses).len() <= 32,
                spec_short_delays(responses2(cr.responses)),
                spec_schedule_responses(system.scheduler.view(), cycle, responses2(cr.responses), mode)
                    == spec_schedule_responses(s0, cycle, all, mode),
                *system == (MemoryBus { scheduler: system.scheduler, ..pre }),
            decreases responses2(cr.responses).len(),
        {
            let ghost before = responses2(cr.responses);
            let (res, delay) = responses2_remove_first(&mut cr.responses);
            assert(before[0].1 < 0x1_0000_0000u64);
            let repeat = match res {
                ResponseType::INT1 => Some(Speed::from_mode(mode).transform(AVG_RATE_INT1)),
                _ => None,
            };
            let ghost ev = Event::CDRomResultIrq(res);
            proof {
                lemma_unscheduled_sorted(system.scheduler.view(), ev);
                assert(responses2(cr.responses) =~= before.drop_first());
                assert forall|i: int| 0 <= i < responses2(cr.responses).len() implies #[trigger] responses2(cr.responses)[i].1
                    < 0x1_0000_0000u64 by {
                    assert(responses2(cr.responses)[i] == before[i + 1]);
                }
            }
            system.scheduler.schedule(Event::CDRomResultIrq(res), delay, repeat);
        }
        proof {
            assert(spec_command(old(system).cdrom, c, cmd, resp_g));
        }
        Ok(())
    }
}


/// The status register after a parameter is pushed onto a FIFO of `len`
/// bytes: the empty flag goes up when it was empty, the not-full flag down
/// when it becomes full.
pub open spec fn spec_push_hsts(hsts: u8, len: nat) -> u8 {
    let h = if len == 0 { hsts | 0x08 } else { hsts };
    if len + 1 == 1024 { h & !0x10u8 } else { h }
}

/// The first four bytes of `s`, zero where `s` ends.
pub open spec fn spec_padded(s: Seq<u8>) -> Seq<u8> {
    Seq::new(4, |i: int| if i < s.len() { s[i] } else { 0u8 })
}

/// The little-endian 16-bit samples of `data`; an odd last byte is left out.
pub open spec fn spec_samples(data: Seq<u8>) -> Seq<i16> {
    Seq::new(data.len() / 2, |i: int| (((data[2 * i + 1] as u16) << 8u16) | (data[2 * i] as u16)) as i16)
}

/// What a register read at `offset` of width `w` gives (`r`) and does to
/// the drive (`o` becomes `n`).
pub open spec fn spec_cdrom_load(o: CDRom, n: CDRom, offset: u32, w: AccessWidth, r: Result<u32, CdRomError>) -> bool {
    let bank = o.hsts & 3;
    if offset == 2 {
        let k = w.spec_bytes();
        let buf = o.data_buffer@;
        &&& r == Ok::<u32, CdRomError>(spec_read_le(spec_padded(buf), 0, w))
        &&& n == (CDRom { data_buffer: n.data_buffer, hsts: if buf.len() <= k { o.hsts & !0x40u8 } else { o.hsts }, ..o })
        &&& n.data_buffer@ == buf.skip(if buf.len() <= k { buf.len() as int } else { k as int })
    } else if w != AccessWidth::Byte {
        r == Err::<u32, CdRomError>(CdRomError::Register) && n == o
    } else if offset == 0 {
        r == Ok::<u32, CdRomError>(o.hsts as u32) && n == o
    } else if offset == 1 {
        let res = bytes16(o.results);
        if res.len() == 0 {
            r == Err::<u32, CdRomError>(CdRomError::EmptyResults) && n == o
        } else {
            &&& r == Ok::<u32, CdRomError>(res[0] as u32)
            &&& n == (CDRom { results: n.results, hsts: if res.len() == 1 { o.hsts & !0x20u8 } else { o.hsts }, ..o })
            &&& bytes16(n.results) == res.drop_first()
        }
    } else if offset == 3 {
        r == Ok::<u32, CdRomError>((if bank & 1 == 0 { o.hintmsk } else { o.hinsts }) as u32) && n == o
    } else {
        r == Err::<u32, CdRomError>(CdRomError::Register) && n == o
    }
}

/// What a sector coming off the disc does to the drive (`o` becomes `n`),
/// and whether it went to the audio buffer (`r`).
pub open spec fn spec_process_sector(o: CDRom, n: CDRom, s: Seq<u8>, r: Result<bool, CdRomError>) -> bool {
    if o.status.0 & 0x80 != 0 {
        if o.mode & 1 == 0 {
            r == Err::<bool, CdRomError>(CdRomError::Cdda) && n == o
        } else {
            &&& r == Ok::<bool, CdRomError>(true)
            &&& n == (CDRom { audio_buffer: n.audio_buffer, ..o })
            &&& n.audio_buffer@ == o.audio_buffer@ + spec_samples(s)
        }
    } else {
        let xa = s[0xf] == 2;
        let realtime = s[0x12] & 0x44 == 0x44;
        let filter = o.mode & 0x08 != 0;
        if xa && filter && (s[0x10] != o.filter_file || s[0x11] != o.filter_channel) {
            r == Ok::<bool, CdRomError>(false) && n == o
        } else if xa && o.mode & 0x40 != 0 && realtime {
            r == Err::<bool, CdRomError>(CdRomError::XaAudio) && n == o
        } else if xa && filter && realtime {
            r == Ok::<bool, CdRomError>(false) && n == o
        } else {
            &&& r == Ok::<bool, CdRomError>(false)
            &&& n == (CDRom { data_buffer: n.data_buffer, hsts: o.hsts | 0x40, ..o })
            &&& n.data_buffer@ == if (o.mode >> 5u8) & 1 == 0 { s.subrange(0x18, 0x818) } else { s.skip(0xc) }
        }
    }
}

impl CDRom {
    /// Pushes a byte onto the parameter FIFO.
    pub fn push_parameter(&mut self, v: u8) -> (r: Result<(), CdRomError>)
        ensures
            old(self).params().len() >= 1024 ==> r == Err::<(), CdRomError>(CdRomError::FullParameters) && *final(self)
                == *old(self),
            old(self).params().len() < 1024 ==> {
                &&& r is Ok
                &&& *final(self) == (CDRom {
                    parameters: final(self).parameters,
                    hsts: spec_push_hsts(old(self).hsts, old(self).params().len()),
                    ..*old(self)
                })
                &&& final(self).params() == old(self).params().push(v)
            },
    {
        let len = bytes1024_len(&self.parameters);
        if len == 1024 {
            return Err(CdRomError::FullParameters);
        }
        if len == 0 {
            self.hsts = self.hsts | 0x08;
        }
        bytes1024_push(&mut self.parameters, v);
        if len + 1 == 1024 {
            self.hsts = self.hsts & !0x10u8;
        }
        Ok(())
    }

    /// Acknowledges interrupt flags: the bits 0-4 of `v` clear those of the
    /// interrupt flag register.
    pub fn set_hclrctl(&mut self, v: u8)
        ensures
            *final(self) == (CDRom { hinsts: old(self).hinsts & !(v & 0x1f), ..*old(self) }),
    {
        self.hinsts = self.hinsts & !(v & 0x1f);
    }

    /// The index/status register.
    pub fn get_hsts(&mut self) -> (r: u8)
        ensures
            r == old(self).hsts,
            *final(self) == *old(self),
    {
        self.hsts
    }

    /// Takes the next byte off the result FIFO; the result-ready flag goes
    /// down once it is empty.
    pub fn read_response(&mut self) -> (r: Result<u8, CdRomError>)
        ensures
            spec_cdrom_load(*old(self), *final(self), 1, AccessWidth::Byte, match r {
                Ok(v) => Ok::<u32, CdRomError>(v as u32),
                Err(e) => Err::<u32, CdRomError>(e),
            }),
    {
        let n = bytes16_len(&self.results);
        if n == 0 {
            return Err(CdRomError::EmptyResults);
        }
        let val = bytes16_remove_first(&mut self.results);
        if n == 1 {
            self.hsts = self.hsts & !0x20u8;
        }
        Ok(val)
    }

    /// Takes the next byte off the data buffer, 0 when it is empty; the
    /// data-request flag goes down once it is empty.
    pub fn pop_from_data_buffer(&mut self) -> (r: u8)
        ensures
            r == if old(self).data_buffer@.len() > 0 { old(self).data_buffer@[0] } else { 0u8 },
            final(self).data_buffer@ == if old(self).data_buffer@.len() > 0 {
                old(self).data_buffer@.drop_first()
            } else {
                old(self).data_buffer@
            },
            *final(self) == (CDRom {
                data_buffer: final(self).data_buffer,
                hsts: if old(self).data_buffer@.len() <= 1 { old(self).hsts & !0x40u8 } else { old(self).hsts },
                ..*old(self)
            }),
    {
        let data = match self.data_buffer.pop_front() {
            Some(b) => b,
            None => 0,
        };
        if self.data_buffer.len() == 0 {
            self.hsts = self.hsts & !0x40u8;
        }
        data
    }

    /// Reads a value of type `T` from the data buffer, little-endian, 0
    /// for the bytes past its end.
    pub fn read_sector_data<T: Addressable>(&mut self) -> (r: T)
        ensures
            spec_cdrom_load(*old(self), *final(self), 2, T::spec_width(), Ok::<u32, CdRomError>(r.spec_as_u32())),
    {
        let w = T::width();
        let ghost buf = self.data_buffer@;
        let ghost h = self.hsts;
        let b0 = self.pop_from_data_buffer();
        let b1 = if w != AccessWidth::Byte { self.pop_from_data_buffer() } else { 0 };
        let b2 = if w == AccessWidth::Word { self.pop_from_data_buffer() } else { 0 };
        let b3 = if w == AccessWidth::Word { self.pop_from_data_buffer() } else { 0 };
        let v = (b0 as u32) | ((b1 as u32) << 8) | ((b2 as u32) << 16) | ((b3 as u32) << 24);
        let r = T::from_u32(v);
        proof {
            let p = spec_padded(buf);
            assert(h & !0x40u8 & !0x40u8 == h & !0x40u8) by (bit_vector);
            match w {
                AccessWidth::Byte => {
                    assert(b0 == p[0]);
                    assert(((b0 as u32) | ((0u8 as u32) << 8u32) | ((0u8 as u32) << 16u32) | ((0u8 as u32) << 24u32)) & 0xff
                        == b0 as u32) by (bit_vector);
                    assert(self.data_buffer@ =~= buf.skip(if buf.len() <= 1 { buf.len() as int } else { 1 }));
                },
                AccessWidth::Halfword => {
                    assert(b0 == p[0] && b1 == p[1]);
                    assert(((b0 as u32) | ((b1 as u32) << 8u32) | ((0u8 as u32) << 16u32) | ((0u8 as u32) << 24u32)) & 0xffff
                        == (b0 as u32) | ((b1 as u32) << 8u32)) by (bit_vector);
                    assert(self.data_buffer@ =~= buf.skip(if buf.len() <= 2 { buf.len() as int } else { 2 }));
                },
                AccessWidth::Word => {
                    assert(b0 == p[0] && b1 == p[1] && b2 == p[2] && b3 == p[3]);
                    crate::bitfacts::lemma_ones_and_u32(v);
                    assert(self.data_buffer@ =~= buf.skip(if buf.len() <= 4 { buf.len() as int } else { 4 }));
                },
            }
        }
        r
    }

    /// Reads register `offset` of the current bank: the data buffer at 2,
    /// else (bytes only) the status, the result FIFO, and the interrupt
    /// enable (banks 0, 2) or flag (banks 1, 3) register at 0, 1 and 3.
    pub fn load<T: Addressable>(&mut self, offset: u32) -> (r: Result<T, CdRomError>)
        ensures
            spec_cdrom_load(*old(self), *final(self), offset, T::spec_width(), match r {
                Ok(v) => Ok::<u32, CdRomError>(v.spec_as_u32()),
                Err(e) => Err::<u32, CdRomError>(e),
            }),
    {
        if offset == 2 {
            return Ok(self.read_sector_data::<T>());
        }
        if T::width() != AccessWidth::Byte {
            return Err(CdRomError::Register);
        }
        let bank = self.hsts & 3;
        let result: u8 = if offset == 0 {
            self.get_hsts()
        } else if offset == 1 {
            match self.read_response() {
                Ok(v) => v,
                Err(e) => {
                    return Err(e);
                },
            }
        } else if offset == 3 {
            if bank & 1 == 0 {
                self.hintmsk
            } else {
                self.hinsts
            }
        } else {
            return Err(CdRomError::Register);
        };
        let r = T::from_u32(result.as_u32());
        Ok(r)
    }

    /// Appends the little-endian 16-bit samples of `data` to the audio
    /// buffer.
    pub fn push_to_audio_buffer(&mut self, data: &[u8])
        ensures
            *final(self) == (CDRom { audio_buffer: final(self).audio_buffer, ..*old(self) }),
            final(self).audio_buffer@ == old(self).audio_buffer@ + spec_samples(data@),
    {
        let n = data.len() / 2;
        let mut i: usize = 0;
        while i < n
            invariant
                n == data@.len() / 2,
                data@.len() <= usize::MAX,
                i <= n,
                *self == (CDRom { audio_buffer: self.audio_buffer, ..*old(self) }),
                self.audio_buffer@ == old(self).audio_buffer@ + spec_samples(data@).take(i as int),
            decreases n - i,
        {
            assert(2 * i + 1 < data@.len()) by (nonlinear_arith)
                requires
                    i < n,
                    n == data@.len() / 2,
            ;
            let lo = data[2 * i];
            let hi = data[2 * i + 1];
            let sample = #[verifier::truncate] ((((hi as u16) << 8) | (lo as u16)) as i16);
            self.audio_buffer.push_back(sample);
            assert(spec_samples(data@).take(i + 1) =~= spec_samples(data@).take(i as int).push(sample));
            i = i + 1;
        }
        assert(spec_samples(data@).take(n as int) =~= spec_samples(data@));
    }

    /// The next CD audio sample, 0 when there is none; 0 when muted (the
    /// sample is taken off all the same).
    pub fn get_audio_sample(&mut self) -> (r: i16)
        ensures
            r == if old(self).audio_muted || old(self).audio_buffer@.len() == 0 { 0i16 } else { old(self).audio_buffer@[0] },
            *final(self) == (CDRom { audio_buffer: final(self).audio_buffer, ..*old(self) }),
            final(self).audio_buffer@ == if old(self).audio_buffer@.len() > 0 {
                old(self).audio_buffer@.drop_first()
            } else {
                old(self).audio_buffer@
            },
    {
        let sample = match self.audio_buffer.pop_front() {
            Some(s) => s,
            None => 0,
        };
        if self.audio_muted {
            0
        } else {
            sample
        }
    }

    /// Takes a sector read off the disc: CD-DA sectors go to the audio
    /// buffer, XA sectors are filtered, data sectors fill the data buffer
    /// (800h bytes of user data, or all but the sync bytes). `Ok(true)`
    /// when the sector was audio.
    pub fn process_sector(&mut self, sector: Vec<u8>) -> (r: Result<bool, CdRomError>)
        requires
            old(self).status.0 & 0x80 == 0 ==> sector@.len() >= 0x13 && ((old(self).mode >> 5u8) & 1 == 0 ==> sector@.len()
                >= 0x818),
        ensures
            spec_process_sector(*old(self), *final(self), sector@, r),
    {
        if self.status.0 & 0x80 != 0 {
            if self.mode & 1 == 0 {
                return Err(CdRomError::Cdda);
            }
            self.push_to_audio_buffer(sector.as_slice());
            return Ok(true);
        }
        let sector_mode = sector[0xf];
        let file = sector[0x10];
        let channel = sector[0x11];
        let submode = sector[0x12];
        let is_realtime_audio = submode & 0x44 == 0x44;
        let filter = self.mode & 0x08 != 0;
        if sector_mode == 2 {
            if filter && (file != self.filter_file || channel != self.filter_channel) {
                return Ok(false);
            }
            if self.mode & 0x40 != 0 && is_realtime_audio {
                return Err(CdRomError::XaAudio);
            }
            if filter && is_realtime_audio {
                return Ok(false);
            }
        }
        let whole = match SectorSize::from_mode(self.mode) {
            SectorSize::DataOnly => false,
            SectorSize::WholeSectorExceptSyncBytes => true,
        };
        let m = self.mode;
        assert((m >> 5u8) & 1 == 0 || (m >> 5u8) & 1 == 1) by (bit_vector);
        let start: usize = if whole { 0xc } else { 0x18 };
        let end: usize = if whole { sector.len() } else { 0x818 };
        assert(start <= end <= sector@.len());
        let mut buf: VecDeque<u8> = VecDeque::new();
        let mut i = start;
        while i < end
            invariant
                start <= i <= end <= sector@.len(),
                buf@ == sector@.subrange(start as int, i as int),
            decreases end - i,
        {
            buf.push_back(sector[i]);
            i = i + 1;
            assert(buf@ =~= sector@.subrange(start as int, i as int));
        }
        self.data_buffer = buf;
        self.hsts = self.hsts | 0x40;
        assert(sector@.skip(0xc) =~= sector@.subrange(0xc, sector@.len() as int));
        Ok(false)
    }
}


/// What a byte written to register `offset` of the current bank does to
/// the bus (`o` becomes `n`).
pub open spec fn spec_cdrom_store(o: MemoryBus, n: MemoryBus, offset: u32, w: AccessWidth, value: u32, r: Result<(), CdRomError>) -> bool {
    let c = o.cdrom;
    let v = value as u8;
    let bank = c.hsts & 3;
    if w != AccessWidth::Byte {
        r == Err::<(), CdRomError>(CdRomError::Register) && n == o
    } else if offset == 0 {
        r is Ok && n == (MemoryBus { cdrom: CDRom { hsts: (c.hsts & !3u8) | (v & 3), ..c }, ..o })
    } else if bank == 0 && offset == 1 {
        spec_process_command(o, n, v, r)
    } else if bank == 0 && offset == 2 {
        &&& n == (MemoryBus { cdrom: n.cdrom, ..o })
        &&& c.params().len() >= 1024 ==> r == Err::<(), CdRomError>(CdRomError::FullParameters) && n.cdrom == c
        &&& c.params().len() < 1024 ==> {
            &&& r is Ok
            &&& n.cdrom == (CDRom { parameters: n.cdrom.parameters, hsts: spec_push_hsts(c.hsts, c.params().len()), ..c })
            &&& n.cdrom.params() == c.params().push(v)
        }
    } else if bank == 0 && offset == 3 {
        r is Ok && n == (MemoryBus { cdrom: CDRom { hcpctl: v, ..c }, ..o })
    } else if bank == 1 && offset == 2 {
        r is Ok && n == (MemoryBus { cdrom: CDRom { hintmsk: v | 0xe0, ..c }, ..o })
    } else if bank == 1 && offset == 3 {
        r is Ok && n == (MemoryBus { cdrom: CDRom { hinsts: c.hinsts & !(v & 0x1f), ..c }, ..o })
    } else if bank == 2 && offset == 2 {
        r is Ok && n == (MemoryBus { cdrom: CDRom { l2l_volume: v, ..c }, ..o })
    } else if bank == 2 && offset == 3 {
        r is Ok && n == (MemoryBus { cdrom: CDRom { l2r_volume: v, ..c }, ..o })
    } else if bank == 3 && offset == 1 {
        r is Ok && n == (MemoryBus { cdrom: CDRom { r2r_volume: v, ..c }, ..o })
    } else if bank == 3 && offset == 2 {
        r is Ok && n == (MemoryBus { cdrom: CDRom { r2l_volume: v, ..c }, ..o })
    } else if bank == 3 && offset == 3 {
        r is Ok && n == (MemoryBus { cdrom: CDRom { adpctl: v, ..c }, ..o })
    } else {
        r == Err::<(), CdRomError>(CdRomError::Register) && n == o
    }
}

/// A response delivered: the result FIFO holds `rs`, the interrupt flags
/// name interrupt `irq`, the result-ready flag is up, and IRQ2 is raised
/// when that interrupt is enabled; `cm` is the drive before.
pub open spec fn spec_deliver(o: MemoryBus, n: MemoryBus, cm: CDRom, rs: Seq<u8>, irq: u8) -> bool {
    let hinsts = (cm.hinsts & !7u8) | (irq & 7);
    let raise = (cm.hintmsk & 7) & (hinsts & 7) != 0;
    &&& n.cdrom == (CDRom { results: n.cdrom.results, hinsts, hsts: cm.hsts | 0x20, ..cm })
    &&& bytes16(n.cdrom.results) == rs
    &&& n.irqctl.mask == o.irqctl.mask
    &&& n.irqctl.status.0 == if raise { with_bit(o.irqctl.status.0, 2, true) } else { o.irqctl.status.0 }
    &&& n == (MemoryBus { cdrom: n.cdrom, irqctl: n.irqctl, ..o })
}

/// What a response falling due does to the bus (`o` becomes `n`): INT2,
/// INT3 and INT5 deliver their bytes; INT1 reads the next sector, and
/// delivers the drive status unless the sector was audio.
pub open spec fn spec_process_response(o: MemoryBus, n: MemoryBus, res: ResponseType, r: Result<(), CdRomError>) -> bool {
    let c = o.cdrom;
    match res {
        ResponseType::INT5(a) => r is Ok && spec_deliver(o, n, c, seq![a[0], a[1]], 5),
        ResponseType::INT2(x) => r is Ok && spec_deliver(o, n, c, bytes8(x), 2),
        ResponseType::INT3(x) => r is Ok && spec_deliver(o, n, c, bytes8(x), 3),
        ResponseType::INT1 => match c.disk {
            None => r == Err::<(), CdRomError>(CdRomError::NoDisk) && n == o,
            Some(d) => if d.read_head + SECTOR_SIZE > d.data@.len() {
                r == Err::<(), CdRomError>(CdRomError::EndOfDisc) && n == o
            } else {
                let sector = d.data@.subrange(d.read_head as int, d.read_head + SECTOR_SIZE);
                let c1 = CDRom {
                    disk: Some(Image { read_head: (d.read_head + SECTOR_SIZE) as usize, ..d }),
                    results: n.cdrom.results,
                    ..c
                };
                exists|cm: CDRom, rs: Result<bool, CdRomError>| #[trigger] spec_process_sector(c1, cm, sector, rs) && match rs {
                    Err(e) => r == Err::<(), CdRomError>(e) && n == (MemoryBus { cdrom: cm, ..o }) && bytes16(cm.results).len() == 0,
                    Ok(true) => r is Ok && n == (MemoryBus { cdrom: cm, ..o }) && bytes16(cm.results).len() == 0,
                    Ok(false) => r is Ok && spec_deliver(o, n, cm, seq![c.status.0], 1),
                }
            },
        },
    }
}

/// Puts the bytes of `xs` into the empty result FIFO.
fn fill_results(results: &mut ArrayVec<u8, 16>, xs: &ArrayVec<u8, 8>)
    requires
        bytes16(*old(results)).len() == 0,
    ensures
        bytes16(*final(results)) == bytes8(*xs),
{
    let n = bytes8_len(xs);
    let mut i: usize = 0;
    while i < n
        invariant
            n == bytes8(*xs).len() <= 8,
            i <= n,
            bytes16(*results) == bytes8(*xs).take(i as int),
        decreases n - i,
    {
        bytes16_push(results, bytes8_get(xs, i));
        i = i + 1;
        assert(bytes16(*results) =~= bytes8(*xs).take(i as int));
    }
    assert(bytes8(*xs).take(n as int) =~= bytes8(*xs));
}

impl CDRom {
    /// Writes a byte to register `offset` of the current bank: the bank
    /// select at 0; in bank 0 the command, parameter and request registers;
    /// in bank 1 the interrupt enable and acknowledge registers; in banks 2
    /// and 3 the audio volumes and the ADPCM control.
    pub fn store<T: Addressable>(system: &mut MemoryBus, offset: u32, value: T) -> (r: Result<(), CdRomError>)
        requires
            old(system).wf(),
        ensures
            final(system).wf(),
            spec_cdrom_store(*old(system), *final(system), offset, T::spec_width(), value.spec_as_u32(), r),
    {
        if T::width() != AccessWidth::Byte {
            return Err(CdRomError::Register);
        }
        let v = #[verifier::truncate] (value.as_u32() as u8);
        let bank = system.cdrom.hsts & 3;
        if offset == 0 {
            system.cdrom.hsts = (system.cdrom.hsts & !3u8) | (v & 3);
            return Ok(());
        }
        if bank == 0 {
            if offset == 1 {
                return Self::process_command(system, v);
            } else if offset == 2 {
                return system.cdrom.push_parameter(v);
            } else if offset == 3 {
                system.cdrom.hcpctl = v;
                return Ok(());
            }
        } else if bank == 1 {
            if offset == 2 {
                system.cdrom.hintmsk = v | 0xe0;
                return Ok(());
            } else if offset == 3 {
                system.cdrom.set_hclrctl(v);
                return Ok(());
            }
        } else if bank == 2 {
            if offset == 2 {
                system.cdrom.l2l_volume = v;
                return Ok(());
            } else if offset == 3 {
                system.cdrom.l2r_volume = v;
                return Ok(());
            }
        } else if bank == 3 {
            if offset == 1 {
                system.cdrom.r2r_volume = v;
                return Ok(());
            } else if offset == 2 {
                system.cdrom.r2l_volume = v;
                return Ok(());
            } else if offset == 3 {
                system.cdrom.adpctl = v;
                return Ok(());
            }
        }
        Err(CdRomError::Register)
    }

    /// A response falls due: its bytes go to the result FIFO (for INT1, the
    /// next sector is read first, and the drive status delivered unless it
    /// was audio), the interrupt flags name it, and IRQ2 is raised when it
    /// is enabled.
    pub fn process_response(system: &mut MemoryBus, response: ResponseType) -> (r: Result<(), CdRomError>)
        requires
            old(system).wf(),
        ensures
            final(system).wf(),
            spec_process_response(*old(system), *final(system), response, r),
    {
        let irq = response.code();
        if let ResponseType::INT1 = response {
            match &system.cdrom.disk {
                None => {
                    return Err(CdRomError::NoDisk);
                },
                Some(d) => {
                    if d.read_head > d.data.len() || d.data.len() - d.read_head < SECTOR_SIZE {
                        return Err(CdRomError::EndOfDisc);
                    }
                },
            }
        }
        let ghost mut c1g = system.cdrom;
        let ghost mut cmg = system.cdrom;
        let ghost mut rsg: Result<bool, CdRomError> = Ok(false);
        let ghost mut secg: Seq<u8> = Seq::empty();
        bytes16_clear(&mut system.cdrom.results);
        match &response {
            ResponseType::INT5(xs) => {
                bytes16_push(&mut system.cdrom.results, xs[0]);
                bytes16_push(&mut system.cdrom.results, xs[1]);
                assert(bytes16(system.cdrom.results) =~= seq![xs[0], xs[1]]);
            },
            ResponseType::INT2(xs) => {
                fill_results(&mut system.cdrom.results, xs);
            },
            ResponseType::INT3(xs) => {
                fill_results(&mut system.cdrom.results, xs);
            },
            ResponseType::INT1 => {
                let sector = match system.cdrom.disk.as_mut() {
                    Some(d) => d.advance_sector(),
                    None => {
                        return Err(CdRomError::NoDisk);
                    },
                };
                let ghost c1 = system.cdrom;
                proof {
                    secg = sector@;
                }
                let rs = system.cdrom.process_sector(sector);
                let ghost cm = system.cdrom;
                proof {
                    c1g = c1;
                    cmg = cm;
                    rsg = rs;
                }
                match rs {
                    Err(e) => {
                        assert(spec_process_sector(c1, cm, secg, rs));
                        return Err(e);
                    },
                    Ok(true) => {
                        assert(spec_process_sector(c1, cm, secg, rs));
                        return Ok(());
                    },
                    Ok(false) => {},
                }
                let st = system.cdrom.status.0;
                bytes16_push(&mut system.cdrom.results, st);
            },
        }
        system.cdrom.hinsts = (system.cdrom.hinsts & !7u8) | (irq & 7);
        system.cdrom.hsts = system.cdrom.hsts | 0x20;
        if (system.cdrom.hintmsk & 7) & (system.cdrom.hinsts & 7) != 0 {
            system.irqctl.status.set_cdrom(true);
        }
        proof {
            if response is INT1 {
                let nr = system.cdrom.results;
                assert(spec_process_sector(CDRom { results: nr, ..c1g }, CDRom { results: nr, ..cmg }, secg, rsg));
            }
        }
        Ok(())
    }
}

} // verus!
