use vstd::prelude::*;
use arrayvec::ArrayVec;
use crate::arrayvec_specs::{
    bytes8, bytes8_clone, bytes8_eq, tasks32, tasks32_get, tasks32_insert, tasks32_len, tasks32_new,
    tasks32_remove,
};
use crate::cdrom::ResponseType;

verus! {

/// CPU cycles per video line.
pub const LINE_DURATION: u64 = 2172;
/// The cycle count up to which events can still be scheduled: it leaves
/// room for the longest delay a device asks for (a timer period counted in
/// scan lines, below 2^48 cycles).
pub const CYCLE_LIMIT: u64 = 0xffff_0000_0000_0000;
/// CPU cycles of horizontal blanking per line.
pub const HBLANK_DURATION: u64 = 390;
/// CPU cycles between two SPU samples.
pub const SPU_INTERVAL: u64 = 668;
/// SPU samples per video frame.
pub const SAMPLES_PER_FRAME: u64 = 735;
/// CPU cycles per video frame.
pub const CLOCKS_PER_FRAME: u64 = SAMPLES_PER_FRAME * SPU_INTERVAL;

/// An interrupt of timer `which`, in toggle or pulse mode.
#[derive(Clone, Copy, PartialEq, Eq, Structural, Debug)]
pub struct TimerInterrupt {
    pub which: usize,
    pub toggle: bool,
}

/// Something that happens at a given cycle.
pub enum Event {
    VBlankStart,
    VBlankEnd,
    HBlankStart,
    HBlankEnd,
    SpuTick,
    Timer(TimerInterrupt),
    CDRomResultIrq(ResponseType),
    SerialSend,
    DsrOff,
}

/// Whether two CD-ROM responses are the same: same kind and same bytes.
pub open spec fn spec_same_response(a: ResponseType, b: ResponseType) -> bool {
    match (a, b) {
        (ResponseType::INT3(x), ResponseType::INT3(y)) => bytes8(x) == bytes8(y),
        (ResponseType::INT2(x), ResponseType::INT2(y)) => bytes8(x) == bytes8(y),
        (ResponseType::INT5(x), ResponseType::INT5(y)) => x[0] == y[0] && x[1] == y[1],
        (ResponseType::INT1, ResponseType::INT1) => true,
        _ => false,
    }
}

/// Whether two events are the same event (what `==` compares).
pub open spec fn spec_same_event(a: Event, b: Event) -> bool {
    match (a, b) {
        (Event::VBlankStart, Event::VBlankStart) => true,
        (Event::VBlankEnd, Event::VBlankEnd) => true,
        (Event::HBlankStart, Event::HBlankStart) => true,
        (Event::HBlankEnd, Event::HBlankEnd) => true,
        (Event::SpuTick, Event::SpuTick) => true,
        (Event::Timer(x), Event::Timer(y)) => x == y,
        (Event::CDRomResultIrq(x), Event::CDRomResultIrq(y)) => spec_same_response(x, y),
        (Event::SerialSend, Event::SerialSend) => true,
        (Event::DsrOff, Event::DsrOff) => true,
        _ => false,
    }
}

/// Whether two CD-ROM responses are the same.
pub fn same_response(a: &ResponseType, b: &ResponseType) -> (r: bool)
    ensures
        r == spec_same_response(*a, *b),
{
    match (a, b) {
        (ResponseType::INT3(x), ResponseType::INT3(y)) => bytes8_eq(x, y),
        (ResponseType::INT2(x), ResponseType::INT2(y)) => bytes8_eq(x, y),
        (ResponseType::INT5(x), ResponseType::INT5(y)) => x[0] == y[0] && x[1] == y[1],
        (ResponseType::INT1, ResponseType::INT1) => true,
        _ => false,
    }
}

/// Whether two events are the same event.
pub fn same_event(a: &Event, b: &Event) -> (r: bool)
    ensures
        r == spec_same_event(*a, *b),
{
    match (a, b) {
        (Event::VBlankStart, Event::VBlankStart) => true,
        (Event::VBlankEnd, Event::VBlankEnd) => true,
        (Event::HBlankStart, Event::HBlankStart) => true,
        (Event::HBlankEnd, Event::HBlankEnd) => true,
        (Event::SpuTick, Event::SpuTick) => true,
        (Event::Timer(x), Event::Timer(y)) => x.which == y.which && x.toggle == y.toggle,
        (Event::CDRomResultIrq(x), Event::CDRomResultIrq(y)) => same_response(x, y),
        (Event::SerialSend, Event::SerialSend) => true,
        (Event::DsrOff, Event::DsrOff) => true,
        _ => false,
    }
}

/// A copy of a CD-ROM response.
pub fn clone_response(a: &ResponseType) -> (r: ResponseType)
    ensures
        spec_same_response(r, *a),
{
    match a {
        ResponseType::INT3(x) => ResponseType::INT3(bytes8_clone(x)),
        ResponseType::INT2(x) => ResponseType::INT2(bytes8_clone(x)),
        ResponseType::INT5(x) => ResponseType::INT5(*x),
        ResponseType::INT1 => ResponseType::INT1,
    }
}

/// A copy of an event.
pub fn clone_event(a: &Event) -> (r: Event)
    ensures
        spec_same_event(r, *a),
{
    match a {
        Event::VBlankStart => Event::VBlankStart,
        Event::VBlankEnd => Event::VBlankEnd,
        Event::HBlankStart => Event::HBlankStart,
        Event::HBlankEnd => Event::HBlankEnd,
        Event::SpuTick => Event::SpuTick,
        Event::Timer(t) => Event::Timer(*t),
        Event::CDRomResultIrq(x) => Event::CDRomResultIrq(clone_response(x)),
        Event::SerialSend => Event::SerialSend,
        Event::DsrOff => Event::DsrOff,
    }
}

/// An event due at `cycle`, and, when it repeats, its period.
pub struct Task {
    pub cycle: u64,
    pub event: Event,
    pub repeat: Option<u64>,
}

/// `s` without the tasks of event `e`.
pub open spec fn spec_unscheduled(s: Seq<Task>, e: Event) -> Seq<Task> {
    s.filter(|t: Task| !spec_same_event(t.event, e))
}

/// Index of the first task of `s` due after `cycle`, or the length.
pub open spec fn spec_first_later(s: Seq<Task>, cycle: u64) -> int
    decreases s.len(),
{
    if s.len() == 0 {
        0
    } else if s[0].cycle > cycle {
        0
    } else {
        1 + spec_first_later(s.drop_first(), cycle)
    }
}

/// `s` with `t` put before the first task due after it.
pub open spec fn spec_insert_task(s: Seq<Task>, t: Task) -> Seq<Task> {
    s.insert(spec_first_later(s, t.cycle), t)
}

/// The tasks are in the order in which they fall due.
pub open spec fn spec_sorted(s: Seq<Task>) -> bool {
    forall|i: int, j: int| 0 <= i <= j < s.len() ==> s[i].cycle <= s[j].cycle
}

/// The queue of pending events, in the order in which they fall due, and
/// the current cycle.
pub struct Scheduler {
    pub tasks: ArrayVec<Task, 32>,
    pub cycle: u64,
}

proof fn lemma_first_later(s: Seq<Task>, cycle: u64)
    ensures
        0 <= spec_first_later(s, cycle) <= s.len(),
        forall|i: int| 0 <= i < spec_first_later(s, cycle) ==> s[i].cycle <= cycle,
        spec_first_later(s, cycle) < s.len() ==> s[spec_first_later(s, cycle)].cycle > cycle,
    decreases s.len(),
{
    if s.len() > 0 && s[0].cycle <= cycle {
        lemma_first_later(s.drop_first(), cycle);
        assert forall|i: int| 0 <= i < spec_first_later(s, cycle) implies s[i].cycle <= cycle by {
            if i > 0 {
                assert(s[i] == s.drop_first()[i - 1]);
            }
        }
    }
}

/// Putting a task at the first place after its due cycle keeps the queue
/// in order.
pub proof fn lemma_insert_sorted(s: Seq<Task>, t: Task)
    requires
        spec_sorted(s),
    ensures
        spec_sorted(spec_insert_task(s, t)),
        spec_insert_task(s, t).len() == s.len() + 1,
{
    lemma_first_later(s, t.cycle);
    let p = spec_first_later(s, t.cycle);
    let n = s.insert(p, t);
    assert forall|i: int, j: int| 0 <= i <= j < n.len() implies n[i].cycle <= n[j].cycle by {
        if i < p && j == p {
        } else if i == p && j > p {
            assert(n[j] == s[j - 1]);
            assert(s[p].cycle > t.cycle);
        } else if i < p && j > p {
            assert(n[j] == s[j - 1]);
        } else if i > p {
            assert(n[i] == s[i - 1] && n[j] == s[j - 1]);
        }
    }
}

/// Removing tasks keeps the queue in order.
pub proof fn lemma_unscheduled_sorted(s: Seq<Task>, e: Event)
    requires
        spec_sorted(s),
    ensures
        spec_sorted(spec_unscheduled(s, e)),
        spec_unscheduled(s, e).len() <= s.len(),
    decreases s.len(),
{
    reveal(Seq::filter);
    let p = |t: Task| !spec_same_event(t.event, e);
    s.lemma_filter_len(p);
    if s.len() > 0 {
        lemma_unscheduled_sorted(s.drop_last(), e);
        let sub = s.drop_last().filter(p);
        let out = s.filter(p);
        if p(s.last()) {
            assert(out == sub.push(s.last()));
            assert forall|i: int| 0 <= i < sub.len() implies sub[i].cycle <= s.last().cycle by {
                lemma_filter_member(s.drop_last(), p, i);
            }
        }
    }
}

/// Every task that a filter keeps comes from the filtered sequence.
proof fn lemma_filter_member(s: Seq<Task>, p: spec_fn(Task) -> bool, i: int)
    requires
        0 <= i < s.filter(p).len(),
    ensures
        exists|k: int| 0 <= k < s.len() && s[k] == s.filter(p)[i],
{
    broadcast use vstd::seq_lib::group_filter_ensures;
    assert(s.filter(p).contains(s.filter(p)[i]));
    s.lemma_filter_contains_rev(p, s.filter(p)[i]);
}

impl Scheduler {
    pub open spec fn view(&self) -> Seq<Task> {
        tasks32(self.tasks)
    }

    pub open spec fn wf(&self) -> bool {
        spec_sorted(self.view())
    }

    /// An empty queue at cycle 0.
    pub fn new() -> (r: Scheduler)
        ensures
            r.wf(),
            r.view() == Seq::<Task>::empty(),
            r.cycle == 0,
    {
        Scheduler { tasks: tasks32_new(), cycle: 0 }
    }

    /// Advances the current cycle.
    pub fn advance(&mut self, num_cycles: u64)
        requires
            old(self).cycle + num_cycles <= u64::MAX,
        ensures
            final(self).cycle == old(self).cycle + num_cycles,
            final(self).view() == old(self).view(),
    {
        self.cycle = self.cycle + num_cycles;
    }

    /// Takes every task of `event` out of the queue.
    pub fn unschedule(&mut self, event: &Event)
        requires
            old(self).wf(),
        ensures
            final(self).wf(),
            final(self).view() == spec_unscheduled(old(self).view(), *event),
            final(self).cycle == old(self).cycle,
    {
        let ghost old_s = self.view();
        let ghost p = |t: Task| !spec_same_event(t.event, *event);
        let mut i: usize = 0;
        let ghost mut j: int = 0;
        proof {
            reveal(Seq::filter);
            assert(old_s.take(0).filter(p) =~= Seq::<Task>::empty());
            assert(self.view() =~= old_s.take(0).filter(p) + old_s.skip(0));
        }
        while i < tasks32_len(&self.tasks)
            invariant
                0 <= j <= old_s.len(),
                self.cycle == old(self).cycle,
                p == (|t: Task| !spec_same_event(t.event, *event)),
                i == old_s.take(j).filter(p).len(),
                self.view() == old_s.take(j).filter(p) + old_s.skip(j),
            decreases old_s.len() - j,
        {
            proof {
                reveal(Seq::filter);
                assert(old_s.take(j + 1).drop_last() =~= old_s.take(j));
                assert(old_s.take(j + 1).last() == old_s[j]);
                assert(self.view()[i as int] == old_s[j]);
            }
            let t = tasks32_get(&self.tasks, i);
            if same_event(&t.event, event) {
                let _ = tasks32_remove(&mut self.tasks, i);
                proof {
                    assert(self.view() =~= old_s.take(j + 1).filter(p) + old_s.skip(j + 1));
                }
            } else {
                proof {
                    assert(old_s.take(j + 1).filter(p) == old_s.take(j).filter(p).push(old_s[j]));
                    assert(self.view() =~= old_s.take(j + 1).filter(p) + old_s.skip(j + 1));
                }
                i = i + 1;
            }
            proof {
                j = j + 1;
            }
        }
        proof {
            assert(old_s.take(j) =~= old_s);
            assert(self.view() =~= old_s.filter(p));
            lemma_unscheduled_sorted(old_s, *event);
        }
    }

    /// Schedules `event` `cycles` cycles from now, repeating every `repeat`
    /// cycles when given, in place of any earlier schedule of the same event.
    pub fn schedule(&mut self, event: Event, cycles: u64, repeat: Option<u64>)
        requires
            old(self).wf(),
            old(self).cycle + cycles <= u64::MAX,
            spec_unscheduled(old(self).view(), event).len() < 32,
        ensures
            final(self).wf(),
            final(self).cycle == old(self).cycle,
            final(self).view().len() <= old(self).view().len() + 1,
            final(self).view() == spec_insert_task(
                spec_unscheduled(old(self).view(), event),
                Task { cycle: (old(self).cycle + cycles) as u64, event, repeat },
            ),
    {
        self.unschedule(&event);
        let cycle = self.cycle + cycles;
        let ghost s = self.view();
        let mut pos: usize = 0;
        let n = tasks32_len(&self.tasks);
        proof {
            lemma_first_later(s, cycle);
        }
        while pos < n && tasks32_get(&self.tasks, pos).cycle <= cycle
            invariant
                n == s.len(),
                s == self.view(),
                pos <= n,
                forall|i: int| 0 <= i < pos ==> s[i].cycle <= cycle,
                spec_sorted(s),
            decreases n - pos,
        {
            pos = pos + 1;
        }
        proof {
            lemma_first_later_is(s, cycle, pos as int);
        }
        let ghost t = Task { cycle, event, repeat };
        tasks32_insert(&mut self.tasks, pos, Task { cycle, event, repeat });
        proof {
            lemma_insert_sorted(s, t);
            lemma_unscheduled_len_bound(old(self).view(), event);
        }
    }

    /// The next event due by the current cycle, taken off the queue; a
    /// repeating event is scheduled again one period from now.
    pub fn get_next_event(&mut self) -> (r: Option<Event>)
        requires
            old(self).wf(),
            old(self).view().len() > 0 ==> (old(self).view()[0].repeat matches Some(p) ==> old(self).cycle + p <= u64::MAX),
        ensures
            final(self).wf(),
            final(self).cycle == old(self).cycle,
            old(self).view().len() == 0 || old(self).cycle < old(self).view()[0].cycle ==> r is None && final(self).view()
                == old(self).view(),
            old(self).view().len() > 0 && old(self).cycle >= old(self).view()[0].cycle ==> {
                let first = old(self).view()[0];
                let rest = old(self).view().drop_first();
                &&& r matches Some(e) && spec_same_event(e, first.event)
                &&& first.repeat is None ==> final(self).view() == rest
                &&& first.repeat matches Some(p) ==> exists|e2: Event| spec_same_event(e2, first.event)
                    && final(self).view() == spec_insert_task(
                    spec_unscheduled(rest, e2),
                    Task { cycle: (old(self).cycle + p) as u64, event: e2, repeat: Some(p) },
                )
            },
    {
        if tasks32_len(&self.tasks) == 0 {
            return None;
        }
        if self.cycle < tasks32_get(&self.tasks, 0).cycle {
            return None;
        }
        let ghost s = self.view();
        let task = tasks32_remove(&mut self.tasks, 0);
        proof {
            assert(self.view() =~= s.drop_first());
            assert forall|i: int, j: int| 0 <= i <= j < self.view().len() implies self.view()[i].cycle <= self.view()[j].cycle by {
                assert(self.view()[i] == s[i + 1] && self.view()[j] == s[j + 1]);
            }
        }
        match task.repeat {
            Some(cycles) => {
                proof {
                    lemma_unscheduled_sorted(self.view(), task.event);
                }
                let e2 = clone_event(&task.event);
                proof {
                    lemma_unscheduled_len_bound(self.view(), e2);
                }
                self.schedule(e2, cycles, Some(cycles));
            },
            None => {},
        }
        Some(task.event)
    }

    /// Schedules the video and sound events of a running machine.
    pub fn init(&mut self)
        requires
            old(self).wf(),
            old(self).cycle + LINE_DURATION * 263 <= u64::MAX,
            old(self).view().len() <= 27,
        ensures
            final(self).wf(),
            final(self).cycle == old(self).cycle,
    {
        proof {
            lemma_unscheduled_len_bound(self.view(), Event::VBlankStart);
        }
        self.schedule(Event::VBlankStart, LINE_DURATION * 240, Some(LINE_DURATION * 263));
        proof {
            lemma_unscheduled_len_bound(self.view(), Event::VBlankEnd);
        }
        self.schedule(Event::VBlankEnd, LINE_DURATION * 263, Some(LINE_DURATION * 263));
        proof {
            lemma_unscheduled_len_bound(self.view(), Event::HBlankStart);
        }
        self.schedule(Event::HBlankStart, LINE_DURATION - HBLANK_DURATION, Some(LINE_DURATION));
        proof {
            lemma_unscheduled_len_bound(self.view(), Event::HBlankEnd);
        }
        self.schedule(Event::HBlankEnd, LINE_DURATION, Some(LINE_DURATION));
        proof {
            lemma_unscheduled_len_bound(self.view(), Event::SpuTick);
        }
        self.schedule(Event::SpuTick, 768, Some(768));
    }
}

/// Unscheduling never lengthens the queue.
pub proof fn lemma_unscheduled_len_bound(s: Seq<Task>, e: Event)
    ensures
        spec_unscheduled(s, e).len() <= s.len(),
{
    s.lemma_filter_len(|t: Task| !spec_same_event(t.event, e));
}

proof fn lemma_first_later_is(s: Seq<Task>, cycle: u64, pos: int)
    requires
        0 <= pos <= s.len(),
        forall|i: int| 0 <= i < pos ==> s[i].cycle <= cycle,
        pos < s.len() ==> s[pos].cycle > cycle,
    ensures
        spec_first_later(s, cycle) == pos,
    decreases s.len(),
{
    if s.len() > 0 && pos > 0 {
        assert forall|i: int| 0 <= i < pos - 1 implies s.drop_first()[i].cycle <= cycle by {
            assert(s.drop_first()[i] == s[i + 1]);
        }
        lemma_first_later_is(s.drop_first(), cycle, pos - 1);
    }
}

} // verus!
