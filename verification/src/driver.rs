use vstd::prelude::*;
use crate::interrupt::{CpuInterrupt, InterruptKind, Priority, PriorityWrite};

verus! {

/// `esp32c3::Interrupt::SYSTIMER_TARGET0` as its interrupt-source number;
/// the PAC declares that variant with discriminant 37.
#[verifier::external_body]
fn systimer_target0_source() -> (r: u16)
    ensures
        r == 37,
{
    esp32c3::Interrupt::SYSTIMER_TARGET0 as u16
}

/// `esp32c3::Interrupt::SYSTIMER_TARGET1` as its interrupt-source number;
/// the PAC declares that variant with discriminant 38.
#[verifier::external_body]
fn systimer_target1_source() -> (r: u16)
    ensures
        r == 38,
{
    esp32c3::Interrupt::SYSTIMER_TARGET1 as u16
}

/// `esp32c3::Interrupt::SYSTIMER_TARGET2` as its interrupt-source number;
/// the PAC declares that variant with discriminant 39.
#[verifier::external_body]
fn systimer_target2_source() -> (r: u16)
    ensures
        r == 39,
{
    esp32c3::Interrupt::SYSTIMER_TARGET2 as u16
}

/// A peripheral interrupt source routed to a CPU interrupt line with a
/// priority.
#[derive(Clone, Copy, PartialEq, Eq, Structural, Debug)]
pub struct BaseInterrupt {
    /// The peripheral interrupt-source number.
    pub external_interrupt_id: u16,
    pub cpu_interrupt: CpuInterrupt,
    pub priority: Priority,
}

/// The routing of the interrupt of system-timer comparator `i` (0, 1 or 2):
/// source `SYSTIMER_TARGETi` (37 + i) to CPU line i + 1, at priority `prio`.
pub open spec fn systimer_interrupt(i: int, prio: Priority) -> BaseInterrupt {
    BaseInterrupt {
        external_interrupt_id: (37 + i) as u16,
        cpu_interrupt: CpuInterrupt::spec_from_number((i + 1) as u32)->0,
        priority: prio,
    }
}

/// The routings of the three comparator interrupts, all at priority `prio`.
pub fn generate_systimer_interrupt_structs(prio: Priority) -> (r: (BaseInterrupt, BaseInterrupt, BaseInterrupt))
    ensures
        r.0 == systimer_interrupt(0, prio),
        r.1 == systimer_interrupt(1, prio),
        r.2 == systimer_interrupt(2, prio),
{
    (
        BaseInterrupt {
            external_interrupt_id: systimer_target0_source(),
            cpu_interrupt: CpuInterrupt::Interrupt1,
            priority: prio,
        },
        BaseInterrupt {
            external_interrupt_id: systimer_target1_source(),
            cpu_interrupt: CpuInterrupt::Interrupt2,
            priority: prio,
        },
        BaseInterrupt {
            external_interrupt_id: systimer_target2_source(),
            cpu_interrupt: CpuInterrupt::Interrupt3,
            priority: prio,
        },
    )
}

/// How one comparator interrupt is to be set up: the routing of its source,
/// its trigger kind and the write of its priority.
#[derive(Clone, Copy, PartialEq, Eq, Structural, Debug)]
pub struct InterruptSetup {
    pub interrupt: BaseInterrupt,
    pub kind: InterruptKind,
    pub priority: PriorityWrite,
}

/// The setup of the interrupt of comparator `i` at priority `prio`: routed
/// as `systimer_interrupt`, level-triggered, its line set to `prio`.
pub open spec fn systimer_setup(i: int, prio: Priority) -> InterruptSetup {
    InterruptSetup {
        interrupt: systimer_interrupt(i, prio),
        kind: InterruptKind::Level,
        priority: PriorityWrite {
            which: systimer_interrupt(i, prio).cpu_interrupt,
            priority: prio.spec_value() as u32,
        },
    }
}

/// The setup of one routed interrupt: enabled level-triggered, with its line
/// at the priority `prio`.
fn enable(i: BaseInterrupt, prio: Priority) -> (r: InterruptSetup)
    ensures
        r == (InterruptSetup {
            interrupt: i,
            kind: InterruptKind::Level,
            priority: PriorityWrite { which: i.cpu_interrupt, priority: prio.spec_value() as u32 },
        }),
{
    InterruptSetup {
        interrupt: i,
        kind: InterruptKind::Level,
        priority: PriorityWrite { which: i.cpu_interrupt, priority: prio.value() as u32 },
    }
}

/// The CPU interrupt line that comparator `id` raises.
pub fn target_cpu_interrupt(id: u8) -> (r: CpuInterrupt)
    requires
        (id as usize) < ALARM_COUNT,
    ensures
        r == systimer_interrupt(id as int, Priority::Priority0).cpu_interrupt,
        r.spec_number() == id + 1,
{
    match id {
        0 => CpuInterrupt::Interrupt1,
        1 => CpuInterrupt::Interrupt2,
        _ => CpuInterrupt::Interrupt3,
    }
}

/// Number of independent alarms the system timer offers: it has three
/// comparators, each able to raise its own interrupt.
pub const ALARM_COUNT: usize = 3;

/// State of one alarm slot.
///
/// `callback` and `ctx` hold the addresses of the function to call when the
/// alarm fires and of the argument to hand it; 0 stands for "none".
#[derive(Clone, Copy, PartialEq, Eq, Structural, Debug)]
pub struct AlarmState {
    pub timestamp: u64,
    pub callback: usize,
    pub ctx: usize,
    pub allocated: bool,
}

impl AlarmState {
    /// The state of a slot that nobody holds: no deadline, no callback.
    pub open spec fn spec_new() -> AlarmState {
        AlarmState { timestamp: u64::MAX, callback: 0, ctx: 0, allocated: false }
    }

    pub fn new() -> (r: Self)
        ensures
            r == Self::spec_new(),
    {
        AlarmState { timestamp: u64::MAX, callback: 0, ctx: 0, allocated: false }
    }
}

/// Handle of an allocated alarm: the index of its slot.
#[derive(Clone, Copy, PartialEq, Eq, Structural, Debug)]
pub struct AlarmHandle {
    id: u8,
}

impl AlarmHandle {
    pub closed spec fn spec_id(self) -> u8 {
        self.id
    }

    pub fn new(id: u8) -> (r: Self)
        ensures
            r.spec_id() == id,
    {
        AlarmHandle { id }
    }

    pub fn id(&self) -> (r: u8)
        ensures
            r == self.spec_id(),
    {
        self.id
    }
}

/// What the caller must do once an alarm has been set.
#[derive(Clone, Copy, PartialEq, Eq, Structural, Debug)]
pub enum AlarmAction {
    /// The deadline already passed: the alarm was released and its callback
    /// must be called now with `ctx`.
    Trigger { callback: usize, ctx: usize },
    /// Program system-timer comparator `target` to fire at `timestamp`.
    Program { target: u8, timestamp: u64 },
}

/// The callback of an alarm that fired, with its argument.
#[derive(Clone, Copy, PartialEq, Eq, Structural, Debug)]
pub struct AlarmCallback {
    pub callback: usize,
    pub ctx: usize,
}

/// The time driver: the three alarm slots of the system timer.
pub struct SysTimerDriver {
    pub alarms: [AlarmState; ALARM_COUNT],
}

/// Whether slot `i` of `alarms` is free.
pub open spec fn is_free(alarms: Seq<AlarmState>, i: int) -> bool {
    0 <= i < alarms.len() && !alarms[i].allocated
}

/// Whether `r` and `after` are what taking an alarm out of `before` gives:
/// the first free slot, now held, or `None` with nothing changed when every
/// slot is held.
pub open spec fn allocation(before: Seq<AlarmState>, r: Option<AlarmHandle>, after: Seq<AlarmState>) -> bool {
    match r {
        Some(h) => {
            &&& (h.spec_id() as usize) < ALARM_COUNT
            &&& is_free(before, h.spec_id() as int)
            &&& forall|j: int| 0 <= j < h.spec_id() ==> !is_free(before, j)
            &&& after == with_allocated(before, h.spec_id() as int, true)
        },
        None => {
            &&& forall|j: int| 0 <= j < ALARM_COUNT ==> !is_free(before, j)
            &&& after == before
        },
    }
}

/// The callback recorded in slot `i`, with its argument.
pub open spec fn callback_of(alarms: Seq<AlarmState>, i: int) -> AlarmCallback {
    AlarmCallback { callback: alarms[i].callback, ctx: alarms[i].ctx }
}

/// The slots of `alarms` with the callback of slot `i` replaced.
pub open spec fn with_callback(alarms: Seq<AlarmState>, i: int, callback: usize, ctx: usize) -> Seq<AlarmState> {
    alarms.update(i, AlarmState { callback, ctx, ..alarms[i] })
}

/// What setting alarm `i` of `alarms` to `timestamp` at time `now` requests,
/// and the slots afterwards.
pub open spec fn set_alarm_outcome(alarms: Seq<AlarmState>, i: int, timestamp: u64, now: u64) -> (AlarmAction, Seq<AlarmState>) {
    if timestamp < now {
        (
            AlarmAction::Trigger { callback: alarms[i].callback, ctx: alarms[i].ctx },
            with_allocated(alarms, i, false),
        )
    } else {
        (
            AlarmAction::Program { target: i as u8, timestamp },
            alarms.update(i, AlarmState { timestamp, ..alarms[i] }),
        )
    }
}

/// The slots of `alarms` with slot `i` marked as held or free.
pub open spec fn with_allocated(alarms: Seq<AlarmState>, i: int, allocated: bool) -> Seq<AlarmState> {
    alarms.update(i, AlarmState { allocated, ..alarms[i] })
}

impl SysTimerDriver {
    /// The alarm slots.
    pub open spec fn view(&self) -> Seq<AlarmState> {
        self.alarms@
    }

    /// The interrupt setup the driver needs: the three comparator
    /// interrupts, level-triggered, at priority `irq_prio`.
    pub fn init(&self, irq_prio: Priority) -> (r: [InterruptSetup; ALARM_COUNT])
        ensures
            forall|i: int| 0 <= i < ALARM_COUNT ==> #[trigger] r@[i] == systimer_setup(i, irq_prio),
    {
        let (syst0, syst1, syst2) = generate_systimer_interrupt_structs(irq_prio);
        let r = [enable(syst0, irq_prio), enable(syst1, irq_prio), enable(syst2, irq_prio)];
        assert(r@[0] == systimer_setup(0, irq_prio));
        assert(r@[1] == systimer_setup(1, irq_prio));
        assert(r@[2] == systimer_setup(2, irq_prio));
        r
    }

    /// A driver whose three slots are all free.
    pub fn new() -> (r: Self)
        ensures
            r@.len() == ALARM_COUNT,
            forall|i: int| 0 <= i < ALARM_COUNT ==> r@[i] == AlarmState::spec_new(),
    {
        SysTimerDriver { alarms: [AlarmState::new(), AlarmState::new(), AlarmState::new()] }
    }

    /// The state of alarm `id`.
    pub fn get_alarm(&self, id: u8) -> (r: &AlarmState)
        requires
            (id as usize) < ALARM_COUNT,
        ensures
            *r == self@[id as int],
    {
        &self.alarms[id as usize]
    }

    /// Marks alarm `id` free.
    fn deallocate_alarm(&mut self, id: u8)
        requires
            (id as usize) < ALARM_COUNT,
        ensures
            final(self)@ == with_allocated(old(self)@, id as int, false),
    {
        let mut a = self.alarms[id as usize];
        a.allocated = false;
        self.alarms[id as usize] = a;
    }

    /// The callback of alarm `id` with its argument.
    fn trigger_alarm(&self, id: u8) -> (r: AlarmCallback)
        requires
            (id as usize) < ALARM_COUNT,
        ensures
            r == callback_of(self@, id as int),
    {
        let a = &self.alarms[id as usize];
        AlarmCallback { callback: a.callback, ctx: a.ctx }
    }

    /// Takes the first free alarm slot, or `None` when all are held.
    pub fn allocate_alarm(&mut self) -> (r: Option<AlarmHandle>)
        ensures
            allocation(old(self)@, r, final(self)@),
    {
        let mut i: usize = 0;
        while i < ALARM_COUNT
            invariant
                i <= ALARM_COUNT,
                self@ == old(self)@,
                forall|j: int| 0 <= j < i ==> !is_free(old(self)@, j),
            decreases ALARM_COUNT - i,
        {
            if !self.alarms[i].allocated {
                let mut a = self.alarms[i];
                a.allocated = true;
                self.alarms[i] = a;
                return Some(AlarmHandle::new(i as u8));
            }
            i = i + 1;
        }
        None
    }

    /// Records the function to call, and its argument, when `alarm` fires.
    pub fn set_alarm_callback(&mut self, alarm: AlarmHandle, callback: usize, ctx: usize)
        requires
            (alarm.spec_id() as usize) < ALARM_COUNT,
        ensures
            final(self)@ == with_callback(old(self)@, alarm.spec_id() as int, callback, ctx),
    {
        let id = alarm.id() as usize;
        let mut a = self.alarms[id];
        a.callback = callback;
        a.ctx = ctx;
        self.alarms[id] = a;
    }

    /// Sets `alarm` to fire at `timestamp`, the current time being `now`.
    ///
    /// A deadline already passed releases the alarm and asks for its
    /// callback at once; otherwise the deadline is recorded and comparator
    /// `alarm.id()` is to be programmed with it.
    pub fn set_alarm(&mut self, alarm: AlarmHandle, timestamp: u64, now: u64) -> (r: AlarmAction)
        requires
            (alarm.spec_id() as usize) < ALARM_COUNT,
        ensures
            (r, final(self)@) == set_alarm_outcome(old(self)@, alarm.spec_id() as int, timestamp, now),
    {
        let id = alarm.id();
        if timestamp < now {
            self.deallocate_alarm(id);
            let cb = self.trigger_alarm(id);
            return AlarmAction::Trigger { callback: cb.callback, ctx: cb.ctx };
        }
        let mut a = self.alarms[id as usize];
        a.timestamp = timestamp;
        self.alarms[id as usize] = a;
        AlarmAction::Program { target: id, timestamp }
    }

    /// Handles the interrupt of comparator `id`: releases alarm `id` and
    /// returns its callback, to be called with its argument.
    pub fn on_interrupt(&mut self, id: u8) -> (r: AlarmCallback)
        requires
            (id as usize) < ALARM_COUNT,
        ensures
            r == callback_of(old(self)@, id as int),
            final(self)@ == with_allocated(old(self)@, id as int, false),
    {
        self.deallocate_alarm(id);
        self.trigger_alarm(id)
    }
}

/// An alarm whose interrupt has been handled can be taken again: the
/// allocation that follows succeeds, with a slot no later than the one that
/// fired.
pub proof fn lemma_fired_alarm_is_reusable(
    before: Seq<AlarmState>,
    id: u8,
    r: Option<AlarmHandle>,
    after: Seq<AlarmState>,
)
    requires
        before.len() == ALARM_COUNT,
        (id as usize) < ALARM_COUNT,
        allocation(with_allocated(before, id as int, false), r, after),
    ensures
        r matches Some(h) && h.spec_id() <= id,
{
    assert(is_free(with_allocated(before, id as int, false), id as int));
}

/// Two alarms taken one after the other, with nothing released between,
/// are different alarms.
pub proof fn lemma_allocated_handles_are_distinct(
    s0: Seq<AlarmState>,
    r1: Option<AlarmHandle>,
    s1: Seq<AlarmState>,
    r2: Option<AlarmHandle>,
    s2: Seq<AlarmState>,
)
    requires
        s0.len() == ALARM_COUNT,
        allocation(s0, r1, s1),
        allocation(s1, r2, s2),
        r1 is Some,
        r2 is Some,
    ensures
        r1->0.spec_id() != r2->0.spec_id(),
{
}

/// The number of held slots among the three of `alarms`.
pub open spec fn held_count(alarms: Seq<AlarmState>) -> int {
    (if alarms[0].allocated { 1int } else { 0int }) + (if alarms[1].allocated { 1int } else { 0int })
        + (if alarms[2].allocated { 1int } else { 0int })
}

/// The number of allocations in `results` that handed out an alarm.
pub open spec fn granted(results: Seq<Option<AlarmHandle>>) -> int
    decreases results.len(),
{
    if results.len() == 0 {
        0
    } else {
        granted(results.drop_last()) + (if results.last() is Some { 1int } else { 0int })
    }
}

/// Whether `states` and `results` are a run of allocations with nothing
/// released in between: allocation `i` turns `states[i]` into
/// `states[i + 1]` and returns `results[i]`.
pub open spec fn allocation_run(states: Seq<Seq<AlarmState>>, results: Seq<Option<AlarmHandle>>) -> bool {
    &&& states.len() == results.len() + 1
    &&& states[0].len() == ALARM_COUNT
    &&& forall|i: int| 0 <= i < results.len() ==> allocation(states[i], #[trigger] results[i], states[i + 1])
}

proof fn lemma_allocation_run_prefix(states: Seq<Seq<AlarmState>>, results: Seq<Option<AlarmHandle>>, k: int)
    requires
        allocation_run(states, results),
        0 <= k <= results.len(),
    ensures
        states[k].len() == ALARM_COUNT,
        held_count(states[k]) == held_count(states[0]) + granted(results.subrange(0, k)),
        forall|i: int|
            0 <= i < k && (#[trigger] results[i]) is Some
                ==> states[k][results[i]->0.spec_id() as int].allocated,
        forall|i: int, j: int|
            0 <= i < j < k && (#[trigger] results[i]) is Some && (#[trigger] results[j]) is Some
                ==> results[i]->0.spec_id() != results[j]->0.spec_id(),
    decreases k,
{
    if k > 0 {
        lemma_allocation_run_prefix(states, results, k - 1);
        let prev = states[k - 1];
        let next = states[k];
        let r = results[k - 1];
        assert(allocation(prev, r, next));
        assert(results.subrange(0, k).drop_last() =~= results.subrange(0, k - 1));
        assert(results.subrange(0, k).last() == r);
        match r {
            Some(h) => {
                let id = h.spec_id() as int;
                assert(!prev[id].allocated);
                assert(next == with_allocated(prev, id, true));
                assert(held_count(next) == held_count(prev) + 1);
                assert forall|i: int| 0 <= i < k && (#[trigger] results[i]) is Some
                    implies next[results[i]->0.spec_id() as int].allocated by {
                    if i < k - 1 {
                        assert(prev[results[i]->0.spec_id() as int].allocated);
                    }
                }
                assert forall|i: int, j: int|
                    0 <= i < j < k && (#[trigger] results[i]) is Some && (#[trigger] results[j]) is Some
                    implies results[i]->0.spec_id() != results[j]->0.spec_id() by {
                    if j == k - 1 {
                        assert(prev[results[i]->0.spec_id() as int].allocated);
                    }
                }
            },
            None => {
                assert(next == prev);
                assert forall|i: int, j: int|
                    0 <= i < j < k && (#[trigger] results[i]) is Some && (#[trigger] results[j]) is Some
                    implies results[i]->0.spec_id() != results[j]->0.spec_id() by {
                    assert(j < k - 1);
                }
            },
        }
    }
}

/// Over any run of allocations with nothing released in between, no alarm
/// is handed out twice: the alarms handed out are pairwise different, each
/// stays held to the end of the run, and at most three allocations succeed
/// (fewer by the number already held at the start).
pub proof fn lemma_allocation_run_is_exclusive(states: Seq<Seq<AlarmState>>, results: Seq<Option<AlarmHandle>>)
    requires
        allocation_run(states, results),
    ensures
        forall|i: int, j: int|
            0 <= i < j < results.len() && (#[trigger] results[i]) is Some && (#[trigger] results[j]) is Some
                ==> results[i]->0.spec_id() != results[j]->0.spec_id(),
        forall|i: int|
            0 <= i < results.len() && (#[trigger] results[i]) is Some
                ==> (results[i]->0.spec_id() as usize) < ALARM_COUNT
                && states[results.len() as int][results[i]->0.spec_id() as int].allocated,
        granted(results) <= ALARM_COUNT - held_count(states[0]),
        granted(results) <= ALARM_COUNT,
{
    let n = results.len() as int;
    lemma_allocation_run_prefix(states, results, n);
    assert(results.subrange(0, n) =~= results);
    assert forall|i: int| 0 <= i < results.len() && (#[trigger] results[i]) is Some
        implies (results[i]->0.spec_id() as usize) < ALARM_COUNT by {
        assert(allocation(states[i], results[i], states[i + 1]));
    }
    assert(held_count(states[n]) <= 3);
    assert(held_count(states[0]) >= 0);
}

/// Releasing an alarm, on its interrupt or on a passed deadline, changes
/// only its held flag: its callback, argument and deadline stay recorded, so
/// the next firing of the alarm runs the same callback.
pub proof fn lemma_release_keeps_callback(s: Seq<AlarmState>, id: u8, timestamp: u64, now: u64)
    requires
        s.len() == ALARM_COUNT,
        (id as usize) < ALARM_COUNT,
    ensures
        with_allocated(s, id as int, false)[id as int] == (AlarmState {
            timestamp: s[id as int].timestamp,
            callback: s[id as int].callback,
            ctx: s[id as int].ctx,
            allocated: false,
        }),
        with_allocated(s, id as int, false).len() == s.len(),
        callback_of(with_allocated(s, id as int, false), id as int) == callback_of(s, id as int),
        timestamp < now ==> set_alarm_outcome(s, id as int, timestamp, now).1[id as int] == (AlarmState {
            timestamp: s[id as int].timestamp,
            callback: s[id as int].callback,
            ctx: s[id as int].ctx,
            allocated: false,
        }),
        !(timestamp < now) ==> set_alarm_outcome(s, id as int, timestamp, now).1[id as int] == (AlarmState {
            timestamp,
            callback: s[id as int].callback,
            ctx: s[id as int].ctx,
            allocated: s[id as int].allocated,
        }),
{
}

/// A callback set once runs at every firing: setting the callback, then
/// setting the alarm and handling its interrupt, any number of times, always
/// hands back that callback and argument.
pub proof fn lemma_callback_survives_firings(s: Seq<AlarmState>, id: u8, callback: usize, ctx: usize, timestamps: Seq<u64>, now: u64)
    requires
        s.len() == ALARM_COUNT,
        (id as usize) < ALARM_COUNT,
    ensures
        ({
            let s1 = fire_repeatedly(with_callback(s, id as int, callback, ctx), id as int, timestamps, now);
            &&& s1.len() == ALARM_COUNT
            &&& callback_of(s1, id as int) == (AlarmCallback { callback, ctx })
        }),
    decreases timestamps.len(),
{
    if timestamps.len() > 0 {
        lemma_callback_survives_firings(s, id, callback, ctx, timestamps.drop_last(), now);
    }
}

/// The slots after setting alarm `i` to each of `timestamps` in turn at time
/// `now`, each time handling its interrupt when it was programmed.
pub open spec fn fire_repeatedly(alarms: Seq<AlarmState>, i: int, timestamps: Seq<u64>, now: u64) -> Seq<AlarmState>
    decreases timestamps.len(),
{
    if timestamps.len() == 0 {
        alarms
    } else {
        let before = fire_repeatedly(alarms, i, timestamps.drop_last(), now);
        let (action, after) = set_alarm_outcome(before, i, timestamps.last(), now);
        match action {
            AlarmAction::Trigger { .. } => after,
            AlarmAction::Program { .. } => with_allocated(after, i, false),
        }
    }
}

/// The callback that runs for an alarm is the last one recorded for it:
/// whether setting the alarm fires it at once or programs a comparator, the
/// callback and argument handed back, at once or by the interrupt, are those
/// of the last `set_alarm_callback`.
pub proof fn lemma_alarm_runs_last_callback(
    s0: Seq<AlarmState>,
    id: u8,
    callback: usize,
    ctx: usize,
    timestamp: u64,
    now: u64,
)
    requires
        s0.len() == ALARM_COUNT,
        (id as usize) < ALARM_COUNT,
    ensures
        ({
            let (action, s2) = set_alarm_outcome(with_callback(s0, id as int, callback, ctx), id as int, timestamp, now);
            match action {
                AlarmAction::Trigger { callback: c, ctx: x } => c == callback && x == ctx,
                AlarmAction::Program { target, timestamp: t } => {
                    &&& target == id
                    &&& t == timestamp
                    &&& callback_of(s2, target as int) == (AlarmCallback { callback, ctx })
                },
            }
        }),
{
}

/// Setting an alarm whose deadline has passed releases it: the allocation
/// that follows succeeds, with a slot no later than that alarm's.
pub proof fn lemma_passed_alarm_is_reusable(
    before: Seq<AlarmState>,
    id: u8,
    timestamp: u64,
    now: u64,
    r: Option<AlarmHandle>,
    after: Seq<AlarmState>,
)
    requires
        before.len() == ALARM_COUNT,
        (id as usize) < ALARM_COUNT,
        timestamp < now,
        allocation(set_alarm_outcome(before, id as int, timestamp, now).1, r, after),
    ensures
        set_alarm_outcome(before, id as int, timestamp, now).0 is Trigger,
        r matches Some(h) && h.spec_id() <= id,
{
    lemma_fired_alarm_is_reusable(before, id, r, after);
}

/// Alarms are independent: allocating, releasing, setting the callback of
/// or setting one alarm leaves every other alarm as it was.
pub proof fn lemma_alarms_are_independent(
    s: Seq<AlarmState>,
    id: u8,
    other: int,
    callback: usize,
    ctx: usize,
    timestamp: u64,
    now: u64,
    allocated: bool,
)
    requires
        s.len() == ALARM_COUNT,
        (id as usize) < ALARM_COUNT,
        0 <= other < ALARM_COUNT,
        other != id,
    ensures
        with_allocated(s, id as int, allocated)[other] == s[other],
        with_callback(s, id as int, callback, ctx)[other] == s[other],
        set_alarm_outcome(s, id as int, timestamp, now).1[other] == s[other],
{
}

/// Handles the interrupt of comparator 0 (CPU line 1).
pub fn interrupt1(driver: &mut SysTimerDriver) -> (r: AlarmCallback)
    ensures
        r == callback_of(old(driver)@, 0),
        final(driver)@ == with_allocated(old(driver)@, 0, false),
{
    driver.on_interrupt(0)
}

/// Handles the interrupt of comparator 1 (CPU line 2).
pub fn interrupt2(driver: &mut SysTimerDriver) -> (r: AlarmCallback)
    ensures
        r == callback_of(old(driver)@, 1),
        final(driver)@ == with_allocated(old(driver)@, 1, false),
{
    driver.on_interrupt(1)
}

/// Handles the interrupt of comparator 2 (CPU line 3).
pub fn interrupt3(driver: &mut SysTimerDriver) -> (r: AlarmCallback)
    ensures
        r == callback_of(old(driver)@, 2),
        final(driver)@ == with_allocated(old(driver)@, 2, false),
{
    driver.on_interrupt(2)
}

} // verus!
