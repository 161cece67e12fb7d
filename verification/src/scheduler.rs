//! The event scheduler: emulation time and the queue of timed events.

use binary_heap_plus::{BinaryHeap, MinComparator};
use vstd::multiset::Multiset;
use vstd::prelude::*;

verus! {

/// Capacity reserved for the event queue.
pub const MAX_EVENTS: usize = 20;

#[verifier::external_type_specification]
#[verifier::external_body]
#[verifier::reject_recursive_types(T)]
#[verifier::reject_recursive_types(C)]
pub struct ExBinaryHeap<T, C>(BinaryHeap<T, C>);

#[verifier::external_type_specification]
#[verifier::external_body]
pub struct ExMinComparator(MinComparator);

/// The queue of events, each as its timestamp and the code of its tag.
pub type EventHeap = BinaryHeap<(u64, u8), MinComparator>;

/// The items held by an event heap.
pub uninterp spec fn heap_items(heap: BinaryHeap<(u64, u8), MinComparator>) -> Multiset<(u64, u8)>;

/// The order of the items of an event heap: by timestamp, then by tag code.
pub open spec fn item_le(a: (u64, u8), b: (u64, u8)) -> bool {
    a.0 < b.0 || (a.0 == b.0 && a.1 <= b.1)
}

/// `x` is an item of `m` that no other item of `m` precedes.
pub open spec fn is_min_item(m: Multiset<(u64, u8)>, x: (u64, u8)) -> bool {
    &&& m.contains(x)
    &&& forall|y: (u64, u8)| m.contains(y) ==> item_le(x, y)
}

/// The least item of a multiset is unique: two items that no item precedes are equal.
pub proof fn lemma_min_item_unique(m: Multiset<(u64, u8)>, x: (u64, u8), y: (u64, u8))
    requires
        is_min_item(m, y),
    ensures
        is_min_item(m, x) ==> x == y,
{
}

/// An empty min-heap with room for `capacity` items.
///
/// Trusted: wraps `BinaryHeap::with_capacity_min`; the new heap holds no items.
#[verifier::external_body]
fn heap_with_capacity_min(capacity: usize) -> (r: BinaryHeap<(u64, u8), MinComparator>)
    ensures
        heap_items(r) =~= Multiset::empty(),
{
    BinaryHeap::with_capacity_min(capacity)
}

/// The least item of the heap.
///
/// Trusted: wraps `BinaryHeap::peek` of a min-heap, which returns an item that is not
/// greater (by the `Ord` of tuples) than any other item, and `None` for an empty heap.
#[verifier::external_body]
fn heap_peek(heap: &BinaryHeap<(u64, u8), MinComparator>) -> (r: Option<(u64, u8)>)
    ensures
        r.is_none() <==> heap_items(*heap).len() == 0,
        r matches Some(x) ==> is_min_item(heap_items(*heap), x),
{
    heap.peek().copied()
}

/// Remove and return the least item of the heap.
///
/// Trusted: wraps `BinaryHeap::pop` of a min-heap: it removes one least item, and leaves an
/// empty heap as it is.
#[verifier::external_body]
fn heap_pop(heap: &mut BinaryHeap<(u64, u8), MinComparator>) -> (r: Option<(u64, u8)>)
    ensures
        r.is_none() <==> heap_items(*old(heap)).len() == 0,
        r.is_none() ==> heap_items(*final(heap)) == heap_items(*old(heap)),
        r matches Some(x) ==> {
            &&& is_min_item(heap_items(*old(heap)), x)
            &&& heap_items(*final(heap)) == heap_items(*old(heap)).remove(x)
        },
{
    heap.pop()
}

/// Add an item to the heap.
///
/// Trusted: wraps `BinaryHeap::push`, which adds the item to the heap.
#[verifier::external_body]
fn heap_push(heap: &mut BinaryHeap<(u64, u8), MinComparator>, item: (u64, u8))
    ensures
        heap_items(*final(heap)) == heap_items(*old(heap)).insert(item),
{
    heap.push(item)
}

/// Remove every item of the heap.
///
/// Trusted: wraps `BinaryHeap::clear`, which leaves the heap empty.
#[verifier::external_body]
fn heap_clear(heap: &mut BinaryHeap<(u64, u8), MinComparator>)
    ensures
        heap_items(*final(heap)) =~= Multiset::empty(),
{
    heap.clear()
}

/// The items of the heap, in no particular order.
///
/// Trusted: wraps `BinaryHeap::into_vec`, which returns the heap's storage: every item once.
#[verifier::external_body]
fn heap_into_vec(heap: BinaryHeap<(u64, u8), MinComparator>) -> (r: Vec<(u64, u8)>)
    ensures
        r@.to_multiset() == heap_items(heap),
{
    heap.into_vec()
}

/// A heap holding the items of `items`.
///
/// Trusted: wraps `BinaryHeap::from_vec`, which rebuilds the heap from the vector's items.
#[verifier::external_body]
fn heap_from_vec(items: Vec<(u64, u8)>) -> (r: BinaryHeap<(u64, u8), MinComparator>)
    ensures
        heap_items(r) == items@.to_multiset(),
{
    BinaryHeap::from_vec(items)
}

/// Represents a certain point in time, expressed in emulator clock cycles.
#[derive(Debug, Clone, Copy, PartialEq, Eq, Structural, Hash, PartialOrd, Ord, Default)]
pub struct EmuTime(pub u64);

impl From<u64> for EmuTime {
    fn from(time: u64) -> (r: EmuTime) {
        EmuTime(time)
    }
}

impl vstd::std_specs::convert::FromSpecImpl<u64> for EmuTime {
    open spec fn obeys_from_spec() -> bool {
        true
    }

    open spec fn from_spec(v: u64) -> EmuTime {
        EmuTime(v)
    }
}

impl From<u32> for EmuTime {
    fn from(time: u32) -> (r: EmuTime) {
        EmuTime(time as u64)
    }
}

impl vstd::std_specs::convert::FromSpecImpl<u32> for EmuTime {
    open spec fn obeys_from_spec() -> bool {
        true
    }

    open spec fn from_spec(v: u32) -> EmuTime {
        EmuTime(v as u64)
    }
}

impl From<u16> for EmuTime {
    fn from(time: u16) -> (r: EmuTime) {
        EmuTime(time as u64)
    }
}

impl vstd::std_specs::convert::FromSpecImpl<u16> for EmuTime {
    open spec fn obeys_from_spec() -> bool {
        true
    }

    open spec fn from_spec(v: u16) -> EmuTime {
        EmuTime(v as u64)
    }
}

/// The kinds of timed events.
#[derive(Debug, Copy, Clone, PartialEq, Eq, Structural, PartialOrd, Ord)]
pub enum EventTag {
    /// Shouldn't ever be reached, but will ensure the emulator will exit correctly.
    Exit,
    VBlank,
    HBlank,
    HBlankEnd,
    /// Check for interrupts, will be set whenever an interrupt write happens to ensure the CPU can handle it.
    PollInterrupt,
    /// Start the `Halted` loop, which is only stopped when an enabled interrupt is fired.
    Halt,
    Timer0Irq,
    Timer1Irq,
    Timer2Irq,
    Timer3Irq,
}

/// Number of event tags; tag codes are below it.
pub const EVENT_TAG_COUNT: u8 = 10;

impl EventTag {
    /// The code of the tag: its position in the declaration, which is also its order.
    pub open spec fn spec_code(self) -> u8 {
        match self {
            EventTag::Exit => 0,
            EventTag::VBlank => 1,
            EventTag::HBlank => 2,
            EventTag::HBlankEnd => 3,
            EventTag::PollInterrupt => 4,
            EventTag::Halt => 5,
            EventTag::Timer0Irq => 6,
            EventTag::Timer1Irq => 7,
            EventTag::Timer2Irq => 8,
            EventTag::Timer3Irq => 9,
        }
    }

    /// The code of the tag.
    pub fn code(self) -> (r: u8)
        ensures
            r == self.spec_code(),
            r < EVENT_TAG_COUNT,
    {
        match self {
            EventTag::Exit => 0,
            EventTag::VBlank => 1,
            EventTag::HBlank => 2,
            EventTag::HBlankEnd => 3,
            EventTag::PollInterrupt => 4,
            EventTag::Halt => 5,
            EventTag::Timer0Irq => 6,
            EventTag::Timer1Irq => 7,
            EventTag::Timer2Irq => 8,
            EventTag::Timer3Irq => 9,
        }
    }

    /// The tag with the given code.
    pub fn from_code(code: u8) -> (r: EventTag)
        requires
            code < EVENT_TAG_COUNT,
        ensures
            r.spec_code() == code,
    {
        match code {
            0 => EventTag::Exit,
            1 => EventTag::VBlank,
            2 => EventTag::HBlank,
            3 => EventTag::HBlankEnd,
            4 => EventTag::PollInterrupt,
            5 => EventTag::Halt,
            6 => EventTag::Timer0Irq,
            7 => EventTag::Timer1Irq,
            8 => EventTag::Timer2Irq,
            _ => EventTag::Timer3Irq,
        }
    }
}

/// A timed event.
#[derive(Debug, Copy, Clone)]
pub struct Event {
    pub tag: EventTag,
    pub timestamp: EmuTime,
}

/// The heap item that stands for an event.
pub open spec fn event_item(e: Event) -> (u64, u8) {
    (e.timestamp.0, e.tag.spec_code())
}

impl Default for Event {
    fn default() -> (r: Event)
        ensures
            r.tag == EventTag::Exit,
            r.timestamp == EmuTime(u64::MAX),
    {
        Event { tag: EventTag::Exit, timestamp: EmuTime(u64::MAX) }
    }
}

/// Events are equal when they happen at the same time.
impl PartialEq for Event {
    fn eq(&self, other: &Self) -> (r: bool) {
        self.timestamp.0 == other.timestamp.0
    }
}

impl vstd::std_specs::cmp::PartialEqSpecImpl for Event {
    open spec fn obeys_eq_spec() -> bool {
        true
    }

    open spec fn eq_spec(&self, other: &Self) -> bool {
        self.timestamp.0 == other.timestamp.0
    }
}

impl Eq for Event {

}

/// The abstract state of the scheduler.
pub struct SchedulerView {
    pub current_time: u64,
    pub events: Multiset<(u64, u8)>,
}

/// The `Scheduler` drives all emulation time related events.
/// Is also governs the current time.
pub struct Scheduler {
    /// The current emulation time, expressed in clock cycles.
    pub current_time: EmuTime,
    /// The queue of events to be processed, least timestamp first.
    event_queue: EventHeap,
}

impl View for Scheduler {
    type V = SchedulerView;

    closed spec fn view(&self) -> SchedulerView {
        SchedulerView { current_time: self.current_time.0, events: heap_items(self.event_queue) }
    }
}

/// `true` when every queued item carries the code of an event tag.
pub open spec fn scheduler_view_wf(s: SchedulerView) -> bool {
    forall|x: (u64, u8)| #[trigger] s.events.count(x) > 0 ==> x.1 < EVENT_TAG_COUNT
}

/// Whether an item does not carry the tag code `code`.
pub open spec fn not_tag(code: u8) -> spec_fn((u64, u8)) -> bool {
    |x: (u64, u8)| x.1 != code
}

proof fn lemma_filter_push(s: Seq<(u64, u8)>, x: (u64, u8), code: u8)
    ensures
        s.push(x).to_multiset().filter(not_tag(code)) =~= if x.1 != code {
            s.to_multiset().filter(not_tag(code)).insert(x)
        } else {
            s.to_multiset().filter(not_tag(code))
        },
{
    broadcast use vstd::multiset::group_multiset_axioms;
    broadcast use vstd::seq_lib::group_to_multiset_ensures;

    assert(s.push(x).to_multiset() =~= s.to_multiset().insert(x));
}

impl Scheduler {
    /// Every queued item carries the code of an event tag.
    pub open spec fn wf(&self) -> bool {
        scheduler_view_wf(self@)
    }

    /// A scheduler at time 0 with no events.
    pub fn new() -> (r: Scheduler)
        ensures
            r.wf(),
            r@.current_time == 0,
            r@.events =~= Multiset::empty(),
    {
        Scheduler { current_time: EmuTime(0), event_queue: heap_with_capacity_min(MAX_EVENTS) }
    }

    /// The current emulation time.
    pub fn current_time(&self) -> (r: EmuTime)
        ensures
            r.0 == self@.current_time,
    {
        self.current_time
    }

    /// Set the current time to the next closest event.
    pub fn skip_to_next_event(&mut self)
        requires
            old(self).wf(),
        ensures
            final(self).wf(),
            final(self)@.events == old(self)@.events,
            old(self)@.events.len() == 0 ==> final(self)@.current_time == old(self)@.current_time,
            old(self)@.events.len() > 0 ==> exists|x: (u64, u8)|
                is_min_item(old(self)@.events, x) && final(self)@.current_time == x.0,
    {
        match heap_peek(&self.event_queue) {
            Some(ev) => {
                self.current_time = EmuTime(ev.0);
            },
            None => {},
        }
        assert forall|x: (u64, u8)| #[trigger] self@.events.count(x) > 0 implies x.1 < EVENT_TAG_COUNT by {
            assert(old(self)@.events.count(x) > 0);
        }
    }

    /// Returns any event that should be executed at less than or equal to the current time.
    ///
    /// The event is removed from the scheduler.
    pub fn pop_current(&mut self) -> (r: Option<Event>)
        requires
            old(self).wf(),
        ensures
            final(self).wf(),
            final(self)@.current_time == old(self)@.current_time,
            r.is_none() ==> final(self)@ == old(self)@,
            r.is_none() <==> (forall|x: (u64, u8)|
                old(self)@.events.contains(x) ==> x.0 > old(self)@.current_time),
            r matches Some(e) ==> {
                &&& is_min_item(old(self)@.events, event_item(e))
                &&& e.timestamp.0 <= old(self)@.current_time
                &&& final(self)@.events == old(self)@.events.remove(event_item(e))
            },
    {
        broadcast use vstd::multiset::group_multiset_axioms;

        let due = match heap_peek(&self.event_queue) {
            Some(ev) => ev.0 <= self.current_time.0,
            None => false,
        };
        if due {
            match heap_pop(&mut self.event_queue) {
                Some(item) => {
                    assert(old(self)@.events.count(item) > 0);
                    assert(item.1 < EVENT_TAG_COUNT);
                    assert forall|x: (u64, u8)| #[trigger] self@.events.count(x) > 0 implies x.1
                        < EVENT_TAG_COUNT by {
                        assert(old(self)@.events.count(x) > 0);
                    }
                    let tag = EventTag::from_code(item.1);
                    Some(Event { tag, timestamp: EmuTime(item.0) })
                },
                None => None,
            }
        } else {
            None
        }
    }

    /// Remove all events with the given tag
    pub fn remove_event(&mut self, tag: EventTag)
        requires
            old(self).wf(),
        ensures
            final(self).wf(),
            final(self)@.current_time == old(self)@.current_time,
            final(self)@.events == old(self)@.events.filter(
                not_tag(tag.spec_code()),
            ),
    {
        broadcast use vstd::multiset::group_multiset_axioms;
        broadcast use vstd::seq_lib::group_to_multiset_ensures;

        let code = tag.code();
        let mut queue = heap_with_capacity_min(0);
        std::mem::swap(&mut queue, &mut self.event_queue);
        let items = heap_into_vec(queue);
        let mut kept: Vec<(u64, u8)> = Vec::new();
        let mut i: usize = 0;
        assert(items@.subrange(0, 0) =~= Seq::<(u64, u8)>::empty());
        while i < items.len()
            invariant
                i <= items@.len(),
                kept@.to_multiset() =~= items@.subrange(0, i as int).to_multiset().filter(not_tag(code)),
            decreases items@.len() - i,
        {
            let item = items[i];
            proof {
                assert(items@.subrange(0, i + 1) =~= items@.subrange(0, i as int).push(item));
                lemma_filter_push(items@.subrange(0, i as int), item, code);
            }
            if item.1 != code {
                let ghost before = kept@;
                kept.push(item);
                proof {
                    before.to_multiset_ensures();
                }
                assert(before.push(item).to_multiset() =~= before.to_multiset().insert(item));
            }
            i = i + 1;
        }
        assert(items@.subrange(0, i as int) =~= items@);
        self.event_queue = heap_from_vec(kept);
        assert forall|x: (u64, u8)| #[trigger] self@.events.count(x) > 0 implies x.1 < EVENT_TAG_COUNT by {
            assert(old(self)@.events.filter(not_tag(code)).count(x) > 0);
            assert(old(self)@.events.count(x) > 0);
        }
    }

    /// Clears all scheduled events.
    pub fn clear_events(&mut self)
        ensures
            final(self).wf(),
            final(self)@.current_time == old(self)@.current_time,
            final(self)@.events =~= Multiset::empty(),
    {
        heap_clear(&mut self.event_queue);
    }

    /// Advance the current time by `time` clock cycles, taken as a 64-bit two's complement
    /// number (so a negative time moves it back); the time wraps around at the end of its range.
    pub fn add_time(&mut self, time: i32)
        ensures
            final(self)@.current_time == old(self)@.current_time.wrapping_add(time as u64),
            final(self)@.events == old(self)@.events,
    {
        self.current_time = EmuTime(self.current_time.0.wrapping_add(time as u64));
    }

    /// Schedule the provided event at the absolute time `when`.
    pub fn schedule_event(&mut self, tag: EventTag, when: EmuTime)
        requires
            old(self).wf(),
        ensures
            final(self).wf(),
            final(self)@.current_time == old(self)@.current_time,
            final(self)@.events == old(self)@.events.insert((when.0, tag.spec_code())),
    {
        self.add_event(Event { tag, timestamp: when });
    }

    /// Schedule the provided event, at the absolute time `when + current_time`; the time
    /// wraps around at the end of its range.
    pub fn schedule_relative(&mut self, tag: EventTag, when: EmuTime)
        requires
            old(self).wf(),
        ensures
            final(self).wf(),
            final(self)@.current_time == old(self)@.current_time,
            final(self)@.events == old(self)@.events.insert(
                (old(self)@.current_time.wrapping_add(when.0), tag.spec_code()),
            ),
    {
        let timestamp = EmuTime(self.current_time.0.wrapping_add(when.0));
        self.add_event(Event { tag, timestamp });
    }

    /// Adds the provided event.
    fn add_event(&mut self, event: Event)
        requires
            old(self).wf(),
        ensures
            final(self).wf(),
            final(self)@.current_time == old(self)@.current_time,
            final(self)@.events == old(self)@.events.insert(event_item(event)),
    {
        broadcast use vstd::multiset::group_multiset_axioms;

        heap_push(&mut self.event_queue, (event.timestamp.0, event.tag.code()));
        assert forall|x: (u64, u8)| #[trigger] self@.events.count(x) > 0 implies x.1 < EVENT_TAG_COUNT by {
            if x != event_item(event) {
                assert(old(self)@.events.count(x) > 0);
            }
        }
    }
}

impl Default for Scheduler {
    fn default() -> (r: Scheduler)
        ensures
            r.wf(),
            r@.current_time == 0,
            r@.events =~= Multiset::empty(),
    {
        Scheduler::new()
    }
}

} // verus!
