use grba_core::scheduler::EventTag::{HBlank, VBlank};
use grba_core::scheduler::{EmuTime, Event, EventTag, Scheduler};

#[test]
fn test_scheduler_basic() {
    let mut scheduler = Scheduler::new();
    // Start with an empty scheduler.
    assert!(scheduler.pop_current().is_none());
    assert_eq!(scheduler.current_time, EmuTime(0));
    // If no events are scheduled this should be a no-op
    scheduler.skip_to_next_event();
    assert_eq!(scheduler.current_time, EmuTime(0));
}

#[test]
fn test_scheduler_schedule() {
    let mut scheduler = Scheduler::new();
    let scheduled_event = Event {
        tag: EventTag::VBlank,
        timestamp: EmuTime(10),
    };

    scheduler.schedule_event(scheduled_event.tag, scheduled_event.timestamp);
    // Schedule in future shouldn't return quite yet.
    assert!(scheduler.pop_current().is_none());
    // Should now skip to VBlank event
    scheduler.skip_to_next_event();
    assert_eq!(scheduler.pop_current(), Some(scheduled_event));
    // Should now be empty
    assert!(scheduler.pop_current().is_none());
}

#[test]
fn test_scheduler_several() {
    let mut scheduler = Scheduler::new();

    scheduler.schedule_event(EventTag::HBlank, EmuTime(10));
    scheduler.schedule_event(EventTag::VBlank, EmuTime(0));
    scheduler.schedule_event(EventTag::VBlank, EmuTime(15));

    // First VBlank should be popped
    assert_eq!(
        scheduler.pop_current(),
        Some(Event {
            tag: VBlank,
            timestamp: EmuTime(0),
        })
    );

    // Should now skip to HBlank event
    scheduler.skip_to_next_event();
    assert_eq!(
        scheduler.pop_current(),
        Some(Event {
            tag: HBlank,
            timestamp: EmuTime(10),
        })
    );

    // Last VBlank
    scheduler.skip_to_next_event();
    assert_eq!(
        scheduler.pop_current(),
        Some(Event {
            tag: VBlank,
            timestamp: EmuTime(15),
        })
    );
}

#[test]
fn same_time_events_come_out_by_tag() {
    let mut scheduler = Scheduler::new();
    scheduler.schedule_event(EventTag::PollInterrupt, EmuTime(0));
    scheduler.schedule_event(EventTag::HBlank, EmuTime(0));
    let first = scheduler.pop_current().unwrap();
    assert_eq!(first.tag, EventTag::HBlank);
    let second = scheduler.pop_current().unwrap();
    assert_eq!(second.tag, EventTag::PollInterrupt);
    assert!(scheduler.pop_current().is_none());
}

#[test]
fn relative_scheduling_and_removal() {
    let mut scheduler = Scheduler::new();
    scheduler.add_time(100);
    scheduler.schedule_relative(EventTag::HBlankEnd, EmuTime(5));
    scheduler.schedule_relative(EventTag::VBlank, EmuTime(7));
    scheduler.remove_event(EventTag::HBlankEnd);
    scheduler.skip_to_next_event();
    assert_eq!(scheduler.current_time, EmuTime(107));
    assert_eq!(scheduler.pop_current().map(|e| e.tag), Some(EventTag::VBlank));
    scheduler.schedule_event(EventTag::HBlank, EmuTime(200));
    scheduler.clear_events();
    scheduler.skip_to_next_event();
    assert_eq!(scheduler.current_time, EmuTime(107));
}

#[test]
fn event_tags_round_trip_through_codes() {
    for code in 0..10u8 {
        assert_eq!(EventTag::from_code(code).code(), code);
    }
}
