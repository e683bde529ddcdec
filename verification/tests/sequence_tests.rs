use boot_sequence::description::{DescriptionError, MemoryRegion};
use boot_sequence::paging::RootPageTable;
use boot_sequence::sequence::{abort, exit, start, step, BootAction, BootError, BootEvent, BootState};

fn description(magic: u32) -> Vec<u8> {
    let mut blob = vec![0u8; 64];
    blob[0..4].copy_from_slice(&magic.to_be_bytes());
    blob[4..8].copy_from_slice(&64u32.to_be_bytes());
    blob
}

fn sixty_four_mib() -> Vec<MemoryRegion> {
    vec![MemoryRegion { base: 0x8000_0000, length: 64 << 20 }]
}

fn run(events: Vec<BootEvent>) -> (BootState, Vec<BootAction>) {
    let mut state = start();
    let mut actions = Vec::new();
    for event in events {
        let (next, action) = step(state, event);
        state = next;
        actions.push(action);
    }
    (state, actions)
}

fn until_memory(regions: Vec<MemoryRegion>) -> Vec<BootEvent> {
    vec![
        BootEvent::PowerOn,
        BootEvent::VectorInstalled,
        BootEvent::ConsoleReady,
        BootEvent::DescriptionRead { blob: description(0xd00d_feed) },
        BootEvent::MemoryEnumerated { regions },
    ]
}

#[test]
fn boot_over_one_region_runs_to_launch() {
    let mut events = until_memory(sixty_four_mib());
    events.push(BootEvent::TablePopulated {
        code_page: 0x8020_0000,
        resolves_to: Some(0x8020_0000),
    });
    events.push(BootEvent::TranslationActive);
    events.push(BootEvent::ConfirmationLogged);
    let (state, actions) = run(events);
    let root = RootPageTable::at(0x8000_0000).unwrap();
    assert_eq!(
        actions,
        vec![
            BootAction::InstallTrapVector,
            BootAction::StartConsole,
            BootAction::ReadDescription,
            BootAction::EnumerateMemory,
            BootAction::PopulateRootTable { root },
            BootAction::WriteTranslationControl { word: 0x8000_0000_0008_0000 },
            BootAction::LogPagingConfirmation,
            BootAction::Launch { root },
        ]
    );
    assert!(matches!(state, BootState::Launched));
    let launches = actions.iter().filter(|a| matches!(a, BootAction::Launch { .. })).count();
    assert_eq!(launches, 1);
}

#[test]
fn nothing_of_the_boot_follows_the_launch() {
    let mut events = until_memory(sixty_four_mib());
    events.push(BootEvent::TablePopulated { code_page: 0x1000, resolves_to: Some(0x1000) });
    events.push(BootEvent::TranslationActive);
    events.push(BootEvent::ConfirmationLogged);
    events.push(BootEvent::PowerOn);
    events.push(BootEvent::ConfirmationLogged);
    events.push(BootEvent::ShutdownFailed);
    events.push(BootEvent::ConfirmationLogged);
    let (state, actions) = run(events);
    assert_eq!(
        actions[8..],
        [
            BootAction::ReportPanic { reason: BootError::Fault },
            BootAction::RequestShutdown,
            BootAction::Halt,
            BootAction::Halt,
        ]
    );
    assert!(matches!(state, BootState::Halted));
}

#[test]
fn bad_magic_panics_before_any_table_is_built() {
    let (state, actions) = run(vec![
        BootEvent::PowerOn,
        BootEvent::VectorInstalled,
        BootEvent::ConsoleReady,
        BootEvent::DescriptionRead { blob: description(0xfeed_d00d) },
        BootEvent::MemoryEnumerated { regions: sixty_four_mib() },
        BootEvent::TablePopulated { code_page: 0, resolves_to: Some(0) },
        BootEvent::TranslationActive,
    ]);
    assert_eq!(
        actions,
        vec![
            BootAction::InstallTrapVector,
            BootAction::StartConsole,
            BootAction::ReadDescription,
            BootAction::ReportPanic {
                reason: BootError::MalformedDescription(DescriptionError::BadMagic)
            },
            BootAction::RequestShutdown,
            BootAction::Halt,
            BootAction::Halt,
        ]
    );
    assert!(matches!(state, BootState::Halted));
}

#[test]
fn truncated_description_panics() {
    let (state, action) = step(
        BootState::ReadingDescription,
        BootEvent::DescriptionRead { blob: vec![0xd0, 0x0d, 0xfe, 0xed] },
    );
    assert!(matches!(state, BootState::Panicking));
    assert_eq!(
        action,
        BootAction::ReportPanic {
            reason: BootError::MalformedDescription(DescriptionError::BufferTooSmall)
        }
    );
}

#[test]
fn description_without_usable_memory_panics() {
    let (state, actions) = run(until_memory(vec![MemoryRegion { base: 0x8000_0000, length: 100 }]));
    assert!(matches!(state, BootState::Panicking));
    assert_eq!(actions[4], BootAction::ReportPanic { reason: BootError::NoUsableMemory });
    let (state, actions) = run(until_memory(vec![]));
    assert!(matches!(state, BootState::Panicking));
    assert_eq!(actions[4], BootAction::ReportPanic { reason: BootError::NoUsableMemory });
}

#[test]
fn table_builder_is_granted_distinct_pages_after_the_root() {
    let mut events = until_memory(vec![MemoryRegion { base: 0x8000_0000, length: 0x3000 }]);
    events.push(BootEvent::PageRequested);
    events.push(BootEvent::PageRequested);
    let (state, actions) = run(events);
    assert_eq!(
        actions[4..],
        [
            BootAction::PopulateRootTable { root: RootPageTable::at(0x8000_0000).unwrap() },
            BootAction::GrantPage { page: 0x8000_1000 },
            BootAction::GrantPage { page: 0x8000_2000 },
        ]
    );
    assert!(matches!(state, BootState::PopulatingTable { .. }));
    let (state, action) = step(state, BootEvent::PageRequested);
    assert_eq!(action, BootAction::ReportPanic { reason: BootError::OutOfMemory });
    assert!(matches!(state, BootState::Panicking));
}

#[test]
fn unmapped_boot_code_is_never_activated() {
    for resolves_to in [None, Some(0x8020_1000), Some(0)] {
        let mut events = until_memory(sixty_four_mib());
        events.push(BootEvent::TablePopulated { code_page: 0x8020_0000, resolves_to });
        let (state, actions) = run(events);
        assert_eq!(actions[5], BootAction::ReportPanic { reason: BootError::CodePageUnmapped });
        assert!(matches!(state, BootState::Panicking));
    }
}

#[test]
fn event_out_of_turn_is_a_fault() {
    let (state, action) = step(start(), BootEvent::ConsoleReady);
    assert!(matches!(state, BootState::Panicking));
    assert_eq!(action, BootAction::ReportPanic { reason: BootError::Fault });
    let (state, action) = step(BootState::InstallingVector, BootEvent::Fault);
    assert!(matches!(state, BootState::Panicking));
    assert_eq!(action, BootAction::ReportPanic { reason: BootError::Fault });
    let (state, action) = step(BootState::Launched, BootEvent::Fault);
    assert!(matches!(state, BootState::Panicking));
    assert_eq!(action, BootAction::ReportPanic { reason: BootError::Fault });
}

#[test]
fn panic_inside_panic_still_ends_in_halt() {
    let (state, action) = abort(BootError::Fault);
    assert_eq!(action, BootAction::ReportPanic { reason: BootError::Fault });
    let (state, action) = step(state, BootEvent::Fault);
    assert!(matches!(state, BootState::ShuttingDown));
    assert_eq!(action, BootAction::RequestShutdown);
    let (state, action) = step(state, BootEvent::Fault);
    assert!(matches!(state, BootState::Halted));
    assert_eq!(action, BootAction::Halt);
    let (state, action) = step(state, BootEvent::Fault);
    assert!(matches!(state, BootState::Halted));
    assert_eq!(action, BootAction::Halt);
}

#[test]
fn exit_requests_shutdown_and_halts_if_refused() {
    let (state, action) = exit();
    assert!(matches!(state, BootState::ShuttingDown));
    assert_eq!(action, BootAction::RequestShutdown);
    let (state, action) = step(state, BootEvent::ShutdownFailed);
    assert!(matches!(state, BootState::Halted));
    assert_eq!(action, BootAction::Halt);
}

#[test]
fn abort_carries_its_reason() {
    let (state, action) = abort(BootError::OutOfMemory);
    assert!(matches!(state, BootState::Panicking));
    assert_eq!(action, BootAction::ReportPanic { reason: BootError::OutOfMemory });
    let (state, action) = step(state, BootEvent::PanicReported);
    assert!(matches!(state, BootState::ShuttingDown));
    assert_eq!(action, BootAction::RequestShutdown);
}
