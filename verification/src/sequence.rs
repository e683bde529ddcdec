//! The entry sequence as a state machine. The caller performs each action on
//! the hardware and reports what happened; `step` decides what comes next.

use vstd::prelude::*;
use crate::allocator::{lowest_free, page_in_regions, PhysicalAllocator};
use crate::description::{header_verdict, validate, DescriptionError, MemoryRegion};
use crate::paging::{is_page_aligned, translation_control_word, RootPageTable};

verus! {

/// Why the boot sequence gave up.
#[derive(Clone, Copy, Debug, PartialEq, Eq, Structural)]
pub enum BootError {
    /// The hardware description did not pass its header check.
    MalformedDescription(DescriptionError),
    /// No region of the hardware description holds a whole page frame.
    NoUsableMemory,
    /// The allocator ran dry while the root table was being built.
    OutOfMemory,
    /// The populated table does not map the boot code's page onto itself.
    CodePageUnmapped,
    /// A panic was raised, or an event arrived that the current step does not
    /// wait for.
    Fault,
}

/// What the caller is asked to do next.
#[derive(Clone, Copy, Debug, PartialEq, Eq, Structural)]
pub enum BootAction {
    /// Record the trap entry point in the trap-base register, direct mode.
    InstallTrapVector,
    /// Bring up the console sink and print the boot banner.
    StartConsole,
    /// Fetch the bytes of the hardware description.
    ReadDescription,
    /// List the memory regions of the hardware description.
    EnumerateMemory,
    /// Populate the root table that occupies the given frame.
    PopulateRootTable { root: RootPageTable },
    /// Hand a further page frame to the table builder.
    GrantPage { page: u64 },
    /// Write the word to the translation-control register.
    WriteTranslationControl { word: u64 },
    /// Print the paging-confirmation line.
    LogPagingConfirmation,
    /// Hand the root table to the userspace launcher.
    Launch { root: RootPageTable },
    /// Print the panic line for the given reason, on a best-effort basis.
    ReportPanic { reason: BootError },
    /// Ask the platform firmware to shut the machine down.
    RequestShutdown,
    /// Spin forever.
    Halt,
}

/// What the caller reports back.
#[derive(Debug)]
pub enum BootEvent {
    /// The boot loader entered the kernel.
    PowerOn,
    /// The trap vector is in place.
    VectorInstalled,
    /// The console is up and the banner is out.
    ConsoleReady,
    /// The bytes of the hardware description.
    DescriptionRead { blob: Vec<u8> },
    /// The memory regions of the hardware description.
    MemoryEnumerated { regions: Vec<MemoryRegion> },
    /// The table builder needs one more page frame.
    PageRequested,
    /// The table is populated; `resolves_to` is where it sends the page at
    /// `code_page`, on which the boot code runs.
    TablePopulated { code_page: u64, resolves_to: Option<u64> },
    /// The translation-control register is written.
    TranslationActive,
    /// The paging-confirmation line is out.
    ConfirmationLogged,
    /// The panic line is out, or could not be written.
    PanicReported,
    /// The firmware refused the shutdown request.
    ShutdownFailed,
    /// A panic was raised.
    Fault,
}

/// Where the boot sequence stands.
#[derive(Debug)]
pub enum BootState {
    /// Nothing has run yet.
    Reset,
    /// Waiting for the trap vector to be installed.
    InstallingVector,
    /// Waiting for the console.
    StartingConsole,
    /// Waiting for the bytes of the hardware description.
    ReadingDescription,
    /// Waiting for the memory regions.
    EnumeratingMemory,
    /// The allocator is up and the root table is being populated.
    PopulatingTable { allocator: PhysicalAllocator, root: RootPageTable },
    /// Waiting for the translation-control write.
    Activating { root: RootPageTable },
    /// Waiting for the confirmation line.
    Confirming { root: RootPageTable },
    /// The root table was handed to the launcher.
    Launched,
    /// The panic line is being written.
    Panicking,
    /// The shutdown request is with the firmware.
    ShuttingDown,
    /// The hart spins.
    Halted,
}

impl BootState {
    /// The state is on the way down: panicking, shutting down or halted.
    pub open spec fn is_terminal(self) -> bool {
        self is Panicking || self is ShuttingDown || self is Halted
    }

    /// How many more steps a state on the way down can take before the hart
    /// spins.
    pub open spec fn steps_to_halt(self) -> nat {
        match self {
            BootState::Panicking => 2,
            BootState::ShuttingDown => 1,
            _ => 0,
        }
    }
}

impl BootAction {
    /// The action builds, extends, activates or hands over a root table.
    pub open spec fn touches_table(self) -> bool {
        self is PopulateRootTable || self is GrantPage || self is WriteTranslationControl
            || self is Launch
    }
}

/// The state and action that start a panic for `reason`.
pub open spec fn panics_with(next: BootState, action: BootAction, reason: BootError) -> bool {
    next is Panicking && action == (BootAction::ReportPanic { reason })
}

/// `step` takes `state` to `next` and asks for `action` when told `event`.
pub open spec fn transition(
    state: BootState,
    event: BootEvent,
    next: BootState,
    action: BootAction,
) -> bool {
    match (state, event) {
        (BootState::Reset, BootEvent::PowerOn) => next is InstallingVector
            && action is InstallTrapVector,
        (BootState::InstallingVector, BootEvent::VectorInstalled) => next is StartingConsole
            && action is StartConsole,
        (BootState::StartingConsole, BootEvent::ConsoleReady) => next is ReadingDescription
            && action is ReadDescription,
        (BootState::ReadingDescription, BootEvent::DescriptionRead { blob }) => match header_verdict(
            blob@,
        ) {
            Ok(_) => next is EnumeratingMemory && action is EnumerateMemory,
            Err(e) => panics_with(next, action, BootError::MalformedDescription(e)),
        },
        (BootState::EnumeratingMemory, BootEvent::MemoryEnumerated { regions }) => {
            if exists|p: int| #[trigger] page_in_regions(regions@, p) {
                &&& next matches BootState::PopulatingTable { allocator, root }
                &&& action == (BootAction::PopulateRootTable { root })
                &&& lowest_free(regions@, 0, root.address() as int)
                &&& allocator.regions() == regions@
                &&& allocator.cursor() == root.address() + 4096
            } else {
                panics_with(next, action, BootError::NoUsableMemory)
            }
        },
        (BootState::PopulatingTable { allocator, root }, BootEvent::PageRequested) => {
            if allocator.has_free_page() {
                &&& next matches BootState::PopulatingTable { allocator: rest, root: same }
                &&& same == root
                &&& action matches BootAction::GrantPage { page }
                &&& allocator.serves(page as int, rest)
            } else {
                panics_with(next, action, BootError::OutOfMemory)
            }
        },
        (
            BootState::PopulatingTable { allocator, root },
            BootEvent::TablePopulated { code_page, resolves_to },
        ) => {
            if resolves_to == Some(code_page) {
                &&& next == (BootState::Activating { root })
                &&& action == (BootAction::WriteTranslationControl {
                    word: translation_control_word(root.address()),
                })
            } else {
                panics_with(next, action, BootError::CodePageUnmapped)
            }
        },
        (BootState::Activating { root }, BootEvent::TranslationActive) => next == (
            BootState::Confirming { root }) && action is LogPagingConfirmation,
        (BootState::Confirming { root }, BootEvent::ConfirmationLogged) => next is Launched
            && action == (BootAction::Launch { root }),
        (BootState::Panicking, _) => next is ShuttingDown && action is RequestShutdown,
        (BootState::ShuttingDown, _) => next is Halted && action is Halt,
        (BootState::Halted, _) => next is Halted && action is Halt,
        _ => panics_with(next, action, BootError::Fault),
    }
}

/// The state and action with which a panic for `reason` begins: the panic
/// line is to be written, and nothing but the shutdown follows.
pub fn abort(reason: BootError) -> (r: (BootState, BootAction))
    ensures
        panics_with(r.0, r.1, reason),
{
    (BootState::Panicking, BootAction::ReportPanic { reason })
}

/// The state and action of a shutdown: the request goes to the firmware, and
/// if the firmware refuses, the next step halts the hart.
pub fn exit() -> (r: (BootState, BootAction))
    ensures
        r.0 is ShuttingDown,
        r.1 is RequestShutdown,
{
    (BootState::ShuttingDown, BootAction::RequestShutdown)
}

/// The state before anything has run.
pub fn start() -> (r: BootState)
    ensures
        r is Reset,
{
    BootState::Reset
}

/// Brings the allocator up over `regions` and takes the root table's frame
/// from it.
fn bootstrap(regions: Vec<MemoryRegion>) -> (r: (BootState, BootAction))
    ensures
        transition(BootState::EnumeratingMemory, BootEvent::MemoryEnumerated { regions }, r.0, r.1),
{
    match PhysicalAllocator::init(regions) {
        Some(allocator) => {
            let mut allocator = allocator;
            let ghost before = allocator;
            match allocator.alloc_page() {
                Some(frame) => {
                    let root = RootPageTable::from_frame(frame);
                    (
                        BootState::PopulatingTable { allocator, root },
                        BootAction::PopulateRootTable { root },
                    )
                },
                None => {
                    proof {
                        assert(before.has_free_page());
                        assert(false);
                    }
                    abort(BootError::NoUsableMemory)
                },
            }
        },
        None => abort(BootError::NoUsableMemory),
    }
}

/// One decision of the boot sequence: given where it stands and what the
/// caller reports, where it stands next and what the caller is to do.
///
/// The order is fixed: trap vector, console, hardware description, allocator,
/// root table, translation control, confirmation, launch. A description that
/// fails its header check, a description without usable memory, an allocator
/// that runs dry, a table that does not map the boot code onto itself, and
/// any event out of turn each start a panic, which ends in a shutdown request
/// and, should that fail, in a halt.
pub fn step(state: BootState, event: BootEvent) -> (r: (BootState, BootAction))
    ensures
        transition(state, event, r.0, r.1),
{
    match state {
        BootState::Reset => match event {
            BootEvent::PowerOn => (BootState::InstallingVector, BootAction::InstallTrapVector),
            _ => abort(BootError::Fault),
        },
        BootState::InstallingVector => match event {
            BootEvent::VectorInstalled => (BootState::StartingConsole, BootAction::StartConsole),
            _ => abort(BootError::Fault),
        },
        BootState::StartingConsole => match event {
            BootEvent::ConsoleReady => (BootState::ReadingDescription, BootAction::ReadDescription),
            _ => abort(BootError::Fault),
        },
        BootState::ReadingDescription => match event {
            BootEvent::DescriptionRead { blob } => match validate(blob.as_slice()) {
                Ok(_) => (BootState::EnumeratingMemory, BootAction::EnumerateMemory),
                Err(e) => abort(BootError::MalformedDescription(e)),
            },
            _ => abort(BootError::Fault),
        },
        BootState::EnumeratingMemory => match event {
            BootEvent::MemoryEnumerated { regions } => bootstrap(regions),
            _ => abort(BootError::Fault),
        },
        BootState::PopulatingTable { allocator, root } => match event {
            BootEvent::PageRequested => {
                let mut allocator = allocator;
                let ghost before = allocator;
                match allocator.alloc_page() {
                    Some(page) => {
                        assert(before.is_free(page as int));
                        (BootState::PopulatingTable { allocator, root }, BootAction::GrantPage { page })
                    },
                    None => abort(BootError::OutOfMemory),
                }
            },
            BootEvent::TablePopulated { code_page, resolves_to } => {
                let mapped: bool = match resolves_to {
                    Some(target) => target == code_page,
                    None => false,
                };
                if mapped {
                    (
                        BootState::Activating { root },
                        BootAction::WriteTranslationControl { word: root.translation_control() },
                    )
                } else {
                    abort(BootError::CodePageUnmapped)
                }
            },
            _ => abort(BootError::Fault),
        },
        BootState::Activating { root } => match event {
            BootEvent::TranslationActive => (
                BootState::Confirming { root },
                BootAction::LogPagingConfirmation,
            ),
            _ => abort(BootError::Fault),
        },
        BootState::Confirming { root } => match event {
            BootEvent::ConfirmationLogged => (BootState::Launched, BootAction::Launch { root }),
            _ => abort(BootError::Fault),
        },
        BootState::Launched => abort(BootError::Fault),
        BootState::Panicking => exit(),
        BootState::ShuttingDown => (BootState::Halted, BootAction::Halt),
        BootState::Halted => (BootState::Halted, BootAction::Halt),
    }
}

/// A record of steps: `states[k]` was told `events[k]`, asked for
/// `actions[k]` and went on to `states[k + 1]`.
pub open spec fn is_chain(
    states: Seq<BootState>,
    events: Seq<BootEvent>,
    actions: Seq<BootAction>,
) -> bool {
    &&& states.len() == events.len() + 1
    &&& actions.len() == events.len()
    &&& forall|k: int|
        0 <= k < events.len() ==> transition(
            states[k],
            #[trigger] events[k],
            states[k + 1],
            actions[k],
        )
}

/// The state has not yet looked at the hardware description.
pub open spec fn is_early(state: BootState) -> bool {
    state is Reset || state is InstallingVector || state is StartingConsole
        || state is ReadingDescription
}

/// Every root table that the state holds sits on a page boundary.
pub open spec fn roots_aligned(state: BootState) -> bool {
    match state {
        BootState::PopulatingTable { allocator, root } => is_page_aligned(root.address() as int),
        BootState::Activating { root } => is_page_aligned(root.address() as int),
        BootState::Confirming { root } => is_page_aligned(root.address() as int),
        _ => true,
    }
}

/// A panic is terminal: from a state on the way down, whatever is reported,
/// the next state is on the way down too, the only actions are the shutdown
/// request and the halt, and the halt is reached within two steps. A panic
/// raised while a panic is handled changes nothing of this.
pub proof fn lemma_panic_is_terminal(
    state: BootState,
    event: BootEvent,
    next: BootState,
    action: BootAction,
)
    requires
        state.is_terminal(),
        transition(state, event, next, action),
    ensures
        next.is_terminal(),
        action is RequestShutdown || action is Halt,
        !action.touches_table(),
        state is Halted || next.steps_to_halt() < state.steps_to_halt(),
{
}

/// Once a record of steps is on the way down it stays there, and asks for
/// nothing but the shutdown request and the halt.
pub proof fn lemma_terminal_stays(
    states: Seq<BootState>,
    events: Seq<BootEvent>,
    actions: Seq<BootAction>,
    k: int,
    n: int,
)
    requires
        is_chain(states, events, actions),
        0 <= k <= n < events.len(),
        states[k].is_terminal(),
    ensures
        states[n].is_terminal(),
        states[n + 1].is_terminal(),
        actions[n] is RequestShutdown || actions[n] is Halt,
    decreases n - k,
{
    if k < n {
        lemma_terminal_stays(states, events, actions, k, n - 1);
    }
    assert(transition(states[n], events[n], states[n + 1], actions[n]));
}

/// In a record that reaches an early state, every state before it is early
/// and no action before it touches a table.
proof fn lemma_early_prefix(
    states: Seq<BootState>,
    events: Seq<BootEvent>,
    actions: Seq<BootAction>,
    n: int,
    k: int,
)
    requires
        is_chain(states, events, actions),
        0 <= n < k <= events.len(),
        is_early(states[k]),
        states[0] is Reset,
    ensures
        is_early(states[n]),
        !actions[n].touches_table(),
    decreases k - n,
{
    assert(transition(states[k - 1], events[k - 1], states[k], actions[k - 1]));
    if n < k - 1 {
        lemma_early_prefix(states, events, actions, n, k - 1);
    }
    assert(transition(states[n], events[n], states[n + 1], actions[n]));
}

/// A hardware description that fails its header check stops the boot before
/// any table is built: in a record from reset in which step `k` reads such a
/// description, no action, before or after, builds, extends, activates or
/// hands over a table.
pub proof fn lemma_malformed_description_builds_nothing(
    states: Seq<BootState>,
    events: Seq<BootEvent>,
    actions: Seq<BootAction>,
    k: int,
    n: int,
)
    requires
        is_chain(states, events, actions),
        states[0] is Reset,
        0 <= k < events.len(),
        0 <= n < events.len(),
        states[k] is ReadingDescription,
        events[k] matches BootEvent::DescriptionRead { blob } && header_verdict(blob@).is_err(),
    ensures
        !actions[n].touches_table(),
        n >= k ==> actions[n] is ReportPanic || actions[n] is RequestShutdown || actions[n] is Halt,
{
    assert(transition(states[k], events[k], states[k + 1], actions[k]));
    if n < k {
        lemma_early_prefix(states, events, actions, n, k);
    } else if n > k {
        lemma_terminal_stays(states, events, actions, k + 1, n);
    }
}

/// The launch happens at most once and nothing of the boot sequence follows
/// it: after the step that asks for it, every action belongs to a panic.
pub proof fn lemma_nothing_follows_launch(
    states: Seq<BootState>,
    events: Seq<BootEvent>,
    actions: Seq<BootAction>,
    k: int,
    n: int,
)
    requires
        is_chain(states, events, actions),
        0 <= k < n < events.len(),
        actions[k] is Launch,
    ensures
        !actions[n].touches_table(),
        actions[n] is ReportPanic || actions[n] is RequestShutdown || actions[n] is Halt,
{
    assert(transition(states[k], events[k], states[k + 1], actions[k]));
    assert(states[k + 1] is Launched);
    assert(transition(states[k + 1], events[k + 1], states[k + 2], actions[k + 1]));
    if n > k + 1 {
        lemma_terminal_stays(states, events, actions, k + 2, n);
    }
}

/// In a record from reset every root table sits on a page boundary.
proof fn lemma_roots_stay_aligned(
    states: Seq<BootState>,
    events: Seq<BootEvent>,
    actions: Seq<BootAction>,
    n: int,
)
    requires
        is_chain(states, events, actions),
        states[0] is Reset,
        0 <= n <= events.len(),
    ensures
        roots_aligned(states[n]),
    decreases n,
{
    if n > 0 {
        lemma_roots_stay_aligned(states, events, actions, n - 1);
        assert(transition(states[n - 1], events[n - 1], states[n], actions[n - 1]));
    }
}

/// Translation is switched on only for a finished, aligned table that maps
/// the boot code onto itself: in a record from reset, the step that asks for
/// the translation-control write was told that the table is populated and
/// that the boot code's page resolves to itself, and the word it hands out
/// encodes the page-aligned address of the root table that was populated.
pub proof fn lemma_activation_is_safe(
    states: Seq<BootState>,
    events: Seq<BootEvent>,
    actions: Seq<BootAction>,
    n: int,
)
    requires
        is_chain(states, events, actions),
        states[0] is Reset,
        0 <= n < events.len(),
        actions[n] is WriteTranslationControl,
    ensures
        states[n] is PopulatingTable,
        events[n] matches BootEvent::TablePopulated { code_page, resolves_to } && resolves_to
            == Some(code_page),
        is_page_aligned(states[n]->PopulatingTable_root.address() as int),
        actions[n]->word == translation_control_word(states[n]->PopulatingTable_root.address()),
        states[n + 1] == (BootState::Activating { root: states[n]->PopulatingTable_root }),
{
    lemma_roots_stay_aligned(states, events, actions, n);
    assert(transition(states[n], events[n], states[n + 1], actions[n]));
}

} // verus!
