//! Boot-services teardown and hand-off protocol.
//!
//! The firmware's one-shot "release control" call takes the map key of the
//! most recent memory map query and rejects a stale one, and any query in
//! between invalidates the key. The protocol therefore retries: on rejection
//! it re-queries the map for a fresh key and tries again, bounded at three
//! exit attempts in all. Exhausting the retries is fatal. The machine is an
//! explicit state with a transition function; its driver performs each
//! prescribed action and feeds the outcome back in.

use vstd::prelude::*;

verus! {

/// Most exit attempts the protocol ever makes.
pub const MAX_EXIT_ATTEMPTS: u64 = 3;

/// Fixed physical address the kernel image runs from.
pub const KERNEL_ENTRY_ADDRESS: u64 = 0x200000;

/// Fixed top-of-stack address prepared for the kernel.
pub const KERNEL_STACK_TOP: u64 = 0xA0000;

/// Where the teardown protocol stands.
#[derive(Debug, Clone, Copy, PartialEq, Eq, Structural)]
pub enum TeardownState {
    /// Re-querying the memory map for a fresh key after a rejection.
    Querying,
    /// Holding a key and about to attempt the exit call.
    Exiting,
    /// The firmware has relinquished control; hand-off may proceed.
    Success,
    /// Retries exhausted or the re-query failed; only halting is safe.
    Fatal,
}

/// What happened when the driver performed the prescribed action.
#[derive(Debug, Clone, Copy, PartialEq, Eq, Structural)]
pub enum TeardownEvent {
    /// The exit call was accepted.
    ExitAccepted,
    /// The exit call was rejected with the given status (a stale key).
    ExitRejected(usize),
    /// The memory map was re-queried and produced a fresh key.
    MapQueried(usize),
    /// The memory map re-query itself failed with the given status.
    MapQueryFailed(usize),
}

/// What the driver must do next.
#[derive(Debug, Clone, Copy, PartialEq, Eq, Structural)]
pub enum TeardownAction {
    /// Call the firmware's exit-boot-services with the given map key.
    CallExitBootServices(usize),
    /// Re-query the memory map for a fresh key.
    QueryMemoryMap,
    /// Boot services are gone: run the hand-off sequence.
    EnterKernel,
    /// Display a diagnostic and halt; there is no safe way onward.
    Halt,
}

/// The teardown protocol: its state, the key for the next exit attempt, and
/// how many exit attempts have been made.
#[derive(Debug, Clone, Copy, PartialEq, Eq, Structural)]
pub struct TeardownProtocol {
    /// Where the protocol stands.
    pub state: TeardownState,
    /// The key the next exit attempt will present.
    pub map_key: usize,
    /// How many exit attempts have been made.
    pub attempts: u64,
}

/// The protocol as started with the key of the last memory map query.
pub open spec fn protocol_start(map_key: usize) -> TeardownProtocol {
    TeardownProtocol {
        state: TeardownState::Exiting,
        map_key: map_key,
        attempts: 0,
    }
}

/// The whole transition function of the protocol. An accepted exit succeeds.
/// A rejected exit consumes one attempt and sends the protocol back to
/// re-query the map, unless that was the last allowed attempt, which is
/// fatal. A fresh key re-arms the exit; a failed re-query is fatal. Terminal
/// states and mismatched events change nothing.
pub open spec fn step_spec(pre: TeardownProtocol, event: TeardownEvent) -> TeardownProtocol {
    match (pre.state, event) {
        (TeardownState::Exiting, TeardownEvent::ExitAccepted) => TeardownProtocol {
            state: TeardownState::Success,
            attempts: (pre.attempts + 1) as u64,
            ..pre
        },
        (TeardownState::Exiting, TeardownEvent::ExitRejected(_)) => TeardownProtocol {
            state: if pre.attempts + 1 < MAX_EXIT_ATTEMPTS {
                TeardownState::Querying
            } else {
                TeardownState::Fatal
            },
            attempts: (pre.attempts + 1) as u64,
            ..pre
        },
        (TeardownState::Querying, TeardownEvent::MapQueried(k)) => TeardownProtocol {
            state: TeardownState::Exiting,
            map_key: k,
            ..pre
        },
        (TeardownState::Querying, TeardownEvent::MapQueryFailed(_)) => TeardownProtocol {
            state: TeardownState::Fatal,
            ..pre
        },
        _ => pre,
    }
}

/// A protocol value reachable from a start state: the attempt count is
/// bounded, and a state still willing to attempt an exit has attempts left.
pub open spec fn protocol_wf(p: TeardownProtocol) -> bool {
    &&& p.attempts <= MAX_EXIT_ATTEMPTS
    &&& (p.state == TeardownState::Exiting || p.state == TeardownState::Querying)
            ==> p.attempts < MAX_EXIT_ATTEMPTS
}

impl TeardownProtocol {
    /// Start the protocol with the key of the last memory map query.
    pub fn new(map_key: usize) -> (r: Self)
        ensures
            r == protocol_start(map_key),
    {
        TeardownProtocol {
            state: TeardownState::Exiting,
            map_key,
            attempts: 0,
        }
    }

    /// What the driver must do in the current state.
    pub fn next_action(&self) -> (r: TeardownAction)
        ensures
            self.state == TeardownState::Exiting
                ==> r == TeardownAction::CallExitBootServices(self.map_key),
            self.state == TeardownState::Querying ==> r == TeardownAction::QueryMemoryMap,
            self.state == TeardownState::Success ==> r == TeardownAction::EnterKernel,
            self.state == TeardownState::Fatal ==> r == TeardownAction::Halt,
    {
        match self.state {
            TeardownState::Exiting => TeardownAction::CallExitBootServices(self.map_key),
            TeardownState::Querying => TeardownAction::QueryMemoryMap,
            TeardownState::Success => TeardownAction::EnterKernel,
            TeardownState::Fatal => TeardownAction::Halt,
        }
    }

    /// Feed the outcome of the last action back into the machine.
    pub fn step(&mut self, event: TeardownEvent)
        requires
            protocol_wf(*old(self)),
        ensures
            *final(self) == step_spec(*old(self), event),
            protocol_wf(*final(self)),
    {
        match (self.state, event) {
            (TeardownState::Exiting, TeardownEvent::ExitAccepted) => {
                self.state = TeardownState::Success;
                self.attempts = self.attempts + 1;
            }
            (TeardownState::Exiting, TeardownEvent::ExitRejected(_)) => {
                let next_attempts = self.attempts + 1;
                self.state = if next_attempts < MAX_EXIT_ATTEMPTS {
                    TeardownState::Querying
                } else {
                    TeardownState::Fatal
                };
                self.attempts = next_attempts;
            }
            (TeardownState::Querying, TeardownEvent::MapQueried(k)) => {
                self.map_key = k;
                self.state = TeardownState::Exiting;
            }
            (TeardownState::Querying, TeardownEvent::MapQueryFailed(_)) => {
                self.state = TeardownState::Fatal;
            }
            _ => {}
        }
    }
}

/// Stepping preserves well-formedness: the protocol never makes more than
/// `MAX_EXIT_ATTEMPTS` exit attempts, whatever the events.
pub proof fn lemma_step_preserves_wf(pre: TeardownProtocol, event: TeardownEvent)
    requires
        protocol_wf(pre),
    ensures
        protocol_wf(step_spec(pre, event)),
        step_spec(pre, event).attempts <= MAX_EXIT_ATTEMPTS,
{
}

/// Against a firmware that rejects every exit attempt, however fresh the
/// keys, the protocol reaches the fatal state after exactly
/// `MAX_EXIT_ATTEMPTS` attempts, and no further event moves it.
pub proof fn lemma_always_rejected_is_fatal(
    key0: usize,
    s1: usize,
    k1: usize,
    s2: usize,
    k2: usize,
    s3: usize,
    later: TeardownEvent,
)
    ensures
        ({
            let p = step_spec(
                step_spec(
                    step_spec(
                        step_spec(
                            step_spec(protocol_start(key0), TeardownEvent::ExitRejected(s1)),
                            TeardownEvent::MapQueried(k1),
                        ),
                        TeardownEvent::ExitRejected(s2),
                    ),
                    TeardownEvent::MapQueried(k2),
                ),
                TeardownEvent::ExitRejected(s3),
            );
            p.state == TeardownState::Fatal
                && p.attempts == MAX_EXIT_ATTEMPTS
                && step_spec(p, later) == p
        }),
{
}

/// Against a firmware that rejects the first two attempts and accepts the
/// third, each time against a fresh key, the protocol succeeds after exactly
/// `MAX_EXIT_ATTEMPTS` attempts.
pub proof fn lemma_third_attempt_succeeds(
    key0: usize,
    s1: usize,
    k1: usize,
    s2: usize,
    k2: usize,
)
    ensures
        ({
            let p = step_spec(
                step_spec(
                    step_spec(
                        step_spec(
                            step_spec(protocol_start(key0), TeardownEvent::ExitRejected(s1)),
                            TeardownEvent::MapQueried(k1),
                        ),
                        TeardownEvent::ExitRejected(s2),
                    ),
                    TeardownEvent::MapQueried(k2),
                ),
                TeardownEvent::ExitAccepted,
            );
            p.state == TeardownState::Success
                && p.attempts == MAX_EXIT_ATTEMPTS
        }),
{
}

/// One step of the register and control hygiene performed after a successful
/// exit, in strict order.
#[derive(Debug, Clone, Copy, PartialEq, Eq, Structural)]
pub enum CpuSetupStep {
    /// Install the given physical address as the page-table root.
    LoadPageTableRoot(u64),
    /// Disable interrupts; nothing may trap until the kernel installs its
    /// own handlers.
    DisableInterrupts,
    /// Point the stack at the prepared kernel stack top.
    SetStackPointer(u64),
    /// Clear the direction flag so string operations increment.
    ClearDirectionFlag,
    /// Zero the general-purpose registers so no stale firmware-call
    /// arguments leak into the kernel.
    ClearGeneralRegisters,
    /// Transfer control to the kernel entry address; this never returns.
    JumpToKernel(u64),
}

/// The hand-off sequence run once the firmware has relinquished control:
/// page tables first, then interrupts off, stack, flag and register hygiene,
/// and the one-way jump.
pub fn handoff_sequence(page_table_base: u64, stack_top: u64, kernel_entry: u64)
    -> (r: Vec<CpuSetupStep>)
    ensures
        r@ =~= seq![
            CpuSetupStep::LoadPageTableRoot(page_table_base),
            CpuSetupStep::DisableInterrupts,
            CpuSetupStep::SetStackPointer(stack_top),
            CpuSetupStep::ClearDirectionFlag,
            CpuSetupStep::ClearGeneralRegisters,
            CpuSetupStep::JumpToKernel(kernel_entry),
        ],
{
    let mut steps: Vec<CpuSetupStep> = Vec::new();
    steps.push(CpuSetupStep::LoadPageTableRoot(page_table_base));
    steps.push(CpuSetupStep::DisableInterrupts);
    steps.push(CpuSetupStep::SetStackPointer(stack_top));
    steps.push(CpuSetupStep::ClearDirectionFlag);
    steps.push(CpuSetupStep::ClearGeneralRegisters);
    steps.push(CpuSetupStep::JumpToKernel(kernel_entry));
    steps
}

} // verus!
