//! The processor as the boot code sees it: running, or halted for good.
//!
//! The functions here decide; the code around the library acts. It calls
//! the application, or spins, as the returned action says, and hands back
//! the next exception that the hardware takes.
use vstd::prelude::*;
use crate::bindings::{halts, resolve, Bindings, Routine};
use crate::boot::{reset_handler, MemoryLayout, Transfer};
use crate::source::lemma_source_at_exception_number;
use crate::source::Source;
use crate::table::lemma_layout_head;
use crate::table::{layout, VectorTable};

verus! {

/// Whether the processor still executes code.
#[derive(Clone, Copy, Debug, PartialEq, Eq, Structural)]
pub enum CoreState {
    /// Code runs and exceptions are taken.
    Running,
    /// A fail-stop handler was entered; nothing leaves this state.
    Halted,
}

/// What the code around the library has to do next.
#[derive(Clone, Copy, Debug, PartialEq, Eq, Structural)]
pub enum Action {
    /// Run the reset sequence.
    RunResetHandler,
    /// Jump to the application entry point.
    EnterApplication,
    /// Call the handler that the application supplies for the source, then
    /// resume.
    CallHandler(Source),
    /// Spin forever.
    Halt,
    /// The processor is halted already: nothing happens.
    Nothing,
}

/// State and action after source `s` fires in state `state`, when the
/// application supplies the handlers in `provided`.
pub open spec fn next(state: CoreState, provided: Set<Source>, s: Source) -> (CoreState, Action) {
    match state {
        CoreState::Halted => (CoreState::Halted, Action::Nothing),
        CoreState::Running => match resolve(provided, s) {
            Routine::Reset => (CoreState::Running, Action::RunResetHandler),
            Routine::Application(t) => (CoreState::Running, Action::CallHandler(t)),
            _ => (CoreState::Halted, Action::Halt),
        },
    }
}

/// State and action after the reset handler has given up control.
pub open spec fn after_reset(transfer: Transfer) -> (CoreState, Action) {
    match transfer {
        Transfer::ApplicationEntry => (CoreState::Running, Action::EnterApplication),
        Transfer::Fault => (CoreState::Halted, Action::Halt),
    }
}

/// The state after the sources in `events` have fired one after another.
pub open spec fn run(state: CoreState, provided: Set<Source>, events: Seq<Source>) -> CoreState
    decreases events.len(),
{
    if events.len() == 0 {
        state
    } else {
        run(next(state, provided, events[0]).0, provided, events.drop_first())
    }
}

/// Whether an action hands control to code of the application.
pub open spec fn reaches_application(a: Action) -> bool {
    a is EnterApplication || a is CallHandler
}

/// What the processor loads when it leaves reset: the stack pointer from
/// slot 0 and the routine behind slot 1, which is the reset handler.
pub fn power_on(table: &VectorTable, bindings: &Bindings) -> (loaded: (u32, Routine))
    ensures
        table@ == layout(loaded.0),
        loaded.1 == Routine::Reset,
{
    let sp: u32 = table.initial_stack_pointer();
    proof {
        lemma_layout_head(sp);
        lemma_source_at_exception_number(Source::Reset);
    }
    match table.handler(1) {
        Some(s) => (sp, bindings.resolve(s)),
        None => (sp, Routine::Reset),
    }
}

/// Takes the exception of source `s`: reads its slot of the table, resolves
/// the handler found there and says what follows.
pub fn step(state: CoreState, table: &VectorTable, bindings: &Bindings, s: Source) -> (r: (
    CoreState,
    Action,
))
    ensures
        r == next(state, bindings@, s),
{
    if state == CoreState::Halted {
        return (CoreState::Halted, Action::Nothing);
    }
    proof {
        lemma_source_at_exception_number(s);
    }
    match table.handler(s.exception_number()) {
        Some(found) => match bindings.resolve(found) {
            Routine::Reset => (CoreState::Running, Action::RunResetHandler),
            Routine::Application(t) => (CoreState::Running, Action::CallHandler(t)),
            Routine::Nmi | Routine::HardFault | Routine::Default => (
                CoreState::Halted,
                Action::Halt,
            ),
        },
        None => (CoreState::Halted, Action::Halt),
    }
}

/// Says what follows the reset handler: the application, or the halt that
/// the hard-fault handler ends in.
pub fn finish_reset(transfer: Transfer) -> (r: (CoreState, Action))
    ensures
        r == after_reset(transfer),
{
    match transfer {
        Transfer::ApplicationEntry => (CoreState::Running, Action::EnterApplication),
        Transfer::Fault => (CoreState::Halted, Action::Halt),
    }
}

/// A whole reset: the processor loads stack pointer and reset vector, the
/// reset handler prepares `ram` from `flash`, and control goes to the
/// application, or to the halt that a fault ends in.
///
/// Returns the stack pointer that was loaded, the state reached and the
/// action that follows.
pub fn boot(
    table: &VectorTable,
    bindings: &Bindings,
    flash: &[u8],
    ram: &mut [u8],
    regions: &MemoryLayout,
) -> (r: (u32, CoreState, Action))
    ensures
        table@ == layout(r.0),
        (r.1, r.2) == after_reset(
            if regions.fits(flash@.len() as int, old(ram)@.len() as int) {
                Transfer::ApplicationEntry
            } else {
                Transfer::Fault
            },
        ),
        final(ram)@ == (if regions.fits(flash@.len() as int, old(ram)@.len() as int) {
            regions.prepared(flash@, old(ram)@)
        } else {
            old(ram)@
        }),
{
    let (sp, _) = power_on(table, bindings);
    let transfer = reset_handler(flash, ram, regions);
    let (state, action) = finish_reset(transfer);
    (sp, state, action)
}

/// A source whose handler the application left out, other than reset, halts
/// a running processor and hands nothing to the application.
pub proof fn lemma_unassigned_interrupt_halts(provided: Set<Source>, s: Source)
    requires
        s != Source::Reset,
        !provided.contains(s),
    ensures
        next(CoreState::Running, provided, s) == (CoreState::Halted, Action::Halt),
{
}

/// An exception hands control to the application only through the handler
/// that the application bound to that very source.
pub proof fn lemma_application_only_by_binding(state: CoreState, provided: Set<Source>, s: Source)
    requires
        reaches_application(next(state, provided, s).1),
    ensures
        state == CoreState::Running,
        provided.contains(s),
        next(state, provided, s) == (CoreState::Running, Action::CallHandler(s)),
{
}

/// The processor halts exactly when the routine it entered is a fail-stop
/// routine.
pub proof fn lemma_halts_iff_fail_stop(provided: Set<Source>, s: Source)
    ensures
        next(CoreState::Running, provided, s).0 == CoreState::Halted <==> halts(
            resolve(provided, s),
        ),
{
}

/// Nothing leaves the halted state, whatever fires afterwards.
pub proof fn lemma_halted_is_terminal(provided: Set<Source>, events: Seq<Source>)
    ensures
        run(CoreState::Halted, provided, events) == CoreState::Halted,
    decreases events.len(),
{
    if events.len() > 0 {
        lemma_halted_is_terminal(provided, events.drop_first());
    }
}

/// Once a source without a handler has fired, the processor is halted at
/// the end of every continuation.
pub proof fn lemma_halt_persists(provided: Set<Source>, s: Source, later: Seq<Source>)
    requires
        s != Source::Reset,
        !provided.contains(s),
    ensures
        run(CoreState::Running, provided, seq![s] + later) == CoreState::Halted,
{
    let events = seq![s] + later;
    assert(events[0] == s);
    assert(events.drop_first() =~= later);
    lemma_halted_is_terminal(provided, later);
}

} // verus!
