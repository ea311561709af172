//! The order in which the graphics engine must be driven, as a state machine
//! over the operations issued to it.
//!
//! Everything here is specification: it says which sequences of operations
//! the engine accepts and what state they leave it in. The context and the
//! frame are proved to issue accepted sequences only.

use vstd::prelude::*;
use crate::command::{BufferAddress, GuCommand, ShadingModel, TextureColorComponent, TextureEffect};

verus! {

/// Where the engine stands in the life of a command list.
pub enum Phase {
    /// Not brought up yet.
    Off,
    /// Up, with no command list open.
    Idle,
    /// A command list is open and takes operations.
    Recording,
    /// The list was finished; the engine may still be executing it.
    Finished,
    /// The engine has executed the whole list.
    Synced,
    /// The vertical blank has begun: the shown buffer may change.
    Blanked,
}

/// What the engine remembers between operations.
pub struct Device {
    pub phase: Phase,
    /// Whether the display engine is on.
    pub display_on: bool,
    /// The region that draws go to.
    pub draw_buffer: usize,
    /// The region that is shown.
    pub disp_buffer: usize,
    /// The region that holds depth.
    pub depth_buffer: usize,
    /// How many command lists were opened.
    pub lists: nat,
    /// How many times the drawn and the shown buffer changed roles.
    pub swaps: nat,
    /// How many scratch blocks the open list has carved out.
    pub slots: nat,
    /// The texture function last set; it outlives the list that set it.
    pub texture_function: Option<(TextureEffect, TextureColorComponent)>,
    /// The shading model set in the open list; it ends with that list.
    pub shading_model: Option<ShadingModel>,
}

/// The engine before anything was asked of it.
pub open spec fn power_on() -> Device {
    Device {
        phase: Phase::Off,
        display_on: false,
        draw_buffer: 0,
        disp_buffer: 0,
        depth_buffer: 0,
        lists: 0,
        swaps: 0,
        slots: 0,
        texture_function: None,
        shading_model: None,
    }
}

/// Whether an address can be read while `slots` scratch blocks exist.
pub open spec fn readable(address: BufferAddress, slots: nat) -> bool {
    match address {
        BufferAddress::Memory(_) => true,
        BufferAddress::Scratch(slot) => slot < slots,
    }
}

/// Whether an operation belongs to the life cycle of a list rather than to its
/// contents.
pub open spec fn is_lifecycle(c: GuCommand) -> bool {
    c is Init || c is Start || c is Finish || c is Sync || c is WaitVblankStart || c is Display
        || c is SwapBuffers
}

/// The engine after one operation, or `None` where the operation is out of
/// order.
pub open spec fn step(d: Device, c: GuCommand) -> Option<Device> {
    match c {
        GuCommand::Init => if d.phase is Off {
            Some(Device { phase: Phase::Idle, ..d })
        } else {
            None
        },
        GuCommand::LoadIdentity => if d.phase is Idle || d.phase is Recording {
            Some(d)
        } else {
            None
        },
        GuCommand::Start => if d.phase is Idle {
            Some(
                Device {
                    phase: Phase::Recording,
                    lists: d.lists + 1,
                    slots: 0,
                    shading_model: None,
                    ..d
                },
            )
        } else {
            None
        },
        GuCommand::Finish => if d.phase is Recording {
            Some(Device { phase: Phase::Finished, slots: 0, shading_model: None, ..d })
        } else {
            None
        },
        GuCommand::Sync => if d.phase is Finished {
            Some(Device { phase: Phase::Synced, ..d })
        } else {
            None
        },
        GuCommand::WaitVblankStart => if d.phase is Synced {
            Some(Device { phase: Phase::Blanked, ..d })
        } else {
            None
        },
        GuCommand::Display(on) => if d.phase is Blanked && !d.display_on && on {
            Some(Device { phase: Phase::Idle, display_on: true, ..d })
        } else {
            None
        },
        GuCommand::SwapBuffers => if d.phase is Blanked && d.display_on {
            Some(
                Device {
                    phase: Phase::Idle,
                    draw_buffer: d.disp_buffer,
                    disp_buffer: d.draw_buffer,
                    swaps: d.swaps + 1,
                    ..d
                },
            )
        } else {
            None
        },
        _ => if d.phase is Recording {
            match c {
                GuCommand::DrawBuffer { address, .. } => Some(Device { draw_buffer: address, ..d }),
                GuCommand::DispBuffer { address, .. } => Some(Device { disp_buffer: address, ..d }),
                GuCommand::DepthBuffer { address, .. } => Some(
                    Device { depth_buffer: address, ..d },
                ),
                GuCommand::TexFunc(effect, component) => Some(
                    Device { texture_function: Some((effect, component)), ..d },
                ),
                GuCommand::ShadeModel(model) => Some(Device { shading_model: Some(model), ..d }),
                GuCommand::GetMemory { slot, .. } => if slot == d.slots {
                    Some(Device { slots: d.slots + 1, ..d })
                } else {
                    None
                },
                GuCommand::DrawArray { indices, vertices, .. } => if readable(vertices, d.slots)
                    && (match indices {
                    Some(address) => readable(address, d.slots),
                    None => true,
                }) {
                    Some(d)
                } else {
                    None
                },
                _ => Some(d),
            }
        } else {
            None
        },
    }
}

/// The engine after a sequence of operations that starts in state `d`, or
/// `None` where one of them is out of order.
pub open spec fn run_from(d: Device, trace: Seq<GuCommand>) -> Option<Device>
    decreases trace.len(),
{
    if trace.len() == 0 {
        Some(d)
    } else {
        match run_from(d, trace.drop_last()) {
            Some(m) => step(m, trace.last()),
            None => None,
        }
    }
}

/// The engine after a sequence of operations since power-on.
pub open spec fn run(trace: Seq<GuCommand>) -> Option<Device> {
    run_from(power_on(), trace)
}

/// One more operation at the end of a sequence is one more step.
pub proof fn lemma_run_push(d: Device, trace: Seq<GuCommand>, c: GuCommand)
    ensures
        run_from(d, trace.push(c)) == match run_from(d, trace) {
            Some(m) => step(m, c),
            None => None,
        },
{
    assert(trace.push(c).drop_last() =~= trace);
    assert(trace.push(c).last() == c);
}

/// Running a sequence is running its first part and then the rest.
pub proof fn lemma_run_split(d: Device, head: Seq<GuCommand>, rest: Seq<GuCommand>)
    ensures
        run_from(d, head + rest) == match run_from(d, head) {
            Some(m) => run_from(m, rest),
            None => None,
        },
    decreases rest.len(),
{
    if rest.len() == 0 {
        assert(head + rest =~= head);
    } else {
        assert((head + rest).drop_last() =~= head + rest.drop_last());
        assert((head + rest).last() == rest.last());
        lemma_run_split(d, head, rest.drop_last());
    }
}

/// The state of the engine after the first `n` operations of a sequence.
pub open spec fn state_at(trace: Seq<GuCommand>, n: int) -> Device {
    run(trace.take(n)).unwrap()
}

/// In an accepted sequence every operation was in order when it came: the
/// operations before it are accepted, and it takes their state to the next.
pub proof fn lemma_step_at(trace: Seq<GuCommand>, i: int)
    requires
        run(trace) is Some,
        0 <= i < trace.len(),
    ensures
        run(trace.take(i)) is Some,
        step(state_at(trace, i), trace[i]) == Some(state_at(trace, i + 1)),
{
    let upto = trace.take(i + 1);
    assert(trace =~= upto + trace.skip(i + 1));
    lemma_run_split(power_on(), upto, trace.skip(i + 1));
    assert(upto =~= trace.take(i).push(trace[i]));
    lemma_run_push(power_on(), trace.take(i), trace[i]);
}

/// Whether an operation completes the closing of a list: the exchange of the
/// buffers, or, for the set-up list, switching the display on.
pub open spec fn ends_close(c: GuCommand) -> bool {
    c is SwapBuffers || c is Display
}

/// The closing steps come in one fixed order. Wherever an accepted sequence
/// exchanges the buffers or switches the display on, the three operations
/// just before are: finish the list, wait for the engine, wait for the
/// vertical blank.
pub proof fn lemma_close_in_order(trace: Seq<GuCommand>, i: int)
    requires
        run(trace) is Some,
        0 <= i < trace.len(),
        ends_close(trace[i]),
    ensures
        i >= 3,
        trace[i - 3] is Finish,
        trace[i - 2] is Sync,
        trace[i - 1] is WaitVblankStart,
{
    lemma_step_at(trace, i);
    assert(state_at(trace, i).phase is Blanked);
    if i == 0 {
        assert(trace.take(0) =~= Seq::<GuCommand>::empty());
    } else {
        lemma_step_at(trace, i - 1);
        assert(trace[i - 1] is WaitVblankStart);
        assert(state_at(trace, i - 1).phase is Synced);
        if i == 1 {
            assert(trace.take(0) =~= Seq::<GuCommand>::empty());
        } else {
            lemma_step_at(trace, i - 2);
            assert(trace[i - 2] is Sync);
            assert(state_at(trace, i - 2).phase is Finished);
            if i == 2 {
                assert(trace.take(0) =~= Seq::<GuCommand>::empty());
            } else {
                lemma_step_at(trace, i - 3);
            }
        }
    }
}

/// Once a list is finished, nothing but the rest of the close sequence can
/// follow, step by step: wait for the engine, wait for the vertical blank,
/// then the exchange of the buffers (or, for the set-up list, the display).
pub proof fn lemma_finish_is_completed(trace: Seq<GuCommand>, i: int)
    requires
        run(trace) is Some,
        0 <= i < trace.len(),
        trace[i] is Finish,
    ensures
        i + 1 < trace.len() ==> trace[i + 1] is Sync,
        i + 2 < trace.len() ==> trace[i + 2] is WaitVblankStart,
        i + 3 < trace.len() ==> ends_close(trace[i + 3]),
{
    lemma_step_at(trace, i);
    if i + 1 < trace.len() {
        lemma_step_at(trace, i + 1);
        if i + 2 < trace.len() {
            lemma_step_at(trace, i + 2);
            if i + 3 < trace.len() {
                lemma_step_at(trace, i + 3);
            }
        }
    }
}

/// After a list was opened, the engine is not at rest again before that list
/// was closed.
proof fn lemma_rest_needs_close(trace: Seq<GuCommand>, i: int, n: int)
    requires
        run(trace) is Some,
        0 <= i < n <= trace.len(),
        trace[i] is Start,
        state_at(trace, n).phase is Idle || state_at(trace, n).phase is Off,
    ensures
        exists|k: int| i < k < n && ends_close(#[trigger] trace[k]),
    decreases n,
{
    lemma_step_at(trace, n - 1);
    if n - 1 == i {
        assert(state_at(trace, n).phase is Recording);
    } else if ends_close(trace[n - 1]) {
    } else {
        lemma_rest_needs_close(trace, i, n - 1);
        let k = choose|k: int| i < k < n - 1 && ends_close(#[trigger] trace[k]);
        assert(i < k < n && ends_close(trace[k]));
    }
}

/// No list is opened while another is open: between two openings in an
/// accepted sequence, the first list was closed.
pub proof fn lemma_lists_do_not_overlap(trace: Seq<GuCommand>, i: int, j: int)
    requires
        run(trace) is Some,
        0 <= i < j < trace.len(),
        trace[i] is Start,
        trace[j] is Start,
    ensures
        exists|k: int| i < k < j && ends_close(#[trigger] trace[k]),
{
    lemma_step_at(trace, j);
    lemma_rest_needs_close(trace, i, j);
}

/// How many lists a sequence opens.
pub open spec fn starts(trace: Seq<GuCommand>) -> nat
    decreases trace.len(),
{
    if trace.len() == 0 {
        0
    } else {
        starts(trace.drop_last()) + if trace.last() is Start {
            1nat
        } else {
            0nat
        }
    }
}

/// How many times a sequence exchanges the buffers.
pub open spec fn exchanges(trace: Seq<GuCommand>) -> nat
    decreases trace.len(),
{
    if trace.len() == 0 {
        0
    } else {
        exchanges(trace.drop_last()) + if trace.last() is SwapBuffers {
            1nat
        } else {
            0nat
        }
    }
}

/// Whether the counters of the engine agree with where it stands: with the
/// display on, every list but the set-up list and the open one was closed by
/// one exchange.
pub open spec fn balanced(d: Device) -> bool {
    if d.display_on {
        match d.phase {
            Phase::Off => false,
            Phase::Idle => d.lists == d.swaps + 1,
            _ => d.lists == d.swaps + 2,
        }
    } else {
        match d.phase {
            Phase::Off | Phase::Idle => d.lists == 0 && d.swaps == 0,
            _ => d.lists == 1 && d.swaps == 0,
        }
    }
}

/// Each frame is closed exactly once. After an accepted sequence the engine
/// has counted every opening and every exchange of the sequence, and the two
/// counts are balanced: at rest with the display on, the sequence holds one
/// exchange for each list it opened after the set-up list.
pub proof fn lemma_one_close_per_frame(trace: Seq<GuCommand>)
    requires
        run(trace) is Some,
    ensures
        run(trace).unwrap().lists == starts(trace),
        run(trace).unwrap().swaps == exchanges(trace),
        balanced(run(trace).unwrap()),
        run(trace).unwrap().phase is Idle && run(trace).unwrap().display_on ==> starts(trace)
            == exchanges(trace) + 1,
    decreases trace.len(),
{
    if trace.len() > 0 {
        lemma_one_close_per_frame(trace.drop_last());
    }
}

/// A draw reads scratch memory of its own list only: wherever an accepted
/// sequence draws from a scratch block, that block was carved out since the
/// list was opened.
pub proof fn lemma_draw_reads_live_scratch(trace: Seq<GuCommand>, i: int)
    requires
        run(trace) is Some,
        0 <= i < trace.len(),
        trace[i] is DrawArray,
    ensures
        state_at(trace, i).phase is Recording,
        readable(trace[i]->vertices, state_at(trace, i).slots),
        trace[i]->indices is Some ==> readable(trace[i]->indices->Some_0, state_at(trace, i).slots),
{
    lemma_step_at(trace, i);
}

} // verus!
