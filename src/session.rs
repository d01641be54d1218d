//! Decisions of the sandbox host around each cartridge step: the one-shot
//! initializer, whether the input snapshot can be written, what batch a
//! step leaves, when a cartridge file is reloaded, and how a new instance
//! replaces the active one.
use vstd::prelude::*;
use crate::host::HostState;
use crate::quad::QuadVertex;

verus! {

/// What the host does at the start of a step.
#[derive(Clone, Copy, Debug, PartialEq, Eq, Structural)]
pub struct TickPlan {
    /// Call the cartridge's one-shot initializer before its tick function.
    pub call_start: bool,
    /// Copy the input snapshot into the cartridge's memory.
    pub write_input: bool,
}

/// Per-instance state of the step protocol.
#[derive(Clone, Copy, Debug, PartialEq, Eq, Structural)]
pub struct Session {
    /// The instance exports an initializer that has not been called yet.
    pub start_pending: bool,
}

impl Session {
    /// The protocol state of a freshly built instance.
    pub fn new(has_start: bool) -> (r: Session)
        ensures
            r.start_pending == has_start,
    {
        Session { start_pending: has_start }
    }

    /// Plans one step. The initializer is called at the first step only and
    /// is then dropped whether or not the call succeeds; the snapshot is
    /// written only where the cartridge exports both its input offset and
    /// its memory.
    pub fn begin_tick(&mut self, has_input_pointer: bool, has_memory: bool) -> (r: TickPlan)
        ensures
            r.call_start == old(self).start_pending,
            r.write_input == (has_input_pointer && has_memory),
            !final(self).start_pending,
    {
        let call_start = self.start_pending;
        self.start_pending = false;
        TickPlan { call_start, write_input: has_input_pointer && has_memory }
    }
}

impl HostState {
    /// The batch a step hands to the renderer: all quads the step emitted
    /// if it completed, none if it trapped.
    pub fn read_back(&self, step_ok: bool) -> (r: &[QuadVertex])
        ensures
            step_ok ==> r@ == self.quads@,
            !step_ok ==> r@ == Seq::<QuadVertex>::empty(),
    {
        if step_ok {
            self.quads.as_slice()
        } else {
            &[]
        }
    }
}

/// Whether a cartridge file modified at `modified_at` replaces an instance
/// loaded at `loaded_at`: only when the file is strictly newer.
pub fn needs_reload(loaded_at: i64, modified_at: i64) -> (r: bool)
    ensures
        r == (modified_at > loaded_at),
{
    modified_at > loaded_at
}

/// Installs a newly built instance in the active slot. A failed build
/// leaves the slot as it was and hands the error back.
pub fn install<T, E>(slot: &mut Option<T>, built: Result<T, E>) -> (r: Option<E>)
    ensures
        built matches Ok(t) ==> *final(slot) == Some(t) && r is None,
        built matches Err(e) ==> *final(slot) == *old(slot) && r == Some(e),
{
    match built {
        Ok(t) => {
            *slot = Some(t);
            None
        },
        Err(e) => Some(e),
    }
}

} // verus!
