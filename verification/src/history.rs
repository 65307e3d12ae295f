//! Sequences of commands on the slot, and what holds after every one of them.
//!
//! A command is taken as a whole here: what `start`, `stop` and `status` do to the slot
//! from the moment they look at it to the moment they leave it. Commands that run at the
//! same time take the lock on the slot for each of their steps, so what they do together
//! is a sequence of single calls on the slot; of those, less holds, and it is stated last.

use crate::error::SupervisorError;
use crate::supervisor::{
    admitted, start_step_of, status_log, status_reply, stop_reply, stored_into, taken_from,
    BackendStatus, SlotChange, StartStep,
};
use vstd::prelude::*;

verus! {

/// A command, with the answer that the system gives where the command asks it something.
pub enum Command<H> {
    /// `start`; holds the system's answer to a spawn, which is read only if one is made.
    Start(Result<H, String>),
    /// `stop`.
    Stop,
    /// `status`.
    Status,
}

/// Whether a command asks the system for a new process when it finds the slot as given.
pub open spec fn asks_for_spawn<H>(slot: Option<H>, command: Command<H>) -> bool {
    command is Start && start_step_of(slot) == StartStep::Launch
}

/// Whether a command brings a new child into being when it finds the slot as given.
pub open spec fn spawns_child<H>(slot: Option<H>, command: Command<H>) -> bool {
    asks_for_spawn(slot, command) && command->Start_0 is Ok
}

/// The slot after a command, and the child that the command took out of it.
pub open spec fn after_command<H>(slot: Option<H>, command: Command<H>) -> SlotChange<H> {
    match command {
        Command::Start(spawned) => if asks_for_spawn(slot, command) {
            admitted(slot, spawned)
        } else {
            SlotChange { slot, handed_back: None }
        },
        Command::Stop => taken_from(slot),
        Command::Status => SlotChange { slot, handed_back: None },
    }
}

/// The slot after a sequence of commands.
pub open spec fn after_commands<H>(slot: Option<H>, commands: Seq<Command<H>>) -> Option<H>
    decreases commands.len(),
{
    if commands.len() == 0 {
        slot
    } else {
        after_command(after_commands(slot, commands.drop_last()), commands.last()).slot
    }
}

/// How many children a sequence of commands brought into being.
pub open spec fn children_spawned<H>(slot: Option<H>, commands: Seq<Command<H>>) -> nat
    decreases commands.len(),
{
    if commands.len() == 0 {
        0
    } else {
        let before = after_commands(slot, commands.drop_last());
        let earlier = children_spawned(slot, commands.drop_last());
        if spawns_child(before, commands.last()) {
            earlier + 1
        } else {
            earlier
        }
    }
}

/// How many children a sequence of commands took out of the slot to be terminated.
pub open spec fn children_released<H>(slot: Option<H>, commands: Seq<Command<H>>) -> nat
    decreases commands.len(),
{
    if commands.len() == 0 {
        0
    } else {
        let before = after_commands(slot, commands.drop_last());
        let earlier = children_released(slot, commands.drop_last());
        if after_command(before, commands.last()).handed_back is Some {
            earlier + 1
        } else {
            earlier
        }
    }
}

/// How many children a slot holds.
pub open spec fn held<H>(slot: Option<H>) -> nat {
    if slot is Some {
        1
    } else {
        0
    }
}

/// After every sequence of commands the slot holds at most one child, and every child
/// is accounted for: those that were spawned, with the one that the slot held at first,
/// are those that were taken out to be terminated, with the one that the slot holds now.
/// So no command spawns a child beside one that is still held.
pub proof fn slot_holds_every_live_child<H>(slot: Option<H>, commands: Seq<Command<H>>)
    ensures
        held(after_commands(slot, commands)) <= 1,
        held(slot) + children_spawned(slot, commands) == held(after_commands(slot, commands))
            + children_released(slot, commands),
    decreases commands.len(),
{
    if commands.len() > 0 {
        slot_holds_every_live_child(slot, commands.drop_last());
    }
}

/// A command spawns only into an empty slot, so storing the new child overwrites none.
pub proof fn spawn_finds_slot_empty<H>(slot: Option<H>, command: Command<H>)
    requires
        asks_for_spawn(slot, command),
    ensures
        slot is None,
        after_command(slot, command).handed_back is None,
{
}

/// Of two `start`s in a row, with no `stop` between them, at most one spawns a child, and
/// the second does not even ask for one where the first left a child in the slot. From
/// an empty slot, with a system that grants the spawn, exactly one child is spawned.
pub proof fn start_twice_spawns_once<H>(
    slot: Option<H>,
    first: Result<H, String>,
    second: Result<H, String>,
)
    ensures
        ({
            let between = after_command(slot, Command::Start(first)).slot;
            let after = after_command(between, Command::Start(second)).slot;
            &&& !(spawns_child(slot, Command::Start(first)) && spawns_child(
                between,
                Command::Start(second),
            ))
            &&& between is Some ==> !asks_for_spawn(between, Command::Start(second)) && after
                == between
            &&& slot is None && first is Ok ==> spawns_child(slot, Command::Start(first))
                && between == Some(first->Ok_0)
        }),
{
}

/// `stop` on an empty slot leaves it empty, terminates nothing and succeeds.
pub proof fn stop_on_empty_slot<H>()
    ensures
        after_command(None::<H>, Command::Stop) == (SlotChange::<H> {
            slot: None,
            handed_back: None,
        }),
        stop_reply(None) == Ok::<(), SupervisorError>(()),
{
}

/// `status` on an empty slot reports that nothing runs, logs nothing and cannot fail.
pub proof fn status_on_empty_slot()
    ensures
        status_reply(None) == Ok::<BackendStatus, SupervisorError>(
            BackendStatus::with_running(false),
        ),
        status_log(None) is None,
{
}

/// A single call on the slot, as one holder of the lock makes it.
pub enum SlotCall<H> {
    /// `store`, with the child to store.
    Store(H),
    /// `take`.
    Take,
}

/// The slot after a single call, and what the call handed back.
pub open spec fn after_call<H>(slot: Option<H>, call: SlotCall<H>) -> SlotChange<H> {
    match call {
        SlotCall::Store(child) => stored_into(slot, child),
        SlotCall::Take => taken_from(slot),
    }
}

/// The slot after a sequence of single calls.
pub open spec fn after_calls<H>(slot: Option<H>, calls: Seq<SlotCall<H>>) -> Option<H>
    decreases calls.len(),
{
    if calls.len() == 0 {
        slot
    } else {
        after_call(after_calls(slot, calls.drop_last()), calls.last()).slot
    }
}

/// How many children a sequence of single calls stored.
pub open spec fn children_stored<H>(calls: Seq<SlotCall<H>>) -> nat
    decreases calls.len(),
{
    if calls.len() == 0 {
        0
    } else if calls.last() is Store {
        children_stored(calls.drop_last()) + 1
    } else {
        children_stored(calls.drop_last())
    }
}

/// How many children a sequence of single calls handed back to its callers.
pub open spec fn children_handed_back<H>(slot: Option<H>, calls: Seq<SlotCall<H>>) -> nat
    decreases calls.len(),
{
    if calls.len() == 0 {
        0
    } else {
        let before = after_calls(slot, calls.drop_last());
        let earlier = children_handed_back(slot, calls.drop_last());
        if after_call(before, calls.last()).handed_back is Some {
            earlier + 1
        } else {
            earlier
        }
    }
}

/// However the single calls of several commands fall together, the slot holds at most
/// one child, and none is lost in it: every child that was stored is still held or was
/// handed back to a caller. Two `start`s that both find the slot empty before either
/// stores do spawn two children; the second to store is then handed the first.
pub proof fn slot_loses_no_child<H>(slot: Option<H>, calls: Seq<SlotCall<H>>)
    ensures
        held(after_calls(slot, calls)) <= 1,
        held(slot) + children_stored(calls) == held(after_calls(slot, calls))
            + children_handed_back(slot, calls),
    decreases calls.len(),
{
    if calls.len() > 0 {
        slot_loses_no_child(slot, calls.drop_last());
    }
}

} // verus!
