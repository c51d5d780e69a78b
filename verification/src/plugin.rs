//! The plugin capability contract, together with a ghost model of how one
//! plugin reacts to the stream of commands delivered to it.
//!
//! A plugin is driven purely by messages: its only way of answering the host
//! is to return `Some(code)` from its handler, which asks for it to be
//! stopped and records `code` as its terminal status. The spec functions
//! `plugin_step` and `plugin_run` fold that rule over a whole command
//! sequence, and the lemmas below establish the delivery discipline: a
//! handler observes a prefix of the commands sent to it, in order; a plugin
//! that never stops observes all of them; and once a plugin has stopped, no
//! later command reaches its handler and its status never changes.

use vstd::prelude::*;
use crate::message::Message;

verus! {

/// The contract every extension module must satisfy.
///
/// Implementations model their behaviour with the two spec functions:
/// `next_state` says how the plugin's own state evolves on one command, and
/// `response` says what its handler answers (`None`: keep going; `Some(code)`:
/// stop me, with `code` as my terminal status). `handle_message` must behave
/// as that model says. Plugins built outside this crate are trusted to do so.
///
/// If a plugin needs to communicate back to the application, the command type
/// itself should carry a back-channel for it.
pub trait Plugin<T>: Sized {
    /// The plugin's state after its handler has seen `command`.
    spec fn next_state(self, command: T) -> Self;

    /// The handler's answer to `command`: `Some(code)` requests a stop.
    spec fn response(self, command: T) -> Option<u8>;

    /// Reacts to one delivered message, synchronously.
    fn handle_message(&mut self, message: Message<T>) -> (status: Option<u8>)
        ensures
            *final(self) == old(self).next_state(message@),
            status == old(self).response(message@),
    ;
}

/// One step of a plugin's worker: a stopped plugin is left untouched; a
/// running one is handed the command, advances, and answers.
///
/// The state triple is (plugin state, terminal status, commands handled).
pub open spec fn plugin_step<T, P: Plugin<T>>(
    state: (P, Option<u8>, Seq<T>),
    command: T,
) -> (P, Option<u8>, Seq<T>) {
    if state.1 is Some {
        state
    } else {
        (state.0.next_state(command), state.0.response(command), state.2.push(command))
    }
}

/// The state a plugin's worker reaches after the commands in `sent` have
/// been offered to it in order, starting from plugin state `init`.
pub open spec fn plugin_run<T, P: Plugin<T>>(init: P, sent: Seq<T>) -> (P, Option<u8>, Seq<T>)
    decreases sent.len(),
{
    if sent.len() == 0 {
        (init, None, Seq::empty())
    } else {
        plugin_step(plugin_run(init, sent.drop_last()), sent.last())
    }
}

/// The handler observes a prefix of the commands offered, in that same order:
/// nothing is reordered, duplicated, or delivered after a stop.
pub proof fn lemma_handled_is_prefix<T, P: Plugin<T>>(init: P, sent: Seq<T>)
    ensures
        plugin_run(init, sent).2.len() <= sent.len(),
        plugin_run(init, sent).2 == sent.take(plugin_run(init, sent).2.len() as int),
    decreases sent.len(),
{
    if sent.len() > 0 {
        let prev = plugin_run(init, sent.drop_last());
        if prev.1 is None {
            lemma_running_handles_all(init, sent.drop_last());
            assert(plugin_run(init, sent).2 =~= sent.drop_last().push(sent.last()));
            assert(sent.drop_last().push(sent.last()) =~= sent);
            assert(sent.take(sent.len() as int) =~= sent);
        } else {
            lemma_handled_is_prefix(init, sent.drop_last());
            let k = prev.2.len() as int;
            assert(sent.drop_last().take(k) =~= sent.take(k));
        }
    } else {
        assert(plugin_run(init, sent).2 =~= sent.take(0));
    }
}

/// A plugin that never asks to stop observes exactly the commands offered to
/// it, in the order they were sent.
pub proof fn lemma_running_handles_all<T, P: Plugin<T>>(init: P, sent: Seq<T>)
    requires
        plugin_run(init, sent).1 is None,
    ensures
        plugin_run(init, sent).2 == sent,
    decreases sent.len(),
{
    if sent.len() > 0 {
        let prev = plugin_run(init, sent.drop_last());
        lemma_running_handles_all(init, sent.drop_last());
        assert(plugin_run(init, sent).2 =~= sent.drop_last().push(sent.last()));
        assert(sent.drop_last().push(sent.last()) =~= sent);
    } else {
        assert(plugin_run(init, sent).2 =~= sent);
    }
}

/// Once a plugin's handler has answered `Some(code)`, later commands never
/// reach it: whatever is sent afterwards, its handled sequence stays as it
/// was and its terminal status stays `code`.
pub proof fn lemma_stop_is_terminal<T, P: Plugin<T>>(init: P, sent: Seq<T>, later: Seq<T>, code: u8)
    requires
        plugin_run(init, sent).1 == Some(code),
    ensures
        plugin_run(init, sent + later).1 == Some(code),
        plugin_run(init, sent + later).2 == plugin_run(init, sent).2,
    decreases later.len(),
{
    if later.len() == 0 {
        assert(sent + later =~= sent);
    } else {
        lemma_stop_is_terminal(init, sent, later.drop_last(), code);
        assert((sent + later).drop_last() =~= sent + later.drop_last());
        assert((sent + later).last() == later.last());
    }
}

} // verus!
