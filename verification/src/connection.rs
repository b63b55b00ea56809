//! What one connection does: the phases it goes through and its answer to
//! each message of the client.
//!
//! The caller owns the channel. It reports what happened to it, and does
//! what the answer says: run a command, write a line to the log, or nothing.

use vstd::prelude::*;
use crate::config::ActionsConfig;
use crate::droidpad;
use crate::droidpad::ButtonState;

verus! {

/// The phases of a connection, in the order in which it goes through them.
#[derive(Clone, Copy, Debug, PartialEq, Eq, Structural)]
pub enum Phase {
    /// The channel is accepted and nothing was sent yet.
    Connected,
    /// The startup events are being sent.
    StreamingStartup,
    /// Messages of the client are read, one after the other.
    Looping,
    /// The connection is over.
    Closed,
}

/// The answer to one message of the client.
#[derive(Clone, Debug, PartialEq)]
pub enum Reaction {
    /// The payload is no text: it is dropped.
    Unreadable,
    /// The message is empty: there is nothing to do.
    Empty,
    /// The message is no event: it is dropped.
    Invalid,
    /// A button was released: releases run nothing.
    Released,
    /// The widget is configured with another kind than the event has.
    Mismatch,
    /// Nothing is configured for the event.
    Unmapped,
    /// The command to run.
    Run(String),
}

/// How a connection came to its end.
#[derive(Clone, Copy, Debug, PartialEq, Eq, Structural)]
pub enum Ending {
    /// The client closed the channel: the expected end.
    Disconnected,
    /// The channel failed.
    Failed,
}

/// Whether a message was decoded to a valid event: it spells an event, and
/// the event's identifier is not empty.
pub open spec fn is_event(decoded: Option<droidpad::Action>) -> bool {
    decoded is Some && decoded->0.wf()
}

/// Whether `event` reports the release of a button.
pub open spec fn is_release(event: droidpad::Action) -> bool {
    event.spec_button_state() == Some(ButtonState::Release)
}

/// Whether `config` has an action for the widget of `event` that is of
/// another kind than the event.
pub open spec fn is_mismatch(config: ActionsConfig, event: droidpad::Action) -> bool {
    config@.contains_key(event.spec_id()@) && config@[event.spec_id()@].kind() != event.kind()
}

/// Whether `reaction` is the answer to a message. `frame` is the text of the
/// message, or nothing where its payload is no text; `decoded` is the event
/// that the text spells, or nothing where it spells none.
pub open spec fn is_reaction_to(
    reaction: Reaction,
    config: ActionsConfig,
    frame: Option<Seq<char>>,
    decoded: Option<droidpad::Action>,
) -> bool {
    match reaction {
        Reaction::Unreadable => frame is None,
        Reaction::Empty => frame is Some && frame->0.len() == 0,
        Reaction::Invalid => frame is Some && frame->0.len() > 0 && !is_event(decoded),
        Reaction::Released => frame is Some && frame->0.len() > 0 && is_event(decoded) && is_release(
            decoded->0,
        ),
        Reaction::Mismatch => frame is Some && frame->0.len() > 0 && is_event(decoded) && !is_release(
            decoded->0,
        ) && is_mismatch(config, decoded->0),
        Reaction::Unmapped => frame is Some && frame->0.len() > 0 && is_event(decoded) && !is_release(
            decoded->0,
        ) && !is_mismatch(config, decoded->0) && config.spec_command_for(decoded->0) is None,
        Reaction::Run(command) => frame is Some && frame->0.len() > 0 && is_event(decoded)
            && !is_release(decoded->0) && config.spec_command_for(decoded->0) == Some(command@),
    }
}

/// The release of a button is answered by nothing but `Released`: whatever
/// is configured for the button, no command is run.
pub proof fn lemma_release_runs_nothing(
    reaction: Reaction,
    config: ActionsConfig,
    frame: Option<Seq<char>>,
    decoded: Option<droidpad::Action>,
)
    requires
        is_reaction_to(reaction, config, frame, decoded),
        frame is Some && frame->0.len() > 0,
        is_event(decoded),
        is_release(decoded->0),
    ensures
        reaction is Released,
{
}

/// A valid event that is no release is answered by its command wherever the
/// configuration has one for it: a click and a press each run it.
pub proof fn lemma_command_is_run(
    reaction: Reaction,
    config: ActionsConfig,
    frame: Option<Seq<char>>,
    decoded: Option<droidpad::Action>,
)
    requires
        is_reaction_to(reaction, config, frame, decoded),
        frame is Some && frame->0.len() > 0,
        is_event(decoded),
        !is_release(decoded->0),
        config.spec_command_for(decoded->0) is Some,
    ensures
        reaction is Run,
        config.spec_command_for(decoded->0) == Some(reaction->Run_0@),
{
}

/// A message has one answer: two reactions to the same message are of the
/// same sort and, where they run a command, run the same one.
pub proof fn lemma_reaction_determined(
    first: Reaction,
    second: Reaction,
    config: ActionsConfig,
    frame: Option<Seq<char>>,
    decoded: Option<droidpad::Action>,
)
    requires
        is_reaction_to(first, config, frame, decoded),
        is_reaction_to(second, config, frame, decoded),
    ensures
        first is Unreadable <==> second is Unreadable,
        first is Empty <==> second is Empty,
        first is Invalid <==> second is Invalid,
        first is Released <==> second is Released,
        first is Mismatch <==> second is Mismatch,
        first is Unmapped <==> second is Unmapped,
        first is Run <==> second is Run,
        first is Run ==> first->Run_0@ == second->Run_0@,
{
}

/// One connection.
pub struct Connection {
    phase: Phase,
}

impl Connection {
    /// The phase that the connection is in.
    pub closed spec fn spec_phase(&self) -> Phase {
        self.phase
    }

    /// A connection whose channel was just accepted.
    pub fn new() -> (res: Self)
        ensures
            res.spec_phase() == Phase::Connected,
    {
        Connection { phase: Phase::Connected }
    }

    /// The phase that the connection is in.
    pub fn phase(&self) -> (res: Phase)
        ensures
            res == self.spec_phase(),
    {
        self.phase
    }

    /// Starts to send the startup events.
    pub fn begin_startup(&mut self)
        requires
            old(self).spec_phase() == Phase::Connected,
        ensures
            final(self).spec_phase() == Phase::StreamingStartup,
    {
        self.phase = Phase::StreamingStartup;
    }

    /// All startup events are sent: from now on messages are read.
    pub fn startup_finished(&mut self)
        requires
            old(self).spec_phase() == Phase::StreamingStartup,
        ensures
            final(self).spec_phase() == Phase::Looping,
    {
        self.phase = Phase::Looping;
    }

    /// Answers one message of the client.
    ///
    /// `frame` is the text of the message, or nothing where its payload is
    /// no text. `decoded` is the event that the text spells, or nothing where
    /// it spells none; an event without an identifier counts as none.
    ///
    /// Whatever the message holds, the connection goes on reading: a message
    /// that is empty, unreadable or no event is dropped, and so is one for
    /// which there is no command. The release of a button never runs a
    /// command.
    pub fn receive(
        &mut self,
        config: &ActionsConfig,
        frame: Option<&String>,
        decoded: Option<droidpad::Action>,
    ) -> (res: Reaction)
        requires
            old(self).spec_phase() == Phase::Looping,
            config.wf(),
        ensures
            final(self).spec_phase() == Phase::Looping,
            is_reaction_to(
                res,
                *config,
                match frame {
                    Some(text) => Some(text@),
                    None => None,
                },
                decoded,
            ),
            decoded is Some && is_release(decoded->0) ==> !(res is Run),
    {
        let text = match frame {
            None => {
                return Reaction::Unreadable;
            },
            Some(text) => text,
        };
        if text.as_str().is_empty() {
            return Reaction::Empty;
        }
        let event = match decoded {
            None => {
                return Reaction::Invalid;
            },
            Some(event) => event,
        };
        if !event.is_valid() {
            return Reaction::Invalid;
        }
        if let Some(state) = event.button_state() {
            if let ButtonState::Release = state {
                return Reaction::Released;
            }
        }
        match config.command_for(&event) {
            Some(command) => Reaction::Run(command),
            None => {
                if let Some(action) = config.get(event.id()) {
                    if !action.matches(&event) {
                        return Reaction::Mismatch;
                    }
                }
                Reaction::Unmapped
            },
        }
    }

    /// Ends the connection after the channel reported an error.
    /// `peer_closed` says that the error is the closing of the channel.
    pub fn fail(&mut self, peer_closed: bool) -> (res: Ending)
        requires
            old(self).spec_phase() != Phase::Closed,
        ensures
            final(self).spec_phase() == Phase::Closed,
            res == if peer_closed {
                Ending::Disconnected
            } else {
                Ending::Failed
            },
    {
        self.phase = Phase::Closed;
        if peer_closed {
            Ending::Disconnected
        } else {
            Ending::Failed
        }
    }
}

} // verus!
