//! The producer side of the command queue: one method per command, each
//! packing its fields and queueing the command without waiting for its effect.
use crate::command::Command;
use vstd::prelude::*;

verus! {

#[verifier::external_type_specification]
#[verifier::external_body]
#[verifier::reject_recursive_types(T)]
pub struct ExSender<T>(crossbeam_channel::Sender<T>);

/// Relies on crossbeam_channel's `Sender::send`: queues `cmd` unless the
/// receiving side is gone, and reports whether it did.
#[verifier::external_body]
fn enqueue(tx: &crossbeam_channel::Sender<Command>, cmd: Command) -> bool {
    tx.send(cmd).is_ok()
}

/// A handle for queueing commands to the stage's loop. Each method returns
/// false when the loop has stopped taking commands.
pub struct CommandClient {
    chan_tx: crossbeam_channel::Sender<Command>,
}

impl CommandClient {
    pub fn new(chan_tx: crossbeam_channel::Sender<Command>) -> Self {
        CommandClient { chan_tx }
    }

    /// Queue `cmd` as it is.
    pub fn send(&self, cmd: Command) -> bool {
        enqueue(&self.chan_tx, cmd)
    }

    /// Show the picture at `filename`, named `name`.
    pub fn appear(&self, filename: &str, name: &str) -> bool {
        enqueue(&self.chan_tx, Command::appear(filename, name))
    }

    /// Take the sprite away, saying `name`.
    pub fn disappear(&self, name: &str) -> bool {
        enqueue(&self.chan_tx, Command::disappear(name))
    }

    /// Show `text` as the primary caption, with the cursor at `pos`.
    pub fn telop(&self, text: &str, pos: usize) -> bool {
        enqueue(&self.chan_tx, Command::telop(text, pos))
    }

    /// Show the picture at `filename` as a still title.
    pub fn title(&self, filename: &str) -> bool {
        enqueue(&self.chan_tx, Command::title(filename))
    }

    /// Show `text` as the secondary caption, with the cursor at `pos`.
    pub fn subtelop(&self, text: &str, pos: usize) -> bool {
        enqueue(&self.chan_tx, Command::subtelop(text, pos))
    }

    /// Speak `text` in `lang`.
    pub fn speech(&self, text: &str, lang: &str) -> bool {
        enqueue(&self.chan_tx, Command::speech(text, lang))
    }

    /// Show `ch` as a typed character.
    pub fn character(&self, ch: char) -> bool {
        enqueue(&self.chan_tx, Command::character(ch))
    }
}

} // verus!
