//! The prompt/input state machine: one text buffer whose leading
//! sentinel character distinguishes command entry from search entry,
//! a timed output message, and the pending confirmation that keeps a
//! message alive.

use vstd::prelude::*;
use vstd::string::*;

use crate::command::{Command, OutputKind};

verus! {

/// How long a prompt message stays visible, in milliseconds.
pub const MESSAGE_DURATION_MS: u64 = 1750;

/// The sentinel that opens command entry.
pub open spec fn command_prefix() -> char {
    ':'
}

/// The sentinel that opens search entry.
pub open spec fn search_prefix() -> char {
    '/'
}

/// The prompt: a text buffer, an output classification with the time
/// it was set, and the command awaiting confirmation, if any.
pub struct Prompt {
    pub text: String,
    pub output_kind: OutputKind,
    pub clock: Option<u64>,
    pub pending: Option<Command>,
}

impl Prompt {
    /// True iff the buffer is in command-entry mode.
    pub open spec fn is_command_entry(self) -> bool {
        self.text@.len() > 0 && self.text@[0] == command_prefix()
    }

    /// True iff the buffer is in search-entry mode.
    pub open spec fn is_search_entry(self) -> bool {
        self.text@.len() > 0 && self.text@[0] == search_prefix()
    }

    /// True iff the prompt takes keystrokes.
    pub open spec fn is_input_enabled(self) -> bool {
        self.is_command_entry() || self.is_search_entry()
    }

    /// An idle prompt with nothing in it.
    pub fn cleared() -> (r: Prompt)
        ensures
            r.text@.len() == 0,
            r.output_kind == OutputKind::Neutral,
            r.clock is None,
            r.pending is None,
    {
        Prompt {
            text: String::new(),
            output_kind: OutputKind::Neutral,
            clock: Option::None,
            pending: Option::None,
        }
    }

    /// Clears the prompt: empty buffer, no message, no pending
    /// confirmation.
    pub fn clear(&mut self)
        ensures
            final(self).text@.len() == 0,
            final(self).output_kind == OutputKind::Neutral,
            final(self).clock is None,
            final(self).pending is None,
    {
        *self = Self::cleared();
    }

    /// Opens command entry: the buffer holds just the command prefix.
    pub fn enable_command_entry(&mut self)
        ensures
            final(self).text@ == seq![command_prefix()],
            final(self).output_kind == OutputKind::Neutral,
            final(self).clock is None,
            final(self).pending is None,
            final(self).is_command_entry(),
            !final(self).is_search_entry(),
    {
        self.clear();
        proof {
            reveal_strlit(":");
        }
        self.text = ":".to_owned();
        proof {
            assert(self.text@ =~= seq![command_prefix()]);
        }
    }

    /// Opens search entry, optionally seeded with a query: the
    /// buffer holds the search prefix followed by the seed.
    pub fn enable_search(&mut self, seed: Option<String>)
        ensures
            final(self).text@ == seq![search_prefix()] + (match seed {
                Option::Some(q) => q@,
                Option::None => Seq::<char>::empty(),
            }),
            final(self).output_kind == OutputKind::Neutral,
            final(self).clock is None,
            final(self).pending is None,
            final(self).is_search_entry(),
    {
        self.clear();
        proof {
            reveal_strlit("/");
        }
        let mut text = "/".to_owned();
        match seed {
            Option::Some(q) => {
                text.append(q.as_str());
            },
            Option::None => {},
        }
        self.text = text;
        proof {
            assert(match seed {
                Option::Some(q) => self.text@ =~= seq![search_prefix()] + q@,
                Option::None => self.text@ =~= seq![search_prefix()] + Seq::<char>::empty(),
            });
        }
    }

    /// The search query: the buffer without its leading sentinel.
    pub open spec fn search_query_spec(self) -> Seq<char> {
        if self.text@.len() > 0 {
            self.text@.drop_first()
        } else {
            self.text@
        }
    }

    /// Returns the search query held in the buffer.
    pub fn search_query(&self) -> (r: String)
        requires
            self.is_search_entry(),
        ensures
            r@ == self.search_query_spec(),
    {
        let n = self.text.as_str().unicode_len();
        let tail = self.text.as_str().substring_char(1, n);
        proof {
            assert(self.text@.subrange(1, self.text@.len() as int) =~= self.text@.drop_first());
        }
        tail.to_owned()
    }

    /// Replaces the buffer with `text` and clears everything else;
    /// used when an option value or the clipboard seeds the prompt
    /// directly.
    pub fn seed_text(&mut self, text: String)
        ensures
            final(self).text == text,
            final(self).output_kind == OutputKind::Neutral,
            final(self).clock is None,
            final(self).pending is None,
    {
        self.clear();
        self.text = text;
    }

    /// Shows a classified message, stamped with the current time.
    pub fn set_output(&mut self, kind: OutputKind, message: String, now: u64)
        ensures
            final(self).text == message,
            final(self).output_kind == kind,
            final(self).clock == Some(now),
            final(self).pending == old(self).pending,
    {
        self.text = message;
        self.output_kind = kind;
        self.clock = Option::Some(now);
    }

    /// Stores a command awaiting confirmation and shows it; the
    /// message is kept alive while the confirmation is pending.
    pub fn set_pending(&mut self, cmd: Command, display: String, now: u64)
        ensures
            final(self).pending is Some,
            final(self).pending->0 == cmd,
            final(self).text == display,
            final(self).output_kind == OutputKind::Action,
            final(self).clock == Some(now),
    {
        self.pending = Option::Some(cmd);
        self.text = display;
        self.output_kind = OutputKind::Action;
        self.clock = Option::Some(now);
    }

    /// Expires the timed message: the prompt is cleared once the
    /// message is older than [`MESSAGE_DURATION_MS`] and no
    /// confirmation is pending; otherwise nothing changes.
    pub fn tick(&mut self, now: u64)
        ensures
            ({
                let expired = match old(self).clock {
                    Option::Some(stamp) => now > stamp && now - stamp > MESSAGE_DURATION_MS,
                    Option::None => false,
                };
                if expired && old(self).pending is None {
                    &&& final(self).text@.len() == 0
                    &&& final(self).output_kind == OutputKind::Neutral
                    &&& final(self).clock is None
                    &&& final(self).pending is None
                } else {
                    *final(self) == *old(self)
                }
            }),
    {
        let expired = match self.clock {
            Option::Some(stamp) => now > stamp && now - stamp > MESSAGE_DURATION_MS,
            Option::None => false,
        };
        if expired && matches!(self.pending, Option::None) {
            self.clear();
        }
    }
}

} // verus!
