//! What an operation leaves alone, asks for and tells, read off the states before and after it.

use crate::app::{AppView, MAX_LOGS};
use crate::effect::EffectView;
use crate::text::Chars;
use vstd::prelude::*;

verus! {

impl AppView {
    /// Whether two states differ at most in the dialog that is open, the cursor in its text, the
    /// messages, the request of the dialog, what is asked for and whether something is awaited.
    pub open spec fn keeps_files(self, b: AppView) -> bool {
        b == (AppView {
            input: b.input,
            text_cursor: b.text_cursor,
            logs: b.logs,
            status_message: b.status_message,
            modal_request: b.modal_request,
            async_request_generation: b.async_request_generation,
            effects: b.effects,
            loading: b.loading,
            loading_label: b.loading_label,
            ..self
        })
    }

    /// Whether no message was told between two states.
    pub open spec fn is_silent(self, b: AppView) -> bool {
        b.logs == self.logs && b.status_message == self.status_message
    }

    /// Whether a message is the newest one of a later state.
    pub open spec fn tells(self, b: AppView, msg: Chars) -> bool {
        &&& b.status_message is Some
        &&& b.status_message->0.text == msg
        &&& b.logs.len() > 0
        &&& b.logs.last() == msg
    }

    /// Whether one thing was asked for between two states, and what it was.
    pub open spec fn asks(self, b: AppView, e: EffectView) -> bool {
        b.effects == self.effects.push(e)
    }

    /// Whether nothing was asked for between two states.
    pub open spec fn asks_nothing(self, b: AppView) -> bool {
        b.effects == self.effects
    }

    /// Whether the main pane takes the keys.
    pub open spec fn browses(self) -> bool {
        self.input is Normal && !self.show_help_sheet
    }
}

/// A message is the newest one as soon as it is told. It takes the place of the one that was
/// shown, and is kept behind the earlier ones, of which the oldest goes where there are too many.
pub proof fn law_message_is_told(a: AppView, msg: Chars)
    ensures
        a.tells(a.logged(msg), msg),
        a.logged(msg) == (AppView {
            logs: a.logged(msg).logs,
            status_message: a.logged(msg).status_message,
            ..a
        }),
        a.logs.len() < MAX_LOGS ==> a.logged(msg).logs == a.logs.push(msg),
        a.logs.len() == MAX_LOGS ==> a.logged(msg).logs == a.logs.skip(1).push(msg),
{
    assert(a.logs.len() >= 1 ==> a.logs.push(msg).skip(1) =~= a.logs.skip(1).push(msg));
    assert(a.logs.push(msg).skip(1).len() > 0 ==> a.logs.push(msg).skip(1).last() == msg);
}

} // verus!
