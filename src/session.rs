use vstd::prelude::*;

use crate::render::rendered;
use crate::request::{
    Message,
    MessageRequest,
    ProtocolError,
    Role,
    complete_turn,
    prepare_turn,
    turn_outcome,
    turns,
};
use crate::response::MessageResponse;

verus! {

/// Whether keys edit the pending prompt or command the session.
#[derive(Clone, Copy, Debug, PartialEq, Eq, Structural)]
pub enum InputMode {
    Normal,
    Editing,
}

/// A key press, as far as the session tells keys apart.
#[derive(Clone, Copy, Debug, PartialEq, Eq, Structural)]
pub enum Key {
    Char(char),
    Enter,
    Esc,
    Other,
}

/// What the driver of the session is to do after a key.
#[derive(Clone, Copy, Debug, PartialEq, Eq, Structural)]
pub enum Action {
    /// Nothing beyond redrawing.
    Stay,
    /// End the session.
    Quit,
    /// Hand the key to the prompt editor.
    Edit,
    /// Take the pending prompt, clear the editor and run a turn with it.
    Submit,
}

/// The offset after scrolling down one line; it stops at the largest offset.
pub open spec fn scrolled_down(s: u16) -> u16 {
    if s < u16::MAX {
        (s + 1) as u16
    } else {
        s
    }
}

/// The offset after scrolling up one line; it never goes below 0.
pub open spec fn scrolled_up(s: u16) -> u16 {
    if s > 0 {
        (s - 1) as u16
    } else {
        0
    }
}

/// The offset after `n` upward scrolls from `s`.
pub open spec fn scrolled_up_times(s: u16, n: nat) -> u16
    decreases n,
{
    if n == 0 {
        s
    } else {
        scrolled_up(scrolled_up_times(s, (n - 1) as nat))
    }
}

/// The model index after advancing the selector once over a list of `n`
/// models; it wraps round.
pub open spec fn next_model(i: int, n: int) -> int {
    (i + 1) % n
}

/// The model index after advancing the selector `k` times from `i`.
pub open spec fn advanced(i: int, n: int, k: nat) -> int
    decreases k,
{
    if k == 0 {
        i
    } else {
        next_model(advanced(i, n, (k - 1) as nat), n)
    }
}

/// The mode after `key` in `mode`.
pub open spec fn next_mode(mode: InputMode, key: Key) -> InputMode {
    match mode {
        InputMode::Normal => if key == Key::Char('i') {
            InputMode::Editing
        } else {
            InputMode::Normal
        },
        InputMode::Editing => if key == Key::Esc {
            InputMode::Normal
        } else {
            InputMode::Editing
        },
    }
}

/// What the driver is to do after `key` in `mode`, given whether the
/// pending prompt is empty.
pub open spec fn key_action(mode: InputMode, key: Key, pending_empty: bool) -> Action {
    match mode {
        InputMode::Normal => if key == Key::Char('q') {
            Action::Quit
        } else {
            Action::Stay
        },
        InputMode::Editing => match key {
            Key::Enter => if pending_empty {
                Action::Stay
            } else {
                Action::Submit
            },
            Key::Esc => Action::Stay,
            _ => Action::Edit,
        },
    }
}

/// The scroll offset after `key` in `mode`.
pub open spec fn next_scroll(mode: InputMode, key: Key, s: u16) -> u16 {
    if mode == InputMode::Normal && key == Key::Char('j') {
        scrolled_down(s)
    } else if mode == InputMode::Normal && key == Key::Char('k') {
        scrolled_up(s)
    } else {
        s
    }
}

/// The model index after `key` in `mode`, over a list of `n` models.
pub open spec fn next_model_after(mode: InputMode, key: Key, i: int, n: int) -> int {
    if mode == InputMode::Normal && key == Key::Char('m') {
        next_model(i, n)
    } else {
        i
    }
}

/// The history a session holds after a turn: the new one where the turn
/// succeeded, the old one where it failed.
pub open spec fn committed(
    h: Seq<(Role, Seq<char>)>,
    outcome: Result<Seq<(Role, Seq<char>)>, ProtocolError>,
) -> Seq<(Role, Seq<char>)> {
    match outcome {
        Ok(t) => t,
        Err(_) => h,
    }
}

/// The state of one interactive run: the input mode, the scroll offset of
/// the conversation view, the models to choose from and the selected one,
/// and the conversation so far. The pending prompt lives with the line
/// editor of the driver.
#[derive(Debug)]
pub struct Session {
    pub mode: InputMode,
    pub scroll: u16,
    pub models: Vec<String>,
    pub model: usize,
    pub history: Vec<Message>,
}

impl Session {
    /// The selected model is one of the list.
    pub open spec fn wf(&self) -> bool {
        self.model < self.models@.len()
    }

    /// A fresh session over the model identifiers `models`: normal mode, at
    /// the top, the first model selected, no turns.
    pub fn new(models: Vec<String>) -> (s: Self)
        requires
            models@.len() > 0,
        ensures
            s.wf(),
            s.mode == InputMode::Normal,
            s.scroll == 0,
            s.models@ == models@,
            s.model == 0,
            s.history@.len() == 0,
    {
        Session { mode: InputMode::Normal, scroll: 0, models, model: 0, history: Vec::new() }
    }

    /// The identifier of the selected model.
    pub fn model_name(&self) -> (id: &str)
        requires
            self.wf(),
        ensures
            id@ == self.models@[self.model as int]@,
    {
        self.models[self.model].as_str()
    }

    /// Routes one key. In normal mode `i` starts editing, `q` asks to quit,
    /// `j` and `k` scroll down and up (never above the top), `m` selects the
    /// next model, and other keys do nothing. In editing mode `Esc` returns
    /// to normal mode, `Enter` asks to submit `pending` unless it is empty,
    /// and other keys go to the prompt editor. The history is left as it is.
    pub fn handle_key(&mut self, key: Key, pending: &str) -> (a: Action)
        requires
            old(self).wf(),
        ensures
            final(self).wf(),
            a == key_action(old(self).mode, key, pending@.len() == 0),
            final(self).mode == next_mode(old(self).mode, key),
            final(self).scroll == next_scroll(old(self).mode, key, old(self).scroll),
            final(self).model == next_model_after(
                old(self).mode,
                key,
                old(self).model as int,
                old(self).models@.len() as int,
            ),
            final(self).models == old(self).models,
            final(self).history == old(self).history,
    {
        match self.mode {
            InputMode::Normal => match key {
                Key::Char('i') => {
                    self.mode = InputMode::Editing;
                    Action::Stay
                },
                Key::Char('q') => Action::Quit,
                Key::Char('j') => {
                    if self.scroll < u16::MAX {
                        self.scroll = self.scroll + 1;
                    }
                    Action::Stay
                },
                Key::Char('k') => {
                    if self.scroll > 0 {
                        self.scroll = self.scroll - 1;
                    }
                    Action::Stay
                },
                Key::Char('m') => {
                    let n = self.models.len();
                    self.model = (self.model + 1) % n;
                    Action::Stay
                },
                _ => Action::Stay,
            },
            InputMode::Editing => match key {
                Key::Enter => if pending.is_empty() {
                    Action::Stay
                } else {
                    Action::Submit
                },
                Key::Esc => {
                    self.mode = InputMode::Normal;
                    Action::Stay
                },
                _ => Action::Edit,
            },
        }
    }

    /// The request that sends `prompt` after the whole history to the
    /// selected model.
    pub fn request(&self, prompt: &str) -> (req: MessageRequest)
        requires
            self.wf(),
        ensures
            req.model@ == self.models@[self.model as int]@,
            req.max_tokens == crate::constants::MAX_TOKENS,
            turns(req.messages@) == crate::request::sent_turns(prompt@, self.history@),
            req.system@ == Seq::<char>::empty(),
    {
        prepare_turn(prompt, &self.history, self.models[self.model].as_str())
    }

    /// Takes in the outcome of the turn that sent `prompt`: on a reply with
    /// content the history gains the prompt and the answer together; on any
    /// error it stays exactly as it was and the error is returned.
    pub fn finish_turn(
        &mut self,
        prompt: &str,
        reply: Result<MessageResponse, ProtocolError>,
    ) -> (r: Result<(), ProtocolError>)
        requires
            old(self).wf(),
        ensures
            final(self).wf(),
            final(self).mode == old(self).mode,
            final(self).scroll == old(self).scroll,
            final(self).models == old(self).models,
            final(self).model == old(self).model,
            turns(final(self).history@) == committed(
                turns(old(self).history@),
                turn_outcome(prompt@, old(self).history@, reply),
            ),
            match turn_outcome(prompt@, old(self).history@, reply) {
                Ok(_) => r is Ok,
                Err(e) => r == Err::<(), ProtocolError>(e) && final(self).history
                    == old(self).history,
            },
    {
        match complete_turn(prompt, &self.history, reply) {
            Ok(h) => {
                self.history = h;
                Ok(())
            },
            Err(e) => Err(e),
        }
    }
}

proof fn lemma_advanced_steps(i: int, n: int, k: nat)
    requires
        0 <= i < n,
    ensures
        advanced(i, n, k) == (i + k) % n,
    decreases k,
{
    if k == 0 {
        vstd::arithmetic::div_mod::lemma_small_mod(i as nat, n as nat);
    } else {
        lemma_advanced_steps(i, n, (k - 1) as nat);
        let j = advanced(i, n, (k - 1) as nat);
        vstd::arithmetic::div_mod::lemma_add_mod_noop(i + k - 1, 1, n);
        vstd::arithmetic::div_mod::lemma_add_mod_noop(j, 1, n);
        vstd::arithmetic::div_mod::lemma_mod_twice(i + k - 1, n);
    }
}

/// Advancing the selector over a list of `n` models `k` times from `i`
/// lands on `(i + k) % n`; so `n` advances bring it back where it started.
pub proof fn lemma_model_cycle(i: int, n: int, k: nat)
    requires
        0 <= i < n,
    ensures
        advanced(i, n, k) == (i + k) % n,
        advanced(i, n, n as nat) == i,
{
    lemma_advanced_steps(i, n, k);
    lemma_advanced_steps(i, n, n as nat);
    vstd::arithmetic::div_mod::lemma_mod_add_multiples_vanish(i, n);
    vstd::arithmetic::div_mod::lemma_small_mod(i as nat, n as nat);
}

/// Scrolling up `n` times from `s` ends at `s - n`, or at the top where
/// `n` is more than `s`; from the top it stays at the top.
pub proof fn lemma_scroll_floor(s: u16, n: nat)
    ensures
        scrolled_up_times(s, n) as int == if n >= s {
            0
        } else {
            s - n
        },
        s == 0 ==> scrolled_up_times(s, n) == 0,
    decreases n,
{
    if n > 0 {
        lemma_scroll_floor(s, (n - 1) as nat);
    }
}

/// A turn that fails leaves the conversation view exactly as it was.
pub proof fn lemma_failed_turn_keeps_view(
    prompt: Seq<char>,
    h: Seq<Message>,
    reply: Result<MessageResponse, ProtocolError>,
)
    requires
        turn_outcome(prompt, h, reply) is Err,
    ensures
        rendered(committed(turns(h), turn_outcome(prompt, h, reply))) == rendered(turns(h)),
{
}

} // verus!
