//! The typist: which keys to press for a text, and how long to wait between
//! them.

use crate::config::TypingConfig;
use crate::entropy::{draw_between, draw_ratio};
use crate::keyboard::{is_nearby, KeyboardLayout};
use crate::outcome::{
    lemma_carriage_returns_are_silent, lemma_typing_reaches_the_screen, replay, shown,
};
use crate::unicode::{is_whitespace, unicode_whitespace};
use rand::rngs::StdRng;
use vstd::prelude::*;

verus! {

/// One thing the typist does.
#[derive(Clone, Copy, Debug, PartialEq, Eq, Structural)]
pub enum Action {
    /// Type a character.
    Emit(char),
    /// Press backspace once.
    Backspace,
    /// Press the return key once.
    Return,
    /// Wait for so many milliseconds.
    Sleep(u64),
}

/// A slip of the finger: the wrong key that is struck, and how long it takes
/// the typist to notice.
#[derive(Clone, Copy, Debug, PartialEq, Eq, Structural)]
pub struct Slip {
    pub wrong: char,
    pub pause_ms: u64,
}

/// Everything that chance decides about one character of the text.
#[derive(Clone, Copy, Debug, PartialEq, Eq)]
pub struct Draws {
    /// Whether the one-in-a-hundred trial for a pause before the character
    /// succeeded.
    pub think_trial: bool,
    /// The length of a thinking pause, should one be taken.
    pub think_ms: u64,
    /// The slip made on the character, if any.
    pub slip: Option<Slip>,
    /// Whether the trial for a long pause after the character succeeded.
    pub long_trial: bool,
    /// The length of a long pause, should one be taken.
    pub long_ms: u64,
    /// The delay after the character.
    pub base_ms: u64,
}

/// The punctuation marks after which the typist may pause for long.
pub open spec fn is_pause_mark(c: char) -> bool {
    c == '.' || c == ',' || c == '?' || c == '!' || c == ';' || c == ':'
}

/// Whether `c` is typed as a character: a line feed is a press of the return
/// key, and a carriage return is passed over.
pub open spec fn is_typed(c: char) -> bool {
    c != '\n' && c != '\r'
}

/// The keystrokes that put `c` on the screen: `c` alone, or with a slip the
/// wrong key, a pause, a backspace, and then `c`.
pub open spec fn emission(c: char, slip: Option<Slip>) -> Seq<Action> {
    match slip {
        Some(s) => seq![
            Action::Emit(s.wrong),
            Action::Sleep(s.pause_ms),
            Action::Backspace,
            Action::Emit(c),
        ],
        None => seq![Action::Emit(c)],
    }
}

/// A thinking pause, taken before a white-space character when the trial for
/// it succeeded.
pub open spec fn pause_before(c: char, d: Draws) -> Seq<Action> {
    if d.think_trial && unicode_whitespace(c) {
        seq![Action::Sleep(d.think_ms)]
    } else {
        Seq::empty()
    }
}

/// A long pause, taken after a punctuation mark when the trial for it
/// succeeded.
pub open spec fn pause_after(c: char, d: Draws) -> Seq<Action> {
    if d.long_trial && is_pause_mark(c) {
        seq![Action::Sleep(d.long_ms)]
    } else {
        Seq::empty()
    }
}

/// What the typist does for one character of the text, given the draws.
///
/// Nothing for a carriage return. For a line feed the return key, a thinking
/// pause and the base delay. For any other character a thinking pause now
/// and then, the keystrokes of the character, a long pause now and then, and
/// the base delay.
pub open spec fn keystrokes(c: char, d: Draws) -> Seq<Action> {
    if c == '\r' {
        Seq::empty()
    } else if c == '\n' {
        seq![Action::Return, Action::Sleep(d.think_ms), Action::Sleep(d.base_ms)]
    } else {
        pause_before(c, d) + emission(c, d.slip) + pause_after(c, d) + seq![
            Action::Sleep(d.base_ms),
        ]
    }
}

/// What the typist does for a whole text, character by character.
pub open spec fn script(text: Seq<char>, draws: Seq<Draws>) -> Seq<Action>
    recommends
        draws.len() == text.len(),
    decreases text.len(),
{
    if text.len() == 0 {
        Seq::empty()
    } else {
        script(text.drop_last(), draws.drop_last()) + keystrokes(text.last(), draws.last())
    }
}

/// The slips that can happen on `c` under a configuration: the wrong key is
/// a neighbour of `c`, the pause is a correction delay, and odds of one in
/// one leave no keystroke without a slip.
pub open spec fn slip_admissible(c: char, config: TypingConfig, slip: Option<Slip>) -> bool {
    &&& slip is Some ==> is_nearby(c, slip->0.wrong) && config.correction_delay.holds(
        slip->0.pause_ms,
    )
    &&& config.mistake_probability == 1 ==> slip is Some
}

/// The draws that can come up for `c` under a configuration: every delay
/// lies in its span, a slip is one that can happen, and a chance of nought
/// or of a hundred percent decides the trial for the long pause.
pub open spec fn admissible(c: char, config: TypingConfig, d: Draws) -> bool {
    &&& config.thinking_delay.holds(d.think_ms)
    &&& config.long_pause_delay.holds(d.long_ms)
    &&& config.base_delay.holds(d.base_ms)
    &&& is_typed(c) ==> {
        &&& slip_admissible(c, config, d.slip)
        &&& config.long_pause_probability == 0 ==> !d.long_trial
        &&& config.long_pause_probability == 100 ==> d.long_trial
    }
}

/// Whether nothing was drawn that the character has no use for: no trial
/// for a line feed or a carriage return, and each delay that is not taken at
/// the lower bound of its span.
pub open spec fn frugal(c: char, config: TypingConfig, d: Draws) -> bool {
    &&& !is_typed(c) ==> !d.think_trial && d.slip is None && !d.long_trial
    &&& c == '\r' ==> d.base_ms == config.base_delay.low
    &&& c != '\n' && !(d.think_trial && unicode_whitespace(c)) ==> d.think_ms
        == config.thinking_delay.low
    &&& !(d.long_trial && is_pause_mark(c)) ==> d.long_ms == config.long_pause_delay.low
}

/// Whether each character of the text has draws that can come up for it.
pub open spec fn all_admissible(text: Seq<char>, config: TypingConfig, draws: Seq<Draws>) -> bool {
    &&& draws.len() == text.len()
    &&& forall|i: int| 0 <= i < text.len() ==> admissible(text[i], config, #[trigger] draws[i])
}

/// Whether `actions` is one of the ways in which the typist can type the
/// text under the configuration.
pub open spec fn types(text: Seq<char>, config: TypingConfig, actions: Seq<Action>) -> bool {
    exists|draws: Seq<Draws>| #[trigger]
        all_admissible(text, config, draws) && actions == script(text, draws)
}

/// Whether `c` is one of the punctuation marks `. , ? ! ; :`.
pub fn pause_mark(c: char) -> (b: bool)
    ensures
        b == is_pause_mark(c),
{
    c == '.' || c == ',' || c == '?' || c == '!' || c == ';' || c == ':'
}

/// The keystrokes that put `c` on the screen, given the slip that was drawn.
pub fn emit_character(c: char, slip: &Option<Slip>) -> (out: Vec<Action>)
    ensures
        out@ == emission(c, *slip),
{
    let mut out: Vec<Action> = Vec::new();
    match slip {
        Some(s) => {
            out.push(Action::Emit(s.wrong));
            out.push(Action::Sleep(s.pause_ms));
            out.push(Action::Backspace);
            out.push(Action::Emit(c));
        },
        None => {
            out.push(Action::Emit(c));
        },
    }
    assert(out@ =~= emission(c, *slip));
    out
}

/// What the typist does for the character `c`, given the draws.
pub fn keystrokes_for(c: char, d: &Draws) -> (out: Vec<Action>)
    ensures
        out@ == keystrokes(c, *d),
{
    let mut out: Vec<Action> = Vec::new();
    if c == '\r' {
        return out;
    }
    if c == '\n' {
        out.push(Action::Return);
        out.push(Action::Sleep(d.think_ms));
        out.push(Action::Sleep(d.base_ms));
        assert(out@ =~= keystrokes(c, *d));
        return out;
    }
    if d.think_trial && is_whitespace(c) {
        out.push(Action::Sleep(d.think_ms));
    }
    assert(out@ =~= pause_before(c, *d));
    let mut typed = emit_character(c, &d.slip);
    out.append(&mut typed);
    if d.long_trial && pause_mark(c) {
        out.push(Action::Sleep(d.long_ms));
    }
    assert(out@ =~= pause_before(c, *d) + emission(c, d.slip) + pause_after(c, *d));
    out.push(Action::Sleep(d.base_ms));
    out
}

/// What the typist does for a whole text, given the draws for each of its
/// characters, the first for the first. `None` where there is not one set
/// of draws for each character.
pub fn script_for(text: &str, draws: &Vec<Draws>) -> (out: Option<Vec<Action>>)
    ensures
        out is Some <==> draws@.len() == text@.len(),
        out is Some ==> out->0@ == script(text@, draws@),
{
    let n = text.unicode_len();
    if draws.len() != n {
        return None;
    }
    let mut out: Vec<Action> = Vec::new();
    let mut i: usize = 0;
    while i < n
        invariant
            i <= n,
            n == text@.len(),
            draws@.len() == text@.len(),
            out@ == script(text@.take(i as int), draws@.take(i as int)),
        decreases n - i,
    {
        let c = text.get_char(i);
        let mut step = keystrokes_for(c, &draws[i]);
        out.append(&mut step);
        proof {
            let t = text@.take(i + 1);
            let d = draws@.take(i + 1);
            assert(t.drop_last() =~= text@.take(i as int));
            assert(d.drop_last() =~= draws@.take(i as int));
        }
        i = i + 1;
    }
    assert(text@.take(n as int) =~= text@);
    assert(draws@.take(n as int) =~= draws@);
    Some(out)
}

/// The typist: a configuration, the keyboard, and a source of chance.
pub struct HumanTypist {
    pub config: TypingConfig,
    pub keyboard: KeyboardLayout,
    pub rng: StdRng,
}

impl HumanTypist {
    /// The typist can work: the configuration is usable and the keyboard
    /// table is whole.
    pub open spec fn wf(&self) -> bool {
        self.config.usable() && self.keyboard.wf()
    }

    /// A typist with the given configuration and source of chance.
    pub fn new(config: TypingConfig, rng: StdRng) -> (typist: HumanTypist)
        ensures
            typist.config == config,
            typist.keyboard.wf(),
            config.usable() ==> typist.wf(),
    {
        HumanTypist { config, keyboard: KeyboardLayout::new(), rng }
    }

    /// Draws whether the typist slips on `c`, and if so how.
    pub fn draw_slip(&mut self, c: char) -> (slip: Option<Slip>)
        requires
            old(self).wf(),
        ensures
            slip_admissible(c, old(self).config, slip),
            final(self).config == old(self).config,
            final(self).keyboard == old(self).keyboard,
    {
        if draw_ratio(&mut self.rng, 1, self.config.mistake_probability) {
            let wrong = self.keyboard.get_nearby_key(c, &mut self.rng);
            let pause_ms = draw_between(
                &mut self.rng,
                self.config.correction_delay.low,
                self.config.correction_delay.high,
            );
            Some(Slip { wrong, pause_ms })
        } else {
            None
        }
    }

    /// Types one character: straight, or with a slip that is corrected at
    /// once.
    pub fn type_character(&mut self, intended: char) -> (out: Vec<Action>)
        requires
            old(self).wf(),
        ensures
            exists|slip: Option<Slip>|
                slip_admissible(intended, old(self).config, slip) && out@ == #[trigger] emission(
                    intended,
                    slip,
                ),
            final(self).config == old(self).config,
            final(self).keyboard == old(self).keyboard,
    {
        let slip = self.draw_slip(intended);
        emit_character(intended, &slip)
    }

    /// Draws everything that chance decides about the character `c`. A
    /// delay that is not needed is not drawn and stands at the lower bound
    /// of its span; for a line feed or a carriage return no trial is made.
    pub fn draw(&mut self, c: char) -> (d: Draws)
        requires
            old(self).wf(),
        ensures
            admissible(c, old(self).config, d),
            frugal(c, old(self).config, d),
            final(self).config == old(self).config,
            final(self).keyboard == old(self).keyboard,
    {
        let mut d = Draws {
            think_trial: false,
            think_ms: self.config.thinking_delay.low,
            slip: None,
            long_trial: false,
            long_ms: self.config.long_pause_delay.low,
            base_ms: self.config.base_delay.low,
        };
        if c == '\r' {
            return d;
        }
        if c == '\n' {
            d.think_ms = draw_between(
                &mut self.rng,
                self.config.thinking_delay.low,
                self.config.thinking_delay.high,
            );
        } else {
            d.think_trial = draw_ratio(&mut self.rng, 1, 100);
            if d.think_trial && is_whitespace(c) {
                d.think_ms = draw_between(
                    &mut self.rng,
                    self.config.thinking_delay.low,
                    self.config.thinking_delay.high,
                );
            }
            d.slip = self.draw_slip(c);
            d.long_trial = draw_ratio(&mut self.rng, self.config.long_pause_probability, 100);
            if d.long_trial && pause_mark(c) {
                d.long_ms = draw_between(
                    &mut self.rng,
                    self.config.long_pause_delay.low,
                    self.config.long_pause_delay.high,
                );
            }
        }
        d.base_ms = draw_between(
            &mut self.rng,
            self.config.base_delay.low,
            self.config.base_delay.high,
        );
        d
    }

    /// Types the text: the keystrokes and pauses, in order, for the caller
    /// to perform. Performed on an empty screen they leave the text there,
    /// and a text of carriage returns alone asks for nothing at all.
    pub fn type_text(&mut self, text: &str) -> (out: Vec<Action>)
        requires
            old(self).wf(),
        ensures
            types(text@, old(self).config, out@),
            replay(Seq::empty(), out@) == shown(text@),
            (forall|i: int| 0 <= i < text@.len() ==> #[trigger] text@[i] == '\r') ==> out@.len() == 0,
            final(self).config == old(self).config,
            final(self).keyboard == old(self).keyboard,
    {
        let n = text.unicode_len();
        let mut out: Vec<Action> = Vec::new();
        let ghost mut draws: Seq<Draws> = Seq::empty();
        let mut i: usize = 0;
        while i < n
            invariant
                i <= n,
                n == text@.len(),
                self.wf(),
                self.config == old(self).config,
                self.keyboard == old(self).keyboard,
                all_admissible(text@.take(i as int), self.config, draws),
                out@ == script(text@.take(i as int), draws),
            decreases n - i,
        {
            let c = text.get_char(i);
            let d = self.draw(c);
            let mut step = keystrokes_for(c, &d);
            out.append(&mut step);
            proof {
                let before = draws;
                draws = draws.push(d);
                let t = text@.take(i + 1);
                assert(t.drop_last() =~= text@.take(i as int));
                assert(draws.drop_last() =~= before);
                assert(t.last() == c);
            }
            i = i + 1;
        }
        assert(text@.take(n as int) =~= text@);
        assert(all_admissible(text@, self.config, draws));
        proof {
            lemma_typing_reaches_the_screen(text@, self.config, out@);
            if forall|i: int| 0 <= i < text@.len() ==> #[trigger] text@[i] == '\r' {
                lemma_carriage_returns_are_silent(text@, draws);
            }
        }
        out
    }
}

} // verus!
