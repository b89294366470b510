//! What a list of actions amounts to once it has been performed, and what
//! that says of the typist: the text arrives on the screen whatever slips
//! were made on the way.

use crate::config::TypingConfig;
use crate::engine::{
    all_admissible, emission, is_typed, keystrokes, pause_after, pause_before, script, types,
    Action, Draws,
};
use vstd::prelude::*;

verus! {

/// The screen after one action: a character or a line feed is appended, a
/// backspace takes the last character away, a pause changes nothing.
pub open spec fn press(screen: Seq<char>, action: Action) -> Seq<char> {
    match action {
        Action::Emit(c) => screen.push(c),
        Action::Return => screen.push('\n'),
        Action::Backspace => if screen.len() > 0 {
            screen.drop_last()
        } else {
            screen
        },
        Action::Sleep(_) => screen,
    }
}

/// The screen after the actions have been performed in order.
pub open spec fn replay(screen: Seq<char>, actions: Seq<Action>) -> Seq<char>
    decreases actions.len(),
{
    if actions.len() == 0 {
        screen
    } else {
        press(replay(screen, actions.drop_last()), actions.last())
    }
}

/// The characters that the actions type, in order, corrected or not.
pub open spec fn emitted(actions: Seq<Action>) -> Seq<char>
    decreases actions.len(),
{
    if actions.len() == 0 {
        Seq::empty()
    } else {
        match actions.last() {
            Action::Emit(c) => emitted(actions.drop_last()).push(c),
            _ => emitted(actions.drop_last()),
        }
    }
}

/// How many of the actions are backspaces.
pub open spec fn backspaces(actions: Seq<Action>) -> nat
    decreases actions.len(),
{
    if actions.len() == 0 {
        0
    } else if actions.last() == Action::Backspace {
        backspaces(actions.drop_last()) + 1
    } else {
        backspaces(actions.drop_last())
    }
}

/// The text as it is meant to stand on the screen: without its carriage
/// returns.
pub open spec fn shown(text: Seq<char>) -> Seq<char>
    decreases text.len(),
{
    if text.len() == 0 {
        Seq::empty()
    } else if text.last() == '\r' {
        shown(text.drop_last())
    } else {
        shown(text.drop_last()).push(text.last())
    }
}

/// The characters of the text that are typed as characters: all but line
/// feeds and carriage returns.
pub open spec fn printable(text: Seq<char>) -> Seq<char>
    decreases text.len(),
{
    if text.len() == 0 {
        Seq::empty()
    } else if is_typed(text.last()) {
        printable(text.drop_last()).push(text.last())
    } else {
        printable(text.drop_last())
    }
}

/// On how many characters of the text the draws hold a slip.
pub open spec fn slips(text: Seq<char>, draws: Seq<Draws>) -> nat
    recommends
        draws.len() == text.len(),
    decreases text.len(),
{
    if text.len() == 0 {
        0
    } else if is_typed(text.last()) && draws.last().slip is Some {
        slips(text.drop_last(), draws.drop_last()) + 1
    } else {
        slips(text.drop_last(), draws.drop_last())
    }
}

/// Performing one list of actions after another is performing the two in
/// a row: the screen, the typed characters and the backspaces add up.
pub proof fn lemma_append(screen: Seq<char>, first: Seq<Action>, second: Seq<Action>)
    ensures
        replay(screen, first + second) == replay(replay(screen, first), second),
        emitted(first + second) == emitted(first) + emitted(second),
        backspaces(first + second) == backspaces(first) + backspaces(second),
    decreases second.len(),
{
    if second.len() == 0 {
        assert(first + second =~= first);
        assert(emitted(first) + emitted(second) =~= emitted(first));
    } else {
        lemma_append(screen, first, second.drop_last());
        assert((first + second).drop_last() =~= first + second.drop_last());
        assert((first + second).last() == second.last());
        match second.last() {
            Action::Emit(c) => {
                assert(emitted(first) + emitted(second.drop_last()).push(c) =~= (emitted(first)
                    + emitted(second.drop_last())).push(c));
            },
            _ => {},
        }
    }
}

/// The effect of one more action at the end of a list.
pub proof fn lemma_push(screen: Seq<char>, actions: Seq<Action>, action: Action)
    ensures
        replay(screen, actions.push(action)) == press(replay(screen, actions), action),
        emitted(actions.push(action)) == match action {
            Action::Emit(c) => emitted(actions).push(c),
            _ => emitted(actions),
        },
        backspaces(actions.push(action)) == backspaces(actions) + if action == Action::Backspace {
            1nat
        } else {
            0nat
        },
{
    assert(actions.push(action).drop_last() =~= actions);
    assert(actions.push(action).last() == action);
}

/// What the keystrokes of one character amount to: the character is on the
/// screen (a line feed for the return key, nothing for a carriage return),
/// and a slip costs one wrong character and one backspace.
pub proof fn lemma_keystrokes(screen: Seq<char>, c: char, d: Draws)
    ensures
        replay(screen, keystrokes(c, d)) == if c == '\r' {
            screen
        } else {
            screen.push(c)
        },
        backspaces(keystrokes(c, d)) == if is_typed(c) && d.slip is Some {
            1nat
        } else {
            0nat
        },
        emitted(keystrokes(c, d)) == if !is_typed(c) {
            Seq::<char>::empty()
        } else if d.slip is Some {
            seq![d.slip->0.wrong, c]
        } else {
            seq![c]
        },
{
    let none = Seq::<Action>::empty();
    if c == '\r' {
    } else if c == '\n' {
        let a = none.push(Action::Return);
        let b = a.push(Action::Sleep(d.think_ms));
        let k = b.push(Action::Sleep(d.base_ms));
        assert(keystrokes(c, d) =~= k);
        lemma_push(screen, none, Action::Return);
        lemma_push(screen, a, Action::Sleep(d.think_ms));
        lemma_push(screen, b, Action::Sleep(d.base_ms));
    } else {
        let before = pause_before(c, d);
        let typed = emission(c, d.slip);
        let after = pause_after(c, d);
        let base = none.push(Action::Sleep(d.base_ms));
        assert(keystrokes(c, d) =~= before + typed + after + base);
        lemma_append(screen, before + typed + after, base);
        lemma_append(screen, before + typed, after);
        lemma_append(screen, before, typed);
        // the pauses leave the screen as it is
        lemma_push(screen, none, Action::Sleep(d.think_ms));
        assert(before =~= none || before =~= none.push(Action::Sleep(d.think_ms)));
        assert(replay(screen, before) == screen);
        assert(emitted(before) =~= Seq::<char>::empty());
        assert(backspaces(before) == 0);
        let s1 = match d.slip {
            Some(s) => {
                let w = none.push(Action::Emit(s.wrong));
                let x = w.push(Action::Sleep(s.pause_ms));
                let y = x.push(Action::Backspace);
                let z = y.push(Action::Emit(c));
                assert(typed =~= z);
                lemma_push(screen, none, Action::Emit(s.wrong));
                lemma_push(screen, w, Action::Sleep(s.pause_ms));
                lemma_push(screen, x, Action::Backspace);
                lemma_push(screen, y, Action::Emit(c));
                assert(screen.push(s.wrong).drop_last() =~= screen);
                assert(emitted(typed) =~= seq![s.wrong, c]);
                screen.push(c)
            },
            None => {
                assert(typed =~= none.push(Action::Emit(c)));
                lemma_push(screen, none, Action::Emit(c));
                assert(emitted(typed) =~= seq![c]);
                screen.push(c)
            },
        };
        assert(replay(screen, typed) == s1);
        lemma_push(s1, none, Action::Sleep(d.long_ms));
        assert(after =~= none || after =~= none.push(Action::Sleep(d.long_ms)));
        assert(replay(s1, after) == s1);
        assert(emitted(after) =~= Seq::<char>::empty());
        assert(backspaces(after) == 0);
        lemma_push(s1, none, Action::Sleep(d.base_ms));
        assert(replay(s1, base) == s1);
        assert(emitted(base) =~= Seq::<char>::empty());
        assert(emitted(before + typed + after + base) =~= emitted(typed));
    }
}

/// Slips never reach the reader. Whatever the draws, once the script of a
/// text has been performed on an empty screen, the screen shows the text
/// (less its carriage returns). The script holds exactly one backspace for
/// each slip, and types one character more for each slip than the text has
/// printable characters.
pub proof fn lemma_slips_are_corrected(text: Seq<char>, draws: Seq<Draws>)
    requires
        draws.len() == text.len(),
    ensures
        replay(Seq::empty(), script(text, draws)) == shown(text),
        backspaces(script(text, draws)) == slips(text, draws),
        emitted(script(text, draws)).len() == printable(text).len() + slips(text, draws),
    decreases text.len(),
{
    if text.len() > 0 {
        let head = script(text.drop_last(), draws.drop_last());
        lemma_slips_are_corrected(text.drop_last(), draws.drop_last());
        lemma_append(Seq::empty(), head, keystrokes(text.last(), draws.last()));
        lemma_keystrokes(shown(text.drop_last()), text.last(), draws.last());
    }
}

/// However the typist types a text under a configuration, performing the
/// actions on an empty screen leaves the text there (less its carriage
/// returns), and every character typed beyond the printable characters of
/// the text is taken back by a backspace of its own.
pub proof fn lemma_typing_reaches_the_screen(
    text: Seq<char>,
    config: TypingConfig,
    actions: Seq<Action>,
)
    requires
        types(text, config, actions),
    ensures
        replay(Seq::empty(), actions) == shown(text),
        emitted(actions).len() == printable(text).len() + backspaces(actions),
{
    let draws = choose|draws: Seq<Draws>| #[trigger]
        all_admissible(text, config, draws) && actions == script(text, draws);
    lemma_slips_are_corrected(text, draws);
}

/// A steady hand types the text as it stands. Where the draws hold no slip,
/// the script types each printable character of the text once, in the order
/// of the text, and holds no backspace.
pub proof fn lemma_steady_hand(text: Seq<char>, draws: Seq<Draws>)
    requires
        draws.len() == text.len(),
        forall|i: int| 0 <= i < draws.len() ==> (#[trigger] draws[i]).slip is None,
    ensures
        emitted(script(text, draws)) == printable(text),
        backspaces(script(text, draws)) == 0,
        (forall|i: int| 0 <= i < text.len() ==> is_typed(#[trigger] text[i])) ==> emitted(
            script(text, draws),
        ) == text,
    decreases text.len(),
{
    if text.len() > 0 {
        let head = script(text.drop_last(), draws.drop_last());
        lemma_steady_hand(text.drop_last(), draws.drop_last());
        lemma_append(Seq::empty(), head, keystrokes(text.last(), draws.last()));
        lemma_keystrokes(Seq::empty(), text.last(), draws.last());
        assert(draws.last() == draws[draws.len() - 1]);
        if is_typed(text.last()) {
            assert(printable(text.drop_last()) + seq![text.last()] =~= printable(
                text.drop_last(),
            ).push(text.last()));
        } else {
            assert(printable(text.drop_last()) + Seq::<char>::empty() =~= printable(
                text.drop_last(),
            ));
        }
        if forall|i: int| 0 <= i < text.len() ==> is_typed(#[trigger] text[i]) {
            assert(forall|i: int|
                0 <= i < text.drop_last().len() ==> is_typed(#[trigger] text.drop_last()[i])) by {
                assert forall|i: int| 0 <= i < text.drop_last().len() implies is_typed(
                    #[trigger] text.drop_last()[i],
                ) by {
                    assert(text.drop_last()[i] == text[i]);
                }
            }
            assert(is_typed(text[text.len() - 1]));
            assert(text.drop_last().push(text.last()) =~= text);
        }
    }
}

/// Carriage returns are passed over in silence: for a text that holds
/// nothing else the script is empty, so nothing is typed and no pause is
/// taken.
pub proof fn lemma_carriage_returns_are_silent(text: Seq<char>, draws: Seq<Draws>)
    requires
        draws.len() == text.len(),
        forall|i: int| 0 <= i < text.len() ==> #[trigger] text[i] == '\r',
    ensures
        script(text, draws) == Seq::<Action>::empty(),
    decreases text.len(),
{
    if text.len() > 0 {
        assert forall|i: int| 0 <= i < text.drop_last().len() implies #[trigger] text.drop_last()[i]
            == '\r' by {
            assert(text.drop_last()[i] == text[i]);
        }
        lemma_carriage_returns_are_silent(text.drop_last(), draws.drop_last());
        assert(text.last() == text[text.len() - 1]);
        assert(script(text, draws) =~= Seq::<Action>::empty());
    }
}

} // verus!
