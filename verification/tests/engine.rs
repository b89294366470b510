use human_typist::config::{DelayRange, TypingConfig};
use human_typist::engine::{
    emit_character, keystrokes_for, pause_mark, script_for, Action, Draws, HumanTypist, Slip,
};
use human_typist::keyboard::KeyboardLayout;
use rand::rngs::StdRng;
use rand::SeedableRng;

fn plain(base_ms: u64) -> Draws {
    Draws { think_trial: false, think_ms: 0, slip: None, long_trial: false, long_ms: 0, base_ms }
}

fn config(mistake_probability: u32, long_pause_probability: u32) -> TypingConfig {
    TypingConfig {
        base_delay: DelayRange::new(20, 100),
        thinking_delay: DelayRange::new(500, 1500),
        mistake_probability,
        correction_delay: DelayRange::new(300, 700),
        long_pause_probability,
        long_pause_delay: DelayRange::new(1000, 3000),
    }
}

fn typist(config: TypingConfig, seed: u64) -> HumanTypist {
    assert!(config.is_usable());
    HumanTypist::new(config, StdRng::seed_from_u64(seed))
}

fn replay(actions: &[Action]) -> String {
    let mut screen = String::new();
    for action in actions {
        match action {
            Action::Emit(c) => screen.push(*c),
            Action::Return => screen.push('\n'),
            Action::Backspace => {
                screen.pop();
            }
            Action::Sleep(_) => {}
        }
    }
    screen
}

fn emitted(actions: &[Action]) -> String {
    actions.iter().filter_map(|a| if let Action::Emit(c) = a { Some(*c) } else { None }).collect()
}

fn backspaces(actions: &[Action]) -> usize {
    actions.iter().filter(|a| **a == Action::Backspace).count()
}

fn sleeps(actions: &[Action]) -> Vec<u64> {
    actions.iter().filter_map(|a| if let Action::Sleep(ms) = a { Some(*ms) } else { None }).collect()
}

#[test]
fn pause_marks_are_the_six_punctuation_marks() {
    for c in ['.', ',', '?', '!', ';', ':'] {
        assert!(pause_mark(c));
    }
    for c in ['a', ' ', '\n', '-', '\'', '"', '(', '…'] {
        assert!(!pause_mark(c));
    }
}

#[test]
fn character_without_slip_is_typed_once() {
    assert_eq!(emit_character('x', &None), vec![Action::Emit('x')]);
}

#[test]
fn slip_is_corrected_with_one_backspace() {
    let slip = Some(Slip { wrong: 'z', pause_ms: 450 });
    assert_eq!(
        emit_character('x', &slip),
        vec![Action::Emit('z'), Action::Sleep(450), Action::Backspace, Action::Emit('x')]
    );
}

#[test]
fn carriage_return_yields_nothing() {
    let mut d = plain(30);
    d.think_trial = true;
    d.long_trial = true;
    d.slip = Some(Slip { wrong: 'q', pause_ms: 1 });
    assert_eq!(keystrokes_for('\r', &d), Vec::<Action>::new());
}

#[test]
fn line_feed_is_a_return_and_a_thinking_pause() {
    let mut d = plain(30);
    d.think_ms = 900;
    assert_eq!(
        keystrokes_for('\n', &d),
        vec![Action::Return, Action::Sleep(900), Action::Sleep(30)]
    );
    d.think_trial = true;
    d.long_trial = true;
    d.slip = Some(Slip { wrong: 'q', pause_ms: 1 });
    assert_eq!(
        keystrokes_for('\n', &d),
        vec![Action::Return, Action::Sleep(900), Action::Sleep(30)]
    );
}

#[test]
fn thinking_pause_comes_before_white_space_only() {
    let mut d = plain(25);
    d.think_trial = true;
    d.think_ms = 700;
    assert_eq!(
        keystrokes_for(' ', &d),
        vec![Action::Sleep(700), Action::Emit(' '), Action::Sleep(25)]
    );
    assert_eq!(
        keystrokes_for('\t', &d),
        vec![Action::Sleep(700), Action::Emit('\t'), Action::Sleep(25)]
    );
    assert_eq!(keystrokes_for('a', &d), vec![Action::Emit('a'), Action::Sleep(25)]);
    d.think_trial = false;
    assert_eq!(keystrokes_for(' ', &d), vec![Action::Emit(' '), Action::Sleep(25)]);
}

#[test]
fn long_pause_comes_after_punctuation_only() {
    let mut d = plain(25);
    d.long_trial = true;
    d.long_ms = 2000;
    assert_eq!(
        keystrokes_for('?', &d),
        vec![Action::Emit('?'), Action::Sleep(2000), Action::Sleep(25)]
    );
    assert_eq!(keystrokes_for('a', &d), vec![Action::Emit('a'), Action::Sleep(25)]);
    d.long_trial = false;
    assert_eq!(keystrokes_for('?', &d), vec![Action::Emit('?'), Action::Sleep(25)]);
}

#[test]
fn both_pauses_and_a_slip_in_one_character() {
    let d = Draws {
        think_trial: true,
        think_ms: 600,
        slip: Some(Slip { wrong: ',', pause_ms: 333 }),
        long_trial: true,
        long_ms: 1200,
        base_ms: 99,
    };
    assert_eq!(
        keystrokes_for('.', &d),
        vec![
            Action::Emit(','),
            Action::Sleep(333),
            Action::Backspace,
            Action::Emit('.'),
            Action::Sleep(1200),
            Action::Sleep(99),
        ]
    );
}

#[test]
fn hi_with_long_pause_and_no_slip() {
    let mut last = plain(60);
    last.long_trial = true;
    last.long_ms = 1500;
    let mut first = plain(40);
    first.long_trial = true;
    first.long_ms = 1100;
    let draws = vec![first, plain(50), last];
    let actions = script_for("Hi.", &draws).expect("one set of draws for each character");
    assert_eq!(
        actions,
        vec![
            Action::Emit('H'),
            Action::Sleep(40),
            Action::Emit('i'),
            Action::Sleep(50),
            Action::Emit('.'),
            Action::Sleep(1500),
            Action::Sleep(60),
        ]
    );
    assert_eq!(backspaces(&actions), 0);
}

#[test]
fn hi_typed_with_certain_long_pause() {
    for seed in 0..20u64 {
        let mut typist = typist(config(u32::MAX, 100), seed);
        let actions = typist.type_text("Hi.");
        assert_eq!(emitted(&actions), "Hi.");
        assert_eq!(backspaces(&actions), 0);
        assert_eq!(actions.len(), 7);
        assert_eq!(actions[4], Action::Emit('.'));
        match actions[5] {
            Action::Sleep(ms) => assert!((1000..3000).contains(&ms)),
            other => panic!("expected a long pause, found {other:?}"),
        }
        match actions[6] {
            Action::Sleep(ms) => assert!((20..100).contains(&ms)),
            other => panic!("expected the base delay, found {other:?}"),
        }
    }
}

#[test]
fn ab_with_a_slip_on_a() {
    let mut first = plain(30);
    first.slip = Some(Slip { wrong: 's', pause_ms: 400 });
    let draws = vec![first, plain(70)];
    let actions = script_for("ab", &draws).expect("one set of draws for each character");
    assert_eq!(
        actions,
        vec![
            Action::Emit('s'),
            Action::Sleep(400),
            Action::Backspace,
            Action::Emit('a'),
            Action::Sleep(30),
            Action::Emit('b'),
            Action::Sleep(70),
        ]
    );
    assert_eq!(backspaces(&actions), 1);
    assert_eq!(replay(&actions), "ab");
}

#[test]
fn script_of_an_empty_text_is_empty() {
    assert_eq!(script_for("", &Vec::new()), Some(Vec::<Action>::new()));
}

#[test]
fn script_follows_the_text_across_lines() {
    let mut nl = plain(21);
    nl.think_ms = 800;
    let draws = vec![plain(20), plain(0), nl, plain(22)];
    assert_eq!(
        script_for("a\r\nb", &draws),
        Some(vec![
            Action::Emit('a'),
            Action::Sleep(20),
            Action::Return,
            Action::Sleep(800),
            Action::Sleep(21),
            Action::Emit('b'),
            Action::Sleep(22),
        ])
    );
}

#[test]
fn new_typist_keeps_its_configuration() {
    let c = config(7, 9);
    let typist = HumanTypist::new(c, StdRng::seed_from_u64(1));
    assert_eq!(typist.config, c);
    assert_eq!(typist.keyboard.nearby_keys, KeyboardLayout::new().nearby_keys);
}

#[test]
fn steady_hand_types_each_character_once() {
    let text = "The quick brown fox; jumps over: the lazy dog!";
    for seed in 0..20u64 {
        let mut typist = typist(config(u32::MAX, 0), seed);
        let actions = typist.type_text(text);
        assert_eq!(emitted(&actions), text);
        assert_eq!(backspaces(&actions), 0);
        for ms in sleeps(&actions) {
            assert!(ms < 1500, "a long pause of {ms} ms was taken");
        }
    }
}

#[test]
fn carriage_returns_alone_yield_no_action() {
    for text in ["\r", "\r\r\r\r\r"] {
        let mut typist = typist(config(1, 100), 5);
        assert_eq!(typist.type_text(text), Vec::<Action>::new());
    }
}

#[test]
fn certain_slips_are_each_corrected() {
    let text = "Hello, World.\r\nBye";
    for seed in 0..20u64 {
        let mut typist = typist(config(1, 5), seed);
        let actions = typist.type_text(text);
        assert_eq!(replay(&actions), "Hello, World.\nBye");
        assert_eq!(backspaces(&actions), 16);
        assert_eq!(emitted(&actions).chars().count(), 32);
    }
}

#[test]
fn slips_never_reach_the_screen() {
    let text = "It was the best of times,\nit was the worst of times.";
    for seed in 0..50u64 {
        let mut typist = typist(config(2, 50), seed);
        let actions = typist.type_text(text);
        assert_eq!(replay(&actions), text);
        let wrong = emitted(&actions).chars().count() - text.chars().filter(|c| *c != '\n').count();
        assert_eq!(backspaces(&actions), wrong);
    }
}

#[test]
fn type_character_slips_to_a_neighbour() {
    let mut typist = typist(config(1, 0), 9);
    for _ in 0..50 {
        let actions = typist.type_character('a');
        assert_eq!(actions.len(), 4);
        match actions[0] {
            Action::Emit(w) => assert!(['s', 'q', 'w', 'z'].contains(&w)),
            other => panic!("expected a wrong key, found {other:?}"),
        }
        match actions[1] {
            Action::Sleep(ms) => assert!((300..700).contains(&ms)),
            other => panic!("expected a pause, found {other:?}"),
        }
        assert_eq!(actions[2], Action::Backspace);
        assert_eq!(actions[3], Action::Emit('a'));
    }
}

#[test]
fn type_character_without_slip_types_the_character() {
    let mut typist = typist(config(u32::MAX, 0), 9);
    assert_eq!(typist.type_character('G'), vec![Action::Emit('G')]);
}

#[test]
fn slip_on_a_digit_retypes_the_digit() {
    let mut typist = typist(config(1, 0), 2);
    let actions = typist.type_character('7');
    assert_eq!(actions[0], Action::Emit('7'));
    assert_eq!(actions[2], Action::Backspace);
    assert_eq!(actions[3], Action::Emit('7'));
}

#[test]
fn delays_are_drawn_from_their_ranges() {
    let c = TypingConfig {
        base_delay: DelayRange::new(20, 21),
        thinking_delay: DelayRange::new(500, 501),
        mistake_probability: 1,
        correction_delay: DelayRange::new(300, 301),
        long_pause_probability: 100,
        long_pause_delay: DelayRange::new(1000, 1001),
    };
    let mut typist = typist(c, 4);
    let actions = typist.type_text("a.\n");
    assert_eq!(actions.len(), 14);
    assert_eq!(actions[1], Action::Sleep(300));
    assert_eq!(actions[2], Action::Backspace);
    assert_eq!(actions[3], Action::Emit('a'));
    assert_eq!(actions[4], Action::Sleep(20));
    assert_eq!(
        actions[5..],
        [
            Action::Emit('.'),
            Action::Sleep(300),
            Action::Backspace,
            Action::Emit('.'),
            Action::Sleep(1000),
            Action::Sleep(20),
            Action::Return,
            Action::Sleep(500),
            Action::Sleep(20),
        ]
    );
}

#[test]
fn draws_for_a_character_respect_the_configuration() {
    let c = config(1, 100);
    let mut typist = typist(c, 8);
    for ch in ['a', ' ', '.', 'Z'] {
        for _ in 0..50 {
            let d = typist.draw(ch);
            assert!((500..1500).contains(&d.think_ms));
            assert!((1000..3000).contains(&d.long_ms));
            assert!((20..100).contains(&d.base_ms));
            assert!(d.long_trial);
            let slip = d.slip.expect("odds of one in one always slip");
            assert!((300..700).contains(&slip.pause_ms));
        }
    }
    let d = typist.draw('\r');
    assert_eq!(
        d,
        Draws { think_trial: false, think_ms: 500, slip: None, long_trial: false, long_ms: 1000, base_ms: 20 }
    );
    let d = typist.draw('\n');
    assert_eq!(d.slip, None);
    assert!(!d.long_trial && !d.think_trial);
}

#[test]
fn same_seed_gives_the_same_script() {
    let text = "Same again, please.";
    let a = typist(config(3, 40), 77).type_text(text);
    let b = typist(config(3, 40), 77).type_text(text);
    assert_eq!(a, b);
}

#[test]
fn base_delays_vary_within_their_range() {
    let mut typist = typist(config(u32::MAX, 0), 21);
    let actions = typist.type_text("abcdefghijklmnopqrstuvwxyzabcdefghijklmnopqrstuvwxyz");
    let delays = sleeps(&actions);
    assert_eq!(delays.len(), 52);
    assert!(delays.iter().all(|ms| (20..100).contains(ms)));
    assert!(delays.iter().any(|ms| *ms != 20));
    assert!(delays.iter().any(|ms| *ms != delays[0]));
}

#[test]
fn every_pause_lies_in_a_configured_range() {
    let text = "Well, well.\nWho is there? Nobody; nothing: silence!\n";
    for seed in 0..30u64 {
        let mut typist = typist(TypingConfig::default(), seed);
        let actions = typist.type_text(text);
        assert_eq!(replay(&actions), text);
        for ms in sleeps(&actions) {
            assert!(
                (20..100).contains(&ms)
                    || (300..700).contains(&ms)
                    || (500..1500).contains(&ms)
                    || (1000..3000).contains(&ms),
                "a pause of {ms} ms"
            );
        }
    }
}

#[test]
fn line_feed_always_brings_a_thinking_pause() {
    let mut typist = typist(config(1, 100), 13);
    for _ in 0..20 {
        let actions = typist.type_text("\n");
        assert_eq!(actions.len(), 3);
        assert_eq!(actions[0], Action::Return);
        match (actions[1], actions[2]) {
            (Action::Sleep(think), Action::Sleep(base)) => {
                assert!((500..1500).contains(&think));
                assert!((20..100).contains(&base));
            }
            other => panic!("expected two pauses, found {other:?}"),
        }
    }
}

#[test]
fn chance_of_nought_never_brings_a_long_pause() {
    for seed in 0..20u64 {
        let mut typist = typist(config(u32::MAX, 0), seed);
        let actions = typist.type_text("a.b,c?d!e;f:");
        assert_eq!(actions.len(), 24);
        assert!(sleeps(&actions).iter().all(|ms| (20..100).contains(ms)));
    }
}

#[test]
fn script_needs_one_set_of_draws_for_each_character() {
    assert_eq!(script_for("ab", &vec![plain(20)]), None);
    assert_eq!(script_for("", &vec![plain(20)]), None);
    assert_eq!(script_for("é", &vec![plain(20), plain(20)]), None);
    assert_eq!(
        script_for("é", &vec![plain(20)]),
        Some(vec![Action::Emit('é'), Action::Sleep(20)])
    );
}
