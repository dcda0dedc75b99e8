use additive_fm_synth::command::{
    is_space_char, note_for_key, parse_command, parse_custom_duration, split_words, timed_notes,
    Command, NoteEvent,
};

fn ev(note: u8, velocity_percent: u8) -> NoteEvent {
    NoteEvent { note, velocity_percent }
}

#[test]
fn words_are_cut_at_any_whitespace() {
    let w = split_words("  CHORD \t 5.0\n");
    assert_eq!(w, vec!["CHORD".to_string(), "5.0".to_string()]);
    assert_eq!(split_words("a\u{3000}b"), vec!["a".to_string(), "b".to_string()]);
    assert!(split_words("").is_empty());
    assert!(split_words(" \t ").is_empty());
    assert_eq!(split_words("one"), vec!["one".to_string()]);
}

#[test]
fn whitespace_matches_std() {
    for c in ['\u{0}', ' ', '\t', '\n', 'a', '\u{85}', '\u{a0}', '\u{2009}', '\u{200b}', '\u{3000}', '\u{feff}'] {
        assert_eq!(is_space_char(c), c.is_whitespace(), "{:?}", c);
    }
}

#[test]
fn custom_duration_needs_two_words() {
    assert_eq!(
        parse_custom_duration("C 2.5"),
        Some(("C".to_string(), "2.5".to_string()))
    );
    assert_eq!(
        parse_custom_duration("  SCALE   8.0 "),
        Some(("SCALE".to_string(), "8.0".to_string()))
    );
    assert_eq!(parse_custom_duration("C"), None);
    assert_eq!(parse_custom_duration("C 2.5 x"), None);
    assert_eq!(parse_custom_duration(""), None);
}

#[test]
fn lower_case_keys_play_their_notes() {
    let expected = [
        ("c", ev(60, 80)),
        ("d", ev(62, 75)),
        ("e", ev(64, 70)),
        ("f", ev(65, 65)),
        ("g", ev(67, 60)),
        ("a", ev(69, 55)),
        ("b", ev(71, 50)),
    ];
    for (line, e) in expected {
        match parse_command(line) {
            Command::Play(got) => assert_eq!(got, e),
            other => panic!("{}: {:?}", line, other),
        }
    }
    assert!(matches!(parse_command(" c\n"), Command::Play(e) if e == ev(60, 80)));
    assert!(matches!(parse_command("h"), Command::Unknown));
}

#[test]
fn keywords_give_their_commands() {
    assert!(matches!(parse_command("s"), Command::StopAll));
    assert!(matches!(parse_command("p"), Command::ShowActive));
    assert!(matches!(parse_command("q"), Command::Quit));
    assert!(matches!(parse_command("env"), Command::EnvelopePreset));
    assert!(matches!(parse_command("filter"), Command::FilterPreset));
    assert!(matches!(parse_command("ENV"), Command::Unknown));
    assert!(matches!(parse_command(""), Command::Unknown));
    assert!(matches!(parse_command("x y z"), Command::Unknown));
    assert!(matches!(parse_command("cc"), Command::Unknown));
}

#[test]
fn digits_set_blend_steps() {
    for d in 1u8..=9 {
        let line = d.to_string();
        assert!(matches!(parse_command(&line), Command::Blend(n) if n == d));
    }
    assert!(matches!(parse_command("0"), Command::Unknown));
    assert!(matches!(parse_command("10"), Command::Unknown));
}

#[test]
fn two_words_make_a_timed_command() {
    match parse_command(" CHORD 5.0 ") {
        Command::Timed(name, duration) => {
            assert_eq!(name, "CHORD");
            assert_eq!(duration, "5.0");
        }
        other => panic!("{:?}", other),
    }
    // the duration is read later; any second word makes the line timed
    assert!(matches!(parse_command("c abc"), Command::Timed(n, d) if n == "c" && d == "abc"));
}

#[test]
fn note_names_of_timed_commands() {
    assert_eq!(note_for_key('C'), Some(ev(60, 80)));
    assert_eq!(note_for_key('H'), Some(ev(72, 50)));
    assert_eq!(note_for_key('c'), None);
    assert_eq!(timed_notes("A"), Some(vec![ev(69, 55)]));
    assert_eq!(timed_notes("H"), Some(vec![ev(72, 50)]));
    assert_eq!(
        timed_notes("CHORD"),
        Some(vec![ev(60, 80), ev(64, 70), ev(67, 60)])
    );
    assert_eq!(
        timed_notes("SCALE"),
        Some(vec![
            ev(60, 80),
            ev(62, 75),
            ev(64, 70),
            ev(65, 65),
            ev(67, 60),
            ev(69, 55),
            ev(71, 50),
            ev(72, 50),
        ])
    );
    assert_eq!(timed_notes("c"), None);
    assert_eq!(timed_notes("X"), None);
    assert_eq!(timed_notes("chord"), None);
    assert_eq!(timed_notes(""), None);
}
