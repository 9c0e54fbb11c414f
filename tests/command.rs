use aquatyping::command::{job_of, next_step, tick_colors, tick_interval_ms, ColorConfig, Command, Event, Job, Step};
use aquatyping::uifuncs::RenderColor;

#[test]
fn commands_become_jobs_with_their_fields_settled() {
    match job_of(Command::TelopCommand { text: Some("SHARK".to_string()), pos: Some(2) }) {
        Job::Caption { text, pos } => assert_eq!((text.as_str(), pos), ("SHARK", 2)),
        _ => panic!("expected a caption"),
    }
    match job_of(Command::SubTelopCommand { text: None, pos: None }) {
        Job::SubCaption { text, pos } => assert_eq!((text.as_str(), pos), ("", 0)),
        _ => panic!("expected a caption"),
    }
    assert!(matches!(job_of(Command::AppearCommand { filename: None, name: Some("x".to_string()) }), Job::Nothing));
    match job_of(Command::AppearCommand { filename: Some("a.png".to_string()), name: None }) {
        Job::ShowSprite { filename } => assert_eq!(filename, "a.png"),
        _ => panic!("expected a sprite"),
    }
    assert!(matches!(job_of(Command::DisappearCommand { name: None }), Job::HideSprite));
    assert!(matches!(job_of(Command::CharacterCommand { ch: Some('k') }), Job::TypeCharacter { ch: 'k' }));
    assert!(matches!(job_of(Command::SpeechCommand { text: None, lang: Some("en".to_string()) }), Job::Nothing));
    match job_of(Command::SpeechCommand { text: Some("hi".to_string()), lang: Some("en".to_string()) }) {
        Job::Speak { text, lang } => assert_eq!((text.as_str(), lang.as_deref()), ("hi", Some("en"))),
        _ => panic!("expected speech"),
    }
    match job_of(Command::TitleCommand { filename: Some("T01.png".to_string()) }) {
        Job::ShowTitle { filename } => assert_eq!(filename, "T01.png"),
        _ => panic!("expected a title"),
    }
}

#[test]
fn events_become_steps() {
    assert!(matches!(next_step(Event::Timeout), Step::Render));
    assert!(matches!(next_step(Event::Closed), Step::Stop));
    assert!(matches!(next_step(Event::Received(Command::DisappearCommand { name: None })), Step::Apply(Job::HideSprite)));
    match next_step(Event::Received(Command::telop("EEL", 1))) {
        Step::Apply(Job::Caption { text, pos }) => assert_eq!((text.as_str(), pos), ("EEL", 1)),
        _ => panic!("expected the caption job"),
    }
    assert!(matches!(next_step(Event::Received(Command::character('z'))), Step::Apply(Job::TypeCharacter { ch: 'z' })));
}

#[test]
fn frames_use_the_info_colors_while_a_character_is_typed() {
    let colors = ColorConfig {
        normal: RenderColor::Black,
        normal_bg: RenderColor::White,
        info: RenderColor::Blue,
        info_bg: RenderColor::Byte(1, 2, 3),
    };
    assert_eq!(tick_colors(false, &colors), (RenderColor::Black, RenderColor::White));
    assert_eq!(tick_colors(true, &colors), (RenderColor::Blue, RenderColor::Byte(1, 2, 3)));
    assert_eq!(tick_interval_ms(10), 100);
    assert_eq!(tick_interval_ms(3), 333);
}

#[test]
fn commands_are_built_from_their_fields() {
    assert!(matches!(Command::appear("a.png", "A"), Command::AppearCommand { filename: Some(f), name: Some(n) } if f == "a.png" && n == "A"));
    assert!(matches!(Command::disappear("A"), Command::DisappearCommand { name: Some(n) } if n == "A"));
    assert!(matches!(Command::title("t.png"), Command::TitleCommand { filename: Some(f) } if f == "t.png"));
    assert!(matches!(Command::subtelop("sub", 4), Command::SubTelopCommand { text: Some(t), pos: Some(4) } if t == "sub"));
    assert!(matches!(Command::speech("hi", "ja"), Command::SpeechCommand { text: Some(t), lang: Some(l) } if t == "hi" && l == "ja"));
}
