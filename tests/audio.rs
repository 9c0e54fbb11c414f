use aquatyping::audiofuncs::{generate_audiofuncs, AudioFuncs, AudioFuncsType};

#[test]
fn speech_works() {
    let funcs = generate_audiofuncs(AudioFuncsType::OsCommand);
    println!("call");
    funcs.speech("hello megamouse shark");
    println!("end");
    funcs.speech("bye");
}

#[test]
fn speech_picks_the_voice_by_language() {
    let funcs = generate_audiofuncs(AudioFuncsType::OsCommand);
    assert_eq!(funcs.speech("bye"), vec!["say".to_string(), "bye".to_string()]);
    assert_eq!(funcs.speech_lang("hi", "en"), Some(vec!["say".to_string(), "hi".to_string()]));
    assert_eq!(
        funcs.speech_lang("konnichiwa", "ja"),
        Some(vec!["say".to_string(), "-v".to_string(), "Otoya".to_string(), "konnichiwa".to_string()])
    );
    assert_eq!(funcs.speech_lang("hallo", "de"), None);
}
