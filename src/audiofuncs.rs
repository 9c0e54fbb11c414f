//! Speech: which command line speaks a text, in which voice.
use crate::text::same_text;
use vstd::prelude::*;

verus! {

/// A speaker: gives the command line that speaks a text.
pub trait AudioFuncs {
    /// The command line that speaks `text` in the default voice.
    fn speech(&self, text: &str) -> Vec<String>;

    /// The command line that speaks `text` in the voice for `lang`, if there is one.
    fn speech_lang(&self, text: &str, lang: &str) -> Option<Vec<String>>;
}

/// Which speaker to build.
#[derive(Debug, Copy, Clone, PartialEq, Eq, Structural)]
pub enum AudioFuncsType {
    OsCommand,
}

/// A speaker that runs the system's `say` command.
pub struct OsCommandAudioFuncs {}

/// The command line `say <text>`.
pub open spec fn say(text: Seq<char>) -> Seq<Seq<char>> {
    seq!["say"@, text]
}

/// The command line `say -v Otoya <text>`.
pub open spec fn say_japanese(text: Seq<char>) -> Seq<Seq<char>> {
    seq!["say"@, "-v"@, "Otoya"@, text]
}

/// The strings of a command line, as sequences.
pub open spec fn args_view(args: Seq<String>) -> Seq<Seq<char>> {
    Seq::new(args.len(), |i: int| args[i]@)
}

impl OsCommandAudioFuncs {
    pub fn new() -> Self {
        OsCommandAudioFuncs {  }
    }

    /// `say <text>`.
    pub fn say_args(&self, text: &str) -> (r: Vec<String>)
        ensures
            args_view(r@) == say(text@),
    {
        let mut r: Vec<String> = Vec::new();
        r.push(String::from_str("say"));
        r.push(String::from_str(text));
        assert(args_view(r@) =~= say(text@));
        r
    }

    /// `say <text>` for English, `say -v Otoya <text>` for Japanese, nothing
    /// for another language.
    pub fn say_lang_args(&self, text: &str, lang: &str) -> (r: Option<Vec<String>>)
        ensures
            lang@ == "en"@ ==> (r matches Some(a) && args_view(a@) == say(text@)),
            lang@ == "ja"@ ==> (r matches Some(a) && args_view(a@) == say_japanese(text@)),
            lang@ != "en"@ && lang@ != "ja"@ ==> r is None,
    {
        proof {
            reveal_strlit("en");
            reveal_strlit("ja");
            assert("en"@[0] != "ja"@[0]);
        }
        if same_text(lang, "en") {
            Some(self.say_args(text))
        } else if same_text(lang, "ja") {
            let mut r: Vec<String> = Vec::new();
            r.push(String::from_str("say"));
            r.push(String::from_str("-v"));
            r.push(String::from_str("Otoya"));
            r.push(String::from_str(text));
            assert(args_view(r@) =~= say_japanese(text@));
            Some(r)
        } else {
            None
        }
    }
}

impl AudioFuncs for OsCommandAudioFuncs {
    fn speech(&self, text: &str) -> Vec<String> {
        self.say_args(text)
    }

    fn speech_lang(&self, text: &str, lang: &str) -> Option<Vec<String>> {
        self.say_lang_args(text, lang)
    }
}

/// The speaker of the given type.
pub fn generate_audiofuncs(audiofuncs_type: AudioFuncsType) -> (r: OsCommandAudioFuncs)
    ensures
        r == (OsCommandAudioFuncs {  }),
{
    match audiofuncs_type {
        AudioFuncsType::OsCommand => OsCommandAudioFuncs::new(),
    }
}

} // verus!
