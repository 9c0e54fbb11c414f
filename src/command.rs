//! The command loop's decisions: what each command asks of the stage, which
//! colors a frame is drawn in, and how long the loop waits for a command
//! before it draws a frame.
use crate::uifuncs::RenderColor;
use vstd::prelude::*;

verus! {

/// A request to the stage, with its named fields; a field may be missing.
#[allow(clippy::enum_variant_names)]
pub enum Command {
    AppearCommand { filename: Option<String>, name: Option<String> },
    DisappearCommand { name: Option<String> },
    TelopCommand { text: Option<String>, pos: Option<usize> },
    TitleCommand { filename: Option<String> },
    SubTelopCommand { text: Option<String>, pos: Option<usize> },
    SpeechCommand { text: Option<String>, lang: Option<String> },
    CharacterCommand { ch: Option<char> },
}

/// The colors frames are drawn in: normally, and while a typed character is shown.
#[derive(Clone, Copy, Debug)]
pub struct ColorConfig {
    pub normal: RenderColor,
    pub normal_bg: RenderColor,
    pub info: RenderColor,
    pub info_bg: RenderColor,
}

impl Command {
    /// Show the picture at `filename`, named `name`.
    pub fn appear(filename: &str, name: &str) -> (c: Command)
        ensures
            c matches Command::AppearCommand { filename: Some(f), name: Some(n) } && f@ == filename@
                && n@ == name@,
    {
        Command::AppearCommand { filename: Some(String::from_str(filename)), name: Some(String::from_str(name)) }
    }

    /// Take the sprite away, saying `name`.
    pub fn disappear(name: &str) -> (c: Command)
        ensures
            c matches Command::DisappearCommand { name: Some(n) } && n@ == name@,
    {
        Command::DisappearCommand { name: Some(String::from_str(name)) }
    }

    /// Show `text` as the primary caption, with the cursor at `pos`.
    pub fn telop(text: &str, pos: usize) -> (c: Command)
        ensures
            c matches Command::TelopCommand { text: Some(t), pos: Some(p) } && t@ == text@ && p == pos,
    {
        Command::TelopCommand { text: Some(String::from_str(text)), pos: Some(pos) }
    }

    /// Show the picture at `filename` as a still title.
    pub fn title(filename: &str) -> (c: Command)
        ensures
            c matches Command::TitleCommand { filename: Some(f) } && f@ == filename@,
    {
        Command::TitleCommand { filename: Some(String::from_str(filename)) }
    }

    /// Show `text` as the secondary caption, with the cursor at `pos`.
    pub fn subtelop(text: &str, pos: usize) -> (c: Command)
        ensures
            c matches Command::SubTelopCommand { text: Some(t), pos: Some(p) } && t@ == text@ && p == pos,
    {
        Command::SubTelopCommand { text: Some(String::from_str(text)), pos: Some(pos) }
    }

    /// Speak `text` in `lang`.
    pub fn speech(text: &str, lang: &str) -> (c: Command)
        ensures
            c matches Command::SpeechCommand { text: Some(t), lang: Some(l) } && t@ == text@ && l@ == lang@,
    {
        Command::SpeechCommand { text: Some(String::from_str(text)), lang: Some(String::from_str(lang)) }
    }

    /// Show `ch` as a typed character.
    pub fn character(ch: char) -> (c: Command)
        ensures
            c == (Command::CharacterCommand { ch: Some(ch) }),
    {
        Command::CharacterCommand { ch: Some(ch) }
    }
}

/// What the loop does for one command, its missing fields settled.
pub enum Job {
    /// Rasterize the picture at `filename` and show it as the new sprite.
    ShowSprite { filename: String },
    /// Ask the sprite to leave.
    HideSprite,
    /// Render `text`, with the cursor at `pos`, into the primary caption; it is
    /// drawn with the next frame.
    Caption { text: String, pos: usize },
    /// Render `text`, with the cursor at `pos`, into the secondary caption; it
    /// is drawn with the next frame.
    SubCaption { text: String, pos: usize },
    /// Rasterize the picture at `filename` and show it as a still title.
    ShowTitle { filename: String },
    /// Speak `text`, in `lang` where it is given.
    Speak { text: String, lang: Option<String> },
    /// Show `ch` as the typed-character overlay.
    TypeCharacter { ch: char },
    /// Nothing to do.
    Nothing,
}

/// What woke the loop.
pub enum Event {
    Received(Command),
    Timeout,
    Closed,
}

/// What the loop does next.
pub enum Step {
    Apply(Job),
    Render,
    Stop,
}

/// `j` is the job that `cmd` asks for.
pub open spec fn job_spec(cmd: Command, j: Job) -> bool {
    match cmd {
        Command::AppearCommand { filename, .. } => match filename {
            Some(f) => j matches Job::ShowSprite { filename } && filename@ == f@,
            None => j is Nothing,
        },
        Command::DisappearCommand { .. } => j is HideSprite,
        Command::TelopCommand { text, pos } => j matches Job::Caption { text: t, pos: p } && t@ == (
        match text {
            Some(s) => s@,
            None => Seq::<char>::empty(),
        }) && p == (match pos {
            Some(n) => n,
            None => 0,
        }),
        Command::TitleCommand { filename } => match filename {
            Some(f) => j matches Job::ShowTitle { filename } && filename@ == f@,
            None => j is Nothing,
        },
        Command::SubTelopCommand { text, pos } => j matches Job::SubCaption { text: t, pos: p }
            && t@ == (match text {
            Some(s) => s@,
            None => Seq::<char>::empty(),
        }) && p == (match pos {
            Some(n) => n,
            None => 0,
        }),
        Command::SpeechCommand { text, lang } => match text {
            Some(t) => j matches Job::Speak { text: t2, lang: l2 } && t2@ == t@ && l2 == lang,
            None => j is Nothing,
        },
        Command::CharacterCommand { ch } => match ch {
            Some(c) => j == (Job::TypeCharacter { ch: c }),
            None => j is Nothing,
        },
    }
}

/// The job a command asks for. A command without the field it acts on does
/// nothing; a caption without text shows the empty text, and one without a
/// cursor position shows no cursor.
pub fn job_of(cmd: Command) -> (j: Job)
    ensures
        job_spec(cmd, j),
{
    match cmd {
        Command::AppearCommand { filename, .. } => match filename {
            Some(f) => Job::ShowSprite { filename: f },
            None => Job::Nothing,
        },
        Command::DisappearCommand { .. } => Job::HideSprite,
        Command::TelopCommand { text, pos } => Job::Caption { text: text_or_empty(text), pos: pos_or_zero(pos) },
        Command::TitleCommand { filename } => match filename {
            Some(f) => Job::ShowTitle { filename: f },
            None => Job::Nothing,
        },
        Command::SubTelopCommand { text, pos } => Job::SubCaption {
            text: text_or_empty(text),
            pos: pos_or_zero(pos),
        },
        Command::SpeechCommand { text, lang } => match text {
            Some(t) => Job::Speak { text: t, lang },
            None => Job::Nothing,
        },
        Command::CharacterCommand { ch } => match ch {
            Some(c) => Job::TypeCharacter { ch: c },
            None => Job::Nothing,
        },
    }
}

fn text_or_empty(text: Option<String>) -> (r: String)
    ensures
        r@ == match text {
            Some(s) => s@,
            None => Seq::<char>::empty(),
        },
{
    match text {
        Some(s) => s,
        None => String::new(),
    }
}

fn pos_or_zero(pos: Option<usize>) -> (r: usize)
    ensures
        r == match pos {
            Some(n) => n,
            None => 0,
        },
{
    match pos {
        Some(n) => n,
        None => 0,
    }
}

/// What the loop does on `event`: a command is applied at once and draws no
/// frame of the picture; a wait that runs out draws one; a closed queue ends
/// the loop.
pub fn next_step(event: Event) -> (s: Step)
    ensures
        match event {
            Event::Received(c) => s matches Step::Apply(j) && job_spec(c, j),
            Event::Timeout => s is Render,
            Event::Closed => s is Stop,
        },
{
    match event {
        Event::Received(cmd) => Step::Apply(job_of(cmd)),
        Event::Timeout => Step::Render,
        Event::Closed => Step::Stop,
    }
}

/// The foreground and background of the next frame: the information colors
/// while a typed character is shown, the normal ones otherwise.
pub fn tick_colors(has_typed_char: bool, colors: &ColorConfig) -> (r: (RenderColor, RenderColor))
    ensures
        r == if has_typed_char {
            (colors.info, colors.info_bg)
        } else {
            (colors.normal, colors.normal_bg)
        },
{
    if has_typed_char {
        (colors.info, colors.info_bg)
    } else {
        (colors.normal, colors.normal_bg)
    }
}

/// Milliseconds the loop waits for a command before drawing a frame.
pub fn tick_interval_ms(framerate: u32) -> (r: u64)
    requires
        framerate > 0,
    ensures
        r == 1000nat / framerate as nat,
{
    1000 / framerate as u64
}

} // verus!
