//! The game's screens: a title screen that waits for the space key, and a
//! typing screen that shows pictures one after another and checks what is
//! typed against each picture's name. Each decision takes the time and the
//! event and leaves the commands for the stage in an outbox.
use crate::command::Command;
use crate::pict::{joined_path, PictManager};
use crate::uifuncs::UIKeyEvent;
use vstd::prelude::*;

verus! {

/// Whether a screen goes on, or hands over to another.
#[allow(non_camel_case_types, clippy::upper_case_acronyms)]
pub enum ControlState {
    EXECUTING,
    FINISHED(ControlMode),
}

/// The screens.
#[allow(non_camel_case_types, clippy::upper_case_acronyms)]
#[derive(Clone, Copy, Debug, PartialEq, Eq, Structural)]
pub enum ControlMode {
    TITLE,
    TYPING,
}

/// Milliseconds the typing screen waits after a name is done before it shows
/// the next picture.
pub const IDLE_MS: u64 = 3000;

/// `c` is a caption command for `text` with the cursor at `pos`.
pub open spec fn is_telop(c: Command, text: Seq<char>, pos: usize) -> bool {
    c matches Command::TelopCommand { text: Some(t), pos: Some(p) } && t@ == text && p == pos
}

/// `c` shows the picture at `path` under the name `name`.
pub open spec fn is_appear(c: Command, path: Seq<char>, name: Seq<char>) -> bool {
    c matches Command::AppearCommand { filename: Some(f), name: Some(n) } && f@ == path && n@ == name
}

/// `c` takes the sprite away, saying `name`.
pub open spec fn is_disappear(c: Command, name: Seq<char>) -> bool {
    c matches Command::DisappearCommand { name: Some(n) } && n@ == name
}

/// `c` shows the title picture at `path`.
pub open spec fn is_title(c: Command, path: Seq<char>) -> bool {
    c matches Command::TitleCommand { filename: Some(f) } && f@ == path
}

/// `c` lower-cased if it is an ASCII capital.
pub open spec fn ascii_lower(c: char) -> char {
    if 'A' <= c <= 'Z' {
        ((c as u8) + 32) as char
    } else {
        c
    }
}

fn to_ascii_lower(c: char) -> (r: char)
    ensures
        r == ascii_lower(c),
{
    if 'A' <= c && c <= 'Z' {
        ((c as u8) + 32) as char
    } else {
        c
    }
}

/// The catalog has a title picture `T01.png`.
pub open spec fn has_title(manager: &PictManager) -> bool {
    exists|i: int| 0 <= i < manager.spec_titles().len() && #[trigger] manager.spec_titles()[i].id@ == "T01.png"@
}

/// The title screen.
pub struct TitleController {}

impl TitleController {
    /// Shows the title picture `T01.png`, if the catalog has it, and asks for
    /// the space key.
    pub fn new(manager: &PictManager, outbox: &mut Vec<Command>) -> (r: Self)
        ensures
            final(outbox)@.subrange(0, old(outbox)@.len() as int) == old(outbox)@,
            has_title(manager) ==> final(outbox)@.len() == old(outbox)@.len() + 2 && is_title(
                final(outbox)@[old(outbox)@.len() as int],
                joined_path(manager.spec_dir(), "T01.png"@),
            ) && is_telop(final(outbox)@[old(outbox)@.len() as int + 1], "PRESS SPACE KEY"@, 0),
            !has_title(manager) ==> final(outbox)@.len() == old(outbox)@.len() + 1 && is_telop(
                final(outbox)@[old(outbox)@.len() as int],
                "PRESS SPACE KEY"@,
                0,
            ),
    {
        let ghost before = outbox@;
        match manager.get_title_by_id("T01.png") {
            Some(pict) => {
                let filename = manager.get_pict_path(pict);
                outbox.push(Command::TitleCommand { filename: Some(filename) });
            },
            None => {},
        }
        outbox.push(Command::TelopCommand { text: Some(String::from_str("PRESS SPACE KEY")), pos: Some(0) });
        assert(outbox@.subrange(0, before.len() as int) =~= before);
        TitleController {  }
    }

    /// The space key starts the game; other keys do nothing.
    pub fn handle_key_event(&mut self, keyevent: &UIKeyEvent) -> (r: ControlState)
        ensures
            *keyevent == UIKeyEvent::Char(' ') ==> r matches ControlState::FINISHED(ControlMode::TYPING),
            *keyevent != UIKeyEvent::Char(' ') ==> r is EXECUTING,
    {
        match *keyevent {
            UIKeyEvent::Char(' ') => ControlState::FINISHED(ControlMode::TYPING),
            _ => ControlState::EXECUTING,
        }
    }

    /// Time passing changes nothing on the title screen.
    pub fn handle_timer_event(&mut self) -> (r: ControlState)
        ensures
            r is EXECUTING,
    {
        ControlState::EXECUTING
    }
}

/// Whether a name is being typed, or the screen waits before the next picture.
#[allow(non_camel_case_types, clippy::upper_case_acronyms)]
#[derive(Clone, Copy, Debug, PartialEq, Eq, Structural)]
pub enum TypingStatus {
    TYPING,
    IDLING,
}

/// The picture being typed: its path, its English and Japanese names, how far
/// the name has been typed, when it was shown, and the mistakes so far.
pub struct TypingInfo {
    pub filepath: String,
    pub words: String,
    pub words_ja: String,
    pub pos: usize,
    pub start_ms: u64,
    pub typo: u32,
    pub status: TypingStatus,
}

/// A finished name: the picture, the name, the milliseconds it took and the mistakes.
pub struct TypingResult {
    pub filepath: String,
    pub words: String,
    pub time: u64,
    pub typo: u32,
}

/// The typing screen.
pub struct TypingController {
    index_series: Vec<usize>,
    typing_info: Option<TypingInfo>,
}

/// Milliseconds from `start` to `now`, or none if the clock went back.
pub open spec fn elapsed(start: u64, now: u64) -> u64 {
    if now >= start {
        (now - start) as u64
    } else {
        0
    }
}

impl TypingController {
    pub closed spec fn spec_series(&self) -> Seq<usize> {
        self.index_series@
    }

    pub closed spec fn spec_info(&self) -> Option<TypingInfo> {
        self.typing_info
    }

    /// `num_of_targets` pictures (at least one) to show, taken from the end
    /// of the catalog's index series; nothing shown yet.
    pub fn new(manager: &PictManager, num_of_targets: usize) -> (r: Self)
        requires
            manager.spec_picts().len() > 0,
        ensures
            r.spec_series() == crate::pict::index_cycle(manager.spec_picts().len(), num_of_targets as nat).reverse(),
            r.spec_info() is None,
    {
        TypingController { index_series: manager.index_series(num_of_targets), typing_info: None }
    }

    /// Shows the next picture of the series and its name as the caption, and
    /// starts typing it. Returns false, showing nothing, when the series is
    /// used up or names no picture.
    pub fn load_pict(&mut self, manager: &PictManager, now_ms: u64, outbox: &mut Vec<Command>) -> (r: bool)
        ensures
            final(self).spec_series() == if old(self).spec_series().len() > 0 {
                old(self).spec_series().drop_last()
            } else {
                old(self).spec_series()
            },
            r == (old(self).spec_series().len() > 0 && old(self).spec_series().last()
                < manager.spec_picts().len()),
            !r ==> final(self).spec_info() == old(self).spec_info() && final(outbox)@ == old(outbox)@,
            r ==> {
                let p = manager.spec_picts()[old(self).spec_series().last() as int];
                let path = joined_path(manager.spec_dir(), p.id@);
                &&& final(self).spec_info() matches Some(info) && info.filepath@ == path && info.words@
                    == p.en@ && info.words_ja@ == p.ja@ && info.pos == 0 && info.start_ms == now_ms
                    && info.typo == 0 && info.status == TypingStatus::TYPING
                &&& final(outbox)@.len() == old(outbox)@.len() + 2
                &&& final(outbox)@.subrange(0, old(outbox)@.len() as int) == old(outbox)@
                &&& is_appear(final(outbox)@[old(outbox)@.len() as int], path, p.en@)
                &&& is_telop(final(outbox)@[old(outbox)@.len() as int + 1], p.en@, 0)
            },
    {
        let ghost before = outbox@;
        match self.index_series.pop() {
            Some(i) => match manager.get_pict(i) {
                Some(pict) => {
                    let filepath = manager.get_pict_path(pict);
                    let words = pict.en.clone();
                    outbox.push(
                        Command::AppearCommand { filename: Some(manager.get_pict_path(pict)), name: Some(pict.en.clone()) },
                    );
                    outbox.push(Command::TelopCommand { text: Some(words.clone()), pos: Some(0) });
                    self.typing_info = Some(
                        TypingInfo {
                            filepath,
                            words,
                            words_ja: pict.ja.clone(),
                            pos: 0,
                            start_ms: now_ms,
                            typo: 0,
                            status: TypingStatus::TYPING,
                        },
                    );
                    assert(outbox@.subrange(0, before.len() as int) =~= before);
                    true
                },
                None => false,
            },
            None => false,
        }
    }

    /// Takes the picture away and stops typing: the screen idles from now.
    /// Returns what was typed, and how, if a picture was shown.
    pub fn unload_pict(&mut self, now_ms: u64, outbox: &mut Vec<Command>) -> (r: Option<TypingResult>)
        ensures
            final(self).spec_series() == old(self).spec_series(),
            match old(self).spec_info() {
                None => r is None && final(self).spec_info() is None && final(outbox)@ == old(outbox)@,
                Some(info) => {
                    &&& r matches Some(res) && res.filepath@ == info.filepath@ && res.words@ == info.words@
                        && res.time == elapsed(info.start_ms, now_ms) && res.typo == info.typo
                    &&& final(self).spec_info() matches Some(next) && next.filepath@ == info.filepath@
                        && next.words@ == info.words@ && next.words_ja@ == info.words_ja@ && next.pos
                        == info.pos && next.typo == info.typo && next.start_ms == now_ms && next.status
                        == TypingStatus::IDLING
                    &&& final(outbox)@ == old(outbox)@.push(final(outbox)@.last())
                    &&& is_disappear(final(outbox)@.last(), info.words_ja@)
                },
            },
    {
        match self.typing_info.take() {
            Some(info) => {
                outbox.push(Command::DisappearCommand { name: Some(info.words_ja.clone()) });
                let time = if now_ms >= info.start_ms {
                    now_ms - info.start_ms
                } else {
                    0
                };
                let result = TypingResult {
                    filepath: info.filepath.clone(),
                    words: info.words.clone(),
                    time,
                    typo: info.typo,
                };
                self.typing_info = Some(
                    TypingInfo {
                        filepath: info.filepath,
                        words: info.words,
                        words_ja: info.words_ja,
                        pos: info.pos,
                        start_ms: now_ms,
                        typo: info.typo,
                        status: TypingStatus::IDLING,
                    },
                );
                Some(result)
            },
            None => None,
        }
    }

    /// Checks a typed character against the next one of the name, ignoring
    /// case: a match moves the cursor on and redraws the caption, and the
    /// last one finishes the name; anything else counts a mistake. While
    /// idling, typing does nothing.
    pub fn handle_input_char(&mut self, input_ch: char, now_ms: u64, outbox: &mut Vec<Command>) -> (r: Option<TypingResult>)
        ensures
            final(self).spec_series() == old(self).spec_series(),
            match old(self).spec_info() {
                Some(info) => if info.status == TypingStatus::TYPING && info.pos < info.words@.len() {
                    if ascii_lower(info.words@[info.pos as int]) == input_ch {
                        &&& final(self).spec_info() matches Some(next) && next.pos == info.pos + 1
                            && next.typo == info.typo && next.words@ == info.words@ && next.status == if info.pos
                            + 1 >= info.words@.len() {
                            TypingStatus::IDLING
                        } else {
                            TypingStatus::TYPING
                        }
                        &&& final(outbox)@.len() > old(outbox)@.len()
                        &&& is_telop(final(outbox)@[old(outbox)@.len() as int], info.words@, (info.pos + 1) as usize)
                        &&& (r is Some <==> info.pos + 1 >= info.words@.len())
                    } else {
                        &&& final(self).spec_info() matches Some(next) && next.pos == info.pos && next.typo == (
                        if info.typo < u32::MAX {
                            info.typo + 1
                        } else {
                            info.typo as int
                        }) && next.status == TypingStatus::TYPING
                        &&& final(outbox)@ == old(outbox)@
                        &&& r is None
                    }
                } else {
                    final(outbox)@ == old(outbox)@ && r is None
                },
                None => final(self).spec_info() is None && final(outbox)@ == old(outbox)@ && r is None,
            },
    {
        let mut finished = false;
        match &mut self.typing_info {
            Some(info) => {
                if info.status == TypingStatus::TYPING && info.pos < info.words.as_str().unicode_len() {
                    let target = info.words.as_str().get_char(info.pos);
                    if to_ascii_lower(target) == input_ch {
                        info.pos = info.pos + 1;
                        outbox.push(Command::TelopCommand { text: Some(info.words.clone()), pos: Some(info.pos) });
                        finished = info.pos >= info.words.as_str().unicode_len();
                    } else if info.typo < u32::MAX {
                        info.typo = info.typo + 1;
                    }
                }
            },
            None => {},
        }
        if finished {
            self.unload_pict(now_ms, outbox)
        } else {
            None
        }
    }

    /// On each timer tick: with no picture yet, shows the first; after a
    /// finished name, shows the next once the screen has idled long enough.
    /// Returns false when there is no picture left to show.
    pub fn handle_periodical_event(&mut self, manager: &PictManager, now_ms: u64, outbox: &mut Vec<Command>) -> (r: bool)
        ensures
            match old(self).spec_info() {
                Some(info) => if info.status == TypingStatus::IDLING && elapsed(info.start_ms, now_ms) > IDLE_MS {
                    r == (old(self).spec_series().len() > 0 && old(self).spec_series().last()
                        < manager.spec_picts().len())
                } else {
                    r && final(outbox)@ == old(outbox)@ && final(self).spec_series() == old(self).spec_series()
                },
                None => r == (old(self).spec_series().len() > 0 && old(self).spec_series().last()
                    < manager.spec_picts().len()),
            },
    {
        let due = match &self.typing_info {
            Some(info) => info.status == TypingStatus::IDLING && (if now_ms >= info.start_ms {
                now_ms - info.start_ms
            } else {
                0
            }) > IDLE_MS,
            None => true,
        };
        if due {
            self.load_pict(manager, now_ms, outbox)
        } else {
            true
        }
    }

    /// A typed character is checked; a finished name's result is kept.
    /// Other keys do nothing. The screen goes on either way.
    pub fn handle_key_event(
        &mut self,
        keyevent: &UIKeyEvent,
        now_ms: u64,
        outbox: &mut Vec<Command>,
        results: &mut Vec<TypingResult>,
    ) -> (r: ControlState)
        ensures
            r is EXECUTING,
            final(results)@.len() <= old(results)@.len() + 1,
            final(results)@.subrange(0, old(results)@.len() as int) == old(results)@,
    {
        match *keyevent {
            UIKeyEvent::Char(ch) => {
                match self.handle_input_char(ch, now_ms, outbox) {
                    Some(result) => {
                        results.push(result);
                    },
                    None => {},
                }
            },
            _ => {},
        }
        assert(results@.subrange(0, old(results)@.len() as int) =~= old(results)@);
        ControlState::EXECUTING
    }

    /// On each timer tick the screen goes on while there are pictures left,
    /// and hands back to the title screen after the last.
    pub fn handle_timer_event(&mut self, manager: &PictManager, now_ms: u64, outbox: &mut Vec<Command>) -> (r: ControlState)
        ensures
            match old(self).spec_info() {
                Some(info) => if info.status == TypingStatus::IDLING && elapsed(info.start_ms, now_ms) > IDLE_MS {
                    (r is EXECUTING) == (old(self).spec_series().len() > 0 && old(self).spec_series().last()
                        < manager.spec_picts().len())
                } else {
                    r is EXECUTING
                },
                None => (r is EXECUTING) == (old(self).spec_series().len() > 0 && old(self).spec_series().last()
                    < manager.spec_picts().len()),
            },
            !(r is EXECUTING) ==> r matches ControlState::FINISHED(ControlMode::TITLE),
    {
        if self.handle_periodical_event(manager, now_ms, outbox) {
            ControlState::EXECUTING
        } else {
            ControlState::FINISHED(ControlMode::TITLE)
        }
    }
}

} // verus!
