//! Parsing a file without opening a document for it.

use vstd::prelude::*;

verus! {

/// What has to be done next to parse a file. Languages and syntax trees go by the numbers that
/// the program keeps them under.
#[derive(Debug, Clone, Copy, PartialEq, Eq, Structural)]
pub enum ParseAction {
    /// Open the file.
    Open,
    /// Read it into a rope.
    Read,
    /// Recognize its language by its name.
    LanguageForFilename,
    /// Recognize its language by its first line.
    LanguageForShebang,
    /// Parse it in a language.
    Parse(u64),
    /// Nothing more: this is the syntax tree, if there is one.
    Finish(Option<u64>),
}

/// What came of an action.
#[derive(Debug, Clone, Copy, PartialEq, Eq, Structural)]
pub enum ParseEvent {
    /// The file could be opened or read, or could not.
    Done(bool),
    /// The language that was recognized.
    Language(Option<u64>),
    /// The syntax tree that was made.
    Parsed(Option<u64>),
}

/// Whether an event is what comes of an action.
pub open spec fn answers(action: ParseAction, event: ParseEvent) -> bool {
    match action {
        ParseAction::Open | ParseAction::Read => event is Done,
        ParseAction::LanguageForFilename | ParseAction::LanguageForShebang => event is Language,
        ParseAction::Parse(_) => event is Parsed,
        ParseAction::Finish(_) => false,
    }
}

/// What has to be done once an action has come to something.
pub open spec fn parse_step(action: ParseAction, event: ParseEvent) -> ParseAction {
    match (action, event) {
        (ParseAction::Open, ParseEvent::Done(true)) => ParseAction::Read,
        (ParseAction::Read, ParseEvent::Done(true)) => ParseAction::LanguageForFilename,
        (ParseAction::LanguageForFilename, ParseEvent::Language(None)) =>
            ParseAction::LanguageForShebang,
        (_, ParseEvent::Language(Some(language))) => ParseAction::Parse(language),
        (_, ParseEvent::Parsed(syntax)) => ParseAction::Finish(syntax),
        _ => ParseAction::Finish(None),
    }
}

/// Goes on with parsing a file, which starts with [`ParseAction::Open`].
pub fn syntax_for_path(action: ParseAction, event: ParseEvent) -> (r: ParseAction)
    requires
        answers(action, event),
    ensures
        r == parse_step(action, event),
{
    match event {
        ParseEvent::Done(true) => match action {
            ParseAction::Open => ParseAction::Read,
            _ => ParseAction::LanguageForFilename,
        },
        ParseEvent::Done(false) => ParseAction::Finish(None),
        ParseEvent::Language(Some(language)) => ParseAction::Parse(language),
        ParseEvent::Language(None) => match action {
            ParseAction::LanguageForFilename => ParseAction::LanguageForShebang,
            _ => ParseAction::Finish(None),
        },
        ParseEvent::Parsed(syntax) => ParseAction::Finish(syntax),
    }
}

/// A file as the steps of parsing find it.
pub struct FileOracle {
    pub opens: bool,
    pub reads: bool,
    pub by_filename: Option<u64>,
    pub by_shebang: Option<u64>,
    pub parses: spec_fn(u64) -> Option<u64>,
}

impl FileOracle {
    /// What an action comes to on this file.
    pub open spec fn event(self, action: ParseAction) -> ParseEvent {
        match action {
            ParseAction::Open => ParseEvent::Done(self.opens),
            ParseAction::Read => ParseEvent::Done(self.reads),
            ParseAction::LanguageForFilename => ParseEvent::Language(self.by_filename),
            ParseAction::LanguageForShebang => ParseEvent::Language(self.by_shebang),
            ParseAction::Parse(language) => ParseEvent::Parsed((self.parses)(language)),
            ParseAction::Finish(syntax) => ParseEvent::Parsed(syntax),
        }
    }

    /// The action after `n` more steps on this file.
    pub open spec fn after(self, action: ParseAction, n: nat) -> ParseAction
        decreases n,
    {
        if n == 0 || action is Finish {
            action
        } else {
            self.after(parse_step(action, self.event(action)), (n - 1) as nat)
        }
    }
}

/// Parsing a file takes at most five steps, and gives a syntax tree exactly if the file opens,
/// can be read, is of a language that is recognized and parses in that language. The language is
/// the one that the file's name tells, and the one that its first line tells where the name tells
/// none.
pub proof fn parsing_ends(file: FileOracle)
    ensures
        file.after(ParseAction::Open, 5) == ParseAction::Finish(
            if !file.opens || !file.reads {
                None
            } else {
                match file.by_filename {
                    Some(language) => (file.parses)(language),
                    None => match file.by_shebang {
                        Some(language) => (file.parses)(language),
                        None => None,
                    },
                }
            },
        ),
{
    reveal_with_fuel(FileOracle::after, 6);
}

/// What has to be done after each action, given what came of it.
pub proof fn parsing_goes_step_by_step(action: ParseAction, event: ParseEvent, r: ParseAction)
    requires
        call_ensures(syntax_for_path, (action, event), r),
    ensures
        action == ParseAction::Open && event == ParseEvent::Done(true) ==> r == ParseAction::Read,
        action == ParseAction::Read && event == ParseEvent::Done(true) ==> r
            == ParseAction::LanguageForFilename,
        event == ParseEvent::Done(false) ==> r == ParseAction::Finish(None),
        event matches ParseEvent::Language(Some(language)) ==> r == ParseAction::Parse(language),
        action == ParseAction::LanguageForFilename && event == ParseEvent::Language(None) ==> r
            == ParseAction::LanguageForShebang,
        action == ParseAction::LanguageForShebang && event == ParseEvent::Language(None) ==> r
            == ParseAction::Finish(None),
        event matches ParseEvent::Parsed(syntax) ==> r == ParseAction::Finish(syntax),
{
}

/// Opening and reading are done or not, looking for a language gives one or none, parsing gives a
/// syntax tree or none, and nothing comes of an end.
pub proof fn actions_have_their_events(
    action: ParseAction,
    done: bool,
    language: Option<u64>,
    syntax: Option<u64>,
)
    ensures
        answers(action, ParseEvent::Done(done)) <==> action == ParseAction::Open || action
            == ParseAction::Read,
        answers(action, ParseEvent::Language(language)) <==> action
            == ParseAction::LanguageForFilename || action == ParseAction::LanguageForShebang,
        answers(action, ParseEvent::Parsed(syntax)) <==> action is Parse,
{
}

} // verus!
