//! Generating the pages of the book that come from the code.

use vstd::prelude::*;

verus! {

/// A generated page.
#[derive(Debug, Clone, Copy, PartialEq, Eq, Structural)]
pub enum DocPage {
    TypableCommands,
    StaticCommands,
    LangSupport,
}

impl DocPage {
    /// The page that comes after this one.
    pub open spec fn following(self) -> Option<DocPage> {
        match self {
            DocPage::TypableCommands => Some(DocPage::StaticCommands),
            DocPage::StaticCommands => Some(DocPage::LangSupport),
            DocPage::LangSupport => None,
        }
    }
}

/// What has to be done next.
#[derive(Debug)]
pub enum DocgenAction<T, E> {
    /// Generate a page.
    Generate(DocPage),
    /// Write a page that was generated.
    Write(DocPage, T),
    /// Nothing more: this is the outcome.
    Finish(Result<(), E>),
}

/// What came of an action.
#[derive(Debug)]
pub enum DocgenEvent<T, E> {
    /// The page was generated, or could not be.
    Generated(Result<T, E>),
    /// The page was written.
    Written,
}

/// What has to be done once the work on a page has come to something: a page that was generated
/// is written, one that was written is followed by the next, and one that could not be generated
/// ends the task.
pub open spec fn docgen_step<T, E>(page: DocPage, event: DocgenEvent<T, E>) -> DocgenAction<T, E> {
    match event {
        DocgenEvent::Generated(Ok(content)) => DocgenAction::Write(page, content),
        DocgenEvent::Generated(Err(error)) => DocgenAction::Finish(Err(error)),
        DocgenEvent::Written => match page.following() {
            Some(next) => DocgenAction::Generate(next),
            None => DocgenAction::Finish(Ok(())),
        },
    }
}

/// Goes on with generating the pages, which starts with [`DocPage::TypableCommands`].
pub fn docgen<T, E>(page: DocPage, event: DocgenEvent<T, E>) -> (r: DocgenAction<T, E>)
    ensures
        r == docgen_step(page, event),
{
    match event {
        DocgenEvent::Generated(Ok(content)) => DocgenAction::Write(page, content),
        DocgenEvent::Generated(Err(error)) => DocgenAction::Finish(Err(error)),
        DocgenEvent::Written => match page {
            DocPage::TypableCommands => DocgenAction::Generate(DocPage::StaticCommands),
            DocPage::StaticCommands => DocgenAction::Generate(DocPage::LangSupport),
            DocPage::LangSupport => DocgenAction::Finish(Ok(())),
        },
    }
}

/// The pages that are written from an action on, and the outcome, if `generate` is what comes of
/// generating each page.
pub open spec fn docgen_run<T, E>(
    action: DocgenAction<T, E>,
    generate: spec_fn(DocPage) -> Result<T, E>,
    fuel: nat,
) -> (Seq<(DocPage, T)>, Option<Result<(), E>>)
    decreases fuel,
{
    match action {
        DocgenAction::Finish(outcome) => (Seq::empty(), Some(outcome)),
        DocgenAction::Generate(page) => if fuel == 0 {
            (Seq::empty(), None)
        } else {
            docgen_run(
                docgen_step(page, DocgenEvent::Generated(generate(page))),
                generate,
                (fuel - 1) as nat,
            )
        },
        DocgenAction::Write(page, content) => if fuel == 0 {
            (Seq::empty(), None)
        } else {
            let (written, outcome) = docgen_run(
                docgen_step(page, DocgenEvent::Written),
                generate,
                (fuel - 1) as nat,
            );
            (seq![(page, content)] + written, outcome)
        },
    }
}

/// The pages are written in order, each before the next is generated. The first that cannot be
/// generated ends the task with its error, and neither it nor a later one is written; if there is
/// none, all are written and the task succeeds.
pub proof fn docgen_stops_at_first_failure<T, E>(generate: spec_fn(DocPage) -> Result<T, E>)
    ensures
        docgen_run(DocgenAction::Generate(DocPage::TypableCommands), generate, 6) == (match (
            generate(DocPage::TypableCommands),
            generate(DocPage::StaticCommands),
            generate(DocPage::LangSupport),
        ) {
            (Err(error), _, _) => (Seq::empty(), Some(Err(error))),
            (Ok(typable), Err(error), _) => (
                seq![(DocPage::TypableCommands, typable)],
                Some(Err(error)),
            ),
            (Ok(typable), Ok(fixed), Err(error)) => (
                seq![(DocPage::TypableCommands, typable), (DocPage::StaticCommands, fixed)],
                Some(Err(error)),
            ),
            (Ok(typable), Ok(fixed), Ok(langs)) => (
                seq![
                    (DocPage::TypableCommands, typable),
                    (DocPage::StaticCommands, fixed),
                    (DocPage::LangSupport, langs),
                ],
                Some(Ok(())),
            ),
        }),
{
    reveal_with_fuel(docgen_run, 7);
    let run = docgen_run(DocgenAction::Generate(DocPage::TypableCommands), generate, 6);
    match (
        generate(DocPage::TypableCommands),
        generate(DocPage::StaticCommands),
        generate(DocPage::LangSupport),
    ) {
        (Ok(typable), Err(_), _) => {
            assert(run.0 =~= seq![(DocPage::TypableCommands, typable)]);
        },
        (Ok(typable), Ok(fixed), Err(_)) => {
            assert(run.0 =~= seq![
                (DocPage::TypableCommands, typable),
                (DocPage::StaticCommands, fixed),
            ]);
        },
        (Ok(typable), Ok(fixed), Ok(langs)) => {
            assert(run.0 =~= seq![
                (DocPage::TypableCommands, typable),
                (DocPage::StaticCommands, fixed),
                (DocPage::LangSupport, langs),
            ]);
        },
        _ => {},
    }
}

/// A page that was generated is written with what was generated, one that could not be ends the
/// task with its error, and a page that was written is followed by the next: the static commands
/// after the typable ones, then the languages, then the end.
pub proof fn pages_follow_one_another<T, E>(
    page: DocPage,
    event: DocgenEvent<T, E>,
    r: DocgenAction<T, E>,
)
    requires
        call_ensures(docgen::<T, E>, (page, event), r),
    ensures
        event matches DocgenEvent::Generated(Ok(content)) ==> r == DocgenAction::<T, E>::Write(
            page,
            content,
        ),
        event matches DocgenEvent::Generated(Err(error)) ==> r == DocgenAction::<T, E>::Finish(
            Err(error),
        ),
        event is Written ==> match page {
            DocPage::TypableCommands => r == DocgenAction::<T, E>::Generate(
                DocPage::StaticCommands,
            ),
            DocPage::StaticCommands => r == DocgenAction::<T, E>::Generate(DocPage::LangSupport),
            DocPage::LangSupport => r == DocgenAction::<T, E>::Finish(Ok(())),
        },
{
}

} // verus!
