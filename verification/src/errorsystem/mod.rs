use vstd::prelude::*;
use crate::errorsystem::error_type::{ErrorType, ErrorView};
use crate::lang::lexer::position::{Position, PositionView};

pub mod error_type;

verus! {

/// A failure of the front end: what went wrong and, where the failure has a place in the
/// source, that place.
#[derive(Debug, PartialEq, Eq)]
pub struct Diagnostic<'a> {
    pub kind: ErrorType<'a>,
    pub pos: Option<Position<'a>>,
}

/// What a `Diagnostic` stands for.
pub ghost struct DiagnosticView {
    pub kind: ErrorView,
    pub pos: Option<PositionView>,
}

impl<'a> View for Diagnostic<'a> {
    type V = DiagnosticView;

    open spec fn view(&self) -> DiagnosticView {
        DiagnosticView {
            kind: self.kind@,
            pos: match self.pos {
                Some(p) => Some(p@),
                None => None,
            },
        }
    }
}

} // verus!

verus! {

/// The text that a failure without a renderable place is reported with when its place
/// cannot be shown.
pub open spec fn spec_render_hint() -> Seq<char> {
    "converting position to string"@
}

/// The report of a failure without a place: the message in double quotes behind the
/// report's opening words.
pub open spec fn spec_report_plain(kind: ErrorView) -> Seq<char> {
    "\n\tFatal exception during runtime -> \""@ + error_type::spec_message(kind) + "\""@
}

/// The report of a failure: behind the message stands, where the failure has a place, the
/// word `at` and the rendered place. Where the place cannot be rendered, because the source
/// has no such line, the report is that of this second failure, which has no place.
pub open spec fn spec_report(d: DiagnosticView) -> Seq<char> {
    match d.pos {
        None => spec_report_plain(d.kind),
        Some(p) => match crate::lang::lexer::position::spec_render(p) {
            Some(block) => "\n\tFatal exception during runtime -> \""@ + error_type::spec_message(
                d.kind,
            ) + " at "@ + block + "\""@,
            None => spec_report_plain(ErrorView::GenericError(spec_render_hint())),
        },
    }
}

impl<'a> Diagnostic<'a> {
    /// The report of the failure, as it is shown to the user.
    pub fn report(&self) -> (r: String)
        ensures
            r@ == spec_report(self@),
    {
        let block: Option<String> = match &self.pos {
            None => None,
            Some(p) => match p.render() {
                Some(block) => Some(block),
                None => {
                    let hint = ErrorType::GenericError("converting position to string");
                    let mut out = String::from_str("\n\tFatal exception during runtime -> \"");
                    out.append(hint.message().as_str());
                    out.append("\"");
                    return out;
                },
            },
        };
        let mut out = String::from_str("\n\tFatal exception during runtime -> \"");
        out.append(self.kind.message().as_str());
        match block {
            Some(text) => {
                out.append(" at ");
                out.append(text.as_str());
            },
            None => {},
        }
        out.append("\"");
        out
    }
}

/// Decides what becomes of a failure at run time: inside a catch block it is handed on to
/// the block, elsewhere it ends the run.
pub struct ErrorHandler {
    in_catch_block: bool,
}

/// What is to be done with a failure.
#[derive(Debug, PartialEq, Eq)]
pub enum Handled<'a> {
    /// The failure goes to the catch block that the run is in.
    Caught(ErrorType<'a>),
    /// The run ends with this report.
    Fatal(String),
}

impl ErrorHandler {
    /// Whether the run is inside a catch block.
    pub closed spec fn catching(&self) -> bool {
        self.in_catch_block
    }

    /// A handler for a run that is in no catch block.
    pub fn new() -> (r: Self)
        ensures
            !r.catching(),
    {
        Self { in_catch_block: false }
    }

    /// Inside a catch block the failure is given back for the block to handle; elsewhere the
    /// result is the report with which the run ends. The handler stays as it is.
    pub fn handle_runtime_error<'a>(&mut self, error: ErrorType<'a>, pos: Position<'a>) -> (r:
        Handled<'a>)
        ensures
            final(self).catching() == old(self).catching(),
            old(self).catching() ==> (r matches Handled::Caught(e) && e@ == error@),
            !old(self).catching() ==> (r matches Handled::Fatal(text) && text@ == spec_report(
                (DiagnosticView { kind: error@, pos: Some(pos@) }),
            )),
    {
        if self.in_catch_block {
            Handled::Caught(error)
        } else {
            let diagnostic = Diagnostic { kind: error, pos: Some(pos) };
            Handled::Fatal(diagnostic.report())
        }
    }
}

} // verus!
