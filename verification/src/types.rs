//! The records of the model checker's output and their mathematical views.

use vstd::prelude::*;

verus! {

/// Outcome of one check.
#[derive(Copy, Clone, Debug, PartialEq, Eq, Structural)]
pub enum CheckStatus {
    Failure,
    Success,
    Undetermined,
    Unreachable,
}

/// Where in the sources a check or a trace step lies. Every part is optional.
#[derive(Clone, Debug)]
pub struct SourceLocation {
    pub column: Option<String>,
    pub file: Option<String>,
    pub function: Option<String>,
    pub line: Option<String>,
}

/// What a `SourceLocation` holds, as sequences of characters.
pub ghost struct SourceLocationView {
    pub column: Option<Seq<char>>,
    pub file: Option<Seq<char>>,
    pub function: Option<Seq<char>>,
    pub line: Option<Seq<char>>,
}

/// One step of a counterexample trace.
#[derive(Clone, Debug)]
pub struct TraceItem {
    pub thread: u32,
    pub step_type: String,
    pub hidden: bool,
    pub source_location: Option<SourceLocation>,
}

/// What a `TraceItem` holds.
pub ghost struct TraceItemView {
    pub thread: u32,
    pub step_type: Seq<char>,
    pub hidden: bool,
    pub source_location: Option<SourceLocationView>,
}

/// One check reported by the model checker.
#[derive(Clone, Debug)]
pub struct Property {
    pub description: String,
    pub property: String,
    pub source_location: SourceLocation,
    pub status: CheckStatus,
    pub reach: Option<CheckStatus>,
    pub trace: Option<Vec<TraceItem>>,
}

/// What a `Property` holds.
pub ghost struct PropertyView {
    pub description: Seq<char>,
    pub property: Seq<char>,
    pub source_location: SourceLocationView,
    pub status: CheckStatus,
    pub reach: Option<CheckStatus>,
    pub trace: Option<Seq<TraceItemView>>,
}

/// A diagnostic message of the model checker.
#[derive(Debug)]
pub struct Message {
    pub txt: String,
    pub typ: String,
}

/// The banner with which the model checker names itself.
#[derive(Debug)]
pub struct Program {
    pub program: String,
}

/// Everything one run of the model checker has reported.
#[derive(Debug)]
pub struct CbmcOutput {
    pub messages: Vec<Message>,
    pub properties: Vec<Property>,
}

/// One record of the model checker's output.
#[derive(Debug)]
pub enum ParserItem {
    Program { program: String },
    Message { message_text: String, message_type: String },
    Result { result: Vec<Property> },
    ProverStatus { _c_prover_status: String },
}

/// What a `ParserItem` holds.
pub ghost enum ParserItemView {
    Program { program: Seq<char> },
    Message { message_text: Seq<char>, message_type: Seq<char> },
    Result { result: Seq<PropertyView> },
    ProverStatus { _c_prover_status: Seq<char> },
}

/// How much of a batch of results the report shows.
#[derive(Copy, Clone, Debug, PartialEq, Eq, Structural)]
pub enum OutputFormat {
    /// Every check, then the summary.
    Regular,
    /// The summary alone.
    Terse,
}

impl View for ParserItem {
    type V = ParserItemView;

    open spec fn view(&self) -> ParserItemView {
        match self {
            ParserItem::Program { program } => ParserItemView::Program { program: program@ },
            ParserItem::Message { message_text, message_type } => ParserItemView::Message {
                message_text: message_text@,
                message_type: message_type@,
            },
            ParserItem::Result { result } => ParserItemView::Result {
                result: result.deep_view(),
            },
            ParserItem::ProverStatus { _c_prover_status } => ParserItemView::ProverStatus {
                _c_prover_status: _c_prover_status@,
            },
        }
    }
}

impl View for SourceLocation {
    type V = SourceLocationView;

    open spec fn view(&self) -> SourceLocationView {
        SourceLocationView {
            column: self.column.deep_view(),
            file: self.file.deep_view(),
            function: self.function.deep_view(),
            line: self.line.deep_view(),
        }
    }
}

impl DeepView for SourceLocation {
    type V = SourceLocationView;

    open spec fn deep_view(&self) -> SourceLocationView {
        self.view()
    }
}

impl View for TraceItem {
    type V = TraceItemView;

    open spec fn view(&self) -> TraceItemView {
        TraceItemView {
            thread: self.thread,
            step_type: self.step_type@,
            hidden: self.hidden,
            source_location: self.source_location.deep_view(),
        }
    }
}

impl DeepView for TraceItem {
    type V = TraceItemView;

    open spec fn deep_view(&self) -> TraceItemView {
        self.view()
    }
}

impl View for Property {
    type V = PropertyView;

    open spec fn view(&self) -> PropertyView {
        PropertyView {
            description: self.description@,
            property: self.property@,
            source_location: self.source_location@,
            status: self.status,
            reach: self.reach,
            trace: self.trace.deep_view(),
        }
    }
}

impl DeepView for Property {
    type V = PropertyView;

    open spec fn deep_view(&self) -> PropertyView {
        self.view()
    }
}

impl SourceLocationView {
    /// Neither a file nor a function is known.
    pub open spec fn is_missing(self) -> bool {
        self.file is None && self.function is None
    }
}

impl SourceLocation {
    /// Neither a file nor a function is known.
    pub fn is_missing(&self) -> (b: bool)
        ensures
            b == self@.is_missing(),
    {
        self.file.is_none() && self.function.is_none()
    }
}

} // verus!
