//! Framing of the model checker's output: the lines of the stream are gathered
//! until those of one record are complete.

use vstd::prelude::*;
use vstd::string::*;
use crate::errors::FatalKind;
use crate::text::str_starts_with;
use crate::types::ParserItem;

verus! {

/// What a line asks the parser to do with the lines gathered so far.
#[derive(Copy, Clone, Debug, PartialEq, Eq, Structural)]
pub enum Action {
    /// The line opens or closes the top-level array: forget what was gathered.
    ClearInput,
    /// The line closes a record: hand out what was gathered.
    ProcessItem,
}

/// The text of one complete record, in the two forms in which it may be
/// well-formed: without its last two characters (a comma and the line
/// break), and as it was gathered.
#[derive(Debug)]
pub struct RawRecord {
    pub trimmed: String,
    pub complete: String,
}

/// What a `RawRecord` holds.
pub ghost struct RawRecordView {
    pub trimmed: Seq<char>,
    pub complete: Seq<char>,
}

impl View for RawRecord {
    type V = RawRecordView;

    open spec fn view(&self) -> RawRecordView {
        RawRecordView { trimmed: self.trimmed@, complete: self.complete@ }
    }
}

impl DeepView for RawRecord {
    type V = RawRecordView;

    open spec fn deep_view(&self) -> RawRecordView {
        self.view()
    }
}

/// Gathers the lines of the record that is being read.
#[derive(Debug)]
pub struct Parser {
    pub input_so_far: String,
}

impl View for Parser {
    type V = Seq<char>;

    open spec fn view(&self) -> Seq<char> {
        self.input_so_far@
    }
}

/// What a line asks for: a line that begins with a square bracket clears the
/// buffer, one that begins with two blanks and a closing brace completes a
/// record, any other line asks for nothing.
pub open spec fn line_action(input: Seq<char>) -> Option<Action> {
    if "["@.is_prefix_of(input) || "]"@.is_prefix_of(input) {
        Some(Action::ClearInput)
    } else if "  }"@.is_prefix_of(input) {
        Some(Action::ProcessItem)
    } else {
        None
    }
}

/// The record that a buffer of at least two characters holds.
pub open spec fn record_of(buffer: Seq<char>) -> RawRecordView {
    RawRecordView { trimmed: buffer.take(buffer.len() - 2), complete: buffer }
}

/// The record handed out for the line `input` when `buffer` was gathered
/// before it.
pub open spec fn line_record(buffer: Seq<char>, input: Seq<char>) -> Option<RawRecordView> {
    if line_action(input) == Some(Action::ProcessItem) {
        Some(record_of(buffer + input))
    } else {
        None
    }
}

/// The buffer after the line `input` when `buffer` was gathered before it.
pub open spec fn line_buffer(buffer: Seq<char>, input: Seq<char>) -> Seq<char> {
    if line_action(input) is Some {
        Seq::empty()
    } else {
        buffer + input
    }
}

impl Parser {
    /// A parser that has gathered nothing.
    pub fn new() -> (parser: Self)
        ensures
            parser@ == Seq::<char>::empty(),
    {
        Parser { input_so_far: String::new() }
    }

    /// What the line asks for.
    pub fn triggers_action(&self, input: &str) -> (action: Option<Action>)
        ensures
            action == line_action(input@),
    {
        if str_starts_with(input, "[") || str_starts_with(input, "]") {
            return Some(Action::ClearInput);
        }
        if str_starts_with(input, "  }") {
            return Some(Action::ProcessItem);
        }
        None
    }

    fn clear_input(&mut self)
        ensures
            final(self)@ == Seq::<char>::empty(),
    {
        self.input_so_far = String::new();
    }

    fn do_action(&mut self, action: Action) -> (record: Option<RawRecord>)
        requires
            action == Action::ProcessItem ==> old(self)@.len() >= 2,
        ensures
            final(self)@ == Seq::<char>::empty(),
            record.deep_view() == match action {
                Action::ClearInput => None,
                Action::ProcessItem => Some(record_of(old(self)@)),
            },
    {
        match action {
            Action::ClearInput => {
                self.clear_input();
                None
            },
            Action::ProcessItem => {
                let item = self.parse_item();
                self.clear_input();
                Some(item)
            },
        }
    }

    fn add_to_input(&mut self, input: &str)
        ensures
            final(self)@ == old(self)@ + input@,
    {
        self.input_so_far.append(input);
    }

    fn parse_item(&self) -> (record: RawRecord)
        requires
            self@.len() >= 2,
        ensures
            record@ == record_of(self@),
    {
        let text = self.input_so_far.as_str();
        let len = text.unicode_len();
        let string_without_delimiter = text.substring_char(0, len - 2);
        RawRecord {
            trimmed: String::from_str(string_without_delimiter),
            complete: self.input_so_far.clone(),
        }
    }

    /// Takes in the next line of the stream. The line joins the buffer;
    /// then, where it asks for it, the buffer is cleared or handed out as a
    /// record and cleared.
    pub fn process_line(&mut self, input: String) -> (record: Option<RawRecord>)
        ensures
            final(self)@ == line_buffer(old(self)@, input@),
            record.deep_view() == line_record(old(self)@, input@),
    {
        self.add_to_input(input.as_str());
        let action_required = self.triggers_action(input.as_str());
        match action_required {
            Some(action) => {
                proof {
                    reveal_strlit("  }");
                }
                self.do_action(action)
            },
            None => None,
        }
    }
}

/// The record read from a text in its two forms: what the trimmed form
/// gave, else what the complete form gave.
pub open spec fn spec_select_parsed<T>(trimmed: Option<T>, complete: Option<T>) -> Result<
    T,
    FatalKind,
> {
    match trimmed {
        Some(item) => Ok(item),
        None => match complete {
            Some(item) => Ok(item),
            None => Err(FatalKind::MalformedItem),
        },
    }
}

/// Chooses between the outcomes of reading a record in its two forms: the
/// trimmed form counts first, the complete form stands in for it, and a text
/// that is well-formed in neither is a malformed item.
pub fn select_parsed(trimmed: Option<ParserItem>, complete: Option<ParserItem>) -> (r: Result<
    ParserItem,
    FatalKind,
>)
    ensures
        r == spec_select_parsed(trimmed, complete),
{
    match trimmed {
        Some(item) => Ok(item),
        None => match complete {
            Some(item) => Ok(item),
            None => Err(FatalKind::MalformedItem),
        },
    }
}

} // verus!
