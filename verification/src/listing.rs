//! The list of the windows on the screen: which of them have a title, and
//! which.
use vstd::prelude::*;

verus! {

/// A surrogate, that is half of a character.
pub open spec fn is_surrogate(unit: u16) -> bool {
    0xd800 <= unit < 0xe000
}

/// Do two units make one character?
pub open spec fn is_pair(first: u16, second: u16) -> bool {
    0xd800 <= first < 0xdc00 && 0xdc00 <= second < 0xe000
}

/// The text that UTF-16 units stand for: one character for each unit or pair,
/// and the replacement character for each half that has no other half.
pub open spec fn utf16_text(units: Seq<u16>) -> Seq<char>
    decreases units.len(),
{
    if units.len() == 0 {
        Seq::empty()
    } else if !is_surrogate(units[0]) {
        seq![units[0] as char] + utf16_text(units.skip(1))
    } else if units.len() > 1 && is_pair(units[0], units[1]) {
        seq![(0x1_0000 + (units[0] - 0xd800) * 0x400 + (units[1] - 0xdc00)) as char] + utf16_text(
            units.skip(2),
        )
    } else {
        seq!['\u{fffd}'] + utf16_text(units.skip(1))
    }
}

/// Decodes with `String::from_utf16_lossy`: UTF-16, with what is invalid
/// replaced by the replacement character.
#[verifier::external_body]
fn decode_utf16(units: &[u16]) -> (text: String)
    ensures
        text@ == utf16_text(units@),
{
    String::from_utf16_lossy(units)
}

/// A question about a window.
#[derive(Clone, Copy, Debug, PartialEq, Eq, Structural)]
pub enum ListRequest {
    /// Is it visible?
    Visible,
    /// How long is its title, in UTF-16 units?
    TextLength,
    /// Its title, in a buffer of this many units.
    Text { capacity: usize },
}

/// The answer to a question about a window.
#[derive(Debug, PartialEq, Eq)]
pub enum ListReply {
    Flag(bool),
    Length(i32),
    Text(Vec<u16>),
}

/// How far the questions about a window have come.
#[derive(Clone, Copy, Debug, PartialEq, Eq, Structural)]
pub enum ListPhase {
    Visible,
    Length,
    Text { length: usize },
}

/// Where the questions go: on to another one, or to their end with the title
/// that is listed, if there is one, and whether the next window is asked. `T` is
/// a text, or what it stands for.
#[derive(Debug, PartialEq, Eq)]
pub enum ListStep<T> {
    Next(ListPhase),
    Over { title: Option<T>, go_on: bool },
}

impl View for ListStep<String> {
    type V = ListStep<Seq<char>>;

    open spec fn view(&self) -> ListStep<Seq<char>> {
        match *self {
            ListStep::Next(phase) => ListStep::Next(phase),
            ListStep::Over { title: Some(text), go_on } => ListStep::Over {
                title: Some(text@),
                go_on,
            },
            ListStep::Over { title: None, go_on } => ListStep::Over { title: None, go_on },
        }
    }
}

impl ListPhase {
    /// A title whose buffer has room for the closing zero.
    pub open spec fn well_formed(self) -> bool {
        self matches ListPhase::Text { length } ==> 0 < length < i32::MAX
    }

    /// The question that is waited for.
    pub open spec fn asks(self) -> ListRequest {
        match self {
            ListPhase::Visible => ListRequest::Visible,
            ListPhase::Length => ListRequest::TextLength,
            ListPhase::Text { length } => ListRequest::Text { capacity: (length + 1) as usize },
        }
    }

    /// The question that is waited for.
    pub fn request(&self) -> (request: ListRequest)
        requires
            self.well_formed(),
        ensures
            request == self.asks(),
    {
        match *self {
            ListPhase::Visible => ListRequest::Visible,
            ListPhase::Length => ListRequest::TextLength,
            ListPhase::Text { length } => ListRequest::Text { capacity: length + 1 },
        }
    }

    /// Is it an answer to the question? A title comes in the whole buffer, and
    /// its length leaves room for the closing zero.
    pub open spec fn fits(self, reply: ListReply) -> bool {
        match self.asks() {
            ListRequest::Visible => reply is Flag,
            ListRequest::TextLength => reply matches ListReply::Length(length) && length < i32::MAX,
            ListRequest::Text { capacity } => reply matches ListReply::Text(units) && units@.len()
                == capacity,
        }
    }

    /// Where the questions go on a reply: only a visible window is asked for the
    /// length of its title, only one with a title for the title, and that title,
    /// without the closing zero, is listed. Listed or not, the next window is
    /// asked.
    pub open spec fn next(self, reply: ListReply) -> ListStep<Seq<char>> {
        match (self, reply) {
            (ListPhase::Visible, ListReply::Flag(true)) => ListStep::Next(ListPhase::Length),
            (ListPhase::Length, ListReply::Length(length)) if length > 0 => ListStep::Next(
                ListPhase::Text { length: length as usize },
            ),
            (ListPhase::Text { length }, ListReply::Text(units)) => ListStep::Over {
                title: Some(utf16_text(units@.take(length as int))),
                go_on: true,
            },
            _ => ListStep::Over { title: None, go_on: true },
        }
    }

    /// Where the questions go on a reply.
    pub fn step(self, reply: ListReply) -> (after: ListStep<String>)
        requires
            self.well_formed(),
            self.fits(reply),
        ensures
            after@ == self.next(reply),
            after matches ListStep::Next(phase) ==> phase.well_formed(),
            after matches ListStep::Over { go_on, .. } ==> go_on,
    {
        match (self, reply) {
            (ListPhase::Visible, ListReply::Flag(visible)) => if visible {
                ListStep::Next(ListPhase::Length)
            } else {
                ListStep::Over { title: None, go_on: true }
            },
            (ListPhase::Length, ListReply::Length(length)) => if length > 0 {
                ListStep::Next(ListPhase::Text { length: length as usize })
            } else {
                ListStep::Over { title: None, go_on: true }
            },
            (ListPhase::Text { length }, ListReply::Text(units)) => {
                let title: String = decode_utf16(
                    vstd::slice::slice_subrange(units.as_slice(), 0, length),
                );
                proof {
                    assert(units@.subrange(0, length as int) =~= units@.take(length as int));
                    text_of_something(units@.take(length as int));
                }
                if title.as_str().is_empty() {
                    ListStep::Over { title: None, go_on: true }
                } else {
                    ListStep::Over { title: Some(title), go_on: true }
                }
            },
            _ => ListStep::Over { title: None, go_on: true },
        }
    }
}

/// Units stand for no text only where there are none.
pub proof fn text_of_something(units: Seq<u16>)
    ensures
        utf16_text(units).len() == 0 <==> units.len() == 0,
{
}

} // verus!
