//! Turns single input events into whole lines for the child's input.

use vstd::prelude::*;
use vstd::string::*;

verus! {

/// The character that ends every completed line.
pub const LINE_TERMINATOR: char = '\n';

/// One event from the display's input side, already resolved to what it
/// means for the relay.
#[derive(Clone, Copy, PartialEq, Eq, Structural, Debug)]
pub enum InputEvent {
    /// The user asked to end the session.
    Quit,
    /// A printable character was typed.
    Char(char),
    /// The line typed so far is complete.
    LineComplete,
    /// Anything else: editing, navigation, pointer and window events.
    Other,
}

/// Whether `c` is a control character: one of U+0000 to U+001F and U+007F
/// to U+009F.
pub open spec fn is_control(c: char) -> bool {
    let code = c as u32;
    code <= 0x1F || 0x7F <= code <= 0x9F
}

impl InputEvent {
    /// What a key means for the relay. A key that was pressed and gives
    /// the line terminator completes the line; one that gives any other
    /// control character, or none, means nothing; one that gives another
    /// character types it. A key that was released means nothing.
    pub open spec fn spec_from_key(character: char, pressed: bool) -> InputEvent {
        if !pressed {
            InputEvent::Other
        } else if character == LINE_TERMINATOR {
            InputEvent::LineComplete
        } else if is_control(character) {
            InputEvent::Other
        } else {
            InputEvent::Char(character)
        }
    }

    /// What a key means for the relay.
    pub fn from_key(character: char, pressed: bool) -> (event: InputEvent)
        ensures
            event == Self::spec_from_key(character, pressed),
    {
        let code: u32 = character as u32;
        if !pressed {
            InputEvent::Other
        } else if character == LINE_TERMINATOR {
            InputEvent::LineComplete
        } else if code <= 0x1F || (0x7F <= code && code <= 0x9F) {
            InputEvent::Other
        } else {
            InputEvent::Char(character)
        }
    }
}

/// A completed line: the characters typed, then the line terminator.
pub struct InputLine {
    text: String,
}

impl View for InputLine {
    type V = Seq<char>;

    closed spec fn view(&self) -> Seq<char> {
        self.text@
    }
}

impl InputLine {
    /// The line as text, terminator included.
    pub fn as_str(&self) -> (text: &str)
        ensures
            text@ == self@,
    {
        self.text.as_str()
    }

    /// The line as an owned string, terminator included.
    pub fn into_string(self) -> (text: String)
        ensures
            text@ == self@,
    {
        self.text
    }

    /// The bytes to write to the child's input: the line's UTF-8 encoding.
    pub fn to_bytes(&self) -> (bytes: Vec<u8>)
        ensures
            bytes@ == vstd::utf8::encode_utf8(self@),
    {
        self.text.as_str().as_bytes_vec()
    }
}

/// The characters waiting in the translator after `event`.
pub open spec fn pending_after(pending: Seq<char>, event: InputEvent) -> Seq<char> {
    match event {
        InputEvent::Char(c) => pending.push(c),
        InputEvent::LineComplete => Seq::empty(),
        _ => pending,
    }
}

/// The line that `event` completes, if it completes one.
pub open spec fn line_after(pending: Seq<char>, event: InputEvent) -> Option<Seq<char>> {
    match event {
        InputEvent::LineComplete => Some(pending.push(LINE_TERMINATOR)),
        _ => None,
    }
}

/// Collects typed characters until the line is complete.
pub struct InputTranslator {
    pending: String,
}

impl View for InputTranslator {
    type V = Seq<char>;

    /// The characters received since the last completed line.
    closed spec fn view(&self) -> Seq<char> {
        self.pending@
    }
}

impl InputTranslator {
    /// A translator with nothing typed yet.
    pub fn new() -> (translator: Self)
        ensures
            translator@ == Seq::<char>::empty(),
    {
        InputTranslator { pending: String::new() }
    }

    /// Takes in one event.
    ///
    /// A character is kept for later. A line completion hands out all kept
    /// characters followed by the line terminator and starts over with
    /// nothing kept. Every other event changes nothing and yields nothing.
    pub fn feed(&mut self, event: InputEvent) -> (line: Option<InputLine>)
        ensures
            final(self)@ == pending_after(old(self)@, event),
            match line_after(old(self)@, event) {
                Some(text) => line matches Some(completed) && completed@ == text,
                None => line is None,
            },
    {
        match event {
            InputEvent::Char(c) => {
                self.pending.push(c);
                None
            },
            InputEvent::LineComplete => {
                let mut text = String::new();
                std::mem::swap(&mut self.pending, &mut text);
                text.push(LINE_TERMINATOR);
                Some(InputLine { text })
            },
            _ => None,
        }
    }
}

} // verus!
