//! A running session as its front end sees it: the interpreter, the line
//! that the viewport starts at, and the messages that change them.

use vstd::prelude::*;
use vstd::utf8::encode_scalar;
use crate::display::DisplayCell;
use crate::grid::{Screen, at_least, at_most, window};
use crate::interpreter::{Interpreter, parsed, parser_after};
use crate::terminal::rows_of;

verus! {

/// What the front end hands to a session.
#[derive(Clone, Debug)]
pub enum VigilMessages {
    /// A new text for the input line.
    WriteBuffer(String),
    /// Bytes that the child process wrote.
    StdoutRead(Vec<u8>),
    /// A character that the user typed.
    StdinInput(char),
    /// A scroll of the viewport by so many lines, downward if positive.
    MouseScroll(i8),
}

/// The kind of key that was pressed.
#[derive(Clone, Copy, PartialEq, Eq, Structural, Debug)]
pub enum KeyPress {
    /// The named key Enter.
    Enter,
    /// The named key Space.
    Space,
    /// Any other named key.
    Named,
    /// A key without a name: a letter, a digit, a sign.
    Character,
}

/// The first character of a text, or NUL where there is none.
pub open spec fn first_char(text: Option<Seq<char>>) -> char {
    match text {
        Some(chars) => if chars.len() > 0 {
            chars[0]
        } else {
            '\0'
        },
        None => '\0',
    }
}

/// The character that a key press sends to the child process, if any.
pub open spec fn key_char(key: KeyPress, text: Option<Seq<char>>) -> Option<char> {
    match key {
        KeyPress::Enter => Some('\r'),
        KeyPress::Named => None,
        _ => Some(first_char(text)),
    }
}

/// The top line of the viewport after a scroll by `direction` lines.
pub open spec fn scrolled(top: int, direction: int) -> int {
    if direction > 0 {
        at_most(top + direction, usize::MAX as int)
    } else {
        at_least(top + direction, 0)
    }
}

/// The scroll that a turn of the wheel asks for: one line down while lines
/// are hidden below the viewport, one line up while lines are hidden above.
pub open spec fn wheel_scroll(downward: bool, top: int, height: int, lines: int) -> Option<i8> {
    if downward {
        if lines > height && top < lines - height {
            Some(1i8)
        } else {
            None
        }
    } else if top > 0 {
        Some(-1i8)
    } else {
        None
    }
}

/// What a turn of the wheel asks of a viewport of `height` lines that
/// starts at line `top` of a grid of `lines` lines.
pub fn wheel_request(downward: bool, top: usize, height: usize, lines: usize) -> (request: Option<
    i8,
>)
    ensures
        request == wheel_scroll(downward, top as int, height as int, lines as int),
{
    if downward {
        if lines > height && top < lines - height {
            Some(1)
        } else {
            None
        }
    } else if top > 0 {
        Some(-1)
    } else {
        None
    }
}

fn leading_char(text: Option<&str>) -> (c: char)
    ensures
        c == first_char(
            match text {
                Some(s) => Some(s@),
                None => None,
            },
        ),
{
    match text {
        Some(s) => {
            if s.unicode_len() > 0 {
                s.get_char(0)
            } else {
                '\0'
            }
        },
        None => '\0',
    }
}

/// Enter sends a carriage return. Space and the keys without a name send
/// the first character of their text. The other named keys send nothing.
pub fn keystroke(key: KeyPress, text: Option<&str>) -> (sent: Option<char>)
    ensures
        sent == key_char(
            key,
            match text {
                Some(s) => Some(s@),
                None => None,
            },
        ),
{
    match key {
        KeyPress::Enter => Some('\r'),
        KeyPress::Named => None,
        _ => Some(leading_char(text)),
    }
}

/// `char::encode_utf8`: the bytes of the UTF-8 encoding of one character.
#[verifier::external_body]
fn utf8_of(c: char) -> (bytes: Vec<u8>)
    ensures
        bytes@ == encode_scalar(c as u32),
{
    let mut buffer = [0u8; 4];
    c.encode_utf8(&mut buffer).as_bytes().to_vec()
}

/// An interpreter, the viewport over its grid, and the input line.
pub struct Session<const NUM_ROW: usize, const NUM_COLUMN: usize> {
    interpreter: Interpreter<NUM_ROW, NUM_COLUMN>,
    terminal_buffer: String,
    top_displaying_row: usize,
}

impl<const NUM_ROW: usize, const NUM_COLUMN: usize> Session<NUM_ROW, NUM_COLUMN> {
    /// The screen of the terminal.
    pub closed spec fn view(&self) -> Screen {
        self.interpreter@
    }

    /// The state of the parser.
    pub closed spec fn parser(&self) -> vte::Parser {
        self.interpreter.parser()
    }

    /// The line that the viewport starts at.
    pub closed spec fn top(&self) -> int {
        self.top_displaying_row as int
    }

    /// The text of the input line.
    pub closed spec fn buffer(&self) -> Seq<char> {
        self.terminal_buffer@
    }

    /// An empty terminal, the viewport at the top, an empty input line.
    pub fn new() -> (session: Self)
        requires
            NUM_COLUMN < usize::MAX,
        ensures
            session@ == Screen::empty(NUM_COLUMN as int),
            session.top() == 0,
            session.buffer().len() == 0,
    {
        Session {
            interpreter: Interpreter::new(),
            terminal_buffer: String::new(),
            top_displaying_row: 0,
        }
    }

    /// The interpreter, to be read.
    pub fn interpreter(&self) -> (interpreter: &Interpreter<NUM_ROW, NUM_COLUMN>)
        ensures
            interpreter@ == self@,
            interpreter.parser() == self.parser(),
    {
        &self.interpreter
    }

    pub fn top_displaying_row(&self) -> (top: usize)
        ensures
            top == self.top(),
    {
        self.top_displaying_row
    }

    pub fn terminal_buffer(&self) -> (text: &String)
        ensures
            text@ == self.buffer(),
    {
        &self.terminal_buffer
    }

    /// Handles one message and returns the bytes to send to the child
    /// process. Output of the child goes through the interpreter; a typed
    /// character is sent as its UTF-8 bytes; a scroll moves the viewport; a
    /// new input line is kept. Each message leaves the rest as it was.
    pub fn update(&mut self, message: VigilMessages) -> (outgoing: Vec<u8>)
        ensures
            match message {
                VigilMessages::WriteBuffer(text) => {
                    &&& outgoing@.len() == 0
                    &&& final(self).buffer() == text@
                    &&& final(self)@ == old(self)@
                    &&& final(self).parser() == old(self).parser()
                    &&& final(self).top() == old(self).top()
                },
                VigilMessages::StdoutRead(bytes) => {
                    &&& outgoing@.len() == 0
                    &&& final(self)@ == old(self)@.run(parsed(old(self).parser(), bytes@))
                    &&& final(self).parser() == parser_after(old(self).parser(), bytes@)
                    &&& final(self).buffer() == old(self).buffer()
                    &&& final(self).top() == old(self).top()
                },
                VigilMessages::StdinInput(c) => {
                    &&& outgoing@ == encode_scalar(c as u32)
                    &&& final(self)@ == old(self)@
                    &&& final(self).parser() == old(self).parser()
                    &&& final(self).buffer() == old(self).buffer()
                    &&& final(self).top() == old(self).top()
                },
                VigilMessages::MouseScroll(direction) => {
                    &&& outgoing@.len() == 0
                    &&& final(self).top() == scrolled(old(self).top(), direction as int)
                    &&& final(self)@ == old(self)@
                    &&& final(self).parser() == old(self).parser()
                    &&& final(self).buffer() == old(self).buffer()
                },
            },
    {
        match message {
            VigilMessages::WriteBuffer(text) => {
                self.terminal_buffer = text;
                Vec::new()
            },
            VigilMessages::StdoutRead(bytes) => {
                self.interpreter.advance(bytes.as_slice());
                Vec::new()
            },
            VigilMessages::StdinInput(c) => utf8_of(c),
            VigilMessages::MouseScroll(direction) => {
                let top = self.top_displaying_row;
                if direction > 0 {
                    let lines = direction as usize;
                    self.top_displaying_row = if lines <= usize::MAX - top {
                        top + lines
                    } else {
                        usize::MAX
                    };
                } else {
                    let lines = (-(direction as i16)) as usize;
                    self.top_displaying_row = if lines <= top {
                        top - lines
                    } else {
                        0
                    };
                }
                Vec::new()
            },
        }
    }

    /// The rows that the viewport shows: `NUM_ROW` lines from the top line on.
    pub fn visible(&self) -> (rows: Vec<Vec<DisplayCell>>)
        ensures
            rows_of(rows@) == window(self@.rows, self.top(), NUM_ROW as int),
    {
        self.interpreter.terminal().snapshot(self.top_displaying_row, NUM_ROW)
    }

    /// The message that a turn of the wheel gives rise to, if any.
    pub fn scroll_request(&self, downward: bool) -> (request: Option<VigilMessages>)
        ensures
            match wheel_scroll(downward, self.top(), NUM_ROW as int, self@.rows.len() as int) {
                Some(direction) => request == Some(VigilMessages::MouseScroll(direction)),
                None => request is None,
            },
    {
        let lines = self.interpreter.terminal().line_count();
        match wheel_request(downward, self.top_displaying_row, NUM_ROW, lines) {
            Some(direction) => Some(VigilMessages::MouseScroll(direction)),
            None => None,
        }
    }
}

} // verus!
