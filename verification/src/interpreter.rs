//! The escape interpreter: bytes go through the `vte` parser, and the
//! operations that it reports are applied to the terminal in order.

use vstd::prelude::*;
use crate::grid::Screen;
use crate::laws::law_run_concat;
use crate::operation::{Operation, groups_of};
use crate::terminal::Terminal;

verus! {

/// `vte::Parser`: the parser's state machine. Its inside is not looked at.
#[verifier::external_type_specification]
#[verifier::external_body]
pub struct ExParser<const OSC_RAW_BUF_SIZE: usize>(vte::Parser<OSC_RAW_BUF_SIZE>);

/// `vte::Params`: the parameters of one sequence. Its inside is not looked
/// at.
#[verifier::external_type_specification]
#[verifier::external_body]
pub struct ExParams(vte::Params);

/// The operations that `vte::Parser::advance` reports, in order, when a
/// parser in state `parser` is given `bytes`. Which operations these are is
/// the parser's business and is not stated here.
pub uninterp spec fn parsed(parser: vte::Parser, bytes: Seq<u8>) -> Seq<Operation>;

/// The state that `vte::Parser::advance` leaves a parser in, when a parser
/// in state `parser` is given `bytes`: what it has read of an unfinished
/// sequence or character stays there for the next bytes.
pub uninterp spec fn parser_after(parser: vte::Parser, bytes: Seq<u8>) -> vte::Parser;

/// The parameters that `vte::Params::iter` yields for `params`, in order:
/// each is a group of values, the parameter and its subparameters.
pub uninterp spec fn param_groups(params: vte::Params) -> Seq<Seq<u16>>;

/// Keeps what the parser reports, in the order of the reports.
pub struct Recorder {
    ops: Vec<Operation>,
}

impl Recorder {
    /// The operations recorded so far, first to last.
    pub closed spec fn view(&self) -> Seq<Operation> {
        self.ops@
    }
}

/// The fields that a list of slices holds.
pub open spec fn fields_view(slices: Seq<&[u8]>) -> Seq<Seq<u8>> {
    Seq::new(slices.len(), |i: int| slices[i]@)
}

/// The fields that a vector of fields holds.
pub open spec fn fields_held(fields: Seq<Vec<u8>>) -> Seq<Seq<u8>> {
    Seq::new(fields.len(), |i: int| fields[i]@)
}

fn bytes_of(slice: &[u8]) -> (bytes: Vec<u8>)
    ensures
        bytes@ == slice@,
{
    let mut bytes: Vec<u8> = Vec::with_capacity(slice.len());
    let mut i: usize = 0;
    while i < slice.len()
        invariant
            i <= slice.len(),
            bytes@ =~= slice@.take(i as int),
        decreases slice.len() - i,
    {
        bytes.push(slice[i]);
        i += 1;
    }
    assert(bytes@ =~= slice@);
    bytes
}

fn fields_of(slices: &[&[u8]]) -> (fields: Vec<Vec<u8>>)
    ensures
        fields_held(fields@) == fields_view(slices@),
{
    let mut fields: Vec<Vec<u8>> = Vec::with_capacity(slices.len());
    let mut i: usize = 0;
    while i < slices.len()
        invariant
            i <= slices.len(),
            fields.len() == i,
            forall|j: int| 0 <= j < i ==> #[trigger] fields[j]@ == slices[j]@,
        decreases slices.len() - i,
    {
        fields.push(bytes_of(slices[i]));
        i += 1;
    }
    assert(fields_held(fields@) =~= fields_view(slices@));
    fields
}

/// `vte::Params::iter`: the parameters of a sequence, each with its
/// subparameters, copied out group by group. The iterator reads the list
/// and nothing else, so what it yields is a function of the list; no more
/// is claimed of it.
#[verifier::external_body]
fn groups(params: &vte::Params) -> (groups: Vec<Vec<u16>>)
    ensures
        groups_of(groups@) == param_groups(*params),
{
    params.iter().map(|group| group.to_vec()).collect()
}

impl vte::Perform for Recorder {
    /// Records a printable character.
    fn print(&mut self, c: char)
        ensures
            final(self)@ == old(self)@.push(Operation::Print(c)),
    {
        self.ops.push(Operation::Print(c));
    }

    /// Records a control code.
    fn execute(&mut self, byte: u8)
        ensures
            final(self)@ == old(self)@.push(Operation::Execute(byte)),
    {
        self.ops.push(Operation::Execute(byte));
    }

    /// Records the start of a device control string, with copies of its
    /// parameters and intermediates.
    fn hook(&mut self, params: &vte::Params, intermediates: &[u8], ignore: bool, action: char)
        ensures
            final(self)@.len() == old(self)@.len() + 1,
            final(self)@.drop_last() == old(self)@,
            final(self)@.last() matches Operation::Hook {
                params: kept,
                intermediates: between,
                ignore: flag,
                action: letter,
            } && groups_of(kept@) == param_groups(*params) && between@ == intermediates@ && flag
                == ignore && letter == action,
    {
        let ghost before = self.ops@;
        self.ops.push(
            Operation::Hook {
                params: groups(params),
                intermediates: bytes_of(intermediates),
                ignore,
                action,
            },
        );
        assert(self.ops@.drop_last() =~= before);
    }

    /// Records one byte of a device control string.
    fn put(&mut self, byte: u8)
        ensures
            final(self)@ == old(self)@.push(Operation::Put(byte)),
    {
        self.ops.push(Operation::Put(byte));
    }

    /// Records the end of a device control string.
    fn unhook(&mut self)
        ensures
            final(self)@ == old(self)@.push(Operation::Unhook),
    {
        self.ops.push(Operation::Unhook);
    }

    /// Records an operating system command, with copies of its fields.
    fn osc_dispatch(&mut self, params: &[&[u8]], bell_terminated: bool)
        ensures
            final(self)@.len() == old(self)@.len() + 1,
            final(self)@.drop_last() == old(self)@,
            final(self)@.last() matches Operation::Osc { fields, bell_terminated: bell }
                && fields_held(fields@) == fields_view(params@) && bell == bell_terminated,
    {
        let ghost before = self.ops@;
        self.ops.push(Operation::Osc { fields: fields_of(params), bell_terminated });
        assert(self.ops@.drop_last() =~= before);
    }

    /// Records a control sequence, with copies of its parameters and
    /// intermediates.
    fn csi_dispatch(
        &mut self,
        params: &vte::Params,
        intermediates: &[u8],
        ignore: bool,
        action: char,
    )
        ensures
            final(self)@.len() == old(self)@.len() + 1,
            final(self)@.drop_last() == old(self)@,
            final(self)@.last() matches Operation::Csi {
                params: kept,
                intermediates: between,
                ignore: flag,
                action: letter,
            } && groups_of(kept@) == param_groups(*params) && between@ == intermediates@ && flag
                == ignore && letter == action,
    {
        let ghost before = self.ops@;
        self.ops.push(
            Operation::Csi {
                params: groups(params),
                intermediates: bytes_of(intermediates),
                ignore,
                action,
            },
        );
        assert(self.ops@.drop_last() =~= before);
    }

    /// Records an escape sequence, with a copy of its intermediates.
    fn esc_dispatch(&mut self, intermediates: &[u8], ignore: bool, byte: u8)
        ensures
            final(self)@.len() == old(self)@.len() + 1,
            final(self)@.drop_last() == old(self)@,
            final(self)@.last() matches Operation::Esc {
                intermediates: between,
                ignore: flag,
                byte: last,
            } && between@ == intermediates@ && flag == ignore && last == byte,
    {
        let ghost before = self.ops@;
        self.ops.push(Operation::Esc { intermediates: bytes_of(intermediates), ignore, byte });
        assert(self.ops@.drop_last() =~= before);
    }
}

/// `vte::Parser::new`: a parser in its ground state. Nothing is claimed of
/// it.
#[verifier::external_body]
fn new_parser() -> (parser: vte::Parser) {
    vte::Parser::new()
}

/// `vte::Parser::advance`, with a performer that records every report. The
/// parser is a state machine without any other input: what it reports and
/// the state it is left in are functions of its state before and of the
/// bytes, and that is all this claims.
#[verifier::external_body]
fn advance(parser: &mut vte::Parser, bytes: &[u8]) -> (ops: Vec<Operation>)
    ensures
        ops@ == parsed(*old(parser), bytes@),
        *final(parser) == parser_after(*old(parser), bytes@),
{
    let mut recorder = Recorder { ops: Vec::new() };
    parser.advance(&mut recorder, bytes);
    recorder.ops
}

/// A terminal together with the parser that feeds it.
pub struct Interpreter<const NUM_ROW: usize, const NUM_COLUMN: usize> {
    parser: vte::Parser,
    terminal: Terminal<NUM_ROW, NUM_COLUMN>,
}

impl<const NUM_ROW: usize, const NUM_COLUMN: usize> Interpreter<NUM_ROW, NUM_COLUMN> {
    /// The state of the parser: what decides how the next bytes are read.
    pub closed spec fn parser(&self) -> vte::Parser {
        self.parser
    }

    /// The screen of the terminal.
    pub closed spec fn view(&self) -> Screen {
        self.terminal@
    }

    /// A fresh parser over an empty terminal.
    pub fn new() -> (interpreter: Self)
        requires
            NUM_COLUMN < usize::MAX,
        ensures
            interpreter@ == Screen::empty(NUM_COLUMN as int),
    {
        Interpreter { parser: new_parser(), terminal: Terminal::init() }
    }

    /// The terminal, to be read.
    pub fn terminal(&self) -> (terminal: &Terminal<NUM_ROW, NUM_COLUMN>)
        ensures
            terminal@ == self@,
    {
        &self.terminal
    }

    /// Parses `bytes` and applies what they hold. The screen afterwards is
    /// the screen before, run through the operations that the parser reports
    /// for these bytes. A sequence may be split over two calls: the parser
    /// goes on from the state that the bytes before left it in.
    pub fn advance(&mut self, bytes: &[u8])
        ensures
            final(self)@ == old(self)@.run(parsed(old(self).parser(), bytes@)),
            final(self).parser() == parser_after(old(self).parser(), bytes@),
    {
        let ops = advance(&mut self.parser, bytes);
        self.terminal.apply_all(&ops);
    }
}

/// Two feeds in a row apply, in order, what the parser reports for the
/// first bytes and what it reports for the second bytes from the state that
/// the first left it in: nothing of the first feed is lost or applied twice.
pub proof fn law_feeds_chain(screen: Screen, parser: vte::Parser, first: Seq<u8>, second: Seq<u8>)
    ensures
        screen.run(parsed(parser, first)).run(parsed(parser_after(parser, first), second))
            == screen.run(parsed(parser, first) + parsed(parser_after(parser, first), second)),
{
    law_run_concat(screen, parsed(parser, first), parsed(parser_after(parser, first), second));
}

} // verus!
