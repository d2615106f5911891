//! The debugger's command language and state.
//!
//! Commands: `r` runs until the next breakpoint, `s` steps by one cycle,
//! `b ADDRESS` sets a breakpoint (a decimal 16-bit address), `printbreak`
//! lists the breakpoints. Words are separated by ASCII whitespace; words
//! after those a command takes are ignored.
use vstd::prelude::*;

verus! {

/// The state of the debugger.
pub struct DebugMode {
    /// Run until breakpoint
    pub run: bool,
    /// Cycle through each step and poll for input each time
    pub step: bool,
    /// Whether the last command was a breakpoint command
    pub is_breakpoint: bool,
    /// All breakpoints
    pub breakpoints: Vec<u16>,
}

/// A debugger command.
#[derive(Debug, PartialEq, Eq, Clone, Copy)]
pub enum DebugCommand {
    Run,
    Step,
    Break(u16),
    PrintBreak,
}

/// Why a command line is not a command.
#[derive(Debug, PartialEq, Eq, Clone, Copy)]
pub enum DebugError {
    /// The line holds no word.
    NoCommand,
    /// The first word is not a command.
    InvalidCommand,
    /// `b` is not followed by an address.
    MissingAddress,
    /// The word after `b` is not a decimal 16-bit address.
    InvalidAddress,
}

/// What the program around the debugger is to do after a command.
#[derive(Debug, PartialEq, Eq, Clone, Copy)]
pub enum DebugReply {
    /// Leave the command prompt and go on emulating.
    Resume,
    /// List the breakpoints.
    PrintBreakpoints,
    /// Report that a breakpoint was set at the address.
    BreakpointSet(u16),
    /// Read the next command.
    Nothing,
}

/// Space, tab, line feed, form feed or carriage return.
pub open spec fn is_ascii_whitespace(b: u8) -> bool {
    b == 0x20 || b == 0x09 || b == 0x0A || b == 0x0C || b == 0x0D
}

/// The first index from `i` on that is not whitespace (or the end).
pub open spec fn skip_whitespace(s: Seq<u8>, i: int) -> int
    decreases s.len() - i,
{
    if 0 <= i < s.len() && is_ascii_whitespace(s[i]) {
        skip_whitespace(s, i + 1)
    } else {
        i
    }
}

/// The first index from `i` on that is whitespace (or the end).
pub open spec fn word_end(s: Seq<u8>, i: int) -> int
    decreases s.len() - i,
{
    if 0 <= i < s.len() && !is_ascii_whitespace(s[i]) {
        word_end(s, i + 1)
    } else {
        i
    }
}

/// Whether `s[lo..hi]` is the word `w`.
pub open spec fn word_is(s: Seq<u8>, lo: int, hi: int, w: Seq<u8>) -> bool {
    hi - lo == w.len() && forall|k: int| 0 <= k < w.len() ==> s[lo + k] == w[k]
}

pub open spec fn is_digit(b: u8) -> bool {
    0x30 <= b <= 0x39
}

/// The decimal value of the digits `s[lo..hi]`.
pub open spec fn decimal(s: Seq<u8>, lo: int, hi: int) -> int
    decreases hi - lo,
{
    if hi <= lo {
        0
    } else {
        decimal(s, lo, hi - 1) * 10 + (s[hi - 1] - 0x30)
    }
}

/// The 16-bit number written in decimal in `s[lo..hi]`, with an optional
/// leading `+`, or `None` where it is no such number.
pub open spec fn parse_u16(s: Seq<u8>, lo: int, hi: int) -> Option<u16> {
    let start = if lo < hi && s[lo] == 0x2B { lo + 1 } else { lo };
    if start < hi && (forall|k: int| start <= k < hi ==> is_digit(#[trigger] s[k])) && decimal(s, start, hi)
        <= 0xFFFF {
        Some(decimal(s, start, hi) as u16)
    } else {
        None
    }
}

/// The command written on the line `s`.
pub open spec fn command_of(s: Seq<u8>) -> Result<DebugCommand, DebugError> {
    let a = skip_whitespace(s, 0);
    let b = word_end(s, a);
    let c = skip_whitespace(s, b);
    let d = word_end(s, c);
    if a == b {
        Err(DebugError::NoCommand)
    } else if word_is(s, a, b, seq![0x72u8]) {
        Ok(DebugCommand::Run)
    } else if word_is(s, a, b, seq![0x73u8]) {
        Ok(DebugCommand::Step)
    } else if word_is(s, a, b, seq![0x62u8]) {
        if c == d {
            Err(DebugError::MissingAddress)
        } else {
            match parse_u16(s, c, d) {
                Some(address) => Ok(DebugCommand::Break(address)),
                None => Err(DebugError::InvalidAddress),
            }
        }
    } else if word_is(s, a, b, seq![0x70u8, 0x72u8, 0x69u8, 0x6Eu8, 0x74u8, 0x62u8, 0x72u8, 0x65u8, 0x61u8, 0x6Bu8]) {
        Ok(DebugCommand::PrintBreak)
    } else {
        Err(DebugError::InvalidCommand)
    }
}

fn is_whitespace_byte(b: u8) -> (r: bool)
    ensures
        r == is_ascii_whitespace(b),
{
    b == 0x20 || b == 0x09 || b == 0x0A || b == 0x0C || b == 0x0D
}

fn skip_whitespace_from(line: &[u8], i: usize) -> (r: usize)
    requires
        i <= line.len(),
    ensures
        r == skip_whitespace(line@, i as int),
        i <= r <= line.len(),
{
    let mut j = i;
    while j < line.len() && is_whitespace_byte(line[j])
        invariant
            i <= j <= line.len(),
            skip_whitespace(line@, j as int) == skip_whitespace(line@, i as int),
        decreases line.len() - j,
    {
        j += 1;
    }
    j
}

fn word_end_from(line: &[u8], i: usize) -> (r: usize)
    requires
        i <= line.len(),
    ensures
        r == word_end(line@, i as int),
        i <= r <= line.len(),
{
    let mut j = i;
    while j < line.len() && !is_whitespace_byte(line[j])
        invariant
            i <= j <= line.len(),
            word_end(line@, j as int) == word_end(line@, i as int),
        decreases line.len() - j,
    {
        j += 1;
    }
    j
}

/// Whether `line[lo..hi]` is the word `w`.
fn word_equals(line: &[u8], lo: usize, hi: usize, w: &[u8]) -> (r: bool)
    requires
        lo <= hi <= line.len(),
    ensures
        r == word_is(line@, lo as int, hi as int, w@),
{
    if hi - lo != w.len() {
        return false;
    }
    let mut k: usize = 0;
    while k < w.len()
        invariant
            hi - lo == w.len(),
            lo <= hi <= line.len(),
            k <= w.len(),
            forall|m: int| 0 <= m < k ==> line@[lo + m] == w@[m],
        decreases w.len() - k,
    {
        if line[lo + k] != w[k] {
            return false;
        }
        k += 1;
    }
    true
}

/// Reads the decimal 16-bit number in `line[lo..hi]` (see `parse_u16`).
fn parse_address(line: &[u8], lo: usize, hi: usize) -> (r: Option<u16>)
    requires
        lo <= hi <= line.len(),
    ensures
        r == parse_u16(line@, lo as int, hi as int),
{
    let start = if lo < hi && line[lo] == 0x2B {
        lo + 1
    } else {
        lo
    };
    if start >= hi {
        return None;
    }
    // The value read so far, held at 65536 once it is larger.
    let mut value: u32 = 0;
    let mut i = start;
    while i < hi
        invariant
            start <= i <= hi <= line.len(),
            start < hi,
            start == (if lo < hi && line@[lo as int] == 0x2B { lo + 1 } else { lo as int }),
            forall|k: int| start <= k < i ==> is_digit(#[trigger] line@[k]),
            value == if decimal(line@, start as int, i as int) < 65536 {
                decimal(line@, start as int, i as int)
            } else {
                65536
            },
        decreases hi - i,
    {
        let ch = line[i];
        if ch < 0x30 || ch > 0x39 {
            assert(!is_digit(line@[i as int]));
            return None;
        }
        proof {
            assert(decimal(line@, start as int, i + 1) == decimal(line@, start as int, i as int) * 10 + (ch - 0x30));
        }
        let next = value * 10 + (ch - 0x30) as u32;
        value = if next > 65536 {
            65536
        } else {
            next
        };
        i += 1;
    }
    if value > 0xFFFF {
        None
    } else {
        Some(value as u16)
    }
}

/// Reads a debugger command from a line of input (see `command_of`).
pub fn parse_debug_command(line: &[u8]) -> (r: Result<DebugCommand, DebugError>)
    ensures
        r == command_of(line@),
{
    let a = skip_whitespace_from(line, 0);
    let b = word_end_from(line, a);
    let c = skip_whitespace_from(line, b);
    let d = word_end_from(line, c);
    let run_word: [u8; 1] = [0x72];
    let step_word: [u8; 1] = [0x73];
    let break_word: [u8; 1] = [0x62];
    let print_word: [u8; 10] = [0x70, 0x72, 0x69, 0x6E, 0x74, 0x62, 0x72, 0x65, 0x61, 0x6B];
    proof {
        assert(run_word@ =~= seq![0x72u8]);
        assert(step_word@ =~= seq![0x73u8]);
        assert(break_word@ =~= seq![0x62u8]);
        assert(print_word@ =~= seq![0x70u8, 0x72u8, 0x69u8, 0x6Eu8, 0x74u8, 0x62u8, 0x72u8, 0x65u8, 0x61u8, 0x6Bu8]);
    }
    if a == b {
        Err(DebugError::NoCommand)
    } else if word_equals(line, a, b, run_word.as_slice()) {
        Ok(DebugCommand::Run)
    } else if word_equals(line, a, b, step_word.as_slice()) {
        Ok(DebugCommand::Step)
    } else if word_equals(line, a, b, break_word.as_slice()) {
        if c == d {
            Err(DebugError::MissingAddress)
        } else {
            match parse_address(line, c, d) {
                Some(address) => Ok(DebugCommand::Break(address)),
                None => Err(DebugError::InvalidAddress),
            }
        }
    } else if word_equals(line, a, b, print_word.as_slice()) {
        Ok(DebugCommand::PrintBreak)
    } else {
        Err(DebugError::InvalidCommand)
    }
}

impl DebugMode {
    /// A debugger with no breakpoints that neither runs nor steps.
    pub fn new() -> (d: DebugMode)
        ensures
            !d.run && !d.step && !d.is_breakpoint,
            d.breakpoints@ == Seq::<u16>::empty(),
    {
        DebugMode { run: false, step: false, is_breakpoint: false, breakpoints: Vec::new() }
    }

    /// Whether `address` is a breakpoint.
    pub fn has_breakpoint(&self, address: u16) -> (r: bool)
        ensures
            r == self.breakpoints@.contains(address),
    {
        let mut k: usize = 0;
        while k < self.breakpoints.len()
            invariant
                k <= self.breakpoints.len(),
                forall|m: int| 0 <= m < k ==> self.breakpoints@[m] != address,
            decreases self.breakpoints.len() - k,
        {
            if self.breakpoints[k] == address {
                return true;
            }
            k += 1;
        }
        false
    }

    /// Carries out a command: `r` sets `run` and `s` sets `step` and both
    /// leave the prompt; `printbreak` asks for the list; `b` marks a
    /// breakpoint command and adds the address to the list if it is not
    /// already there.
    pub fn apply(&mut self, command: DebugCommand) -> (reply: DebugReply)
        ensures
            final(self).is_breakpoint == (command is Break),
            final(self).run == (old(self).run || command is Run),
            final(self).step == (old(self).step || command is Step),
            old(self).breakpoints@.no_duplicates() ==> final(self).breakpoints@.no_duplicates(),
            match command {
                DebugCommand::Run => reply is Resume && final(self).breakpoints@ == old(self).breakpoints@,
                DebugCommand::Step => reply is Resume && final(self).breakpoints@ == old(self).breakpoints@,
                DebugCommand::PrintBreak => reply is PrintBreakpoints && final(self).breakpoints@
                    == old(self).breakpoints@,
                DebugCommand::Break(address) => {
                    &&& final(self).breakpoints@.to_set() == old(self).breakpoints@.to_set().insert(address)
                    &&& if old(self).breakpoints@.contains(address) {
                        reply is Nothing && final(self).breakpoints@ == old(self).breakpoints@
                    } else {
                        reply == DebugReply::BreakpointSet(address) && final(self).breakpoints@
                            == old(self).breakpoints@.push(address)
                    }
                },
            },
    {
        self.is_breakpoint = false;
        match command {
            DebugCommand::Run => {
                self.run = true;
                DebugReply::Resume
            },
            DebugCommand::Step => {
                self.step = true;
                DebugReply::Resume
            },
            DebugCommand::PrintBreak => DebugReply::PrintBreakpoints,
            DebugCommand::Break(address) => {
                self.is_breakpoint = true;
                let ghost before = self.breakpoints@;
                //Add to Breakpoint Vector if not already there
                if !self.has_breakpoint(address) {
                    self.breakpoints.push(address);
                    proof {
                        before.lemma_push_to_set_commute(address);
                        assert forall|i: int, j: int|
                            0 <= i < self.breakpoints@.len() && 0 <= j < self.breakpoints@.len() && i != j
                                && before.no_duplicates() implies self.breakpoints@[i]
                            != self.breakpoints@[j] by {
                            if i == before.len() as int {
                                assert(before[j] == self.breakpoints@[j]);
                            } else if j == before.len() as int {
                                assert(before[i] == self.breakpoints@[i]);
                            }
                        }
                    }
                    DebugReply::BreakpointSet(address)
                } else {
                    proof {
                        assert(before.to_set().insert(address) =~= before.to_set());
                    }
                    DebugReply::Nothing
                }
            },
        }
    }
}

} // verus!
