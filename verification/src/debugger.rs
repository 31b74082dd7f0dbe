//! Pure state of the interactive debugger: breakpoint bookkeeping, the
//! command vocabulary, and number parsing.  Reading the terminal, printing
//! state and pumping the devices stay with the host front end, which feeds
//! tokenised commands into `parse_command` and acts on the result.

use vstd::prelude::*;

verus! {

/// The command vocabulary of the debugger prompt.
#[derive(PartialEq, Eq, Structural)]
pub enum CommandType {
    Breakpoint,
    Continue,
    Step,
    Dump,
    ValueBp,
    Print,
    Help,
    Invalid,
}

/// One parsed command: its kind and the remaining tokens.
pub struct Command {
    pub name: CommandType,
    pub args: Vec<String>,
}

/// The kind a command token of one character selects.
pub open spec fn spec_command_type(s: Seq<char>) -> CommandType {
    if s.len() != 1 {
        CommandType::Invalid
    } else if s[0] == 'b' {
        CommandType::Breakpoint
    } else if s[0] == 'c' {
        CommandType::Continue
    } else if s[0] == 'h' {
        CommandType::Help
    } else if s[0] == 'd' {
        CommandType::Dump
    } else if s[0] == 'v' {
        CommandType::ValueBp
    } else if s[0] == 'p' {
        CommandType::Print
    } else if s[0] == 's' {
        CommandType::Step
    } else {
        CommandType::Invalid
    }
}

impl Command {
    /// An invalid command with no arguments.
    pub fn new_command() -> (c: Command)
        ensures
            c.name == CommandType::Invalid,
            c.args@.len() == 0,
    {
        Command { name: CommandType::Invalid, args: Vec::new() }
    }

    /// Classifies the first token and keeps the rest as arguments.
    pub fn parse_command(tokens: &Vec<String>) -> (c: Command)
        requires
            tokens@.len() > 0,
        ensures
            c.name == spec_command_type(tokens@[0]@),
            c.args@.len() == tokens@.len() - 1,
            forall|i: int| 0 <= i < c.args@.len() ==> c.args@[i]@ == tokens@[i + 1]@,
    {
        let head = tokens[0].as_str();
        let name = if head.unicode_len() != 1 {
            CommandType::Invalid
        } else {
            match head.get_char(0) {
                'b' => CommandType::Breakpoint,
                'c' => CommandType::Continue,
                'h' => CommandType::Help,
                'd' => CommandType::Dump,
                'v' => CommandType::ValueBp,
                'p' => CommandType::Print,
                's' => CommandType::Step,
                _ => CommandType::Invalid,
            }
        };
        let mut args: Vec<String> = Vec::new();
        let mut i: usize = 1;
        while i < tokens.len()
            invariant
                1 <= i <= tokens@.len(),
                args@.len() == i - 1,
                forall|j: int| 0 <= j < args@.len() ==> args@[j]@ == tokens@[j + 1]@,
            decreases tokens@.len() - i,
        {
            args.push(tokens[i].clone());
            i = i + 1;
        }
        Command { name, args }
    }
}

/// Whether `c` is a decimal digit.
pub open spec fn is_dec_digit(c: char) -> bool {
    48 <= c as int <= 57
}

/// Whether `c` is a hexadecimal digit.
pub open spec fn is_hex_digit(c: char) -> bool {
    48 <= c as int <= 57 || 97 <= c as int <= 102 || 65 <= c as int <= 70
}

/// The value of a hexadecimal digit.
pub open spec fn hex_digit_val(c: char) -> int {
    if 48 <= c as int <= 57 {
        c as int - 48
    } else if 97 <= c as int <= 102 {
        c as int - 87
    } else {
        c as int - 55
    }
}

/// The value of the first `n` characters read as a decimal number.
pub open spec fn dec_val_prefix(s: Seq<char>, n: int) -> int
    decreases n,
{
    if n <= 0 {
        0
    } else {
        dec_val_prefix(s, n - 1) * 10 + (s[n - 1] as int - 48)
    }
}

/// The value of the first `n` characters read as a hexadecimal number.
pub open spec fn hex_val_prefix(s: Seq<char>, n: int) -> int
    decreases n,
{
    if n <= 0 {
        0
    } else {
        hex_val_prefix(s, n - 1) * 16 + hex_digit_val(s[n - 1])
    }
}

/// Whether `s` is a well-formed number token whose value fits in 16 bits:
/// either all decimal digits, or `0x` followed by hexadecimal digits.
pub open spec fn spec_number_ok(s: Seq<char>) -> bool {
    if s.len() >= 2 && s[0] == '0' && s[1] == 'x' {
        &&& s.len() > 2
        &&& forall|i: int| 2 <= i < s.len() ==> is_hex_digit(#[trigger] s[i])
        &&& hex_val_prefix(s.skip(2), s.len() - 2) < 0x10000
    } else {
        &&& s.len() > 0
        &&& forall|i: int| 0 <= i < s.len() ==> is_dec_digit(#[trigger] s[i])
        &&& dec_val_prefix(s, s.len() as int) < 0x10000
    }
}

/// The value of a well-formed number token.
pub open spec fn spec_number_val(s: Seq<char>) -> int {
    if s.len() >= 2 && s[0] == '0' && s[1] == 'x' {
        hex_val_prefix(s.skip(2), s.len() - 2)
    } else {
        dec_val_prefix(s, s.len() as int)
    }
}

/// Prefixes of a decimal digit string have non-decreasing, non-negative
/// values.
proof fn lemma_dec_prefix_mono(s: Seq<char>, i: int, j: int)
    requires
        0 <= i <= j <= s.len(),
        forall|k: int| 0 <= k < j ==> is_dec_digit(#[trigger] s[k]),
    ensures
        0 <= dec_val_prefix(s, i) <= dec_val_prefix(s, j),
    decreases j,
{
    if j > 0 {
        if i == j {
            lemma_dec_prefix_mono(s, i - 1, j - 1);
        } else {
            lemma_dec_prefix_mono(s, i, j - 1);
        }
    }
}

/// Prefixes of a hexadecimal digit string have non-decreasing,
/// non-negative values.
proof fn lemma_hex_prefix_mono(s: Seq<char>, i: int, j: int)
    requires
        0 <= i <= j <= s.len(),
        forall|k: int| 0 <= k < j ==> is_hex_digit(#[trigger] s[k]),
    ensures
        0 <= hex_val_prefix(s, i) <= hex_val_prefix(s, j),
    decreases j,
{
    if j > 0 {
        if i == j {
            lemma_hex_prefix_mono(s, i - 1, j - 1);
        } else {
            lemma_hex_prefix_mono(s, i, j - 1);
        }
    }
}

/// The debugger: address breakpoints, DE-value breakpoints, and whether
/// execution is paused or single-stepping.
pub struct Debugger {
    pub breakpoints: Vec<u16>,
    pub value_bp_de: Vec<u16>,
    pub paused: bool,
    pub stepping: bool,
}

impl Debugger {
    /// A debugger with no breakpoints, running freely.
    pub fn new_debugger() -> (d: Debugger)
        ensures
            d.breakpoints@.len() == 0,
            d.value_bp_de@.len() == 0,
            !d.paused,
            !d.stepping,
    {
        Debugger { breakpoints: Vec::new(), value_bp_de: Vec::new(), paused: false, stepping: false }
    }

    /// Whether an address breakpoint at `bp` exists.
    pub fn is_a_breakpoint(&self, bp: u16) -> (r: bool)
        ensures
            r == self.breakpoints@.contains(bp),
    {
        let mut i: usize = 0;
        while i < self.breakpoints.len()
            invariant
                0 <= i <= self.breakpoints@.len(),
                forall|j: int| 0 <= j < i ==> self.breakpoints@[j] != bp,
            decreases self.breakpoints@.len() - i,
        {
            if self.breakpoints[i] == bp {
                assert(self.breakpoints@.contains(bp));
                return true;
            }
            i = i + 1;
        }
        assert(!self.breakpoints@.contains(bp));
        false
    }

    /// Whether a DE-value breakpoint at `val` exists.
    pub fn is_a_de_val_bp(&self, val: u16) -> (r: bool)
        ensures
            r == self.value_bp_de@.contains(val),
    {
        let mut i: usize = 0;
        while i < self.value_bp_de.len()
            invariant
                0 <= i <= self.value_bp_de@.len(),
                forall|j: int| 0 <= j < i ==> self.value_bp_de@[j] != val,
            decreases self.value_bp_de@.len() - i,
        {
            if self.value_bp_de[i] == val {
                assert(self.value_bp_de@.contains(val));
                return true;
            }
            i = i + 1;
        }
        assert(!self.value_bp_de@.contains(val));
        false
    }

    /// Adds a breakpoint and returns its position, or -1 when one already
    /// sits at that address.
    pub fn add_breakpoint(&mut self, bp: u16) -> (r: i16)
        requires
            old(self).breakpoints@.len() < 0x7FFF,
        ensures
            old(self).breakpoints@.contains(bp) ==> r == -1 && *final(self) == *old(self),
            !old(self).breakpoints@.contains(bp) ==> r == old(self).breakpoints@.len()
                && *final(self) == (Debugger {
                breakpoints: final(self).breakpoints,
                ..*old(self)
            }) && final(self).breakpoints@ == old(self).breakpoints@.push(bp),
    {
        if self.is_a_breakpoint(bp) {
            return -1;
        }
        self.breakpoints.push(bp);
        (self.breakpoints.len() as i16) - 1
    }

    /// Removes the breakpoint at `bp` and returns the position it held, or
    /// -1 when none exists there.
    pub fn remove_breakpoint(&mut self, bp: u16) -> (r: i16)
        requires
            old(self).breakpoints@.len() < 0x7FFF,
        ensures
            !old(self).breakpoints@.contains(bp) ==> r == -1 && *final(self) == *old(self),
            old(self).breakpoints@.contains(bp) ==> {
                &&& 0 <= r < old(self).breakpoints@.len()
                &&& old(self).breakpoints@[r as int] == bp
                &&& forall|j: int| 0 <= j < r ==> old(self).breakpoints@[j] != bp
                &&& *final(self) == (Debugger {
                    breakpoints: final(self).breakpoints,
                    ..*old(self)
                })
                &&& final(self).breakpoints@ == old(self).breakpoints@.remove(r as int)
            },
    {
        let mut i: usize = 0;
        while i < self.breakpoints.len()
            invariant
                0 <= i <= self.breakpoints@.len(),
                self.breakpoints@.len() < 0x7FFF,
                *self == *old(self),
                forall|j: int| 0 <= j < i ==> self.breakpoints@[j] != bp,
            decreases self.breakpoints@.len() - i,
        {
            if self.breakpoints[i] == bp {
                self.breakpoints.remove(i);
                return i as i16;
            }
            i = i + 1;
        }
        assert(!self.breakpoints@.contains(bp));
        -1
    }

    /// Pauses or resumes execution.
    pub fn set_paused(&mut self, new: bool)
        ensures
            *final(self) == (Debugger { paused: new, ..*old(self) }),
    {
        self.paused = new;
    }

    /// Parses a number token: `0x`-prefixed hexadecimal, otherwise decimal.
    pub fn string_to_decimal(number: &String) -> (r: u16)
        requires
            spec_number_ok(number@),
        ensures
            r == spec_number_val(number@),
    {
        let s = number.as_str();
        let n = s.unicode_len();
        if n >= 2 && s.get_char(0) == '0' && s.get_char(1) == 'x' {
            let ghost digits = s@.skip(2);
            let mut value: u32 = 0;
            let mut i: usize = 2;
            while i < n
                invariant
                    2 <= i <= n,
                    n == s@.len(),
                    digits == s@.skip(2),
                    spec_number_ok(s@),
                    s@.len() >= 2 && s@[0] == '0' && s@[1] == 'x',
                    value == hex_val_prefix(digits, i - 2),
                    value < 0x10000,
                decreases n - i,
            {
                proof {
                    assert(is_hex_digit(digits[i - 2]));
                }
                let c = s.get_char(i);
                let cv = c as u32;
                let d: u32 = if cv >= 97 {
                    cv - 87
                } else if cv >= 65 {
                    cv - 55
                } else {
                    cv - 48
                };
                value = value * 16 + d;
                i = i + 1;
                proof {
                    lemma_hex_prefix_mono(digits, i - 2, digits.len() as int);
                }
            }
            value as u16
        } else {
            let mut value: u32 = 0;
            let mut i: usize = 0;
            while i < n
                invariant
                    0 <= i <= n,
                    n == s@.len(),
                    spec_number_ok(s@),
                    !(s@.len() >= 2 && s@[0] == '0' && s@[1] == 'x'),
                    value == dec_val_prefix(s@, i as int),
                    value < 0x10000,
                decreases n - i,
            {
                proof {
                    assert(is_dec_digit(s@[i as int]));
                }
                let c = s.get_char(i);
                let d: u32 = (c as u32) - 48;
                value = value * 10 + d;
                i = i + 1;
                proof {
                    lemma_dec_prefix_mono(s@, i as int, s@.len() as int);
                }
            }
            value as u16
        }
    }
}

} // verus!
