//! The library's errors and their diagnostic texts.
//!
//! Every diagnostic is pinned exactly: the decimal rendering of exit codes and
//! the full message of each error variant are given by spec functions.

use vstd::prelude::*;

verus! {

/// Appends one character to a string.
///
/// Relies on `String::push` from std: it appends exactly the given character
/// to the end of the string.
#[verifier::external_body]
pub(crate) fn push_char(s: &mut String, c: char)
    ensures
        final(s)@ == old(s)@ + seq![c],
{
    s.push(c);
}

/// The character of a single decimal digit.
pub open spec fn digit_char(d: nat) -> char
    recommends
        d < 10,
{
    if d == 0 {
        '0'
    } else if d == 1 {
        '1'
    } else if d == 2 {
        '2'
    } else if d == 3 {
        '3'
    } else if d == 4 {
        '4'
    } else if d == 5 {
        '5'
    } else if d == 6 {
        '6'
    } else if d == 7 {
        '7'
    } else if d == 8 {
        '8'
    } else {
        '9'
    }
}

/// The decimal digits of a natural number, most significant first.
pub open spec fn dec_digits(n: nat) -> Seq<char>
    decreases n,
{
    if n < 10 {
        seq![digit_char(n)]
    } else {
        dec_digits(n / 10).push(digit_char(n % 10))
    }
}

/// The decimal rendering of an integer: the digits of its absolute value,
/// after a minus sign if it is negative.
pub open spec fn dec_int(n: int) -> Seq<char> {
    if n < 0 {
        seq!['-'] + dec_digits((-n) as nat)
    } else {
        dec_digits(n as nat)
    }
}

/// The rendering of an optional exit code: `Some(<code>)` or `None`.
pub open spec fn exit_code_text(code: Option<i32>) -> Seq<char> {
    match code {
        Option::Some(c) => "Some("@ + dec_int(c as int) + ")"@,
        Option::None => "None"@,
    }
}

/// Executable table for [`digit_char`].
fn digit_of(d: u8) -> (c: char)
    requires
        d < 10,
    ensures
        c == digit_char(d as nat),
{
    match d {
        0 => '0',
        1 => '1',
        2 => '2',
        3 => '3',
        4 => '4',
        5 => '5',
        6 => '6',
        7 => '7',
        8 => '8',
        _ => '9',
    }
}

/// Appends the decimal digits of `n` to `out`.
fn append_dec_u32(out: &mut String, n: u32)
    ensures
        final(out)@ == old(out)@ + dec_digits(n as nat),
    decreases n,
{
    if n < 10 {
        push_char(out, digit_of(n as u8));
    } else {
        append_dec_u32(out, n / 10);
        push_char(out, digit_of((n % 10) as u8));
        proof {
            assert((old(out)@ + dec_digits((n / 10) as nat)) + seq![digit_char((n % 10) as nat)]
                =~= old(out)@ + dec_digits(n as nat));
        }
    }
}

/// Appends the decimal rendering of `n` to `out`.
fn append_dec_i32(out: &mut String, n: i32)
    ensures
        final(out)@ == old(out)@ + dec_int(n as int),
{
    if n < 0 {
        let mag: u32 = if n == -2147483648i32 {
            2147483648u32
        } else {
            (-n) as u32
        };
        proof {
            assert(mag as nat == (-(n as int)) as nat);
        }
        push_char(out, '-');
        append_dec_u32(out, mag);
        proof {
            assert((old(out)@ + seq!['-']) + dec_digits(mag as nat) =~= old(out)@ + dec_int(
                n as int,
            ));
        }
    } else {
        append_dec_u32(out, n as u32);
    }
}

/// The rendering of an optional exit code, as [`exit_code_text`] pins it.
pub fn exit_code_string(code: Option<i32>) -> (r: String)
    ensures
        r@ == exit_code_text(code),
{
    match code {
        Option::Some(c) => {
            let mut s = String::from_str("Some(");
            append_dec_i32(&mut s, c);
            s.append(")");
            proof {
                assert(("Some("@ + dec_int(c as int)) + ")"@ =~= "Some("@ + dec_int(c as int)
                    + ")"@);
            }
            s
        },
        Option::None => String::from_str("None"),
    }
}

/// An error of the library: a child process that could not be launched, a
/// child that ended without exit status zero, or an attempt to overwrite an
/// existing configuration file.
#[derive(Debug, Clone)]
pub enum FastdevError {
    /// The child process could not be launched at all (for example, the
    /// binary was not found on the execution path).
    LaunchFailure { command: String },
    /// The child exited with a non-zero status, or with none (for example,
    /// when terminated by a signal).
    CommandFailed { command: String, code: Option<i32> },
    /// The configuration file already exists; it is never overwritten.
    ConfigExists,
}

/// The diagnostic text of each error, pinned exactly. The command in a
/// `LaunchFailure` or `CommandFailed` is the full display name of what was
/// run, for example `cargo check`.
pub open spec fn message_spec(e: FastdevError) -> Seq<char> {
    match e {
        FastdevError::LaunchFailure { command } => "failed to run "@ + command@,
        FastdevError::CommandFailed { command, code } => command@ + " failed with exit code: "@
            + exit_code_text(code),
        FastdevError::ConfigExists =>
            "config.toml already exists. Use --print to see what would be written."@,
    }
}

impl FastdevError {
    /// The diagnostic printed for this error.
    pub fn message(&self) -> (r: String)
        ensures
            r@ == message_spec(*self),
    {
        match self {
            FastdevError::LaunchFailure { command } => {
                let mut s = String::from_str("failed to run ");
                s.append(command.as_str());
                s
            },
            FastdevError::CommandFailed { command, code } => {
                let mut s = command.clone();
                s.append(" failed with exit code: ");
                let rendered = exit_code_string(*code);
                s.append(rendered.as_str());
                proof {
                    assert((command@ + " failed with exit code: "@) + exit_code_text(*code)
                        =~= message_spec(*self));
                }
                s
            },
            FastdevError::ConfigExists => String::from_str(
                "config.toml already exists. Use --print to see what would be written.",
            ),
        }
    }
}

} // verus!
