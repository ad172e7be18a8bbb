//! Log-line rendering for the debug channels. The library renders each
//! line exactly as it is appended; the caller owns the sinks the lines
//! go to and writes them on its own cadence.

use vstd::prelude::*;
use vstd::string::StringExecFns;

verus! {

/// Renders one debug-log line: the message followed by a newline,
/// exactly as the debug channel appends it.
pub fn log_debug(msg: &str) -> (r: String)
    ensures
        r@ == msg@ + "\n"@,
{
    let mut s = String::from_str(msg);
    s.append("\n");
    s
}

/// The decimal digit for one place value.
pub open spec fn dec_digit(d: int) -> char {
    if d == 0 {
        '0'
    } else if d == 1 {
        '1'
    } else if d == 2 {
        '2'
    } else if d == 3 {
        '3'
    } else if d == 4 {
        '4'
    } else if d == 5 {
        '5'
    } else if d == 6 {
        '6'
    } else if d == 7 {
        '7'
    } else if d == 8 {
        '8'
    } else {
        '9'
    }
}

/// The decimal rendering of a nonnegative number, most significant digit
/// first, with no leading zeroes.
pub open spec fn dec_spec(n: int) -> Seq<char>
    decreases n,
{
    if n < 10 {
        seq![dec_digit(n)]
    } else {
        dec_spec(n / 10).push(dec_digit(n % 10))
    }
}

/// Appends the decimal rendering of `n`.
fn append_dec(s: &mut String, n: u64)
    ensures
        final(s)@ == old(s)@ + dec_spec(n as int),
    decreases n,
{
    let ghost prefix: Seq<char> = s@;
    if n >= 10 {
        append_dec(s, n / 10);
    }
    let d = n % 10;
    proof {
        reveal_strlit("0");
        reveal_strlit("1");
        reveal_strlit("2");
        reveal_strlit("3");
        reveal_strlit("4");
        reveal_strlit("5");
        reveal_strlit("6");
        reveal_strlit("7");
        reveal_strlit("8");
        reveal_strlit("9");
    }
    match d {
        0 => s.append("0"),
        1 => s.append("1"),
        2 => s.append("2"),
        3 => s.append("3"),
        4 => s.append("4"),
        5 => s.append("5"),
        6 => s.append("6"),
        7 => s.append("7"),
        8 => s.append("8"),
        _ => s.append("9"),
    }
    proof {
        assert(s@ =~= prefix + dec_spec(n as int));
    }
}

/// Renders one console-log line exactly as it is appended: the timestamp
/// seconds in brackets, then the message, then a newline. The caller
/// reads the clock and owns the sink.
pub fn log_console(timestamp: u64, msg: &str) -> (r: String)
    ensures
        r@ == "["@ + dec_spec(timestamp as int) + "] "@ + msg@ + "\n"@,
{
    let mut s = String::from_str("[");
    append_dec(&mut s, timestamp);
    s.append("] ");
    s.append(msg);
    s.append("\n");
    proof {
        assert(s@ =~= "["@ + dec_spec(timestamp as int) + "] "@ + msg@ + "\n"@);
    }
    s
}

/// Renders lines for the graphics backend's error channel.
pub struct WgpuErrorLogger;

impl WgpuErrorLogger {
    /// Renders one backend error under its channel prefix; the caller
    /// turns the backend's own error value into the description.
    pub fn log_error(description: &str) -> (r: String)
        ensures
            r@ == "WGPU ERROR: "@ + description@,
    {
        let mut s = String::from_str("WGPU ERROR: ");
        s.append(description);
        s
    }

    /// Renders one validation message under its channel prefix.
    pub fn log_validation(msg: &str) -> (r: String)
        ensures
            r@ == "WGPU VALIDATION: "@ + msg@,
    {
        let mut s = String::from_str("WGPU VALIDATION: ");
        s.append(msg);
        s
    }
}

} // verus!
