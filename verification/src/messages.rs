use vstd::prelude::*;
use vstd::string::StringExecFns;

verus! {

/// The decimal digit character for one digit value.
pub open spec fn dec_digit(d: int) -> char {
    if d == 0 {
        '0'
    } else if d == 1 {
        '1'
    } else if d == 2 {
        '2'
    } else if d == 3 {
        '3'
    } else if d == 4 {
        '4'
    } else if d == 5 {
        '5'
    } else if d == 6 {
        '6'
    } else if d == 7 {
        '7'
    } else if d == 8 {
        '8'
    } else {
        '9'
    }
}

/// The decimal rendering of a natural number, most significant digit first.
pub open spec fn dec_nat(n: nat) -> Seq<char>
    decreases n,
{
    if n < 10 {
        seq![dec_digit(n as int)]
    } else {
        dec_nat(n / 10) + seq![dec_digit((n % 10) as int)]
    }
}

/// The decimal rendering of an integer, with a leading minus sign when
/// negative.
pub open spec fn dec_int(v: int) -> Seq<char> {
    if v < 0 {
        seq!['-'] + dec_nat((-v) as nat)
    } else {
        dec_nat(v as nat)
    }
}

/// A one-character string slice for a single decimal digit.
fn digit_str(d: u32) -> (r: &'static str)
    requires
        d < 10,
    ensures
        r@ == seq![dec_digit(d as int)],
{
    proof {
        reveal_strlit("0");
        reveal_strlit("1");
        reveal_strlit("2");
        reveal_strlit("3");
        reveal_strlit("4");
        reveal_strlit("5");
        reveal_strlit("6");
        reveal_strlit("7");
        reveal_strlit("8");
        reveal_strlit("9");
    }
    let r = match d {
        0 => "0",
        1 => "1",
        2 => "2",
        3 => "3",
        4 => "4",
        5 => "5",
        6 => "6",
        7 => "7",
        8 => "8",
        _ => "9",
    };
    proof {
        assert(r@ =~= seq![dec_digit(d as int)]);
    }
    r
}

/// Renders an unsigned number in decimal.
pub fn decimal_u32(n: u32) -> (r: String)
    ensures
        r@ == dec_nat(n as nat),
    decreases n,
{
    if n < 10 {
        String::from_str(digit_str(n))
    } else {
        proof {
            assert(n / 10 < n) by (nonlinear_arith)
                requires
                    10 <= n,
            ;
        }
        let mut prefix = decimal_u32(n / 10);
        prefix.append(digit_str(n % 10));
        proof {
            assert(prefix@ =~= dec_nat(n as nat));
        }
        prefix
    }
}

/// Renders a signed number in decimal.
pub fn decimal_i32(v: i32) -> (r: String)
    ensures
        r@ == dec_int(v as int),
{
    if v >= 0 {
        decimal_u32(v as u32)
    } else {
        let neg: i64 = -(v as i64);
        let magnitude: u32 = neg as u32;
        let mut s = String::from_str("-");
        let digits = decimal_u32(magnitude);
        s.append(digits.as_str());
        proof {
            reveal_strlit("-");
            assert(s@ =~= dec_int(v as int));
        }
        s
    }
}

/// The invalid-return-value fault text for a raw handler status.
pub open spec fn invalid_status_text(v: int) -> Seq<char> {
    "on_input returned invalid status "@ + dec_int(v)
}

/// Builds the fault message for a handler return value outside the status
/// protocol.
pub fn invalid_status_message(v: i32) -> (r: String)
    ensures
        r@ == invalid_status_text(v as int),
{
    let mut s = String::from_str("on_input returned invalid status ");
    let digits = decimal_i32(v);
    s.append(digits.as_str());
    s
}

/// A fault message with the embedded-language traceback text attached above
/// the error's own text, as diagnostics for a failed embedded call.
pub open spec fn traceback_text(tb: Seq<char>, err: Seq<char>) -> Seq<char> {
    tb + "\n"@ + err
}

/// Concatenates a traceback and an error text into one report message.
pub fn attach_traceback(tb: &str, err: &str) -> (r: String)
    ensures
        r@ == traceback_text(tb@, err@),
{
    let mut s = String::from_str(tb);
    s.append("\n");
    s.append(err);
    proof {
        assert(s@ =~= traceback_text(tb@, err@));
    }
    s
}

/// An error message extended with outer context, joined as `context: cause`.
pub open spec fn wrapped_text(context: Seq<char>, cause: Seq<char>) -> Seq<char> {
    context + ": "@ + cause
}

/// Wraps a fault message in outer context.
pub fn wrap_error(context: &str, cause: &str) -> (r: String)
    ensures
        r@ == wrapped_text(context@, cause@),
{
    let mut s = String::from_str(context);
    s.append(": ");
    s.append(cause);
    proof {
        assert(s@ =~= wrapped_text(context@, cause@));
    }
    s
}

/// The context attached to every fault that escapes the dispatch loop or the
/// interpreter session: it names the resolved operator file.
pub open spec fn module_error_text(path: Seq<char>, cause: Seq<char>) -> Seq<char> {
    wrapped_text("error in Python module at "@ + path, cause)
}

/// Wraps a fault message with the resolved operator file path.
pub fn module_error_message(path: &str, cause: &str) -> (r: String)
    ensures
        r@ == module_error_text(path@, cause@),
{
    let mut s = String::from_str("error in Python module at ");
    s.append(path);
    s.append(": ");
    s.append(cause);
    proof {
        assert(s@ =~= module_error_text(path@, cause@));
    }
    s
}

} // verus!
