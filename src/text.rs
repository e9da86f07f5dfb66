//! The fixed texts that the host and its tooling match on, and the diagnostics
//! that are built from them.
use vstd::prelude::*;
use vstd::string::*;

verus! {

/// The name reported where no function is bound to the current task.
pub open spec fn unknown_name() -> Seq<char> {
    "<unknown>"@
}

pub open spec fn missing_metadata_text() -> Seq<char> {
    "Function load request metadata is missing."@
}

pub open spec fn unknown_function_text(name: Seq<char>) -> Seq<char> {
    "Function '"@ + name + "' does not exist."@
}

pub open spec fn unknown_id_text(function_id: Seq<char>) -> Seq<char> {
    "Function with id '"@ + function_id + "' does not exist."@
}

pub open spec fn panicked_text() -> Seq<char> {
    "Azure Function panicked: see log for more information."@
}

pub open spec fn digit_char(d: nat) -> char {
    if d == 0 { '0' }
    else if d == 1 { '1' }
    else if d == 2 { '2' }
    else if d == 3 { '3' }
    else if d == 4 { '4' }
    else if d == 5 { '5' }
    else if d == 6 { '6' }
    else if d == 7 { '7' }
    else if d == 8 { '8' }
    else { '9' }
}

/// The decimal digits of `n`, most significant first, without leading zeros.
pub open spec fn decimal(n: nat) -> Seq<char>
    decreases n,
{
    if n < 10 {
        seq![digit_char(n)]
    } else {
        decimal(n / 10).push(digit_char(n % 10))
    }
}

pub fn unknown_name_string() -> (r: String)
    ensures
        r@ == unknown_name(),
{
    String::from_str("<unknown>")
}

pub fn missing_metadata_string() -> (r: String)
    ensures
        r@ == missing_metadata_text(),
{
    String::from_str("Function load request metadata is missing.")
}

pub fn unknown_function_string(name: &String) -> (r: String)
    ensures
        r@ == unknown_function_text(name@),
{
    let mut r = String::from_str("Function '");
    r.append(name.as_str());
    r.append("' does not exist.");
    r
}

pub fn unknown_id_string(function_id: &String) -> (r: String)
    ensures
        r@ == unknown_id_text(function_id@),
{
    let mut r = String::from_str("Function with id '");
    r.append(function_id.as_str());
    r.append("' does not exist.");
    r
}

pub fn panicked_string() -> (r: String)
    ensures
        r@ == panicked_text(),
{
    String::from_str("Azure Function panicked: see log for more information.")
}

fn digit_str(d: u32) -> (r: &'static str)
    requires
        d < 10,
    ensures
        r@ == seq![digit_char(d as nat)],
{
    proof {
        reveal_strlit("0");
        reveal_strlit("1");
        reveal_strlit("2");
        reveal_strlit("3");
        reveal_strlit("4");
        reveal_strlit("5");
        reveal_strlit("6");
        reveal_strlit("7");
        reveal_strlit("8");
        reveal_strlit("9");
    }
    match d {
        0 => "0",
        1 => "1",
        2 => "2",
        3 => "3",
        4 => "4",
        5 => "5",
        6 => "6",
        7 => "7",
        8 => "8",
        _ => "9",
    }
}

/// `n` written in decimal.
pub fn decimal_string(n: u32) -> (r: String)
    ensures
        r@ == decimal(n as nat),
    decreases n,
{
    if n < 10 {
        String::from_str(digit_str(n))
    } else {
        let mut r = decimal_string(n / 10);
        r.append(digit_str(n % 10));
        r
    }
}

} // verus!
