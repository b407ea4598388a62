//! The bridge configuration file: where it lies and what it holds.
//!
//! The file tells the host's token middleware how to reach the enclave. It is
//! plain text of exactly two lines,
//!
//! ```text
//! remote:vsock:cid=<channel id>;port=<bridge port>
//! module:<module name>
//! ```
//!
//! with both numbers in decimal and a line feed after each line.

use vstd::prelude::*;
use vstd::string::*;
use crate::defs::P11_MODULE_NAME;

verus! {

/// The character that stands for the digit `d`.
pub open spec fn digit_char(d: nat) -> char
    recommends
        d < 10,
{
    if d == 0 {
        '0'
    } else if d == 1 {
        '1'
    } else if d == 2 {
        '2'
    } else if d == 3 {
        '3'
    } else if d == 4 {
        '4'
    } else if d == 5 {
        '5'
    } else if d == 6 {
        '6'
    } else if d == 7 {
        '7'
    } else if d == 8 {
        '8'
    } else {
        '9'
    }
}

/// `n` written in decimal: most significant digit first, no leading zero,
/// and the single digit `0` for zero.
pub open spec fn decimal(n: nat) -> Seq<char>
    decreases n,
{
    if n < 10 {
        seq![digit_char(n)]
    } else {
        decimal(n / 10).push(digit_char(n % 10))
    }
}

/// The path of the bridge configuration file.
pub open spec fn bridge_config_path() -> Seq<char> {
    "/etc/pkcs11/modules/"@ + P11_MODULE_NAME@ + ".module"@
}

/// The text of the bridge configuration file for an enclave at channel `cid`
/// whose token service listens on `port`.
pub open spec fn bridge_config_text(cid: nat, port: nat) -> Seq<char> {
    "remote:vsock:cid="@ + decimal(cid) + ";port="@ + decimal(port) + "\nmodule:"@
        + P11_MODULE_NAME@ + "\n"@
}

fn digit_str(d: u64) -> (s: &'static str)
    requires
        d < 10,
    ensures
        s@ == seq![digit_char(d as nat)],
{
    proof {
        reveal_strlit("0");
        reveal_strlit("1");
        reveal_strlit("2");
        reveal_strlit("3");
        reveal_strlit("4");
        reveal_strlit("5");
        reveal_strlit("6");
        reveal_strlit("7");
        reveal_strlit("8");
        reveal_strlit("9");
    }
    if d == 0 {
        "0"
    } else if d == 1 {
        "1"
    } else if d == 2 {
        "2"
    } else if d == 3 {
        "3"
    } else if d == 4 {
        "4"
    } else if d == 5 {
        "5"
    } else if d == 6 {
        "6"
    } else if d == 7 {
        "7"
    } else if d == 8 {
        "8"
    } else {
        "9"
    }
}

/// Appends `n` in decimal to `text`.
pub fn push_decimal(text: &mut String, n: u64)
    ensures
        final(text)@ == old(text)@ + decimal(n as nat),
    decreases n,
{
    if n >= 10 {
        push_decimal(text, n / 10);
    }
    text.append(digit_str(n % 10));
}

/// Gives the path of the bridge configuration file.
pub fn bridge_path() -> (path: String)
    ensures
        path@ == bridge_config_path(),
{
    let mut path = String::from_str("/etc/pkcs11/modules/");
    path.append(P11_MODULE_NAME);
    path.append(".module");
    path
}

/// Renders the bridge configuration file.
pub fn bridge_config(cid: u64, port: u32) -> (text: String)
    ensures
        text@ == bridge_config_text(cid as nat, port as nat),
{
    let mut text = String::from_str("remote:vsock:cid=");
    push_decimal(&mut text, cid);
    text.append(";port=");
    push_decimal(&mut text, port as u64);
    text.append("\nmodule:");
    text.append(P11_MODULE_NAME);
    text.append("\n");
    text
}

} // verus!
