//! Status lines: the code in decimal and its reason phrase.

use hyper::http::StatusCode;
use vstd::prelude::*;
use vstd::string::*;

verus! {

/// The reason phrase that the `http` crate lists for `code`; none for a
/// number that it does not accept as a status code or lists no phrase for.
pub uninterp spec fn canonical_reason(code: u16) -> Option<Seq<char>>;

/// Calls `StatusCode::from_u16` and `StatusCode::canonical_reason` of the
/// `http` crate, as `hyper` exports it. Trusted: the phrase returned is the
/// one named by [`canonical_reason`].
#[verifier::external_body]
pub(crate) fn lookup_reason(code: u16) -> (phrase: Option<String>)
    ensures
        phrase.deep_view() == canonical_reason(code),
{
    match StatusCode::from_u16(code) {
        Ok(status) => status.canonical_reason().map(String::from),
        Err(_) => None,
    }
}

/// The character that writes the decimal digit `d`.
pub open spec fn digit_char(d: int) -> char {
    ('0' as u8 + d) as u8 as char
}

/// `n` in decimal notation, without leading zeros.
pub open spec fn decimal(n: nat) -> Seq<char>
    decreases n,
{
    if n < 10 {
        seq![digit_char(n as int)]
    } else {
        decimal(n / 10).push(digit_char((n % 10) as int))
    }
}

/// The one-character string of a decimal digit.
fn digit_str(d: u16) -> (s: &'static str)
    requires
        d < 10,
    ensures
        s@ == seq![digit_char(d as int)],
{
    proof {
        reveal_strlit("0");
        reveal_strlit("1");
        reveal_strlit("2");
        reveal_strlit("3");
        reveal_strlit("4");
        reveal_strlit("5");
        reveal_strlit("6");
        reveal_strlit("7");
        reveal_strlit("8");
        reveal_strlit("9");
    }
    let s = match d {
        0 => "0",
        1 => "1",
        2 => "2",
        3 => "3",
        4 => "4",
        5 => "5",
        6 => "6",
        7 => "7",
        8 => "8",
        _ => "9",
    };
    assert(s@ =~= seq![digit_char(d as int)]);
    s
}

/// Writes a status code in decimal.
pub fn decimal_string(n: u16) -> (text: String)
    ensures
        text@ == decimal(n as nat),
    decreases n,
{
    if n < 10 {
        digit_str(n).to_owned()
    } else {
        let mut text = decimal_string(n / 10);
        text.append(digit_str(n % 10));
        text
    }
}

} // verus!
