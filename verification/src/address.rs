//! The texts derived from the configuration at startup: the socket address
//! to bind, the URL to advertise, and the line that announces it.

use vstd::prelude::*;
use vstd::string::StringExecFns;

verus! {

/// The decimal digit for `d`, which is below ten.
pub open spec fn digit_char(d: nat) -> char
    recommends
        d < 10,
{
    if d == 0 {
        '0'
    } else if d == 1 {
        '1'
    } else if d == 2 {
        '2'
    } else if d == 3 {
        '3'
    } else if d == 4 {
        '4'
    } else if d == 5 {
        '5'
    } else if d == 6 {
        '6'
    } else if d == 7 {
        '7'
    } else if d == 8 {
        '8'
    } else {
        '9'
    }
}

/// The number that a decimal digit stands for; zero for any other character.
pub open spec fn digit_value(c: char) -> nat {
    if c == '1' {
        1
    } else if c == '2' {
        2
    } else if c == '3' {
        3
    } else if c == '4' {
        4
    } else if c == '5' {
        5
    } else if c == '6' {
        6
    } else if c == '7' {
        7
    } else if c == '8' {
        8
    } else if c == '9' {
        9
    } else {
        0
    }
}

/// Whether `c` is one of the ten decimal digits.
pub open spec fn is_digit(c: char) -> bool {
    c == '0' || digit_value(c) != 0
}

/// `n` written in base ten, most significant digit first, without leading
/// zeros; zero is written `0`.
pub open spec fn decimal(n: nat) -> Seq<char>
    decreases n,
{
    if n < 10 {
        seq![digit_char(n)]
    } else {
        decimal(n / 10).push(digit_char(n % 10))
    }
}

/// The number that a sequence of decimal digits denotes.
pub open spec fn decimal_value(s: Seq<char>) -> nat
    decreases s.len(),
{
    if s.len() == 0 {
        0
    } else {
        10 * decimal_value(s.drop_last()) + digit_value(s.last())
    }
}

/// The decimal text of a number consists of digits only, starts with `0`
/// only for zero itself, and denotes that number.
pub proof fn lemma_decimal_round_trip(n: nat)
    ensures
        decimal(n).len() >= 1,
        forall|i: int| 0 <= i < decimal(n).len() ==> is_digit(#[trigger] decimal(n)[i]),
        decimal(n)[0] == '0' <==> n == 0,
        decimal_value(decimal(n)) == n,
    decreases n,
{
    if n < 10 {
        let s = decimal(n);
        assert(s.drop_last().len() == 0);
        reveal_with_fuel(decimal_value, 2);
    } else {
        lemma_decimal_round_trip(n / 10);
        let s = decimal(n);
        assert(s.drop_last() =~= decimal(n / 10));
        assert(s.last() == digit_char(n % 10));
    }
}

/// Two numbers with the same decimal text are equal.
pub proof fn lemma_decimal_injective(a: nat, b: nat)
    requires
        decimal(a) == decimal(b),
    ensures
        a == b,
{
    lemma_decimal_round_trip(a);
    lemma_decimal_round_trip(b);
}

/// The socket address that listens on every interface at `port`.
pub open spec fn bind_address_text(port: u16) -> Seq<char> {
    "0.0.0.0:"@ + decimal(port as nat)
}

/// The URL at which a device on the local network reaches the files.
pub open spec fn advertised_url_text(host: Seq<char>, port: u16, mount_path: Seq<char>) -> Seq<
    char,
> {
    "http://"@ + host + ":"@ + decimal(port as nat) + mount_path
}

/// The line printed before the QR code.
pub open spec fn announcement_text(url: Seq<char>) -> Seq<char> {
    "The file service is about to listen to `"@ + url + "`"@
}

fn digit_str(d: u16) -> (s: &'static str)
    requires
        d < 10,
    ensures
        s@ == seq![digit_char(d as nat)],
{
    proof {
        reveal_strlit("0");
        reveal_strlit("1");
        reveal_strlit("2");
        reveal_strlit("3");
        reveal_strlit("4");
        reveal_strlit("5");
        reveal_strlit("6");
        reveal_strlit("7");
        reveal_strlit("8");
        reveal_strlit("9");
    }
    let s = if d == 0 {
        "0"
    } else if d == 1 {
        "1"
    } else if d == 2 {
        "2"
    } else if d == 3 {
        "3"
    } else if d == 4 {
        "4"
    } else if d == 5 {
        "5"
    } else if d == 6 {
        "6"
    } else if d == 7 {
        "7"
    } else if d == 8 {
        "8"
    } else {
        "9"
    };
    assert(s@ =~= seq![digit_char(d as nat)]);
    s
}

/// Appends the decimal text of `n` to `out`.
pub fn push_decimal(out: &mut String, n: u16)
    ensures
        final(out)@ == old(out)@ + decimal(n as nat),
    decreases n,
{
    if n >= 10 {
        push_decimal(out, n / 10);
    }
    out.append(digit_str(n % 10));
    proof {
        let d = seq![digit_char((n % 10) as nat)];
        if n >= 10 {
            assert(decimal(n as nat) =~= decimal((n / 10) as nat) + d);
            assert(old(out)@ + decimal((n / 10) as nat) + d =~= old(out)@ + decimal(n as nat));
        } else {
            assert(decimal(n as nat) =~= d);
        }
    }
}

/// The decimal text of a port number.
pub fn port_text(port: u16) -> (s: String)
    ensures
        s@ == decimal(port as nat),
{
    let mut s = String::new();
    push_decimal(&mut s, port);
    assert(Seq::<char>::empty() + decimal(port as nat) =~= decimal(port as nat));
    s
}

/// The socket address to bind: every interface, at `port`.
pub fn bind_address(port: u16) -> (addr: String)
    ensures
        addr@ == bind_address_text(port),
{
    let mut addr = String::from_str("0.0.0.0:");
    push_decimal(&mut addr, port);
    addr
}

/// The URL to advertise: `http://`, the host's address, a colon, the port
/// and the mount path.
pub fn advertised_url(host: &str, port: u16, mount_path: &str) -> (url: String)
    ensures
        url@ == advertised_url_text(host@, port, mount_path@),
{
    let mut url = String::from_str("http://");
    url.append(host);
    url.append(":");
    push_decimal(&mut url, port);
    url.append(mount_path);
    url
}

/// The line that tells the user where the server is about to listen.
pub fn announcement(url: &str) -> (line: String)
    ensures
        line@ == announcement_text(url@),
{
    let mut line = String::from_str("The file service is about to listen to `");
    line.append(url);
    line.append("`");
    line
}

} // verus!
