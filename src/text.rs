use vstd::prelude::*;
use vstd::string::StringExecFns;

verus! {

/// `n` spaces.
pub open spec fn spaces(n: nat) -> Seq<char> {
    Seq::new(n, |i: int| ' ')
}

/// The text indented by `level` steps of four spaces.
pub open spec fn indented(s: Seq<char>, level: u8) -> Seq<char> {
    spaces(4 * level as nat) + s
}

/// The text of `old` with a line `s`, indented by `level`, added: after a newline
/// unless `old` is empty.
pub open spec fn with_line(old: Seq<char>, s: Seq<char>, level: u8) -> Seq<char> {
    if old.len() > 0 {
        old + "\n"@ + indented(s, level)
    } else {
        indented(s, level)
    }
}

fn indent_text(s: &str, level: u8) -> (r: String)
    ensures
        r@ == indented(s@, level),
{
    let n: usize = 4 * (level as usize);
    let mut r = String::new();
    let mut i: usize = 0;
    while i < n
        invariant
            i <= n,
            r@ == spaces(i as nat),
        decreases n - i,
    {
        r.append(" ");
        proof {
            reveal_strlit(" ");
            assert(" "@ =~= seq![' ']);
            assert(r@ =~= spaces((i + 1) as nat));
        }
        i = i + 1;
    }
    r.append(s);
    r
}

/// Indentation of text, four spaces per level.
pub trait DbgStrExt: View<V = Seq<char>> {
    fn indent(&self, indent: u8) -> (r: String)
        ensures
            r@ == indented(self@, indent),
    ;
}

impl DbgStrExt for str {
    fn indent(&self, indent: u8) -> (r: String) {
        indent_text(self, indent)
    }
}

/// Building a text line by line.
pub trait DbgStringExt: View<V = Seq<char>> {
    fn push_ln(&mut self, str: &str)
        ensures
            final(self)@ == with_line(old(self)@, str@, 0),
    ;

    fn push_ln_in(&mut self, str: &str, indent: u8)
        ensures
            final(self)@ == with_line(old(self)@, str@, indent),
    ;
}

impl DbgStringExt for String {
    fn push_ln(&mut self, str: &str) {
        self.push_ln_in(str, 0);
    }

    fn push_ln_in(&mut self, str: &str, indent: u8) {
        if !self.as_str().is_empty() {
            self.append("\n");
        }
        let line = str.indent(indent);
        self.append(line.as_str());
    }
}

/// The decimal digit `d`, for `d` below ten.
pub open spec fn digit_char(d: nat) -> char {
    if d == 0 { '0' } else if d == 1 { '1' } else if d == 2 { '2' } else if d == 3 { '3' }
    else if d == 4 { '4' } else if d == 5 { '5' } else if d == 6 { '6' } else if d == 7 { '7' }
    else if d == 8 { '8' } else { '9' }
}

/// `n` in decimal, without leading zeros.
pub open spec fn decimal(n: nat) -> Seq<char>
    decreases n,
{
    if n < 10 {
        seq![digit_char(n)]
    } else {
        decimal(n / 10) + seq![digit_char(n % 10)]
    }
}

/// `n` in decimal, with a minus sign where it is negative.
pub open spec fn signed_decimal(n: int) -> Seq<char> {
    if n < 0 {
        seq!['-'] + decimal((-n) as nat)
    } else {
        decimal(n as nat)
    }
}

fn digit_text(d: u64) -> (r: &'static str)
    requires
        d < 10,
    ensures
        r@ == seq![digit_char(d as nat)],
{
    proof {
        reveal_strlit("0"); reveal_strlit("1"); reveal_strlit("2"); reveal_strlit("3");
        reveal_strlit("4"); reveal_strlit("5"); reveal_strlit("6"); reveal_strlit("7");
        reveal_strlit("8"); reveal_strlit("9");
    }
    let r = if d == 0 { "0" } else if d == 1 { "1" } else if d == 2 { "2" } else if d == 3 { "3" }
        else if d == 4 { "4" } else if d == 5 { "5" } else if d == 6 { "6" } else if d == 7 { "7" }
        else if d == 8 { "8" } else { "9" };
    assert(r@ =~= seq![digit_char(d as nat)]);
    r
}

/// `n` written in decimal.
pub fn decimal_text(n: u64) -> (r: String)
    ensures
        r@ == decimal(n as nat),
    decreases n,
{
    if n < 10 {
        let mut r = String::new();
        r.append(digit_text(n));
        r
    } else {
        let mut r = decimal_text(n / 10);
        r.append(digit_text(n % 10));
        r
    }
}

/// `n` written in decimal, with a minus sign where it is negative.
pub fn signed_decimal_text(n: i64) -> (r: String)
    ensures
        r@ == signed_decimal(n as int),
{
    if n < 0 {
        let mut r = String::from_str("-");
        let m: u64 = if n == i64::MIN { 0x8000_0000_0000_0000u64 } else { (-n) as u64 };
        let digits = decimal_text(m);
        r.append(digits.as_str());
        proof {
            reveal_strlit("-");
            assert("-"@ =~= seq!['-']);
        }
        r
    } else {
        decimal_text(n as u64)
    }
}

/// Relies on `std::io::Error`, carried through as it is.
#[verifier::external_type_specification]
#[verifier::external_body]
pub struct ExIoError(std::io::Error);

/// Relies on `std::io::Error::new` to make an error of kind `Other`.
#[verifier::external_body]
fn simulated_failure() -> std::io::Error {
    std::io::Error::new(std::io::ErrorKind::Other, "Simulated failure")
}

/// Fails on purpose, to exercise the handling of an error wherever it is called.
pub fn sim_error() -> (r: Result<(), std::io::Error>)
    ensures
        r is Err,
{
    Err(simulated_failure())
}

} // verus!
