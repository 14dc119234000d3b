//! The text the form shows back to the user.
use vstd::prelude::*;

verus! {

pub open spec fn digit_chars() -> Seq<char> {
    seq!['0', '1', '2', '3', '4', '5', '6', '7', '8', '9']
}

/// The decimal digits of `n`, most significant first, without leading zeros.
pub open spec fn decimal(n: nat) -> Seq<char>
    decreases n,
{
    if n < 10 {
        seq![digit_chars()[n as int]]
    } else {
        decimal(n / 10).push(digit_chars()[(n % 10) as int])
    }
}

/// The greeting for a person called `name` of `age` years.
pub open spec fn greeting_text(name: Seq<char>, age: nat) -> Seq<char> {
    "Hello, "@ + name + "! You are "@ + decimal(age) + " years old."@
}

/// `n` written in decimal.
pub fn decimal_string(n: u32) -> (r: String)
    ensures
        r@ == decimal(n as nat),
    decreases n,
{
    let digits = "0123456789";
    proof {
        reveal_strlit("0123456789");
        assert(digits@ == digit_chars());
    }
    let d = (n % 10) as usize;
    let last = digits.substring_char(d, d + 1);
    assert(last@ == seq![digit_chars()[d as int]]);
    if n < 10 {
        String::from_str(last)
    } else {
        let mut s = decimal_string(n / 10);
        s.append(last);
        s
    }
}

/// "Hello, NAME! You are AGE years old."
pub fn greeting(name: &str, age: u32) -> (r: String)
    ensures
        r@ == greeting_text(name@, age as nat),
{
    let mut s = String::from_str("Hello, ");
    s.append(name);
    s.append("! You are ");
    let years = decimal_string(age);
    s.append(years.as_str());
    s.append(" years old.");
    s
}

} // verus!
