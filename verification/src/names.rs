//! Names of compiled functions.

use vstd::prelude::*;

verus! {

/// The character of a decimal digit.
pub open spec fn digit(d: nat) -> char {
    if d == 0 {
        '0'
    } else if d == 1 {
        '1'
    } else if d == 2 {
        '2'
    } else if d == 3 {
        '3'
    } else if d == 4 {
        '4'
    } else if d == 5 {
        '5'
    } else if d == 6 {
        '6'
    } else if d == 7 {
        '7'
    } else if d == 8 {
        '8'
    } else {
        '9'
    }
}

/// A number in decimal notation, without leading zeros.
pub open spec fn decimal(n: nat) -> Seq<char>
    decreases n,
{
    if n < 10 {
        seq![digit(n)]
    } else {
        decimal(n / 10).push(digit(n % 10))
    }
}

/// The name of the compiled function with a number.
pub open spec fn function_name(n: nat) -> Seq<char> {
    "jit_fn_"@ + decimal(n)
}

/// Different numbers have different notations.
pub proof fn decimal_is_injective(a: nat, b: nat)
    requires
        decimal(a) == decimal(b),
    ensures
        a == b,
    decreases a,
{
    decimal_is_not_empty(a / 10);
    decimal_is_not_empty(b / 10);
    if a < 10 {
        assert(decimal(a) =~= seq![digit(a)]);
        assert(b < 10);
        assert(decimal(a)[0] == digit(a));
        assert(decimal(b)[0] == digit(b));
        digit_is_injective(a, b);
    } else {
        assert(decimal(a) == decimal(a / 10).push(digit(a % 10)));
        assert(b >= 10);
        assert(decimal(b) == decimal(b / 10).push(digit(b % 10)));
        assert(decimal(a)[decimal(a).len() - 1] == digit(a % 10));
        assert(decimal(b)[decimal(b).len() - 1] == digit(b % 10));
        assert(decimal(a).drop_last() =~= decimal(a / 10));
        assert(decimal(b).drop_last() =~= decimal(b / 10));
        digit_is_injective(a % 10, b % 10);
        decimal_is_injective(a / 10, b / 10);
    }
}

proof fn digit_is_injective(a: nat, b: nat)
    requires
        a < 10,
        b < 10,
        digit(a) == digit(b),
    ensures
        a == b,
{
}

proof fn decimal_is_not_empty(n: nat)
    ensures
        decimal(n).len() > 0,
{
}

/// Different compiled functions have different names.
pub proof fn function_names_are_unique(a: nat, b: nat)
    requires
        function_name(a) == function_name(b),
    ensures
        a == b,
{
    let prefix = "jit_fn_"@;
    assert(function_name(a).skip(prefix.len() as int) =~= decimal(a));
    assert(function_name(b).skip(prefix.len() as int) =~= decimal(b));
    decimal_is_injective(a, b);
}

/// Returns a decimal digit.
fn digit_text(d: u32) -> (text: &'static str)
    requires
        d < 10,
    ensures
        text@ == seq![digit(d as nat)],
{
    proof {
        reveal_strlit("0");
        reveal_strlit("1");
        reveal_strlit("2");
        reveal_strlit("3");
        reveal_strlit("4");
        reveal_strlit("5");
        reveal_strlit("6");
        reveal_strlit("7");
        reveal_strlit("8");
        reveal_strlit("9");
    }
    match d {
        0 => "0",
        1 => "1",
        2 => "2",
        3 => "3",
        4 => "4",
        5 => "5",
        6 => "6",
        7 => "7",
        8 => "8",
        _ => "9",
    }
}

/// Adds a number in decimal notation to a text.
fn append_decimal(text: &mut String, n: u32)
    ensures
        final(text)@ == old(text)@ + decimal(n as nat),
    decreases n,
{
    if n < 10 {
        text.append(digit_text(n));
    } else {
        append_decimal(text, n / 10);
        text.append(digit_text(n % 10));
        assert(old(text)@ + decimal(n as nat / 10) + seq![digit(n as nat % 10)] =~= old(text)@
            + decimal(n as nat));
    }
}

/// Returns the name of the compiled function with a number.
pub fn jit_function_name(n: u32) -> (name: String)
    ensures
        name@ == function_name(n as nat),
{
    let mut name = "jit_fn_".to_string();
    append_decimal(&mut name, n);
    name
}

/// A name is the same prefix for all functions, and after it the digits of the number. The
/// last digit is the remainder by ten, and the digits before it are those of the quotient.
pub proof fn names_end_in_decimal_digits(n: nat)
    ensures
        ({
            let name = function_name(n);
            let digits = name.skip(7);
            &&& name.len() > 7
            &&& name.take(7) == seq!['j', 'i', 't', '_', 'f', 'n', '_']
            &&& digits.last() as u32 == '0' as u32 + n % 10
            &&& n < 10 ==> digits.len() == 1
            &&& n >= 10 ==> digits.drop_last() == function_name(n / 10).skip(7)
        }),
{
    reveal_strlit("jit_fn_");
    decimal_is_not_empty(n);
    let prefix = "jit_fn_"@;
    assert(prefix =~= seq!['j', 'i', 't', '_', 'f', 'n', '_']);
    assert(function_name(n).skip(7) =~= decimal(n));
    assert(function_name(n / 10).skip(7) =~= decimal(n / 10));
    assert(function_name(n).take(7) =~= prefix);
    if n >= 10 {
        assert(decimal(n).drop_last() =~= decimal(n / 10));
    }
}

} // verus!
