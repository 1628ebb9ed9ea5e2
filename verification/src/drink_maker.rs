//! The drink-making hardware protocol: the `DrinkMaker` interface and the
//! exact command strings the adapters in the submodules send to it.

use vstd::prelude::*;

use crate::beverage::Beverage;
use crate::beverage::HotBeverageOption;
use crate::beverage::SugarAmount;

pub mod drink_maker_beverage_server;
pub mod drink_maker_dispenser;
pub mod drink_maker_display;

verus! {

/// The hardware: executes one wire-level command string. What the hardware
/// does with it is outside this crate; implementations make no promise here.
pub trait DrinkMaker {
    fn execute(&self, command: String);
}

/// Wire code of a beverage, the first field of a drink command.
pub open spec fn spec_beverage_cmd_part(beverage: Beverage) -> Seq<char> {
    match beverage {
        Beverage::Coffee(HotBeverageOption::Standard) => "C"@,
        Beverage::Coffee(HotBeverageOption::ExtraHot) => "Ch"@,
        Beverage::Tea(HotBeverageOption::Standard) => "T"@,
        Beverage::Tea(HotBeverageOption::ExtraHot) => "Th"@,
        Beverage::HotChocolate(HotBeverageOption::Standard) => "H"@,
        Beverage::HotChocolate(HotBeverageOption::ExtraHot) => "Hh"@,
        Beverage::OrangeJuice => "O"@,
    }
}

/// Wire code of the sugar dose, the second field of a drink command: empty
/// for no sugar.
pub open spec fn spec_sugar_amount_cmd_part(sugar_amount: SugarAmount) -> Seq<char> {
    match sugar_amount {
        SugarAmount::Zero => ""@,
        SugarAmount::One => "1"@,
        SugarAmount::Two => "2"@,
    }
}

/// Wire code of the stirring stick, the third field of a drink command: one
/// stick whenever sugar was asked for.
pub open spec fn spec_stick_cmd_part(sugar_amount: SugarAmount) -> Seq<char> {
    match sugar_amount {
        SugarAmount::Zero => ""@,
        SugarAmount::One => "0"@,
        SugarAmount::Two => "0"@,
    }
}

/// The full drink command: beverage, sugar dose and stick codes separated by
/// colons.
pub open spec fn spec_beverage_command(beverage: Beverage, sugar_amount: SugarAmount) -> Seq<
    char,
> {
    spec_beverage_cmd_part(beverage) + ":"@ + spec_sugar_amount_cmd_part(sugar_amount) + ":"@
        + spec_stick_cmd_part(sugar_amount)
}

/// Builds the drink command for a beverage and sugar dose.
pub fn build_beverage_command(beverage: &Beverage, sugar_amount: &SugarAmount) -> (cmd: String)
    ensures
        cmd@ == spec_beverage_command(*beverage, *sugar_amount),
{
    let beverage_cmd_part: &'static str = match beverage {
        Beverage::Coffee(HotBeverageOption::Standard) => "C",
        Beverage::Coffee(HotBeverageOption::ExtraHot) => "Ch",
        Beverage::Tea(HotBeverageOption::Standard) => "T",
        Beverage::Tea(HotBeverageOption::ExtraHot) => "Th",
        Beverage::HotChocolate(HotBeverageOption::Standard) => "H",
        Beverage::HotChocolate(HotBeverageOption::ExtraHot) => "Hh",
        Beverage::OrangeJuice => "O",
    };

    let parts: (&'static str, &'static str) = match sugar_amount {
        SugarAmount::Zero => ("", ""),
        SugarAmount::One => ("1", "0"),
        SugarAmount::Two => ("2", "0"),
    };

    let mut cmd = String::from_str(beverage_cmd_part);
    cmd.append(":");
    cmd.append(parts.0);
    cmd.append(":");
    cmd.append(parts.1);
    cmd
}

/// The decimal digits of `n`, most significant first.
pub open spec fn spec_decimal(n: u32) -> Seq<char>
    decreases n,
{
    if n < 10 {
        seq![spec_digit(n)]
    } else {
        spec_decimal(n / 10).push(spec_digit(n % 10))
    }
}

/// The character for one decimal digit.
pub open spec fn spec_digit(digit: u32) -> char {
    if digit == 0 {
        '0'
    } else if digit == 1 {
        '1'
    } else if digit == 2 {
        '2'
    } else if digit == 3 {
        '3'
    } else if digit == 4 {
        '4'
    } else if digit == 5 {
        '5'
    } else if digit == 6 {
        '6'
    } else if digit == 7 {
        '7'
    } else if digit == 8 {
        '8'
    } else {
        '9'
    }
}

/// An amount of cents written in euros the way the customer reads it: whole
/// euros, then — only if there are leftover cents — a point and the cents,
/// with a trailing zero trimmed.
pub open spec fn spec_money_text(cents: u32) -> Seq<char> {
    let euros = cents / 100;
    let frac = cents % 100;
    if frac == 0 {
        spec_decimal(euros)
    } else if frac % 10 == 0 {
        spec_decimal(euros) + "."@ + seq![spec_digit(frac / 10)]
    } else {
        spec_decimal(euros) + "."@ + seq![spec_digit(frac / 10)] + seq![spec_digit(frac % 10)]
    }
}

/// The display command that tells the customer how much money is missing.
pub open spec fn spec_missing_money_command(missing_money: u32) -> Seq<char> {
    "M:"@ + spec_money_text(missing_money) + "€"@
}

/// The display command that tells the customer a beverage ran out.
pub open spec fn spec_shortage_message_command(beverage: Beverage) -> Seq<char> {
    match beverage {
        Beverage::Coffee(_) => "M:Sorry, coffee is empty."@,
        Beverage::Tea(_) => "M:Sorry, tea is empty."@,
        Beverage::HotChocolate(_) => "M:Sorry, hot chocolate is empty."@,
        Beverage::OrangeJuice => "M:Sorry, orange juice is empty."@,
    }
}

/// One decimal digit as a string slice.
fn digit_str(digit: u32) -> (s: &'static str)
    requires
        digit < 10,
    ensures
        s@ == seq![spec_digit(digit)],
{
    let s: &'static str = if digit == 0 {
        "0"
    } else if digit == 1 {
        "1"
    } else if digit == 2 {
        "2"
    } else if digit == 3 {
        "3"
    } else if digit == 4 {
        "4"
    } else if digit == 5 {
        "5"
    } else if digit == 6 {
        "6"
    } else if digit == 7 {
        "7"
    } else if digit == 8 {
        "8"
    } else {
        "9"
    };
    proof {
        reveal_strlit("0");
        reveal_strlit("1");
        reveal_strlit("2");
        reveal_strlit("3");
        reveal_strlit("4");
        reveal_strlit("5");
        reveal_strlit("6");
        reveal_strlit("7");
        reveal_strlit("8");
        reveal_strlit("9");
        assert(s@ =~= seq![spec_digit(digit)]);
    }
    s
}

/// Appends the decimal digits of `n` to `out`.
fn append_decimal(out: &mut String, n: u32)
    ensures
        final(out)@ == old(out)@ + spec_decimal(n),
    decreases n,
{
    if n >= 10 {
        append_decimal(out, n / 10);
    }
    out.append(digit_str(n % 10));
    proof {
        if n < 10 {
            assert(n % 10 == n);
        }
        assert(out@ =~= old(out)@ + spec_decimal(n));
    }
}

/// Builds the missing-money display command for an amount of cents.
pub fn build_missing_money_command(missing_money: u32) -> (cmd: String)
    ensures
        cmd@ == spec_missing_money_command(missing_money),
{
    let mut cmd = String::from_str("M:");
    append_decimal(&mut cmd, missing_money / 100);
    let frac = missing_money % 100;
    if frac != 0 {
        cmd.append(".");
        cmd.append(digit_str(frac / 10));
        if frac % 10 != 0 {
            cmd.append(digit_str(frac % 10));
        }
    }
    cmd.append("€");
    proof {
        assert(cmd@ =~= spec_missing_money_command(missing_money));
    }
    cmd
}

/// Builds the shortage display command for a beverage.
pub fn build_shortage_message_command(beverage: &Beverage) -> (cmd: String)
    ensures
        cmd@ == spec_shortage_message_command(*beverage),
{
    match beverage {
        Beverage::Coffee(_) => String::from_str("M:Sorry, coffee is empty."),
        Beverage::Tea(_) => String::from_str("M:Sorry, tea is empty."),
        Beverage::HotChocolate(_) => String::from_str("M:Sorry, hot chocolate is empty."),
        Beverage::OrangeJuice => String::from_str("M:Sorry, orange juice is empty."),
    }
}

} // verus!
