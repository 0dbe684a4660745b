//! Rendered status text: each deposit's load and capacity with an
//! `EMPTY`/`FULL` warning exactly when the corresponding threshold
//! predicate holds, plus the current state's name.

use vstd::prelude::*;
use vstd::string::StringExecFns;

use crate::machine::CoffeeMachine;
use crate::machine::State;

verus! {

/// The character of a single decimal digit.
pub open spec fn spec_digit_char(d: int) -> char {
    if d == 0 {
        '0'
    } else if d == 1 {
        '1'
    } else if d == 2 {
        '2'
    } else if d == 3 {
        '3'
    } else if d == 4 {
        '4'
    } else if d == 5 {
        '5'
    } else if d == 6 {
        '6'
    } else if d == 7 {
        '7'
    } else if d == 8 {
        '8'
    } else {
        '9'
    }
}

/// The decimal digits of `n`, most significant first, without leading
/// zeros.
pub open spec fn spec_decimal(n: u8) -> Seq<char>
    decreases n,
{
    if n < 10 {
        seq![spec_digit_char(n as int)]
    } else {
        spec_decimal((n / 10) as u8) + seq![spec_digit_char((n % 10) as int)]
    }
}

fn digit_str(d: u8) -> (s: &'static str)
    requires
        d < 10,
    ensures
        s@ == seq![spec_digit_char(d as int)],
{
    proof {
        reveal_strlit("0");
        reveal_strlit("1");
        reveal_strlit("2");
        reveal_strlit("3");
        reveal_strlit("4");
        reveal_strlit("5");
        reveal_strlit("6");
        reveal_strlit("7");
        reveal_strlit("8");
        reveal_strlit("9");
        assert("0"@ =~= seq![spec_digit_char(0)]);
        assert("1"@ =~= seq![spec_digit_char(1)]);
        assert("2"@ =~= seq![spec_digit_char(2)]);
        assert("3"@ =~= seq![spec_digit_char(3)]);
        assert("4"@ =~= seq![spec_digit_char(4)]);
        assert("5"@ =~= seq![spec_digit_char(5)]);
        assert("6"@ =~= seq![spec_digit_char(6)]);
        assert("7"@ =~= seq![spec_digit_char(7)]);
        assert("8"@ =~= seq![spec_digit_char(8)]);
        assert("9"@ =~= seq![spec_digit_char(9)]);
    }
    match d {
        0 => "0",
        1 => "1",
        2 => "2",
        3 => "3",
        4 => "4",
        5 => "5",
        6 => "6",
        7 => "7",
        8 => "8",
        _ => "9",
    }
}

/// The decimal rendering of `n`.
pub fn u8_to_decimal(n: u8) -> (s: String)
    ensures
        s@ == spec_decimal(n),
    decreases n,
{
    if n < 10 {
        digit_str(n).to_owned()
    } else {
        let prefix = u8_to_decimal(n / 10);
        prefix.concat(digit_str(n % 10))
    }
}

impl State {
    /// The display name of this state.
    pub open spec fn spec_label(self) -> Seq<char> {
        match self {
            State::Ready => "Ready"@,
            State::ActionRequired => "ActionRequired"@,
        }
    }

    pub fn label(&self) -> (label: &'static str)
        ensures
            label@ == self.spec_label(),
    {
        match self {
            State::Ready => "Ready",
            State::ActionRequired => "ActionRequired",
        }
    }
}

impl CoffeeMachine {
    /// The full status text: one line per deposit, prefixed by its
    /// warning exactly when its threshold predicate holds, then the
    /// current state's name.
    pub open spec fn spec_render_status(self) -> Seq<char> {
        "--------------------------------\n"@ + (if self.spec_coffee_deposit_empty() {
            "WARNING [EMPTY]: "@
        } else {
            Seq::<char>::empty()
        }) + "Coffee deposit "@ + spec_decimal(self.coffee_deposit.current_load) + "gr out of "@
            + spec_decimal(self.coffee_deposit.max_load) + "gr.\n"@ + (
        if self.spec_water_deposit_empty() {
            "WARNING [EMPTY]: "@
        } else {
            Seq::<char>::empty()
        }) + "Water deposit "@ + spec_decimal(self.water_deposit.current_load) + "cl out of "@
            + spec_decimal(self.water_deposit.max_load) + "cl.\n"@ + (
        if self.spec_waste_dump_full() {
            "WARNING [FULL]: "@
        } else {
            Seq::<char>::empty()
        }) + "Waste deposit "@ + spec_decimal(self.waste_dump.current_load) + "gr out of "@
            + spec_decimal(self.waste_dump.max_load) + "gr.\n"@ + "Current state: "@
            + self.current_state.spec_label() + ".\n"@
    }

    /// Renders the machine's full status.
    pub fn render_status(&self) -> (text: String)
        requires
            self.spec_max_required_coffee() <= self.waste_dump.max_load,
        ensures
            text@ == self.spec_render_status(),
    {
        let mut text = "--------------------------------\n".to_owned();
        if self.is_coffe_deposit_empty() {
            text.append("WARNING [EMPTY]: ");
        }
        text.append("Coffee deposit ");
        text.append(u8_to_decimal(self.coffee_deposit.current_load).as_str());
        text.append("gr out of ");
        text.append(u8_to_decimal(self.coffee_deposit.max_load).as_str());
        text.append("gr.\n");
        if self.is_water_deposit_empty() {
            text.append("WARNING [EMPTY]: ");
        }
        text.append("Water deposit ");
        text.append(u8_to_decimal(self.water_deposit.current_load).as_str());
        text.append("cl out of ");
        text.append(u8_to_decimal(self.water_deposit.max_load).as_str());
        text.append("cl.\n");
        if self.is_waste_dump_full() {
            text.append("WARNING [FULL]: ");
        }
        text.append("Waste deposit ");
        text.append(u8_to_decimal(self.waste_dump.current_load).as_str());
        text.append("gr out of ");
        text.append(u8_to_decimal(self.waste_dump.max_load).as_str());
        text.append("gr.\n");
        text.append("Current state: ");
        text.append(self.current_state.label());
        text.append(".\n");
        proof {
            assert(text@ =~= self.spec_render_status());
        }
        text
    }
}

} // verus!
