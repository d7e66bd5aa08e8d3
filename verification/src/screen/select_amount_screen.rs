//! The amount-selection screen: the user picks how much to charge,
//! either a fixed amount in kilowatts or a target battery percentage.
//!
//! The keypad edits a text field; [`parse_amount`] gives that text a
//! meaning: a non-empty string of decimal digits denotes its number,
//! anything else (including a value too large for a `u64`) denotes
//! zero, matching a parser that falls back to zero on failure.

use vstd::prelude::*;

use crate::layout::AppBar;

verus! {

/// The user-facing charge selection: a fixed amount in whole kilowatts,
/// or a target battery percentage in whole percent.
#[derive(Clone, Copy, Debug, PartialEq, Eq, Structural)]
pub enum ChargeType {
    SpecificWatts(u64),
    Percent(u64),
}

/// True when `c` is a decimal digit.
pub open spec fn is_decimal_digit(c: char) -> bool {
    48 <= c as u32 && c as u32 <= 57
}

/// The numeric value of a digit character.
pub open spec fn digit_value(c: char) -> int {
    c as u32 - 48
}

/// True when every character of `s` is a decimal digit.
pub open spec fn all_decimal_digits(s: Seq<char>) -> bool {
    forall|i: int| 0 <= i < s.len() ==> is_decimal_digit(#[trigger] s[i])
}

/// The number denoted by a digit string, most significant digit first.
pub open spec fn digits_value(s: Seq<char>) -> int
    decreases s.len(),
{
    if s.len() == 0 {
        0
    } else {
        digits_value(s.drop_last()) * 10 + digit_value(s.last())
    }
}

/// What the keypad's text denotes: the number of a non-empty all-digit
/// string whose value fits in a `u64`, and zero for anything else.
pub open spec fn spec_parse_amount(s: Seq<char>) -> u64 {
    if s.len() > 0 && all_decimal_digits(s) && digits_value(s) <= u64::MAX {
        digits_value(s) as u64
    } else {
        0u64
    }
}

proof fn lemma_all_digits_subrange(s: Seq<char>, i: int, j: int)
    requires
        all_decimal_digits(s),
        0 <= i <= j <= s.len(),
    ensures
        all_decimal_digits(s.subrange(i, j)),
{
    assert forall|k: int| 0 <= k < s.subrange(i, j).len() implies is_decimal_digit(
        #[trigger] s.subrange(i, j)[k],
    ) by {
        assert(s.subrange(i, j)[k] == s[i + k]);
    }
}

proof fn lemma_digits_value_nonneg(s: Seq<char>)
    requires
        all_decimal_digits(s),
    ensures
        digits_value(s) >= 0,
    decreases s.len(),
{
    if s.len() > 0 {
        lemma_all_digits_subrange(s, 0, s.len() - 1);
        lemma_digits_value_nonneg(s.drop_last());
    }
}

/// The number denoted by a prefix of an all-digit string never exceeds
/// the number denoted by the whole string.
proof fn lemma_digits_value_prefix_le(s: Seq<char>, i: int)
    requires
        all_decimal_digits(s),
        0 <= i <= s.len(),
    ensures
        digits_value(s.subrange(0, i)) <= digits_value(s),
    decreases s.len() - i,
{
    if i == s.len() {
        assert(s.subrange(0, i) =~= s);
    } else {
        let p = s.subrange(0, i);
        let q = s.subrange(0, i + 1);
        assert(q.drop_last() =~= p);
        assert(q.last() == s[i]);
        lemma_all_digits_subrange(s, 0, i);
        lemma_digits_value_nonneg(p);
        lemma_digits_value_prefix_le(s, i + 1);
    }
}

/// Parses the keypad text: returns exactly what [`spec_parse_amount`]
/// denotes.
pub fn parse_amount(s: &str) -> (r: u64)
    ensures
        r == spec_parse_amount(s@),
{
    let n = s.unicode_len();
    if n == 0 {
        return 0;
    }
    let mut acc: u64 = 0;
    let mut i: usize = 0;
    while i < n
        invariant
            n == s@.len(),
            i <= n,
            all_decimal_digits(s@.subrange(0, i as int)),
            acc == digits_value(s@.subrange(0, i as int)),
        decreases n - i,
    {
        let c = s.get_char(i);
        let cv = c as u32;
        if cv < 48 || cv > 57 {
            return 0;
        }
        let d: u64 = (cv - 48) as u64;
        let next = match acc.checked_mul(10) {
            Some(v) => v.checked_add(d),
            None => None,
        };
        proof {
            let p = s@.subrange(0, i as int);
            let q = s@.subrange(0, i as int + 1);
            assert(q.drop_last() =~= p);
            assert(q.last() == s@[i as int]);
            lemma_digits_value_nonneg(p);
        }
        match next {
            Some(v) => {
                acc = v;
                i = i + 1;
            },
            None => {
                proof {
                    if all_decimal_digits(s@) {
                        lemma_digits_value_prefix_le(s@, i as int + 1);
                    }
                }
                return 0;
            },
        }
    }
    proof {
        assert(s@.subrange(0, n as int) =~= s@);
    }
    acc
}

/// State of the amount-selection screen.
#[derive(Clone, Debug)]
pub struct SelectAmountScreen {
    pub charge_type: ChargeType,
    /// The keypad's current text.
    pub input_value: String,
    pub proceed_clicked: bool,
    pub app_bar: AppBar,
}

impl SelectAmountScreen {
    /// A fresh selection screen with the conventional starting value:
    /// 50 kW for a fixed amount, an 80% target for a percentage.
    pub fn new(charge_type: ChargeType) -> (s: SelectAmountScreen)
        ensures
            s.charge_type == charge_type,
            charge_type is SpecificWatts ==> s.input_value@ == "50"@,
            charge_type is Percent ==> s.input_value@ == "80"@,
            charge_type is SpecificWatts ==> s.app_bar.spec_title() == "Select Charging Amount(kW)"@,
            charge_type is Percent ==> s.app_bar.spec_title() == "Select Target Battery Level"@,
            !s.proceed_clicked,
            s.app_bar.spec_show_back_button(),
            !s.app_bar.spec_back_clicked(),
    {
        let initial_value = match charge_type {
            ChargeType::SpecificWatts(_) => "50".to_owned(),
            ChargeType::Percent(_) => "80".to_owned(),
        };
        let title = match charge_type {
            ChargeType::SpecificWatts(_) => "Select Charging Amount(kW)",
            ChargeType::Percent(_) => "Select Target Battery Level",
        };
        SelectAmountScreen {
            charge_type,
            input_value: initial_value,
            proceed_clicked: false,
            app_bar: AppBar::new(title).with_back_button(),
        }
    }

    pub fn get_charge_type(&self) -> (t: ChargeType)
        ensures
            t == self.charge_type,
    {
        self.charge_type
    }

    /// The amount the current keypad text denotes.
    pub fn get_input_value(&self) -> (r: u64)
        ensures
            r == spec_parse_amount(self.input_value@),
    {
        parse_amount(self.input_value.as_str())
    }

    /// Replaces the keypad text; the rendering layer calls this as the
    /// user edits.
    pub fn set_input_value(&mut self, value: String)
        ensures
            *final(self) == (SelectAmountScreen { input_value: value, ..*old(self) }),
    {
        self.input_value = value;
    }

    pub fn is_proceed_clicked(&self) -> (b: bool)
        ensures
            b == self.proceed_clicked,
    {
        self.proceed_clicked
    }

    pub fn reset_proceed_clicked(&mut self)
        ensures
            *final(self) == (SelectAmountScreen { proceed_clicked: false, ..*old(self) }),
    {
        self.proceed_clicked = false;
    }

    /// Records a press of the proceed button.
    pub fn press_proceed(&mut self)
        ensures
            *final(self) == (SelectAmountScreen { proceed_clicked: true, ..*old(self) }),
    {
        self.proceed_clicked = true;
    }

    pub fn is_back_clicked(&self) -> (b: bool)
        ensures
            b == self.app_bar.spec_back_clicked(),
    {
        self.app_bar.is_back_clicked()
    }

    pub fn reset_back_clicked(&mut self)
        ensures
            !final(self).app_bar.spec_back_clicked(),
            final(self).charge_type == old(self).charge_type,
            final(self).input_value == old(self).input_value,
            final(self).proceed_clicked == old(self).proceed_clicked,
            final(self).app_bar.spec_title() == old(self).app_bar.spec_title(),
            final(self).app_bar.spec_show_back_button() == old(
                self,
            ).app_bar.spec_show_back_button(),
    {
        self.app_bar.reset_back_clicked();
    }
}

} // verus!
