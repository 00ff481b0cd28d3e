//! The charge-limit threshold, with its named presets.
use vstd::prelude::*;

use crate::decimal::{decimal_chars, decimal_in, decimal_text, lemma_decimal_chars_value, lemma_trimmed_unchanged, parse_u8};
use crate::failure::Failure;

verus! {

/// A charge-control threshold: the battery percentage above which the
/// hardware stops charging.
#[derive(Debug, Clone, Copy, PartialEq, Eq, Structural)]
pub enum BatteryLevel {
    Low,
    Medium,
    Full,
    Custom(u8),
}

/// The level that a raw percentage stands for: the presets by their exact
/// values, any other value under 100 as itself, and anything from 100 up as
/// `Full`.
pub open spec fn level_of(value: u8) -> BatteryLevel {
    if value == 60 {
        BatteryLevel::Low
    } else if value == 80 {
        BatteryLevel::Medium
    } else if value >= 100 {
        BatteryLevel::Full
    } else {
        BatteryLevel::Custom(value)
    }
}

/// The lowest percentage shown by the icon of a threshold `p`: tens, where
/// each bucket covers the ten values above its bound, and 100 alone.
pub open spec fn icon_bucket(p: nat) -> nat {
    if p == 0 {
        0
    } else if p >= 100 {
        100
    } else {
        ((p - 1) as nat / 10) * 10
    }
}

/// The name of the themed icon for a threshold `p`.
pub open spec fn icon_name(p: nat) -> Seq<char> {
    "battery-level-"@ + decimal_chars(icon_bucket(p))
}

impl BatteryLevel {
    /// The percentage of this level, in `[0, 100]`.
    pub open spec fn percentage(self) -> nat {
        match self {
            BatteryLevel::Low => 60,
            BatteryLevel::Medium => 80,
            BatteryLevel::Full => 100,
            BatteryLevel::Custom(l) => if l > 100 {
                100
            } else {
                l as nat
            },
        }
    }

    /// The level that a raw percentage stands for (see `level_of`).
    pub fn from_raw_percentage(value: u8) -> (r: BatteryLevel)
        ensures
            r == level_of(value),
    {
        if value == 60 {
            BatteryLevel::Low
        } else if value == 80 {
            BatteryLevel::Medium
        } else if value >= 100 {
            BatteryLevel::Full
        } else {
            BatteryLevel::Custom(value)
        }
    }

    /// The threshold percentage, clamped into `[0, 100]`.
    pub fn get_percentage(&self) -> (r: u8)
        ensures
            r == self.percentage(),
            r <= 100,
    {
        match self {
            BatteryLevel::Low => 60,
            BatteryLevel::Medium => 80,
            BatteryLevel::Full => 100,
            BatteryLevel::Custom(l) => if *l > 100 {
                100
            } else {
                *l
            },
        }
    }

    /// The level held by the text of the sysfs threshold node: a decimal
    /// number, with at most one leading `+`, between optional whitespace. Text that holds no number that
    /// fits in a byte is `DataCorruption`.
    pub fn parse_threshold(text: &str) -> (r: Result<BatteryLevel, Failure>)
        ensures
            match decimal_in(text@) {
                Some(v) => if v <= 255 {
                    r == Ok::<BatteryLevel, Failure>(level_of(v as u8))
                } else {
                    r == Err::<BatteryLevel, Failure>(Failure::DataCorruption)
                },
                None => r == Err::<BatteryLevel, Failure>(Failure::DataCorruption),
            },
    {
        match parse_u8(text) {
            Some(v) => Ok(BatteryLevel::from_raw_percentage(v)),
            None => Err(Failure::DataCorruption),
        }
    }

    /// The text written to the sysfs threshold node to apply this level: the
    /// decimal digits of its percentage.
    pub fn threshold_text(&self) -> (r: String)
        ensures
            r@ == decimal_chars(self.percentage()),
    {
        decimal_text(self.get_percentage())
    }

    /// The name of the themed icon that shows this level.
    pub fn get_gtk_icon_name(&self) -> (r: &'static str)
        ensures
            r@ == icon_name(self.percentage()),
    {
        let p = self.get_percentage();
        let r = if p <= 10 {
            "battery-level-0"
        } else if p <= 20 {
            "battery-level-10"
        } else if p <= 30 {
            "battery-level-20"
        } else if p <= 40 {
            "battery-level-30"
        } else if p <= 50 {
            "battery-level-40"
        } else if p <= 60 {
            "battery-level-50"
        } else if p <= 70 {
            "battery-level-60"
        } else if p <= 80 {
            "battery-level-70"
        } else if p <= 90 {
            "battery-level-80"
        } else if p < 100 {
            "battery-level-90"
        } else {
            "battery-level-100"
        };
        proof {
            reveal_strlit("battery-level-");
            reveal_strlit("battery-level-0");
            reveal_strlit("battery-level-10");
            reveal_strlit("battery-level-20");
            reveal_strlit("battery-level-30");
            reveal_strlit("battery-level-40");
            reveal_strlit("battery-level-50");
            reveal_strlit("battery-level-60");
            reveal_strlit("battery-level-70");
            reveal_strlit("battery-level-80");
            reveal_strlit("battery-level-90");
            reveal_strlit("battery-level-100");
            reveal_with_fuel(decimal_chars, 3);
            assert(r@ =~= icon_name(p as nat));
        }
        r
    }

    /// The position among the presets of the one with this level's
    /// percentage, if any.
    pub fn preset_index(&self) -> (r: Option<usize>)
        ensures
            match r {
                Some(i) => i < preset_levels().len() && preset_levels()[i as int].percentage()
                    == self.percentage(),
                None => forall|i: int|
                    0 <= i < preset_levels().len() ==> #[trigger] preset_levels()[i].percentage()
                        != self.percentage(),
            },
    {
        let p = self.get_percentage();
        if p == 60 {
            Some(0)
        } else if p == 80 {
            Some(1)
        } else if p == 100 {
            Some(2)
        } else {
            None
        }
    }
}

/// The levels offered for selection, in order.
pub open spec fn preset_levels() -> Seq<BatteryLevel> {
    seq![BatteryLevel::Low, BatteryLevel::Medium, BatteryLevel::Full]
}

/// The levels offered for selection, in order.
pub fn presets() -> (r: Vec<BatteryLevel>)
    ensures
        r@ == preset_levels(),
{
    let r = vec![BatteryLevel::Low, BatteryLevel::Medium, BatteryLevel::Full];
    assert(r@ =~= preset_levels());
    r
}

impl From<u8> for BatteryLevel {
    fn from(value: u8) -> (r: BatteryLevel) {
        BatteryLevel::from_raw_percentage(value)
    }
}

impl vstd::std_specs::convert::FromSpecImpl<u8> for BatteryLevel {
    open spec fn obeys_from_spec() -> bool {
        true
    }

    open spec fn from_spec(v: u8) -> BatteryLevel {
        level_of(v)
    }
}

/// A preset value keeps its percentage and is the named level, not a custom
/// one.
pub proof fn lemma_presets_keep_percentage(v: u8)
    requires
        v == 60 || v == 80 || v == 100,
    ensures
        level_of(v).percentage() == v,
        !(level_of(v) is Custom),
        v == 60 ==> level_of(v) == BatteryLevel::Low,
        v == 80 ==> level_of(v) == BatteryLevel::Medium,
        v == 100 ==> level_of(v) == BatteryLevel::Full,
{
}

/// Any other value under 100 is a custom level of that same percentage.
pub proof fn lemma_custom_keeps_percentage(v: u8)
    requires
        v < 100,
        v != 60,
        v != 80,
    ensures
        level_of(v) == BatteryLevel::Custom(v),
        level_of(v).percentage() == v,
{
}

/// Every value from 100 up is taken as a full charge: values over 100 are
/// clamped up to `Full` on purpose, not refused.
pub proof fn lemma_high_values_are_full(v: u8)
    requires
        v >= 100,
    ensures
        level_of(v) == BatteryLevel::Full,
        level_of(v).percentage() == 100,
{
}

/// What applying a level writes to the threshold node reads back as a
/// level of the same percentage.
pub proof fn lemma_threshold_round_trip(level: BatteryLevel)
    ensures
        decimal_in(decimal_chars(level.percentage())) == Some(level.percentage() as int),
        level_of(level.percentage() as u8).percentage() == level.percentage(),
{
    let s = decimal_chars(level.percentage());
    lemma_decimal_chars_value(level.percentage());
    lemma_trimmed_unchanged(s);
}

} // verus!
