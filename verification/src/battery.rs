//! Battery telemetry: charge of all units taken together, their aggregate
//! state, and the two blocks that show them.

use vstd::arithmetic::div_mod::{
    lemma_div_denominator, lemma_div_multiples_vanish_quotient, lemma_hoist_over_denominator,
};
use vstd::prelude::*;
use crate::block::{block_views, plain_block, Block, BlockView, ColorTier};
use crate::text::{decimal, decimal_text, digit_str};

verus! {

/// What a battery unit reports of itself.
#[derive(Clone, Copy, Debug, PartialEq, Eq, Structural)]
pub enum BatteryState {
    Unknown,
    Charging,
    Discharging,
    Empty,
    Full,
}

/// The energy figures of one battery unit, in milliwatt-hours, and its state.
#[derive(Clone, Copy, Debug, PartialEq, Eq)]
pub struct BatteryUnit {
    /// Energy held now.
    pub energy: u32,
    /// Energy held when last full.
    pub energy_full: u32,
    /// Energy the unit was designed to hold.
    pub energy_full_design: u32,
    pub state: BatteryState,
}

/// A share in percent, kept in thousandths of a percent and rounded down.
/// A share of nothing is not a number when the part is nothing too, and
/// infinite otherwise.
#[derive(Clone, Copy, Debug, PartialEq, Eq, Structural)]
pub enum Percentage {
    NotANumber,
    Infinite,
    Finite { thousandths: u128 },
}

/// Below this share of the last full charge a battery is low, in thousandths of a percent.
pub const LOW_BATTERY_THOUSANDTHS: u128 = 15_000;

/// Energy held now by the units that could be read.
pub open spec fn total_energy(units: Seq<Option<BatteryUnit>>) -> nat
    decreases units.len(),
{
    if units.len() == 0 {
        0
    } else {
        total_energy(units.drop_last()) + match units.last() {
            Some(unit) => unit.energy as nat,
            None => 0,
        }
    }
}

/// Energy held when last full by the units that could be read.
pub open spec fn total_energy_full(units: Seq<Option<BatteryUnit>>) -> nat
    decreases units.len(),
{
    if units.len() == 0 {
        0
    } else {
        total_energy_full(units.drop_last()) + match units.last() {
            Some(unit) => unit.energy_full as nat,
            None => 0,
        }
    }
}

/// Energy that the units that could be read were designed to hold.
pub open spec fn total_energy_full_design(units: Seq<Option<BatteryUnit>>) -> nat
    decreases units.len(),
{
    if units.len() == 0 {
        0
    } else {
        total_energy_full_design(units.drop_last()) + match units.last() {
            Some(unit) => unit.energy_full_design as nat,
            None => 0,
        }
    }
}

/// `part` as a share of `whole`, in percent.
pub open spec fn percentage_of(part: nat, whole: nat) -> Percentage {
    if whole == 0 {
        if part == 0 {
            Percentage::NotANumber
        } else {
            Percentage::Infinite
        }
    } else {
        Percentage::Finite { thousandths: (100_000 * part / whole) as u128 }
    }
}

/// Charge as a share of the last full charge, and the last full charge as a
/// share of the designed one.
pub open spec fn battery_percentages(units: Seq<Option<BatteryUnit>>) -> (
    Percentage,
    Percentage,
) {
    (
        percentage_of(total_energy(units), total_energy_full(units)),
        percentage_of(total_energy_full(units), total_energy_full_design(units)),
    )
}

/// The state of the last unit that could be read and knows its state;
/// unknown where there is none.
pub open spec fn aggregate_state(units: Seq<Option<BatteryUnit>>) -> BatteryState
    decreases units.len(),
{
    if units.len() == 0 {
        BatteryState::Unknown
    } else {
        match units.last() {
            Some(unit) => if unit.state != BatteryState::Unknown {
                unit.state
            } else {
                aggregate_state(units.drop_last())
            },
            None => aggregate_state(units.drop_last()),
        }
    }
}

/// Whether the share is under the low-battery mark. What is not finite is not low.
pub open spec fn is_low(share: Percentage) -> bool {
    share matches Percentage::Finite { thousandths } && thousandths < LOW_BATTERY_THOUSANDTHS
}

/// The share with one decimal, halves rounded up.
pub open spec fn one_decimal_text(share: Percentage) -> Seq<char> {
    match share {
        Percentage::NotANumber => "NaN"@,
        Percentage::Infinite => "inf"@,
        Percentage::Finite { thousandths } => {
            let tenths = ((thousandths + 50) / 100) as nat;
            decimal_text(tenths / 10) + "."@ + decimal_text(tenths % 10)
        },
    }
}

/// The mark shown before the charge.
pub open spec fn state_glyph_text(state: BatteryState) -> Seq<char> {
    match state {
        BatteryState::Charging => "⚡"@,
        BatteryState::Unknown => "?"@,
        _ => ""@,
    }
}

/// The tier of the charge: charging comes before everything, then full; in
/// every other state a low charge is bad and any other charge unknown.
pub open spec fn battery_tier(state: BatteryState, current: Percentage) -> ColorTier {
    match state {
        BatteryState::Charging => ColorTier::Charging,
        BatteryState::Full => ColorTier::Good,
        _ => if is_low(current) {
            ColorTier::Bad
        } else {
            ColorTier::Unknown
        },
    }
}

/// The two battery blocks: the charge with its mark and tier, then the share
/// of the designed capacity that a full charge reaches, in brackets. Both
/// shares are shown with one decimal.
pub open spec fn battery_blocks(
    current: Percentage,
    design: Percentage,
    state: BatteryState,
) -> Seq<BlockView> {
    seq![
        plain_block(
            state_glyph_text(state) + one_decimal_text(current) + "%"@,
            Some(battery_tier(state, current)),
        ),
        plain_block("("@ + one_decimal_text(design) + "%)"@, None),
    ]
}

proof fn lemma_totals_step(units: Seq<Option<BatteryUnit>>, i: int)
    requires
        0 <= i < units.len(),
    ensures
        total_energy(units.take(i + 1)) == total_energy(units.take(i)) + match units[i] {
            Some(unit) => unit.energy as nat,
            None => 0,
        },
        total_energy_full(units.take(i + 1)) == total_energy_full(units.take(i)) + match units[i] {
            Some(unit) => unit.energy_full as nat,
            None => 0,
        },
        total_energy_full_design(units.take(i + 1)) == total_energy_full_design(units.take(i))
            + match units[i] {
            Some(unit) => unit.energy_full_design as nat,
            None => 0,
        },
        aggregate_state(units.take(i + 1)) == match units[i] {
            Some(unit) => if unit.state != BatteryState::Unknown {
                unit.state
            } else {
                aggregate_state(units.take(i))
            },
            None => aggregate_state(units.take(i)),
        },
{
    assert(units.take(i + 1).drop_last() =~= units.take(i));
    assert(units.take(i + 1).last() == units[i]);
}

/// Computes `part` as a share of `whole`.
fn percentage(part: u128, whole: u128) -> (r: Percentage)
    requires
        part <= 0xffff_ffff_ffff_ffff_ffff_ffff,
    ensures
        r == percentage_of(part as nat, whole as nat),
{
    if whole == 0 {
        if part == 0 {
            Percentage::NotANumber
        } else {
            Percentage::Infinite
        }
    } else {
        Percentage::Finite { thousandths: 100_000 * part / whole }
    }
}

/// Sums the energy figures of the units that could be read and returns the
/// charge as a share of the last full charge, and the last full charge as a
/// share of the designed one.
pub fn get_battery_percentages(units: &Vec<Option<BatteryUnit>>) -> (r: (Percentage, Percentage))
    ensures
        r == battery_percentages(units@),
{
    let mut energy: u128 = 0;
    let mut full: u128 = 0;
    let mut design: u128 = 0;
    let mut i: usize = 0;
    while i < units.len()
        invariant
            0 <= i <= units.len(),
            energy == total_energy(units@.take(i as int)),
            full == total_energy_full(units@.take(i as int)),
            design == total_energy_full_design(units@.take(i as int)),
            energy <= i * 0xffff_ffff,
            full <= i * 0xffff_ffff,
            design <= i * 0xffff_ffff,
        decreases units.len() - i,
    {
        proof {
            lemma_totals_step(units@, i as int);
        }
        match &units[i] {
            Some(unit) => {
                energy = energy + unit.energy as u128;
                full = full + unit.energy_full as u128;
                design = design + unit.energy_full_design as u128;
            },
            None => {},
        }
        i = i + 1;
    }
    assert(units@.take(units.len() as int) =~= units@);
    (percentage(energy, full), percentage(full, design))
}

/// Returns the state of the last unit that could be read and knows its state.
pub fn get_battery_state(units: &Vec<Option<BatteryUnit>>) -> (r: BatteryState)
    ensures
        r == aggregate_state(units@),
{
    let mut last_state = BatteryState::Unknown;
    let mut i: usize = 0;
    while i < units.len()
        invariant
            0 <= i <= units.len(),
            last_state == aggregate_state(units@.take(i as int)),
        decreases units.len() - i,
    {
        proof {
            lemma_totals_step(units@, i as int);
        }
        match &units[i] {
            Some(unit) => {
                if unit.state != BatteryState::Unknown {
                    last_state = unit.state;
                }
            },
            None => {},
        }
        i = i + 1;
    }
    assert(units@.take(units.len() as int) =~= units@);
    last_state
}

/// Renders a share with one decimal.
pub fn one_decimal(share: Percentage) -> (r: String)
    ensures
        r@ == one_decimal_text(share),
{
    match share {
        Percentage::NotANumber => String::from_str("NaN"),
        Percentage::Infinite => String::from_str("inf"),
        Percentage::Finite { thousandths } => {
            let tenths: u128 = thousandths / 100 + (thousandths % 100 + 50) / 100;
            let mut text = decimal(tenths / 10);
            text.append(".");
            text.append(digit_str((tenths % 10) as u8));
            assert(text@ =~= one_decimal_text(share));
            text
        },
    }
}

/// The mark shown before the charge.
pub fn state_glyph(state: BatteryState) -> (r: &'static str)
    ensures
        r@ == state_glyph_text(state),
{
    match state {
        BatteryState::Charging => "⚡",
        BatteryState::Unknown => "?",
        _ => "",
    }
}

/// Classifies the charge.
pub fn classify_battery(state: BatteryState, current: Percentage) -> (r: ColorTier)
    ensures
        r == battery_tier(state, current),
{
    let low = match current {
        Percentage::Finite { thousandths } => thousandths < LOW_BATTERY_THOUSANDTHS,
        _ => false,
    };
    match state {
        BatteryState::Charging => ColorTier::Charging,
        BatteryState::Full => ColorTier::Good,
        _ => if low {
            ColorTier::Bad
        } else {
            ColorTier::Unknown
        },
    }
}

/// Builds the two battery blocks from the two shares and the aggregate state.
pub fn battery_blocks_for(
    current: Percentage,
    design: Percentage,
    state: BatteryState,
) -> (r: Vec<Block>)
    ensures
        r.len() == 2,
        block_views(r@) == battery_blocks(current, design, state),
{
    let mut primary = String::from_str(state_glyph(state));
    primary.append(one_decimal(current).as_str());
    primary.append("%");
    let mut secondary = String::from_str("(");
    secondary.append(one_decimal(design).as_str());
    secondary.append("%)");
    let first = Block::plain(primary, Some(classify_battery(state, current)));
    let second = Block::plain(secondary, None);
    let mut blocks: Vec<Block> = Vec::new();
    blocks.push(first);
    blocks.push(second);
    assert(block_views(blocks@) =~= battery_blocks(current, design, state));
    blocks
}

/// Builds the two battery blocks from the battery units as they were read;
/// `None` stands for a unit that could not be read.
pub fn make_battery_blocks(units: &Vec<Option<BatteryUnit>>) -> (r: Vec<Block>)
    ensures
        r.len() == 2,
        block_views(r@) == battery_blocks(
            battery_percentages(units@).0,
            battery_percentages(units@).1,
            aggregate_state(units@),
        ),
{
    let (current, design) = get_battery_percentages(units);
    battery_blocks_for(current, design, get_battery_state(units))
}

/// While charging the tier is charging, however low the charge.
pub proof fn lemma_charging_overrides_charge(current: Percentage, design: Percentage)
    ensures
        battery_blocks(current, design, BatteryState::Charging)[0].color == Some(
            ColorTier::Charging,
        ),
{
}

/// While discharging a charge of 15 percent or more has the unknown tier, and
/// a lower one the bad tier.
pub proof fn lemma_discharging_tier(current: Percentage, design: Percentage)
    ensures
        !is_low(current) ==> battery_blocks(current, design, BatteryState::Discharging)[0].color
            == Some(ColorTier::Unknown),
        is_low(current) ==> battery_blocks(current, design, BatteryState::Discharging)[0].color
            == Some(ColorTier::Bad),
{
}

/// A finite share is low exactly when the part is under 15 hundredths of the whole.
pub proof fn lemma_low_is_under_fifteen_percent(part: nat, whole: nat)
    requires
        whole > 0,
        100_000 * part / whole <= u128::MAX,
    ensures
        is_low(percentage_of(part, whole)) <==> 100 * part < 15 * whole,
{
    assert(100_000 * part / whole < 15_000 <==> 100 * part < 15 * whole) by (nonlinear_arith)
        requires
            whole > 0,
    ;
}

/// Rounding the thousandths to tenths loses nothing against rounding the
/// exact share: the tenths shown are the share of `part` in `whole` rounded to
/// the nearest tenth of a percent, halves up.
pub proof fn lemma_shown_share_is_rounded(part: nat, whole: nat)
    requires
        whole > 0,
        100_000 * part / whole <= u128::MAX,
    ensures
        percentage_of(part, whole) matches Percentage::Finite { thousandths } && (thousandths
            + 50) / 100 == (2000 * part + whole) / (2 * whole),
{
    let n = 100_000 * part as int;
    let w = whole as int;
    lemma_hoist_over_denominator(n, 50, whole);
    lemma_div_denominator(n + 50 * w, w, 100);
    lemma_div_multiples_vanish_quotient(50, 2000 * part + w, 2 * w);
    assert(n + 50 * w == 50 * (2000 * part + w));
    assert(w * 100 == 50 * (2 * w));
}

} // verus!
