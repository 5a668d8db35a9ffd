//! The remote metric: a reading, its age, and the block that shows it.

use vstd::prelude::*;
use crate::block::{plain_block, Block, BlockView, ColorTier};
use crate::numeral::{
    all_digits, has_nonzero, lemma_capped_compares_alike, lemma_comparisons_are_exclusive,
    lemma_numeral_reads_decimal_text, lemma_numeral_reads_fraction, numeral, parse_numeral,
    Decimal, WHOLE_CAP,
};
use crate::text::{decimal, decimal_text, text_is};

verus! {

/// The lowest value that is in range.
pub const LOW_LIMIT: u32 = 70;

/// The highest value that is in range.
pub const HIGH_LIMIT: u32 = 160;

/// A reading older than this many whole minutes is stale.
pub const STALE_AFTER_MINUTES: u64 = 10;

pub const MILLIS_PER_MINUTE: u64 = 60_000;

/// One reading of the remote metric.
#[derive(Debug, PartialEq, Eq)]
pub struct Entry {
    /// When the value was observed, in milliseconds since the Unix epoch.
    pub date: i64,
    /// The measured value, as the decimal numeral it is shown as.
    pub sgv: String,
    /// The trend-direction code that came with it.
    pub direction: String,
}

/// The mathematical content of an [`Entry`].
pub ghost struct EntryView {
    pub date: int,
    pub sgv: Seq<char>,
    pub direction: Seq<char>,
}

impl View for Entry {
    type V = EntryView;

    open spec fn view(&self) -> EntryView {
        EntryView { date: self.date as int, sgv: self.sgv@, direction: self.direction@ }
    }
}

impl Clone for Entry {
    fn clone(&self) -> (r: Self)
        ensures
            r@ == self@,
    {
        Entry { date: self.date, sgv: self.sgv.clone(), direction: self.direction.clone() }
    }
}

/// The view of the reading held, if any.
pub open spec fn reading_view(reading: Option<Entry>) -> Option<EntryView> {
    match reading {
        Some(entry) => Some(entry@),
        None => None,
    }
}

/// The arrow shown for a trend-direction code; nothing for a code that is not known.
pub open spec fn trend_glyph_text(direction: Seq<char>) -> Seq<char> {
    if direction == "DoubleUp"@ {
        "⇈"@
    } else if direction == "SingleUp"@ {
        "↑"@
    } else if direction == "FortyFiveUp"@ {
        "➚"@
    } else if direction == "Flat"@ {
        "→"@
    } else if direction == "FortyFiveDown"@ {
        "➘"@
    } else if direction == "SingleDown"@ {
        "↓"@
    } else if direction == "DoubleDown"@ {
        "⇊"@
    } else {
        ""@
    }
}

/// Whole minutes from `date` to `now`, both in milliseconds since the epoch.
/// A reading dated after `now` has age 0.
pub open spec fn age_minutes(date: int, now: int) -> int {
    if now >= date {
        (now - date) / (MILLIS_PER_MINUTE as int)
    } else {
        0
    }
}

/// The tier of a number by itself: bad below the low limit and above the high
/// limit, good from one to the other.
pub open spec fn number_tier(value: Decimal) -> ColorTier {
    if value.below(LOW_LIMIT as nat) {
        ColorTier::Bad
    } else if value.at_most(HIGH_LIMIT as nat) {
        ColorTier::Good
    } else {
        ColorTier::Bad
    }
}

/// The tier of a shown value by itself; unknown where the text is not a number.
pub open spec fn value_tier(sgv: Seq<char>) -> ColorTier {
    match numeral(sgv) {
        Some(value) => number_tier(value),
        None => ColorTier::Unknown,
    }
}

/// The tier of a reading: a stale one is bad whatever its value.
pub open spec fn metric_tier(sgv: Seq<char>, age: int) -> ColorTier {
    if age > STALE_AFTER_MINUTES {
        ColorTier::Bad
    } else {
        value_tier(sgv)
    }
}

/// The text of a reading: value, trend arrow, age in minutes.
pub open spec fn metric_text(entry: EntryView, now: int) -> Seq<char> {
    entry.sgv + trend_glyph_text(entry.direction) + " ("@ + decimal_text(
        age_minutes(entry.date, now) as nat,
    ) + "m)"@
}

/// The block for the remote metric at the instant `now`.
pub open spec fn cgm_block(reading: Option<EntryView>, now: int) -> BlockView {
    match reading {
        Some(entry) => plain_block(
            metric_text(entry, now),
            Some(metric_tier(entry.sgv, age_minutes(entry.date, now))),
        ),
        None => plain_block("metric unknown"@, Some(ColorTier::Unknown)),
    }
}

/// The arrow for a trend-direction code.
pub fn trend_glyph(direction: &String) -> (r: &'static str)
    ensures
        r@ == trend_glyph_text(direction@),
{
    if text_is(direction, "DoubleUp") {
        "⇈"
    } else if text_is(direction, "SingleUp") {
        "↑"
    } else if text_is(direction, "FortyFiveUp") {
        "➚"
    } else if text_is(direction, "Flat") {
        "→"
    } else if text_is(direction, "FortyFiveDown") {
        "➘"
    } else if text_is(direction, "SingleDown") {
        "↓"
    } else if text_is(direction, "DoubleDown") {
        "⇊"
    } else {
        ""
    }
}

/// Whole minutes elapsed from `date` to `now_millis`.
pub fn reading_age(date: i64, now_millis: u64) -> (r: u64)
    ensures
        r == age_minutes(date as int, now_millis as int),
{
    let now: i128 = now_millis as i128;
    let then: i128 = date as i128;
    if now >= then {
        ((now - then) / (MILLIS_PER_MINUTE as i128)) as u64
    } else {
        0
    }
}

/// Classifies a shown value and its age in minutes.
pub fn classify_metric(sgv: &String, age: u64) -> (r: ColorTier)
    ensures
        r == metric_tier(sgv@, age as int),
{
    if age > STALE_AFTER_MINUTES {
        return ColorTier::Bad;
    }
    match parse_numeral(sgv) {
        Some(value) => {
            proof {
                let exact = numeral(sgv@).unwrap();
                lemma_capped_compares_alike(exact, WHOLE_CAP as nat, LOW_LIMIT as nat);
                lemma_capped_compares_alike(exact, WHOLE_CAP as nat, HIGH_LIMIT as nat);
            }
            if value.below(LOW_LIMIT) {
                ColorTier::Bad
            } else if value.at_most(HIGH_LIMIT) {
                ColorTier::Good
            } else {
                proof {
                    // a number that is not at most the high limit is above it
                    lemma_comparisons_are_exclusive(value@, HIGH_LIMIT as nat);
                    assert(value@.above(HIGH_LIMIT as nat));
                }
                ColorTier::Bad
            }
        },
        None => ColorTier::Unknown,
    }
}

/// Builds the block for the remote metric from the latest reading, if there is
/// one, and the current time in milliseconds since the epoch.
pub fn make_cgm_block(reading: &Option<Entry>, now_millis: u64) -> (r: Block)
    ensures
        r@ == cgm_block(reading_view(*reading), now_millis as int),
{
    match reading {
        Some(entry) => {
            let age = reading_age(entry.date, now_millis);
            let mut text = entry.sgv.clone();
            text.append(trend_glyph(&entry.direction));
            text.append(" (");
            text.append(decimal(age as u128).as_str());
            text.append("m)");
            assert(text@ =~= metric_text(entry@, now_millis as int));
            Block::plain(text, Some(classify_metric(&entry.sgv, age)))
        },
        None => Block::plain(String::from_str("metric unknown"), Some(ColorTier::Unknown)),
    }
}

/// A stale reading is bad, whatever its value.
pub proof fn lemma_stale_reading_is_bad(entry: EntryView, now: int)
    requires
        age_minutes(entry.date, now) > STALE_AFTER_MINUTES,
    ensures
        cgm_block(Some(entry), now).color == Some(ColorTier::Bad),
{
}

/// A reading that is not stale has the tier of its value: good exactly from
/// the low limit to the high limit, both included, bad on either side, and
/// unknown exactly where the text is not a number.
pub proof fn lemma_fresh_reading_tier(entry: EntryView, now: int)
    requires
        age_minutes(entry.date, now) <= STALE_AFTER_MINUTES,
    ensures
        cgm_block(Some(entry), now).color == Some(value_tier(entry.sgv)),
        value_tier(entry.sgv) == ColorTier::Unknown <==> numeral(entry.sgv) is None,
        numeral(entry.sgv) matches Some(value) ==> {
            &&& value_tier(entry.sgv) == ColorTier::Good <==> !value.below(LOW_LIMIT as nat)
                && value.at_most(HIGH_LIMIT as nat)
            &&& value_tier(entry.sgv) == ColorTier::Bad <==> value.below(LOW_LIMIT as nat)
                || value.above(HIGH_LIMIT as nat)
        },
{
}

/// A whole number shown in decimal is bad below 70, good from 70 to 160, and
/// bad above 160.
pub proof fn lemma_whole_value_tier(n: nat)
    ensures
        value_tier(decimal_text(n)) == if n < 70 {
            ColorTier::Bad
        } else if n <= 160 {
            ColorTier::Good
        } else {
            ColorTier::Bad
        },
{
    lemma_numeral_reads_decimal_text(n);
}

/// A number shown with a fraction is bad where its whole part is below 70,
/// good where its whole part is from 70 to 159, good at 160 only where every
/// digit of the fraction is zero, and bad otherwise.
pub proof fn lemma_fraction_value_tier(n: nat, fraction: Seq<char>)
    requires
        all_digits(fraction),
    ensures
        value_tier(decimal_text(n) + seq!['.'] + fraction) == if n < 70 {
            ColorTier::Bad
        } else if n < 160 || (n == 160 && !has_nonzero(fraction)) {
            ColorTier::Good
        } else {
            ColorTier::Bad
        },
{
    lemma_numeral_reads_fraction(n, fraction);
}

/// With no reading the block is the same at every instant.
pub proof fn lemma_absent_reading_ignores_clock(now: int)
    ensures
        cgm_block(None, now) == plain_block("metric unknown"@, Some(ColorTier::Unknown)),
{
}

/// The age of a reading never shrinks as the clock advances.
pub proof fn lemma_age_grows_with_clock(date: int, earlier: int, later: int)
    requires
        earlier <= later,
    ensures
        age_minutes(date, earlier) <= age_minutes(date, later),
{
}

} // verus!
