//! Wall-clock time in a named time zone, and the block that shows it.

use chrono::{TimeZone, Timelike};
use vstd::prelude::*;
use crate::block::{plain_block, Block, BlockView};
use crate::text::{lemma_two_digit_text_len, two_digit_text, two_digits};

verus! {

/// A clock of the bar: the label it is shown under and the IANA identifier of
/// its time zone, such as `Asia/Taipei`.
#[derive(Debug, PartialEq, Eq)]
pub struct ZoneClock {
    pub label: String,
    pub zone: String,
}

/// The hour and the minute that clocks in the time zone `zone` show at
/// `utc_seconds` seconds since the Unix epoch, as the time zone database
/// gives them; `None` where the database has no such zone or the instant is
/// outside the range of dates that can be represented.
pub uninterp spec fn zone_wall_clock(zone: Seq<char>, utc_seconds: int) -> Option<(u32, u32)>;

/// Looks the zone up with `chrono_tz::Tz::from_str`, converts the instant with
/// `chrono::TimeZone::timestamp_opt`, and reads `chrono::Timelike::hour` and
/// `minute` of the local time. The result depends on the zone identifier and
/// the instant alone; `None` comes back where the lookup or the conversion
/// gives nothing. The hour is one of 0 to 23 and the minute one of 0 to 59.
#[verifier::external_body]
fn wall_clock(zone: &str, utc_seconds: i64) -> (r: Option<(u32, u32)>)
    ensures
        r == zone_wall_clock(zone@, utc_seconds as int),
        r matches Some(time) ==> time.0 < 24 && time.1 < 60,
{
    let tz: chrono_tz::Tz = zone.parse().ok()?;
    let local = tz.timestamp_opt(utc_seconds, 0).single()?;
    Some((local.hour(), local.minute()))
}

/// The text of a clock: the label, a space, and hour and minute on the
/// 24-hour clock with two digits each; dashes where the time is not known.
pub open spec fn clock_text(label: Seq<char>, time: Option<(u32, u32)>) -> Seq<char> {
    match time {
        Some((hour, minute)) => label + " "@ + two_digit_text(hour as nat) + ":"@ + two_digit_text(
            minute as nat,
        ),
        None => label + " --:--"@,
    }
}

/// The block of a clock; it has no colour.
pub open spec fn time_block(label: Seq<char>, time: Option<(u32, u32)>) -> BlockView {
    plain_block(clock_text(label, time), None)
}

/// Builds the block of a clock from its label and the hour and minute to show.
pub fn time_block_for(label: &str, time: Option<(u32, u32)>) -> (r: Block)
    ensures
        r@ == time_block(label@, time),
{
    let mut text = String::from_str(label);
    match time {
        Some((hour, minute)) => {
            text.append(" ");
            text.append(two_digits(hour).as_str());
            text.append(":");
            text.append(two_digits(minute).as_str());
        },
        None => {
            text.append(" --:--");
        },
    }
    assert(text@ =~= clock_text(label@, time));
    Block::plain(text, None)
}

/// Builds the block that shows, under `label`, the time of day in the time
/// zone `zone` at `utc_seconds` seconds since the Unix epoch. After the label
/// the text always has six characters.
pub fn make_time_block(label: &str, zone: &str, utc_seconds: i64) -> (r: Block)
    ensures
        r@ == time_block(label@, zone_wall_clock(zone@, utc_seconds as int)),
        r@.full_text.len() == label@.len() + 6,
{
    let time = wall_clock(zone, utc_seconds);
    proof {
        lemma_clock_text_shape(label@, time);
    }
    time_block_for(label, time)
}

/// The text of a clock is its label and six more characters: a space, two
/// digits or dashes, a colon, two digits or dashes.
pub proof fn lemma_clock_text_shape(label: Seq<char>, time: Option<(u32, u32)>)
    requires
        time matches Some(shown) ==> shown.0 < 24 && shown.1 < 60,
    ensures
        clock_text(label, time).len() == label.len() + 6,
        clock_text(label, time).subrange(0, label.len() as int) == label,
        clock_text(label, time)[label.len() as int] == ' ',
        clock_text(label, time)[label.len() as int + 3] == ':',
{
    reveal_strlit(" ");
    reveal_strlit(":");
    reveal_strlit(" --:--");
    match time {
        Some((hour, minute)) => {
            lemma_two_digit_text_len(hour as nat);
            lemma_two_digit_text_len(minute as nat);
        },
        None => {},
    }
    assert(clock_text(label, time).subrange(0, label.len() as int) =~= label);
}

/// A clock block never has a colour, whatever the time.
pub proof fn lemma_time_block_is_plain(label: Seq<char>, time: Option<(u32, u32)>)
    ensures
        time_block(label, time).color is None,
        !time_block(label, time).separator,
{
}

} // verus!
