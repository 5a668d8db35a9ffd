//! One tick of the bar: the blocks of all sources, in display order.

use vstd::prelude::*;
use crate::battery::{
    aggregate_state, battery_blocks, battery_percentages, make_battery_blocks, BatteryUnit,
};
use crate::block::{block_views, lemma_views_concat, lemma_views_push, Block, BlockView};
use crate::clock::{make_time_block, time_block, zone_wall_clock, ZoneClock};
use crate::metric::{cgm_block, make_cgm_block, reading_view, Entry};
use crate::wireless::{make_wifi_block, wifi_block, Interface, QueryFailed};

verus! {

/// Seconds from one tick to the next.
pub const TICK_SECONDS: u64 = 5;

pub const MILLIS_PER_SECOND: u64 = 1000;

/// The blocks of the clocks at `utc_seconds`, in the order of the clocks.
pub open spec fn clock_blocks(clocks: Seq<ZoneClock>, utc_seconds: int) -> Seq<BlockView> {
    Seq::new(
        clocks.len(),
        |i: int| time_block(clocks[i].label@, zone_wall_clock(clocks[i].zone@, utc_seconds)),
    )
}

/// The frame of a tick at `now` milliseconds since the Unix epoch: the remote
/// metric, the clocks, the wireless link, the two battery blocks.
pub open spec fn frame(
    now: int,
    reading: Option<Entry>,
    clocks: Seq<ZoneClock>,
    scan: Result<Vec<Interface>, QueryFailed>,
    interface: Seq<char>,
    units: Seq<Option<BatteryUnit>>,
) -> Seq<BlockView> {
    seq![cgm_block(reading_view(reading), now)] + clock_blocks(
        clocks,
        now / (MILLIS_PER_SECOND as int),
    ) + seq![wifi_block(scan, interface)] + battery_blocks(
        battery_percentages(units).0,
        battery_percentages(units).1,
        aggregate_state(units),
    )
}

/// Composes the frame of one tick from what the sources gave: the time in
/// milliseconds since the Unix epoch, the latest reading of the remote metric,
/// the clocks to show, the outcome of querying the wireless interfaces and the
/// name of the interface to show, and the battery units as they were read.
pub fn make_frame(
    now_millis: u64,
    reading: &Option<Entry>,
    clocks: &Vec<ZoneClock>,
    scan: &Result<Vec<Interface>, QueryFailed>,
    interface: &str,
    units: &Vec<Option<BatteryUnit>>,
) -> (r: Vec<Block>)
    ensures
        block_views(r@) == frame(now_millis as int, *reading, clocks@, *scan, interface@, units@),
        r.len() == clocks.len() + 4,
{
    let utc_seconds = (now_millis / MILLIS_PER_SECOND) as i64;
    let mut blocks: Vec<Block> = Vec::new();
    let first = make_cgm_block(reading, now_millis);
    proof {
        lemma_views_push(blocks@, first);
    }
    blocks.push(first);
    assert(block_views(blocks@) =~= seq![cgm_block(reading_view(*reading), now_millis as int)]
        + clock_blocks(clocks@, utc_seconds as int).take(0));
    let mut i: usize = 0;
    while i < clocks.len()
        invariant
            0 <= i <= clocks.len(),
            utc_seconds == now_millis / MILLIS_PER_SECOND,
            blocks.len() == i + 1,
            block_views(blocks@) == seq![cgm_block(reading_view(*reading), now_millis as int)]
                + clock_blocks(clocks@, utc_seconds as int).take(i as int),
        decreases clocks.len() - i,
    {
        let clock = &clocks[i];
        let block = make_time_block(clock.label.as_str(), clock.zone.as_str(), utc_seconds);
        proof {
            lemma_views_push(blocks@, block);
        }
        blocks.push(block);
        assert(block_views(blocks@) =~= seq![cgm_block(reading_view(*reading), now_millis as int)]
            + clock_blocks(clocks@, utc_seconds as int).take(i + 1));
        i = i + 1;
    }
    let link = make_wifi_block(scan, interface);
    proof {
        lemma_views_push(blocks@, link);
    }
    blocks.push(link);
    let mut battery = make_battery_blocks(units);
    proof {
        lemma_views_concat(blocks@, battery@);
    }
    blocks.append(&mut battery);
    assert(block_views(blocks@) =~= frame(
        now_millis as int,
        *reading,
        clocks@,
        *scan,
        interface@,
        units@,
    ));
    blocks
}

/// A frame holds one block for the remote metric, one for each clock, one for
/// the wireless link and two for the battery, in this order.
pub proof fn lemma_frame_order(
    now: int,
    reading: Option<Entry>,
    clocks: Seq<ZoneClock>,
    scan: Result<Vec<Interface>, QueryFailed>,
    interface: Seq<char>,
    units: Seq<Option<BatteryUnit>>,
)
    ensures
        ({
            let blocks = frame(now, reading, clocks, scan, interface, units);
            let battery = battery_blocks(
                battery_percentages(units).0,
                battery_percentages(units).1,
                aggregate_state(units),
            );
            let n = clocks.len() as int;
            &&& blocks.len() == clocks.len() + 4
            &&& blocks[0] == cgm_block(reading_view(reading), now)
            &&& forall|i: int|
                0 <= i < clocks.len() ==> #[trigger] blocks[i + 1] == time_block(
                    clocks[i].label@,
                    zone_wall_clock(clocks[i].zone@, now / (MILLIS_PER_SECOND as int)),
                )
            &&& blocks[n + 1] == wifi_block(scan, interface)
            &&& blocks[n + 2] == battery[0]
            &&& blocks[n + 3] == battery[1]
        }),
{
}

} // verus!
