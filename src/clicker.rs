//! The click driver: while the automation runs, one click per poll for each
//! active target, at the configured interval.

use vstd::prelude::*;

verus! {

/// Delay between two polls while no target is active, in microseconds.
pub const IDLE_CLICK_POLL_MICROS: u64 = 50_000;

/// Delay between two polls while the automation is stopped, in microseconds.
pub const STOPPED_CLICK_POLL_MICROS: u64 = 200_000;

/// What the click driver does on one pass of its loop.
#[derive(Clone, Copy, Debug, PartialEq, Eq, Structural)]
pub struct ClickPlan {
    pub click_left: bool,
    pub click_right: bool,
    pub sleep_micros: u64,
}

pub open spec fn click_plan(running: bool, left_active: bool, right_active: bool, interval_micros: u64) -> ClickPlan {
    if !running {
        ClickPlan { click_left: false, click_right: false, sleep_micros: STOPPED_CLICK_POLL_MICROS }
    } else {
        ClickPlan {
            click_left: left_active,
            click_right: right_active,
            sleep_micros: if left_active || right_active { interval_micros } else { IDLE_CLICK_POLL_MICROS },
        }
    }
}

/// One pass of the click driver. While stopped it clicks nothing and waits
/// the stopped delay; while running it clicks each active target once and
/// waits the click interval, or the idle delay when no target is active.
pub fn click_step(running: bool, left_active: bool, right_active: bool, interval_micros: u64) -> (r: ClickPlan)
    ensures
        r == click_plan(running, left_active, right_active, interval_micros),
{
    if !running {
        return ClickPlan { click_left: false, click_right: false, sleep_micros: STOPPED_CLICK_POLL_MICROS };
    }
    let sleep_micros = if left_active || right_active {
        interval_micros
    } else {
        IDLE_CLICK_POLL_MICROS
    };
    ClickPlan { click_left: left_active, click_right: right_active, sleep_micros }
}

/// While running, the driver clicks exactly the active targets and, when any
/// is active, waits the click interval; with none active it clicks nothing.
pub proof fn lemma_clicks_follow_activation(left_active: bool, right_active: bool, interval_micros: u64)
    ensures
        click_plan(true, left_active, right_active, interval_micros).click_left == left_active,
        click_plan(true, left_active, right_active, interval_micros).click_right == right_active,
        left_active || right_active ==> click_plan(true, left_active, right_active, interval_micros).sleep_micros
            == interval_micros,
        !left_active && !right_active ==> !click_plan(true, left_active, right_active, interval_micros).click_left
            && !click_plan(true, left_active, right_active, interval_micros).click_right,
        !click_plan(false, left_active, right_active, interval_micros).click_left,
        !click_plan(false, left_active, right_active, interval_micros).click_right,
{
}

} // verus!
