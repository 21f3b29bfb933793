//! Backtest strategies: their parameters and the signal each one gives.

use vstd::prelude::*;

verus! {

/// A trade signal from a strategy.
#[derive(Debug, Clone, Copy, PartialEq, Eq, Structural)]
pub enum TradeSignal {
    Buy,
    Sell,
    ClosePosition,
    Hold,
}

/// How the fast moving average stands against the slow one.
#[derive(Debug, Clone, Copy, PartialEq, Eq, Structural)]
pub enum AverageCross {
    FastAbove,
    FastBelow,
    Level,
}

/// Simple moving-average crossover strategy.
pub struct SmaCrossoverStrategy {
    pub fast_period: usize,
    pub slow_period: usize,
}

/// The crossover signal: with both averages known, hold a position until
/// the fast average falls below the slow one, and buy when flat and the fast
/// average is above the slow one; hold otherwise.
pub open spec fn crossover_signal(has_position: bool, cross: Option<AverageCross>) -> TradeSignal {
    match cross {
        Some(c) => if has_position {
            if c == AverageCross::FastBelow {
                TradeSignal::ClosePosition
            } else {
                TradeSignal::Hold
            }
        } else if c == AverageCross::FastAbove {
            TradeSignal::Buy
        } else {
            TradeSignal::Hold
        },
        None => TradeSignal::Hold,
    }
}

impl SmaCrossoverStrategy {
    /// A strategy over the given fast and slow periods, in candles.
    pub fn new(fast_period: usize, slow_period: usize) -> (r: Self)
        ensures
            r.fast_period == fast_period,
            r.slow_period == slow_period,
    {
        SmaCrossoverStrategy { fast_period, slow_period }
    }

    /// Whether `candle_count` candles cover a window of `period`.
    pub fn has_window(candle_count: usize, period: usize) -> (r: bool)
        ensures
            r == (candle_count >= period),
    {
        candle_count >= period
    }

    /// The signal for the current averages; `cross` is `None` while either
    /// average lacks candles.
    pub fn signal(has_position: bool, cross: Option<AverageCross>) -> (r: TradeSignal)
        ensures
            r == crossover_signal(has_position, cross),
    {
        match cross {
            Some(c) => if has_position {
                if c == AverageCross::FastBelow {
                    TradeSignal::ClosePosition
                } else {
                    TradeSignal::Hold
                }
            } else if c == AverageCross::FastAbove {
                TradeSignal::Buy
            } else {
                TradeSignal::Hold
            },
            None => TradeSignal::Hold,
        }
    }
}

/// The mean-reversion signal: with the index known, close a position when it
/// is above the overbought level, buy when flat and it is below the oversold
/// level; hold otherwise.
pub open spec fn reversion_signal(has_position: bool, index_known: bool, above_overbought: bool, below_oversold: bool) -> TradeSignal {
    if !index_known {
        TradeSignal::Hold
    } else if has_position {
        if above_overbought {
            TradeSignal::ClosePosition
        } else {
            TradeSignal::Hold
        }
    } else if below_oversold {
        TradeSignal::Buy
    } else {
        TradeSignal::Hold
    }
}

/// The relative-strength mean-reversion signal, from where the index
/// stands against its two levels.
pub fn rsi_signal(has_position: bool, index_known: bool, above_overbought: bool, below_oversold: bool) -> (r: TradeSignal)
    ensures
        r == reversion_signal(has_position, index_known, above_overbought, below_oversold),
{
    if !index_known {
        TradeSignal::Hold
    } else if has_position {
        if above_overbought {
            TradeSignal::ClosePosition
        } else {
            TradeSignal::Hold
        }
    } else if below_oversold {
        TradeSignal::Buy
    } else {
        TradeSignal::Hold
    }
}

/// Whether `candle_count` candles give a relative-strength index over
/// `period` changes: one more candle than the period is needed.
pub fn rsi_has_window(candle_count: usize, period: usize) -> (r: bool)
    ensures
        r == (candle_count >= period + 1),
{
    candle_count > period
}

/// The crossover strategy buys exactly when it holds no position and the
/// fast average is above the slow one, closes exactly when it holds a
/// position and the fast average is below the slow one, and otherwise
/// holds.
pub proof fn law_crossover_rules(has_position: bool, cross: Option<AverageCross>)
    ensures
        (crossover_signal(has_position, cross) == TradeSignal::Buy) <==> (!has_position && cross
            == Some(AverageCross::FastAbove)),
        (crossover_signal(has_position, cross) == TradeSignal::ClosePosition) <==> (has_position
            && cross == Some(AverageCross::FastBelow)),
        crossover_signal(has_position, cross) == TradeSignal::Buy || crossover_signal(
            has_position,
            cross,
        ) == TradeSignal::ClosePosition || crossover_signal(has_position, cross) == TradeSignal::Hold,
{
}

/// With the index known, the mean-reversion strategy buys exactly when it
/// holds no position and the index is below the oversold level, closes
/// exactly when it holds a position and the index is above the overbought
/// level, and holds otherwise: in particular, an index between the two
/// levels always holds. While the index is unknown it holds.
pub proof fn law_reversion_thresholds(has_position: bool, known: bool, above: bool, below: bool)
    ensures
        (reversion_signal(has_position, known, above, below) == TradeSignal::Buy) <==> (known
            && !has_position && below),
        (reversion_signal(has_position, known, above, below) == TradeSignal::ClosePosition) <==> (
        known && has_position && above),
        (!above && !below) ==> reversion_signal(has_position, known, above, below)
            == TradeSignal::Hold,
        !known ==> reversion_signal(has_position, known, above, below) == TradeSignal::Hold,
        reversion_signal(has_position, known, above, below) != TradeSignal::Sell,
{
}

/// Neither strategy ever sells short: their signals are buy, close or hold.
pub proof fn law_strategies_never_short(has_position: bool, cross: Option<AverageCross>, known: bool, above: bool, below: bool)
    ensures
        crossover_signal(has_position, cross) != TradeSignal::Sell,
        reversion_signal(has_position, known, above, below) != TradeSignal::Sell,
        has_position ==> crossover_signal(has_position, cross) != TradeSignal::Buy,
        has_position ==> reversion_signal(has_position, known, above, below) != TradeSignal::Buy,
        !has_position ==> crossover_signal(has_position, cross) != TradeSignal::ClosePosition,
        !has_position ==> reversion_signal(has_position, known, above, below) != TradeSignal::ClosePosition,
{
}

} // verus!
