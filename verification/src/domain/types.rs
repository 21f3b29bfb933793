//! Domain types of the trading system.

use vstd::prelude::*;
use vstd::string::StringExecFns;
use crate::domain::error::FerrumError;
use crate::text::{
    chars_to_string, lemma_split_on_join, lemma_split_on_no_sep, split_chars, split_on, str_chars,
    views,
};

verus! {

/// A trading pair as its two asset names.
pub ghost struct PairView {
    pub base: Seq<char>,
    pub quote: Seq<char>,
}

/// Trading pair in BASE-QUOTE format.
#[derive(Debug, Clone)]
pub struct TradingPair {
    pub base: String,
    pub quote: String,
}

impl View for TradingPair {
    type V = PairView;

    open spec fn view(&self) -> PairView {
        PairView { base: self.base@, quote: self.quote@ }
    }
}

/// The pair that `from_dash` reads from `s`, if any: the two pieces of `s`
/// around its only `'-'`.
pub open spec fn dash_pair(s: Seq<char>) -> Option<PairView> {
    let parts = split_on(s, '-');
    if parts.len() == 2 {
        Some(PairView { base: parts[0], quote: parts[1] })
    } else {
        None
    }
}

/// Writing a pair with `to_string` and reading it back with `from_dash` gives
/// the same pair, whenever neither asset name holds a `'-'`.
pub proof fn law_dash_round_trip(p: PairView)
    requires
        !p.base.contains('-'),
        !p.quote.contains('-'),
    ensures
        dash_pair(p.base + "-"@ + p.quote) == Some(p),
{
    reveal_strlit("-");
    assert("-"@ =~= seq!['-']);
    lemma_split_on_join(p.base, p.quote, '-');
    lemma_split_on_no_sep(p.base, '-');
    lemma_split_on_no_sep(p.quote, '-');
    assert(split_on(p.base + "-"@ + p.quote, '-') =~= seq![p.base, p.quote]);
}

impl TradingPair {
    /// The pair with the given base and quote assets.
    pub fn new(base: &str, quote: &str) -> (r: Self)
        ensures
            r.base@ == base@,
            r.quote@ == quote@,
    {
        TradingPair { base: String::from_str(base), quote: String::from_str(quote) }
    }

    /// Reads a pair written `BASE-QUOTE`: the text must hold exactly one `'-'`.
    pub fn from_dash(s: &str) -> (r: Result<Self, FerrumError>)
        ensures
            match r {
                Ok(p) => dash_pair(s@) == Some(p@),
                Err(e) => dash_pair(s@) is None && (e matches FerrumError::InvalidTradingPair(m)
                    && m@ == s@),
            },
    {
        let chars = str_chars(s);
        let parts = split_chars(&chars, '-');
        if parts.len() != 2 {
            return Err(FerrumError::InvalidTradingPair(String::from_str(s)));
        }
        assert(views(parts@)[0] == parts@[0]@ && views(parts@)[1] == parts@[1]@);
        Ok(TradingPair { base: chars_to_string(&parts[0]), quote: chars_to_string(&parts[1]) })
    }

    /// The pair written `BASE/QUOTE`.
    pub fn symbol(&self) -> (r: String)
        ensures
            r@ == self.base@ + "/"@ + self.quote@,
    {
        self.base.clone().concat("/").concat(self.quote.as_str())
    }

    /// The pair written `BASE-QUOTE`, the form `from_dash` reads.
    pub fn to_string(&self) -> (r: String)
        ensures
            r@ == self.base@ + "-"@ + self.quote@,
    {
        self.base.clone().concat("-").concat(self.quote.as_str())
    }

    /// Whether two pairs name the same assets.
    pub fn same_as(&self, other: &TradingPair) -> (r: bool)
        ensures
            r == (self@ == other@),
    {
        self.base == other.base && self.quote == other.quote
    }
}

/// Order side.
#[derive(Debug, Clone, Copy, PartialEq, Eq, Hash, Structural)]
pub enum Side {
    Buy,
    Sell,
    /// For liquidity-provision positions.
    Range,
}

/// Order type.
#[derive(Debug, Clone, Copy, PartialEq, Eq, Hash, Structural)]
pub enum OrderType {
    Market,
    Limit,
    StopMarket,
    TakeProfitMarket,
}

/// Executor types.
#[derive(Debug, Clone, Copy, PartialEq, Eq, Hash, Structural)]
pub enum ExecutorType {
    Swap,
    Order,
    Lp,
    Position,
    Grid,
    Dca,
}

/// How an executor was terminated.
#[derive(Debug, Clone, Copy, PartialEq, Eq, Hash, Structural)]
pub enum CloseType {
    TakeProfit,
    StopLoss,
    TimeLimit,
    TrailingStop,
    EarlyStop,
}

/// Executor status, with the close type once terminated.
#[derive(Debug, Clone, Copy, PartialEq, Eq, Structural)]
pub enum ExecutorStatus {
    Created,
    Active,
    Terminated(CloseType),
}

/// Unique executor identifier.
#[derive(Debug, Clone, PartialEq, Eq, Hash)]
pub struct ExecutorId(pub String);

impl ExecutorId {
    /// The identifier's text.
    pub fn inner(&self) -> (r: &str)
        ensures
            r@ == self.0@,
    {
        self.0.as_str()
    }
}

/// Unique order identifier.
#[derive(Debug, Clone, PartialEq, Eq, Hash)]
pub struct OrderId(pub String);

/// Candle interval.
#[derive(Debug, Clone, Copy, PartialEq, Eq, Hash, Structural)]
pub enum Interval {
    M1,
    M3,
    M5,
    M15,
    M30,
    H1,
    H4,
    D1,
    W1,
}

/// The length of each interval in seconds.
pub open spec fn interval_seconds(i: Interval) -> nat {
    match i {
        Interval::M1 => 60,
        Interval::M3 => 180,
        Interval::M5 => 300,
        Interval::M15 => 900,
        Interval::M30 => 1800,
        Interval::H1 => 3600,
        Interval::H4 => 14400,
        Interval::D1 => 86400,
        Interval::W1 => 604800,
    }
}

impl Interval {
    /// The length of the interval in seconds.
    pub fn to_seconds(&self) -> (r: u64)
        ensures
            r == interval_seconds(*self),
    {
        match self {
            Interval::M1 => 60,
            Interval::M3 => 180,
            Interval::M5 => 300,
            Interval::M15 => 900,
            Interval::M30 => 1800,
            Interval::H1 => 3600,
            Interval::H4 => 14400,
            Interval::D1 => 86400,
            Interval::W1 => 604800,
        }
    }
}

/// Status of an order on an exchange.
#[derive(Debug, Clone, Copy, PartialEq, Eq, Structural)]
pub enum OrderStatus {
    New,
    PartiallyFilled,
    Filled,
    Canceled,
    Rejected,
    Expired,
}

/// Result of an executor action.
#[derive(Debug, Clone)]
pub enum ExecutorResult {
    Success { executor_id: ExecutorId },
    Blocked { reason: String },
    Failed { error: String },
}

/// Market regime classification.
#[derive(Debug, Clone, Copy, PartialEq, Eq, Hash, Structural)]
pub enum MarketRegime {
    TrendingUp,
    TrendingDown,
    Ranging,
    Volatile,
    Crisis,
}

/// Trading signal.
#[derive(Debug, Clone, Copy, PartialEq, Eq, Hash, Structural)]
pub enum Signal {
    Buy,
    Sell,
    Hold,
}

/// Each interval lasts its name: one, three, five, fifteen and thirty
/// minutes; one and four hours; a day; a week.
pub proof fn law_interval_lengths()
    ensures
        interval_seconds(Interval::M1) == 60,
        interval_seconds(Interval::M3) == 3 * 60,
        interval_seconds(Interval::M5) == 5 * 60,
        interval_seconds(Interval::M15) == 15 * 60,
        interval_seconds(Interval::M30) == 30 * 60,
        interval_seconds(Interval::H1) == 60 * 60,
        interval_seconds(Interval::H4) == 4 * 60 * 60,
        interval_seconds(Interval::D1) == 24 * 60 * 60,
        interval_seconds(Interval::W1) == 7 * 24 * 60 * 60,
{
}

} // verus!
