//! The oracle gate: a quote is taken to six decimals and held against the
//! bounds on plausibility, publish time, age, confidence and jump. Gating is
//! a pure function of the quote, the clock and the last accepted price.

use vstd::prelude::*;
use pyth_sdk::PriceFeed;
use crate::errors::ErrorCode;
use crate::fixed_point::{
    abs_diff, clamp_i128_to_i64, scale_to_fp_1e6, scaled_fp, scales_within_i128,
};

verus! {

/// `pyth_sdk::PriceFeed`, declared opaque: a price feed as the oracle
/// publishes it. Verified code only carries it and reads its two prices.
#[verifier::external_type_specification]
#[verifier::external_body]
pub struct ExPriceFeed(PriceFeed);

/// The quote passed every check.
pub const REASON_ACCEPTED: u8 = 0;

/// The quote is older than the configured age.
pub const REASON_STALE: u8 = 1;

/// The confidence interval is wider than the configured share of the price.
pub const REASON_CONFIDENCE: u8 = 2;

/// The price jumped further from the last accepted one than configured.
pub const REASON_JUMP: u8 = 3;

/// The spot or the EMA price is not positive, or above the ceiling.
pub const REASON_BAD_PRICE: u8 = 10;

/// The quote carries no publish time.
pub const REASON_NO_PUBLISH_TIME: u8 = 11;

/// The quote was published after the current time.
pub const REASON_FUTURE_PUBLISH_TIME: u8 = 12;

/// The feed could not be read at all.
pub const REASON_FEED_UNAVAILABLE: u8 = 13;

/// Which feed the oracle gate reads.
#[derive(Clone, Copy, Debug, PartialEq, Eq, Hash)]
pub enum OracleFeedChoice {
    /// Always the SOL/USD feed.
    SolUsd,
    /// Always the SOL/USDC feed.
    SolUsdc,
    /// The SOL/USD feed, and the SOL/USDC feed where that one is rejected.
    AutoPreferUsdThenUsdc,
}

impl OracleFeedChoice {
    /// The number that stands for the choice in parameters and events.
    pub open spec fn spec_code(self) -> u8 {
        match self {
            OracleFeedChoice::SolUsd => 1,
            OracleFeedChoice::SolUsdc => 2,
            OracleFeedChoice::AutoPreferUsdThenUsdc => 3,
        }
    }

    /// The number that stands for the choice in parameters and events.
    #[verifier::when_used_as_spec(spec_code)]
    pub fn code(self) -> (c: u8)
        ensures
            c == self.spec_code(),
    {
        match self {
            OracleFeedChoice::SolUsd => 1,
            OracleFeedChoice::SolUsdc => 2,
            OracleFeedChoice::AutoPreferUsdThenUsdc => 3,
        }
    }

    /// The choice a number stands for, if any.
    pub open spec fn spec_from_code(c: u8) -> Option<OracleFeedChoice> {
        if c == 1 {
            Some(OracleFeedChoice::SolUsd)
        } else if c == 2 {
            Some(OracleFeedChoice::SolUsdc)
        } else if c == 3 {
            Some(OracleFeedChoice::AutoPreferUsdThenUsdc)
        } else {
            None
        }
    }

    /// The choice a number stands for, if any.
    #[verifier::when_used_as_spec(spec_from_code)]
    pub fn from_code(c: u8) -> (m: Option<OracleFeedChoice>)
        ensures
            m == OracleFeedChoice::spec_from_code(c),
    {
        if c == 1 {
            Some(OracleFeedChoice::SolUsd)
        } else if c == 2 {
            Some(OracleFeedChoice::SolUsdc)
        } else if c == 3 {
            Some(OracleFeedChoice::AutoPreferUsdThenUsdc)
        } else {
            None
        }
    }
}

/// One price as the oracle quotes it: `price` and `conf` times ten to the
/// power `expo`, published at `publish_time` (unix seconds).
#[derive(Clone, Copy, Debug, PartialEq, Eq)]
pub struct PythPrice {
    pub price: i64,
    pub conf: u64,
    pub expo: i32,
    pub publish_time: i64,
}

/// The two prices of one feed.
#[derive(Clone, Copy, Debug, PartialEq, Eq)]
pub struct FeedQuote {
    pub spot: PythPrice,
    pub ema: PythPrice,
}

/// The current price that a feed holds: what `PriceFeed::get_price_unchecked`
/// returns for it.
pub uninterp spec fn feed_spot(feed: PriceFeed) -> PythPrice;

/// The exponentially weighted average price that a feed holds: what
/// `PriceFeed::get_ema_price_unchecked` returns for it.
pub uninterp spec fn feed_ema(feed: PriceFeed) -> PythPrice;

/// The quote that a feed holds.
pub open spec fn feed_quote(feed: PriceFeed) -> FeedQuote {
    FeedQuote { spot: feed_spot(feed), ema: feed_ema(feed) }
}

/// `PriceFeed::get_price_unchecked`: hands out the feed's current price as it
/// is stored, with no check of its age. Nothing is proved of it; the contract
/// only gives the result its name.
#[verifier::external_body]
fn feed_spot_price(feed: &PriceFeed) -> (p: PythPrice)
    ensures
        p == feed_spot(*feed),
{
    let p = feed.get_price_unchecked();
    PythPrice { price: p.price, conf: p.conf, expo: p.expo, publish_time: p.publish_time }
}

/// `PriceFeed::get_ema_price_unchecked`: hands out the feed's average price as
/// it is stored, with no check of its age. Nothing is proved of it; the
/// contract only gives the result its name.
#[verifier::external_body]
fn feed_ema_price(feed: &PriceFeed) -> (p: PythPrice)
    ensures
        p == feed_ema(*feed),
{
    let p = feed.get_ema_price_unchecked();
    PythPrice { price: p.price, conf: p.conf, expo: p.expo, publish_time: p.publish_time }
}

/// A fixed-point amount limited to what 63 bits hold: below zero it is zero,
/// above the range it is the top of the range.
pub open spec fn limit_i64(x: int) -> int {
    if x < 0 {
        0
    } else if x > i64::MAX {
        i64::MAX as int
    } else {
        x
    }
}

/// Whether price and confidence can be taken to six decimals.
pub open spec fn price_scalable(p: PythPrice) -> bool {
    scales_within_i128(p.price as int, p.expo as int) && scales_within_i128(
        p.conf as int,
        p.expo as int,
    )
}

/// The price at six decimals, as quoted.
pub open spec fn scaled_price(p: PythPrice) -> int {
    scaled_fp(p.price as int, p.expo as int)
}

/// The confidence at six decimals, as quoted.
pub open spec fn scaled_conf(p: PythPrice) -> int {
    scaled_fp(p.conf as int, p.expo as int)
}

/// The price at six decimals, limited to 63 bits.
pub open spec fn price_fp_of(p: PythPrice) -> int {
    limit_i64(scaled_price(p))
}

/// The confidence at six decimals, limited to 63 bits.
pub open spec fn conf_fp_of(p: PythPrice) -> int {
    limit_i64(scaled_conf(p))
}

/// The publish time in unsigned seconds; zero stands for none.
pub open spec fn publish_time_of(p: PythPrice) -> int {
    if p.publish_time <= 0 {
        0
    } else {
        p.publish_time as int
    }
}

/// The current time in unsigned seconds.
pub open spec fn clock_seconds(now_unix_ts: int) -> int {
    if now_unix_ts <= 0 {
        0
    } else {
        now_unix_ts
    }
}

/// First check: spot and EMA price are positive and at most the ceiling.
pub open spec fn prices_plausible(spot_fp: int, ema_fp: int) -> bool {
    0 < spot_fp <= 10_000_000_000_000 && 0 < ema_fp <= 10_000_000_000_000
}

/// Second check: the quote has a publish time, and it is not in the future.
pub open spec fn publish_time_plausible(publish_time: int, now_unix_ts: int) -> bool {
    publish_time != 0 && publish_time <= clock_seconds(now_unix_ts)
}

/// Third check: the quote is at most `max_age_seconds` old.
pub open spec fn fresh_enough(publish_time: int, now_unix_ts: int, max_age_seconds: int) -> bool {
    clock_seconds(now_unix_ts) - publish_time <= max_age_seconds
}

/// Fourth check: the confidence is at most `max_conf_bps` of the price.
pub open spec fn confident_enough(spot_fp: int, conf_fp: int, max_conf_bps: int) -> bool {
    conf_fp <= spot_fp * max_conf_bps / 10000
}

/// Fifth check: the price is within `max_jump_bps` of the last accepted one,
/// where there is one.
pub open spec fn jump_within_bound(spot_fp: int, last_price_fp: int, max_jump_bps: int) -> bool {
    last_price_fp <= 0 || abs_diff(spot_fp, last_price_fp) * 10000 / last_price_fp
        <= max_jump_bps
}

/// The verdict on a quote at six decimals: zero where all five checks pass,
/// else the code of the first check that fails.
pub open spec fn gate_reason(
    spot_fp: int,
    ema_fp: int,
    conf_fp: int,
    publish_time: int,
    now_unix_ts: int,
    max_age_seconds: int,
    max_conf_bps: int,
    max_jump_bps: int,
    last_price_fp: int,
) -> u8 {
    if !prices_plausible(spot_fp, ema_fp) {
        REASON_BAD_PRICE
    } else if publish_time == 0 {
        REASON_NO_PUBLISH_TIME
    } else if !publish_time_plausible(publish_time, now_unix_ts) {
        REASON_FUTURE_PUBLISH_TIME
    } else if !fresh_enough(publish_time, now_unix_ts, max_age_seconds) {
        REASON_STALE
    } else if !confident_enough(spot_fp, conf_fp, max_conf_bps) {
        REASON_CONFIDENCE
    } else if !jump_within_bound(spot_fp, last_price_fp, max_jump_bps) {
        REASON_JUMP
    } else {
        REASON_ACCEPTED
    }
}

/// A quote is accepted exactly when all five checks pass; a rejection names
/// the first failing check in the order plausibility, publish time, age,
/// confidence, jump.
pub proof fn lemma_gate_accepts_iff_all_checks_pass(
    spot_fp: int,
    ema_fp: int,
    conf_fp: int,
    publish_time: int,
    now_unix_ts: int,
    max_age_seconds: int,
    max_conf_bps: int,
    max_jump_bps: int,
    last_price_fp: int,
)
    ensures
        ({
            let reason = gate_reason(
                spot_fp,
                ema_fp,
                conf_fp,
                publish_time,
                now_unix_ts,
                max_age_seconds,
                max_conf_bps,
                max_jump_bps,
                last_price_fp,
            );
            let c1 = prices_plausible(spot_fp, ema_fp);
            let c2 = publish_time_plausible(publish_time, now_unix_ts);
            let c3 = fresh_enough(publish_time, now_unix_ts, max_age_seconds);
            let c4 = confident_enough(spot_fp, conf_fp, max_conf_bps);
            let c5 = jump_within_bound(spot_fp, last_price_fp, max_jump_bps);
            &&& reason == REASON_ACCEPTED <==> c1 && c2 && c3 && c4 && c5
            &&& reason == REASON_ACCEPTED <==> {
                &&& 0 < spot_fp <= 10_000_000_000_000
                &&& 0 < ema_fp <= 10_000_000_000_000
                &&& publish_time != 0
                &&& publish_time <= clock_seconds(now_unix_ts)
                &&& clock_seconds(now_unix_ts) - publish_time <= max_age_seconds
                &&& conf_fp <= spot_fp * max_conf_bps / 10000
                &&& (last_price_fp <= 0 || abs_diff(spot_fp, last_price_fp) * 10000
                    / last_price_fp <= max_jump_bps)
            }
            &&& reason == REASON_BAD_PRICE <==> !c1
            &&& reason == REASON_NO_PUBLISH_TIME || reason == REASON_FUTURE_PUBLISH_TIME <==> c1
                && !c2
            &&& reason == REASON_STALE <==> c1 && c2 && !c3
            &&& reason == REASON_CONFIDENCE <==> c1 && c2 && c3 && !c4
            &&& reason == REASON_JUMP <==> c1 && c2 && c3 && c4 && !c5
        }),
{
}

/// The verdict on a quote as the feed holds it: it is accepted exactly when
/// its prices at six decimals are positive and at most the ceiling, its
/// publish time is set, not in the future and not too old, its confidence
/// is within the configured share of the price, and the price is within
/// the configured jump of the last accepted one.
pub proof fn lemma_quote_accepted_iff_checks_pass(
    q: FeedQuote,
    now_unix_ts: int,
    max_age_seconds: int,
    max_conf_bps: int,
    max_jump_bps: int,
    last_price_fp: int,
)
    ensures
        ({
            let reading = quote_reading(
                q,
                now_unix_ts,
                max_age_seconds,
                max_conf_bps,
                max_jump_bps,
                last_price_fp,
            );
            let spot = scaled_price(q.spot);
            let ema = scaled_price(q.ema);
            let conf = scaled_conf(q.spot);
            let published = publish_time_of(q.spot);
            let now = clock_seconds(now_unix_ts);
            &&& reading.4 <==> reading.5 == REASON_ACCEPTED
            &&& reading.4 <==> {
                &&& 0 < spot <= 10_000_000_000_000
                &&& 0 < ema <= 10_000_000_000_000
                &&& published != 0
                &&& published <= now
                &&& now - published <= max_age_seconds
                &&& conf <= spot * max_conf_bps / 10000
                &&& (last_price_fp <= 0 || abs_diff(spot, last_price_fp) * 10000 / last_price_fp
                    <= max_jump_bps)
            }
            &&& reading.5 == gate_reason(
                spot,
                ema,
                conf,
                published,
                now_unix_ts,
                max_age_seconds,
                max_conf_bps,
                max_jump_bps,
                last_price_fp,
            )
            &&& reading.4 ==> reading.0 == spot && reading.1 == ema && reading.3 == published
        }),
{
}

/// What the oracle gate reports of a quote: spot, EMA, confidence, publish time,
/// whether it is accepted, and the reason code. The checks read the quote as
/// it is at six decimals; the report holds it within 63 bits, and an
/// implausible price as zeros.
pub open spec fn quote_reading(
    q: FeedQuote,
    now_unix_ts: int,
    max_age_seconds: int,
    max_conf_bps: int,
    max_jump_bps: int,
    last_price_fp: int,
) -> (i64, i64, i64, u64, bool, u8) {
    let spot_fp = price_fp_of(q.spot);
    let ema_fp = price_fp_of(q.ema);
    let conf_fp = conf_fp_of(q.spot);
    let publish_time = publish_time_of(q.spot);
    let reason = gate_reason(
        scaled_price(q.spot),
        scaled_price(q.ema),
        scaled_conf(q.spot),
        publish_time,
        now_unix_ts,
        max_age_seconds,
        max_conf_bps,
        max_jump_bps,
        last_price_fp,
    );
    if reason == REASON_BAD_PRICE {
        (0i64, 0i64, 0i64, publish_time as u64, false, reason)
    } else {
        (
            spot_fp as i64,
            ema_fp as i64,
            conf_fp as i64,
            publish_time as u64,
            reason == REASON_ACCEPTED,
            reason,
        )
    }
}

/// What the oracle gate reports of a candidate: an unavailable feed is a rejection
/// of its own, a quote that cannot be taken to six decimals is an overflow.
pub open spec fn candidate_reading(
    q: Option<FeedQuote>,
    now_unix_ts: int,
    max_age_seconds: int,
    max_conf_bps: int,
    max_jump_bps: int,
    last_price_fp: int,
) -> Result<(i64, i64, i64, u64, bool, u8), ErrorCode> {
    match q {
        None => Ok((0i64, 0i64, 0i64, 0u64, false, REASON_FEED_UNAVAILABLE)),
        Some(q) => if price_scalable(q.spot) && price_scalable(q.ema) {
            Ok(
                quote_reading(
                    q,
                    now_unix_ts,
                    max_age_seconds,
                    max_conf_bps,
                    max_jump_bps,
                    last_price_fp,
                ),
            )
        } else {
            Err(ErrorCode::MathOverflow)
        },
    }
}

/// A reading with the number of the feed it came from in front.
pub open spec fn tagged(feed: u8, r: (i64, i64, i64, u64, bool, u8)) -> (
    u8,
    i64,
    i64,
    i64,
    u64,
    bool,
    u8,
) {
    (feed, r.0, r.1, r.2, r.3, r.4, r.5)
}

/// What the oracle gate reports under a feed choice. With a fixed choice: the
/// reading of that feed. With the automatic choice: the first feed if it is
/// accepted, else the second if that is accepted, else the rejection of the
/// first.
pub open spec fn best_effort_reading(
    choice: OracleFeedChoice,
    sol_usd: Option<FeedQuote>,
    sol_usdc: Option<FeedQuote>,
    now_unix_ts: int,
    max_age_seconds: int,
    max_conf_bps: int,
    max_jump_bps: int,
    last_price_fp: int,
) -> Result<(u8, i64, i64, i64, u64, bool, u8), ErrorCode> {
    let first = candidate_reading(
        sol_usd,
        now_unix_ts,
        max_age_seconds,
        max_conf_bps,
        max_jump_bps,
        last_price_fp,
    );
    let second = candidate_reading(
        sol_usdc,
        now_unix_ts,
        max_age_seconds,
        max_conf_bps,
        max_jump_bps,
        last_price_fp,
    );
    match choice {
        OracleFeedChoice::SolUsd => match first {
            Ok(r) => Ok(tagged(1, r)),
            Err(e) => Err(e),
        },
        OracleFeedChoice::SolUsdc => match second {
            Ok(r) => Ok(tagged(2, r)),
            Err(e) => Err(e),
        },
        OracleFeedChoice::AutoPreferUsdThenUsdc => match first {
            Err(e) => Err(e),
            Ok(r1) => if r1.4 {
                Ok(tagged(1, r1))
            } else {
                match second {
                    Err(e) => Err(e),
                    Ok(r2) => if r2.4 {
                        Ok(tagged(2, r2))
                    } else {
                        Ok(tagged(1, r1))
                    },
                }
            },
        },
    }
}

/// Takes a quoted price to six decimals: price and confidence, each limited
/// to 63 bits, and the publish time.
pub fn pyth_price_to_fp_and_time(p: &PythPrice) -> (r: Result<(i64, i64, u64), ErrorCode>)
    ensures
        price_scalable(*p) ==> r == Ok::<(i64, i64, u64), ErrorCode>(
            (price_fp_of(*p) as i64, conf_fp_of(*p) as i64, publish_time_of(*p) as u64),
        ),
        !price_scalable(*p) ==> r == Err::<(i64, i64, u64), ErrorCode>(ErrorCode::MathOverflow),
{
    let expo = p.expo;
    let price_wide = p.price as i128;
    let conf_wide = p.conf as i128;
    let (price_fp_wide, conf_fp_wide) = match scale_to_fp_1e6(price_wide, conf_wide, expo) {
        Ok(pair) => pair,
        Err(e) => {
            return Err(e);
        },
    };
    let price_fp = match clamp_i128_to_i64(price_fp_wide, 0, i64::MAX) {
        Ok(v) => v,
        Err(e) => {
            return Err(e);
        },
    };
    let conf_fp = match clamp_i128_to_i64(conf_fp_wide, 0, i64::MAX) {
        Ok(v) => v,
        Err(e) => {
            return Err(e);
        },
    };
    let publish_time: u64 = if p.publish_time <= 0 {
        0u64
    } else {
        p.publish_time as u64
    };
    Ok((price_fp, conf_fp, publish_time))
}

/// Gates one quote against staleness, confidence and jump bounds.
pub fn gate_quote(
    quote: &FeedQuote,
    now_unix_ts: i64,
    max_age_seconds: u64,
    max_conf_bps: u16,
    max_jump_bps: u16,
    last_price_fp: i64,
) -> (r: Result<(i64, i64, i64, u64, bool, u8), ErrorCode>)
    ensures
        r == candidate_reading(
            Some(*quote),
            now_unix_ts as int,
            max_age_seconds as int,
            max_conf_bps as int,
            max_jump_bps as int,
            last_price_fp as int,
        ),
        r matches Ok(reading) ==> (reading.4 <==> reading.5 == REASON_ACCEPTED),
{
    let (spot_fp, spot_conf_fp, spot_publish_time) = match pyth_price_to_fp_and_time(&quote.spot) {
        Ok(t) => t,
        Err(e) => {
            return Err(e);
        },
    };
    let (ema_fp, _ema_conf_fp, _ema_publish_time) = match pyth_price_to_fp_and_time(&quote.ema) {
        Ok(t) => t,
        Err(e) => {
            return Err(e);
        },
    };
    if spot_fp <= 0 || spot_fp > 10_000_000_000_000 || ema_fp <= 0 || ema_fp > 10_000_000_000_000 {
        return Ok((0, 0, 0, spot_publish_time, false, REASON_BAD_PRICE));
    }
    if spot_publish_time == 0 {
        return Ok((spot_fp, ema_fp, spot_conf_fp, spot_publish_time, false, REASON_NO_PUBLISH_TIME));
    }
    let now_seconds: u64 = if now_unix_ts <= 0 {
        0u64
    } else {
        now_unix_ts as u64
    };
    if now_seconds < spot_publish_time {
        return Ok(
            (spot_fp, ema_fp, spot_conf_fp, spot_publish_time, false, REASON_FUTURE_PUBLISH_TIME),
        );
    }
    let age_seconds = now_seconds - spot_publish_time;
    if age_seconds > max_age_seconds {
        return Ok((spot_fp, ema_fp, spot_conf_fp, spot_publish_time, false, REASON_STALE));
    }
    assert(0 <= (spot_fp as i128) * (max_conf_bps as i128) <= 10_000_000_000_000 * 0xffff)
        by (nonlinear_arith)
        requires
            0 < spot_fp <= 10_000_000_000_000,
            0 <= max_conf_bps <= 0xffff,
    ;
    let max_conf_fp: i128 = (spot_fp as i128) * (max_conf_bps as i128) / 10_000;
    if (spot_conf_fp as i128) > max_conf_fp {
        return Ok((spot_fp, ema_fp, spot_conf_fp, spot_publish_time, false, REASON_CONFIDENCE));
    }
    if last_price_fp > 0 {
        let last = last_price_fp as i128;
        let moved: i128 = if (spot_fp as i128) >= last {
            (spot_fp as i128) - last
        } else {
            last - (spot_fp as i128)
        };
        let jump: i128 = moved * 10_000 / last;
        if jump > (max_jump_bps as i128) {
            return Ok((spot_fp, ema_fp, spot_conf_fp, spot_publish_time, false, REASON_JUMP));
        }
    }
    Ok((spot_fp, ema_fp, spot_conf_fp, spot_publish_time, true, REASON_ACCEPTED))
}

/// Gates one candidate; a missing quote is rejected as unavailable.
pub fn gate_candidate(
    quote: Option<FeedQuote>,
    now_unix_ts: i64,
    max_age_seconds: u64,
    max_conf_bps: u16,
    max_jump_bps: u16,
    last_price_fp: i64,
) -> (r: Result<(i64, i64, i64, u64, bool, u8), ErrorCode>)
    ensures
        r == candidate_reading(
            quote,
            now_unix_ts as int,
            max_age_seconds as int,
            max_conf_bps as int,
            max_jump_bps as int,
            last_price_fp as int,
        ),
        r matches Ok(reading) ==> (reading.4 <==> reading.5 == REASON_ACCEPTED),
{
    match quote {
        None => Ok((0, 0, 0, 0, false, REASON_FEED_UNAVAILABLE)),
        Some(q) => gate_quote(
            &q,
            now_unix_ts,
            max_age_seconds,
            max_conf_bps,
            max_jump_bps,
            last_price_fp,
        ),
    }
}

/// Gates the candidates that the feed choice names and reports the chosen
/// feed with its reading.
pub fn gate_oracle(
    choice: OracleFeedChoice,
    sol_usd: Option<FeedQuote>,
    sol_usdc: Option<FeedQuote>,
    now_unix_ts: i64,
    max_age_seconds: u64,
    max_conf_bps: u16,
    max_jump_bps: u16,
    last_price_fp: i64,
) -> (r: Result<(u8, i64, i64, i64, u64, bool, u8), ErrorCode>)
    ensures
        r == best_effort_reading(
            choice,
            sol_usd,
            sol_usdc,
            now_unix_ts as int,
            max_age_seconds as int,
            max_conf_bps as int,
            max_jump_bps as int,
            last_price_fp as int,
        ),
        r matches Ok(reading) ==> (reading.5 <==> reading.6 == REASON_ACCEPTED),
{
    match choice {
        OracleFeedChoice::SolUsd => {
            let (p, e, c, t, ok, reason) = match gate_candidate(
                sol_usd,
                now_unix_ts,
                max_age_seconds,
                max_conf_bps,
                max_jump_bps,
                last_price_fp,
            ) {
                Ok(reading) => reading,
                Err(err) => {
                    return Err(err);
                },
            };
            Ok((OracleFeedChoice::SolUsd.code(), p, e, c, t, ok, reason))
        },
        OracleFeedChoice::SolUsdc => {
            let (p, e, c, t, ok, reason) = match gate_candidate(
                sol_usdc,
                now_unix_ts,
                max_age_seconds,
                max_conf_bps,
                max_jump_bps,
                last_price_fp,
            ) {
                Ok(reading) => reading,
                Err(err) => {
                    return Err(err);
                },
            };
            Ok((OracleFeedChoice::SolUsdc.code(), p, e, c, t, ok, reason))
        },
        OracleFeedChoice::AutoPreferUsdThenUsdc => {
            let (p1, e1, c1, t1, ok1, r1) = match gate_candidate(
                sol_usd,
                now_unix_ts,
                max_age_seconds,
                max_conf_bps,
                max_jump_bps,
                last_price_fp,
            ) {
                Ok(reading) => reading,
                Err(err) => {
                    return Err(err);
                },
            };
            if ok1 {
                return Ok((OracleFeedChoice::SolUsd.code(), p1, e1, c1, t1, ok1, r1));
            }
            let (p2, e2, c2, t2, ok2, r2) = match gate_candidate(
                sol_usdc,
                now_unix_ts,
                max_age_seconds,
                max_conf_bps,
                max_jump_bps,
                last_price_fp,
            ) {
                Ok(reading) => reading,
                Err(err) => {
                    return Err(err);
                },
            };
            if ok2 {
                return Ok((OracleFeedChoice::SolUsdc.code(), p2, e2, c2, t2, ok2, r2));
            }
            let reason: u8 = if r1 != 0 {
                r1
            } else if r2 < 1 {
                1
            } else {
                r2
            };
            Ok((OracleFeedChoice::SolUsd.code(), p1, e1, c1, t1, false, reason))
        },
    }
}

/// Reads the two prices of a feed, if there is one.
pub fn quote_of_feed(feed: Option<&PriceFeed>) -> (q: Option<FeedQuote>)
    ensures
        q == match feed {
            Some(f) => Some(feed_quote(*f)),
            None => None,
        },
{
    match feed {
        Some(f) => Some(FeedQuote { spot: feed_spot_price(f), ema: feed_ema_price(f) }),
        None => None,
    }
}

/// Reads one feed and gates its quote. `None` stands for a feed that could
/// not be loaded. The slot takes no part in the verdict.
pub fn read_pyth_checked(
    feed: Option<&PriceFeed>,
    current_slot: u64,
    now_unix_ts: i64,
    max_age_seconds: u64,
    max_conf_bps: u16,
    max_jump_bps: u16,
    last_price_fp: i64,
) -> (r: Result<(i64, i64, i64, u64, bool, u8), ErrorCode>)
    ensures
        r == candidate_reading(
            match feed {
                Some(f) => Some(feed_quote(*f)),
                None => None,
            },
            now_unix_ts as int,
            max_age_seconds as int,
            max_conf_bps as int,
            max_jump_bps as int,
            last_price_fp as int,
        ),
        r matches Ok(reading) ==> (reading.4 <==> reading.5 == REASON_ACCEPTED),
{
    let _ = current_slot;
    gate_candidate(
        quote_of_feed(feed),
        now_unix_ts,
        max_age_seconds,
        max_conf_bps,
        max_jump_bps,
        last_price_fp,
    )
}

/// Reads the feeds that the choice names and gates them.
pub fn read_pyth_best_effort(
    choice: OracleFeedChoice,
    sol_usd: Option<&PriceFeed>,
    sol_usdc: Option<&PriceFeed>,
    current_slot: u64,
    now_unix_ts: i64,
    max_age_seconds: u64,
    max_conf_bps: u16,
    max_jump_bps: u16,
    last_price_fp: i64,
) -> (r: Result<(u8, i64, i64, i64, u64, bool, u8), ErrorCode>)
    ensures
        r == best_effort_reading(
            choice,
            match sol_usd {
                Some(f) => Some(feed_quote(*f)),
                None => None,
            },
            match sol_usdc {
                Some(f) => Some(feed_quote(*f)),
                None => None,
            },
            now_unix_ts as int,
            max_age_seconds as int,
            max_conf_bps as int,
            max_jump_bps as int,
            last_price_fp as int,
        ),
        r matches Ok(reading) ==> (reading.5 <==> reading.6 == REASON_ACCEPTED),
{
    let _ = current_slot;
    gate_oracle(
        choice,
        quote_of_feed(sol_usd),
        quote_of_feed(sol_usdc),
        now_unix_ts,
        max_age_seconds,
        max_conf_bps,
        max_jump_bps,
        last_price_fp,
    )
}

} // verus!
