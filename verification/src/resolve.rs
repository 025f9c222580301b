//! The rate resolver: code validation, cache consultation and freshness.
//!
//! On a conversion request the resolver normalizes the currency codes to
//! upper case, validates them against the known ISO codes, and consults
//! the store.  A cached rate younger than one week answers the request on
//! the spot; a stale cached record is removed and the caller is told to
//! fetch; the outcome of that fetch is handed back to the resolver, which
//! records a delivered rate in both directions.  The fetch itself is an
//! external capability the resolver never performs: it only ever sees a
//! structured outcome, so a failing fetch turns into an error value, never
//! a crash.

use vstd::prelude::*;

use crate::amounts::flip_rate;
use crate::amounts::frac_eq;
use crate::amounts::lemma_scale_round_trip;
use crate::amounts::scale;
use crate::amounts::scaled_den;
use crate::amounts::scaled_num;
use crate::amounts::widen;
use crate::amounts::Amount;
use crate::amounts::Rate;
use crate::amounts::WideAmount;
use crate::bytes::bytes_eq;
use crate::bytes::to_upper;
use crate::bytes::upper;
use crate::store::add_spec;
use crate::store::find_spec;
use crate::store::flip_rec;
use crate::store::lemma_add_then_find;
use crate::store::lemma_first_match_bounds;
use crate::store::remove_spec;
use crate::store::CurrencyInformation;
use crate::store::ExchangeRate;
use crate::store::RateRec;

verus! {

/// Seconds in the freshness window: a cached rate younger than one week
/// is reused without a fetch.
pub const WEEK_SECONDS: u64 = 604800;

/// Whether a rate obtained at `obtained_at` is still fresh at `now`
/// (both in seconds since the epoch).
pub open spec fn fresh_at(obtained_at: int, now: int) -> bool {
    now - obtained_at < WEEK_SECONDS
}

/// Whether a byte string is a known currency code.
pub uninterp spec fn known_currency(code: Seq<u8>) -> bool;

/// Relies on rusty_money::iso::find: whether a byte string names a known
/// ISO currency code, a lookup in the crate's static table that depends
/// on the bytes alone.
#[verifier::external_body]
fn code_is_known(code: &Vec<u8>) -> (r: bool)
    ensures
        r == known_currency(code@),
{
    rusty_money::iso::find(&String::from_utf8_lossy(code)).is_some()
}

/// Why a conversion failed.
#[derive(Debug, Clone, PartialEq, Eq)]
pub enum CurrErr {
    /// The upper-cased input is not a known currency code.
    UnknownCurrency(Vec<u8>),
    /// The external rate fetch did not deliver a rate.
    ExternalServiceUnavailable,
}

/// What a rate request resolved to without going outside: a fresh cached
/// rate, or the upper-cased pair that the caller must fetch.
#[derive(Debug)]
pub enum RateLookup {
    Fresh(Rate),
    NeedsFetch(Vec<u8>, Vec<u8>),
}

/// What a conversion request resolved to without going outside: the
/// converted amount, or the upper-cased pair that the caller must fetch.
#[derive(Debug)]
pub enum Conversion {
    Done(WideAmount),
    NeedsFetch(Vec<u8>, Vec<u8>),
}

/// The decision the resolver takes for a pair, given the store.
pub ghost enum LookupOutcome {
    /// One of the codes is unknown: the offending upper-cased code.
    UnknownCode(Seq<u8>),
    /// A cached rate is fresh enough to reuse.
    FreshRate(Rate),
    /// No usable cached rate: a fetch is needed.
    Refetch,
}

/// The resolver's decision for upper-cased codes `f` and `t` at time
/// `now`: the first unknown code fails the request; otherwise the first
/// cached record for the pair answers it when fresh; otherwise a fetch is
/// needed.
pub open spec fn lookup_outcome(s: Seq<RateRec>, f: Seq<u8>, t: Seq<u8>, now: int) -> LookupOutcome {
    if !known_currency(f) {
        LookupOutcome::UnknownCode(f)
    } else if !known_currency(t) {
        LookupOutcome::UnknownCode(t)
    } else {
        match find_spec(s, f, t) {
            Some(rec) => if fresh_at(rec.obtained_at, now) {
                LookupOutcome::FreshRate(rec.rate)
            } else {
                LookupOutcome::Refetch
            },
            None => LookupOutcome::Refetch,
        }
    }
}

/// The store after the resolver consulted it for upper-cased codes `f`
/// and `t`: a stale cached record for the pair is removed, so at most one
/// stale record per resolved pair can linger; otherwise unchanged.
pub open spec fn store_after_lookup(
    s: Seq<RateRec>,
    f: Seq<u8>,
    t: Seq<u8>,
    now: int,
) -> Seq<RateRec> {
    if known_currency(f) && known_currency(t) && (find_spec(s, f, t) matches Some(rec)
        && !fresh_at(rec.obtained_at, now)) {
        remove_spec(s, f, t)
    } else {
        s
    }
}

impl CurrencyInformation {
    /// Resolves the rate for a pair: normalizes both codes to upper case,
    /// validates them, and consults the cache.  A fresh cached rate is
    /// returned at once; a stale cached record is removed and the caller
    /// is told to fetch.  This function never fetches anything itself.
    pub fn get_rate(&mut self, from: &Vec<u8>, to: &Vec<u8>, now: u64) -> (r: Result<
        RateLookup,
        CurrErr,
    >)
        requires
            old(self).wf(),
        ensures
            final(self).wf(),
            final(self)@ == store_after_lookup(old(self)@, upper(from@), upper(to@), now as int),
            match lookup_outcome(old(self)@, upper(from@), upper(to@), now as int) {
                LookupOutcome::UnknownCode(c) => r matches Err(CurrErr::UnknownCurrency(cc))
                    && cc@ == c,
                LookupOutcome::FreshRate(rt) => r matches Ok(RateLookup::Fresh(rt2)) && rt2 == rt,
                LookupOutcome::Refetch => r matches Ok(RateLookup::NeedsFetch(f, t)) && f@ == upper(
                    from@,
                ) && t@ == upper(to@),
            },
    {
        let f = to_upper(from);
        let t = to_upper(to);
        if !code_is_known(&f) {
            return Err(CurrErr::UnknownCurrency(f));
        }
        if !code_is_known(&t) {
            return Err(CurrErr::UnknownCurrency(t));
        }
        let mut stale = false;
        match self.find(&f, &t) {
            Some(rec) => {
                if now <= rec.obtained_at || now - rec.obtained_at < WEEK_SECONDS {
                    return Ok(RateLookup::Fresh(rec.rate));
                }
                stale = true;
            },
            None => {},
        }
        if stale {
            self.remove(&f, &t);
        }
        Ok(RateLookup::NeedsFetch(f, t))
    }

    /// Converts an amount between two currencies given as byte strings.
    /// Equal byte strings short-circuit: the amount comes back unchanged
    /// and the store is not consulted or changed.  Otherwise a fresh
    /// cached rate answers, or the caller is told to fetch.
    pub fn convert(&mut self, from: &Vec<u8>, to: &Vec<u8>, amount: &Amount, now: u64) -> (r:
        Result<Conversion, CurrErr>)
        requires
            old(self).wf(),
            amount.wf(),
        ensures
            final(self).wf(),
            from@ == to@ ==> final(self)@ == old(self)@ && (r matches Ok(Conversion::Done(w))
                && w.num == amount.num && w.den == amount.den),
            from@ != to@ ==> final(self)@ == store_after_lookup(
                old(self)@,
                upper(from@),
                upper(to@),
                now as int,
            ) && match lookup_outcome(old(self)@, upper(from@), upper(to@), now as int) {
                LookupOutcome::UnknownCode(c) => r matches Err(CurrErr::UnknownCurrency(cc))
                    && cc@ == c,
                LookupOutcome::FreshRate(rt) => r matches Ok(Conversion::Done(w)) && w.num
                    == scaled_num(*amount, rt) && w.den == scaled_den(*amount, rt),
                LookupOutcome::Refetch => r matches Ok(Conversion::NeedsFetch(f, t)) && f@ == upper(
                    from@,
                ) && t@ == upper(to@),
            },
    {
        if bytes_eq(from, to) {
            return Ok(Conversion::Done(widen(amount)));
        }
        proof {
            lemma_first_match_bounds(old(self)@, upper(from@), upper(to@));
        }
        match self.get_rate(from, to, now) {
            Ok(RateLookup::Fresh(rate)) => Ok(Conversion::Done(scale(amount, &rate))),
            Ok(RateLookup::NeedsFetch(f, t)) => Ok(Conversion::NeedsFetch(f, t)),
            Err(e) => Err(e),
        }
    }

    /// Records the outcome of an external rate fetch for an upper-cased
    /// pair and finishes the conversion.  A delivered rate goes into the
    /// store in both directions; no delivered rate means the external
    /// service was unavailable, and the store stays as it was.
    pub fn convert_fetched(
        &mut self,
        from: Vec<u8>,
        to: Vec<u8>,
        amount: &Amount,
        fetched: Option<Rate>,
        now: u64,
    ) -> (r: Result<WideAmount, CurrErr>)
        requires
            old(self).wf(),
            amount.wf(),
            fetched matches Some(rt) ==> rt.wf(),
        ensures
            final(self).wf(),
            fetched is None ==> final(self)@ == old(self)@ && r matches Err(
                CurrErr::ExternalServiceUnavailable,
            ),
            fetched matches Some(rt) ==> final(self)@ == add_spec(
                old(self)@,
                RateRec { from: from@, to: to@, rate: rt, obtained_at: now as int },
            ) && (r matches Ok(w) && w.num == scaled_num(*amount, rt) && w.den == scaled_den(
                *amount,
                rt,
            )),
    {
        match fetched {
            None => Err(CurrErr::ExternalServiceUnavailable),
            Some(rate) => {
                let w = scale(amount, &rate);
                self.add(ExchangeRate::new(from, to, rate, now));
                Ok(w)
            },
        }
    }
}

/// The prices a run works on: the ones given, or a single price of one
/// when none was given.
pub fn prices_or_default(prices: Vec<Amount>) -> (r: Vec<Amount>)
    ensures
        prices@.len() > 0 ==> r@ == prices@,
        prices@.len() == 0 ==> r@.len() == 1 && r@[0] == (Amount { num: 1, den: 1 }),
{
    if prices.len() > 0 {
        prices
    } else {
        let mut r: Vec<Amount> = Vec::new();
        r.push(Amount { num: 1, den: 1 });
        r
    }
}

/// Law: a rate just fetched and recorded for a pair is a cache hit while
/// it stays fresh.  Resolving the same pair, in either direction, within
/// the freshness window finds the recorded rate (or its reciprocal for
/// the reverse direction), asks for no fetch, and leaves the store as it
/// is — provided the store held no other record for the pair.
pub proof fn lemma_fetched_rate_is_cache_hit(s: Seq<RateRec>, rec: RateRec, now: int)
    requires
        rec.from != rec.to,
        known_currency(rec.from),
        known_currency(rec.to),
        find_spec(s, rec.from, rec.to) is None,
        find_spec(s, rec.to, rec.from) is None,
        fresh_at(rec.obtained_at, now),
    ensures
        lookup_outcome(add_spec(s, rec), rec.from, rec.to, now) == LookupOutcome::FreshRate(
            rec.rate,
        ),
        lookup_outcome(add_spec(s, rec), rec.to, rec.from, now) == LookupOutcome::FreshRate(
            flip_rec(rec).rate,
        ),
        store_after_lookup(add_spec(s, rec), rec.from, rec.to, now) == add_spec(s, rec),
        store_after_lookup(add_spec(s, rec), rec.to, rec.from, now) == add_spec(s, rec),
{
    lemma_add_then_find(s, rec);
}

/// Law: a round trip through a stored pair returns the original value.
/// With a pair for (from, to) freshly recorded in a store that held no
/// other record for the pair, converting an amount from `from` to `to`
/// uses the recorded rate, converting the result back uses the reciprocal
/// rate recorded alongside it, and the composition of the two scalings is
/// a fraction equal in value to the original amount.
pub proof fn lemma_convert_round_trip(s: Seq<RateRec>, rec: RateRec, now: int, a: Amount)
    requires
        rec.from != rec.to,
        known_currency(rec.from),
        known_currency(rec.to),
        find_spec(s, rec.from, rec.to) is None,
        find_spec(s, rec.to, rec.from) is None,
        fresh_at(rec.obtained_at, now),
        a.wf(),
        rec.rate.wf(),
    ensures
        lookup_outcome(add_spec(s, rec), rec.from, rec.to, now) == LookupOutcome::FreshRate(
            rec.rate,
        ),
        lookup_outcome(add_spec(s, rec), rec.to, rec.from, now) == LookupOutcome::FreshRate(
            flip_rate(rec.rate),
        ),
        frac_eq(
            scaled_num(a, rec.rate) * flip_rate(rec.rate).num,
            scaled_den(a, rec.rate) * flip_rate(rec.rate).den,
            a.num as int,
            a.den as int,
        ),
{
    lemma_fetched_rate_is_cache_hit(s, rec, now);
    lemma_scale_round_trip(a, rec.rate);
}

} // verus!
