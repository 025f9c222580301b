//! The rate store: an insertion-ordered sequence of directional
//! exchange-rate records.
//!
//! A record says that one unit of the `from` currency is worth
//! `rate` units of the `to` currency, and remembers when the rate was
//! obtained.  Rates are always inserted as flipped pairs — the
//! reverse-direction record, with the reciprocal rate, goes in alongside
//! the original — so both directions of a pair can be looked up after one
//! insertion.  Lookup returns the first matching record; removal takes out
//! the first matching record by swapping the last record into its place.

use vstd::prelude::*;

use crate::amounts::flip_rate;
use crate::amounts::Rate;
use crate::bytes::bytes_eq;
use crate::bytes::copy_bytes;

verus! {

/// One directional exchange-rate record.
pub struct ExchangeRate {
    /// Currency code the rate converts from.
    pub from: Vec<u8>,
    /// Currency code the rate converts to.
    pub to: Vec<u8>,
    /// Units of `to` that one unit of `from` is worth.
    pub rate: Rate,
    /// Seconds since the epoch when the rate was obtained.
    pub obtained_at: u64,
}

/// The mathematical value of an exchange-rate record.
#[verifier::ext_equal]
pub ghost struct RateRec {
    pub from: Seq<u8>,
    pub to: Seq<u8>,
    pub rate: Rate,
    pub obtained_at: int,
}

impl View for ExchangeRate {
    type V = RateRec;

    open spec fn view(&self) -> RateRec {
        RateRec {
            from: self.from@,
            to: self.to@,
            rate: self.rate,
            obtained_at: self.obtained_at as int,
        }
    }
}

impl ExchangeRate {
    pub open spec fn wf(self) -> bool {
        self.rate.wf()
    }

    /// Builds a record from its parts.
    pub fn new(from: Vec<u8>, to: Vec<u8>, rate: Rate, obtained_at: u64) -> (r: ExchangeRate)
        ensures
            r@ == (RateRec {
                from: from@,
                to: to@,
                rate: rate,
                obtained_at: obtained_at as int,
            }),
    {
        ExchangeRate { from, to, rate, obtained_at }
    }

    /// The reverse-direction counterpart: codes swapped, rate inverted,
    /// obtained at the same time.
    pub fn flip(&self) -> (r: ExchangeRate)
        ensures
            r@ == flip_rec(self@),
    {
        ExchangeRate {
            from: copy_bytes(&self.to),
            to: copy_bytes(&self.from),
            rate: self.rate.flip(),
            obtained_at: self.obtained_at,
        }
    }
}

/// The reverse-direction counterpart of a record, as a value.
pub open spec fn flip_rec(r: RateRec) -> RateRec {
    RateRec { from: r.to, to: r.from, rate: flip_rate(r.rate), obtained_at: r.obtained_at }
}

/// Whether a record is for the given directional pair.
pub open spec fn rec_matches(r: RateRec, from: Seq<u8>, to: Seq<u8>) -> bool {
    r.from == from && r.to == to
}

/// The index of the first record for the pair, or the length of the
/// sequence when there is none.
pub open spec fn first_match(s: Seq<RateRec>, from: Seq<u8>, to: Seq<u8>) -> int
    decreases s.len(),
{
    if s.len() == 0 {
        0
    } else if rec_matches(s[0], from, to) {
        0
    } else {
        1 + first_match(s.drop_first(), from, to)
    }
}

/// What a lookup of the pair returns: the first matching record, if any.
pub open spec fn find_spec(s: Seq<RateRec>, from: Seq<u8>, to: Seq<u8>) -> Option<RateRec> {
    let i = first_match(s, from, to);
    if i < s.len() {
        Some(s[i])
    } else {
        None
    }
}

/// The sequence after inserting a record: the flipped counterpart goes in
/// first, then the record itself.
pub open spec fn add_spec(s: Seq<RateRec>, rec: RateRec) -> Seq<RateRec> {
    s.push(flip_rec(rec)).push(rec)
}

/// The sequence after removing the first record for the pair, by swapping
/// the last record into its place; unchanged when there is none.
pub open spec fn remove_spec(s: Seq<RateRec>, from: Seq<u8>, to: Seq<u8>) -> Seq<RateRec> {
    let i = first_match(s, from, to);
    if i < s.len() {
        s.update(i, s.last()).drop_last()
    } else {
        s
    }
}

/// Every record of the sequence holds a well-formed (positive) rate.
pub open spec fn recs_wf(s: Seq<RateRec>) -> bool {
    forall|i: int| 0 <= i < s.len() ==> (#[trigger] s[i]).rate.wf()
}

/// `first_match` lies between 0 and the length, points at a matching
/// record when below the length, and nothing before it matches.
pub proof fn lemma_first_match_bounds(s: Seq<RateRec>, from: Seq<u8>, to: Seq<u8>)
    ensures
        0 <= first_match(s, from, to) <= s.len(),
        first_match(s, from, to) < s.len() ==> rec_matches(
            s[first_match(s, from, to)],
            from,
            to,
        ),
        forall|j: int| 0 <= j < first_match(s, from, to) ==> !rec_matches(s[j], from, to),
    decreases s.len(),
{
    if s.len() == 0 {
    } else if rec_matches(s[0], from, to) {
    } else {
        let t = s.drop_first();
        lemma_first_match_bounds(t, from, to);
        assert forall|j: int| 0 <= j < first_match(s, from, to) implies !rec_matches(
            s[j],
            from,
            to,
        ) by {
            if j >= 1 {
                assert(s[j] == t[j - 1]);
            }
        }
        if first_match(s, from, to) < s.len() {
            assert(s[first_match(s, from, to)] == t[first_match(t, from, to)]);
        }
    }
}

/// An index that matches, with nothing before it matching, is exactly
/// `first_match`; so is the length when nothing matches at all.
pub proof fn lemma_first_match_is(s: Seq<RateRec>, from: Seq<u8>, to: Seq<u8>, i: int)
    requires
        0 <= i <= s.len(),
        i < s.len() ==> rec_matches(s[i], from, to),
        forall|j: int| 0 <= j < i ==> !rec_matches(s[j], from, to),
        i == s.len() ==> forall|j: int| 0 <= j < s.len() ==> !rec_matches(s[j], from, to),
    ensures
        first_match(s, from, to) == i,
    decreases s.len(),
{
    if s.len() == 0 {
    } else if rec_matches(s[0], from, to) {
        assert(i == 0);
    } else {
        let t = s.drop_first();
        assert forall|j: int| 0 <= j < i - 1 implies !rec_matches(t[j], from, to) by {
            assert(t[j] == s[j + 1]);
        }
        if i < s.len() {
            assert(t[i - 1] == s[i]);
        } else {
            assert forall|j: int| 0 <= j < t.len() implies !rec_matches(t[j], from, to) by {
                assert(t[j] == s[j + 1]);
            }
        }
        assert(i >= 1);
        lemma_first_match_is(t, from, to, i - 1);
    }
}

/// Law: after adding a record (and with it its flipped counterpart) to a
/// store that held no record for either direction of the pair, a lookup
/// of (from, to) yields exactly the added record, and a lookup of
/// (to, from) yields the flipped counterpart, whose rate is the
/// reciprocal.
pub proof fn lemma_add_then_find(s: Seq<RateRec>, rec: RateRec)
    requires
        rec.from != rec.to,
        find_spec(s, rec.from, rec.to) is None,
        find_spec(s, rec.to, rec.from) is None,
    ensures
        find_spec(add_spec(s, rec), rec.from, rec.to) == Some(rec),
        find_spec(add_spec(s, rec), rec.to, rec.from) == Some(flip_rec(rec)),
{
    let s2 = add_spec(s, rec);
    lemma_first_match_bounds(s, rec.from, rec.to);
    lemma_first_match_bounds(s, rec.to, rec.from);
    assert(forall|j: int| 0 <= j < s.len() ==> !rec_matches(s[j], rec.from, rec.to));
    assert(forall|j: int| 0 <= j < s.len() ==> !rec_matches(s[j], rec.to, rec.from));
    assert forall|j: int| 0 <= j < s2.len() - 1 implies !rec_matches(
        s2[j],
        rec.from,
        rec.to,
    ) by {
        if j < s.len() {
            assert(s2[j] == s[j]);
        } else {
            assert(s2[j] == flip_rec(rec));
        }
    }
    lemma_first_match_is(s2, rec.from, rec.to, s.len() + 1int);
    assert forall|j: int| 0 <= j < s.len() implies !rec_matches(s2[j], rec.to, rec.from) by {
        assert(s2[j] == s[j]);
    }
    lemma_first_match_is(s2, rec.to, rec.from, s.len() as int);
}

/// The rate store.
pub struct CurrencyInformation {
    rates: Vec<ExchangeRate>,
}

impl View for CurrencyInformation {
    type V = Seq<RateRec>;

    closed spec fn view(&self) -> Seq<RateRec> {
        self.rates@.map_values(|e: ExchangeRate| e@)
    }
}

impl CurrencyInformation {
    pub open spec fn wf(self) -> bool {
        recs_wf(self@)
    }

    /// An empty store.
    pub fn new() -> (r: CurrencyInformation)
        ensures
            r@ == Seq::<RateRec>::empty(),
            r.wf(),
    {
        let r = CurrencyInformation { rates: Vec::new() };
        proof {
            assert(r@ =~= Seq::<RateRec>::empty());
        }
        r
    }

    /// Inserts a record: the flipped counterpart first, then the record,
    /// so that both directions of the pair can be found afterwards.
    pub fn add(&mut self, rec: ExchangeRate)
        requires
            old(self).wf(),
            rec.wf(),
        ensures
            final(self).wf(),
            final(self)@ == add_spec(old(self)@, rec@),
    {
        let ghost g = rec@;
        let flipped = rec.flip();
        self.rates.push(flipped);
        self.rates.push(rec);
        proof {
            assert(self@ =~= add_spec(old(self)@, g));
        }
    }

    /// Looks the pair up: the first matching record, scanning in insertion
    /// order.
    pub fn find(&self, from: &Vec<u8>, to: &Vec<u8>) -> (r: Option<&ExchangeRate>)
        ensures
            match r {
                Some(rec) => find_spec(self@, from@, to@) == Some(rec@),
                None => find_spec(self@, from@, to@) is None,
            },
    {
        let mut i: usize = 0;
        while i < self.rates.len()
            invariant
                0 <= i <= self.rates.len(),
                forall|j: int| 0 <= j < i ==> !rec_matches(self@[j], from@, to@),
            decreases self.rates.len() - i,
        {
            let rec = &self.rates[i];
            if bytes_eq(&rec.from, from) && bytes_eq(&rec.to, to) {
                proof {
                    lemma_first_match_is(self@, from@, to@, i as int);
                }
                return Some(rec);
            }
            i = i + 1;
        }
        proof {
            lemma_first_match_is(self@, from@, to@, self@.len() as int);
        }
        None
    }

    /// Removes the first record for the pair, swapping the last record
    /// into its place; reports whether a record was removed.  The scan
    /// covers the whole sequence, the final record included.
    pub fn remove(&mut self, from: &Vec<u8>, to: &Vec<u8>) -> (r: bool)
        requires
            old(self).wf(),
        ensures
            final(self).wf(),
            final(self)@ == remove_spec(old(self)@, from@, to@),
            r == (find_spec(old(self)@, from@, to@) is Some),
    {
        let mut i: usize = 0;
        while i < self.rates.len()
            invariant
                0 <= i <= self.rates.len(),
                forall|j: int| 0 <= j < i ==> !rec_matches(self@[j], from@, to@),
                old(self) == self,
                old(self).wf(),
            decreases self.rates.len() - i,
        {
            let matched = {
                let rec = &self.rates[i];
                bytes_eq(&rec.from, from) && bytes_eq(&rec.to, to)
            };
            if matched {
                proof {
                    lemma_first_match_is(self@, from@, to@, i as int);
                }
                self.rates.swap_remove(i);
                proof {
                    assert(self@ =~= remove_spec(old(self)@, from@, to@));
                    assert forall|k: int| 0 <= k < self@.len() implies (#[trigger] self@[k]).rate.wf() by {
                        if k == i {
                            assert(self@[k] == old(self)@[old(self)@.len() - 1]);
                        } else {
                            assert(self@[k] == old(self)@[k]);
                        }
                    }
                }
                return true;
            }
            i = i + 1;
        }
        proof {
            lemma_first_match_is(self@, from@, to@, self@.len() as int);
        }
        false
    }

    /// The records, in their stored order.
    pub fn records(&self) -> (r: &Vec<ExchangeRate>)
        ensures
            r@.len() == self@.len(),
            forall|i: int| 0 <= i < r@.len() ==> (#[trigger] r@[i])@ == self@[i],
    {
        &self.rates
    }

    /// Rebuilds a store from records, rejecting any whose rate is not
    /// well formed.
    pub fn from_records(recs: Vec<ExchangeRate>) -> (r: Option<CurrencyInformation>)
        ensures
            r is Some <==> recs_wf(recs@.map_values(|e: ExchangeRate| e@)),
            r matches Some(s) ==> s@ == recs@.map_values(|e: ExchangeRate| e@) && s.wf(),
    {
        let ghost v = recs@.map_values(|e: ExchangeRate| e@);
        let mut i: usize = 0;
        while i < recs.len()
            invariant
                0 <= i <= recs.len(),
                v == recs@.map_values(|e: ExchangeRate| e@),
                forall|j: int| 0 <= j < i ==> (#[trigger] v[j]).rate.wf(),
            decreases recs.len() - i,
        {
            let rt = recs[i].rate;
            if rt.num < 1 || rt.den < 1 {
                proof {
                    assert(!v[i as int].rate.wf());
                }
                return None;
            }
            i = i + 1;
        }
        Some(CurrencyInformation { rates: recs })
    }
}

} // verus!
