use curr::amounts::Amount;
use curr::amounts::Rate;
use curr::amounts::WideAmount;
use curr::resolve::prices_or_default;
use curr::resolve::Conversion;
use curr::resolve::CurrErr;
use curr::resolve::RateLookup;
use curr::resolve::WEEK_SECONDS;
use curr::store::CurrencyInformation;
use curr::store::ExchangeRate;

fn code(s: &str) -> Vec<u8> {
    s.as_bytes().to_vec()
}

fn rate(num: u32, den: u32) -> Rate {
    Rate::new(num, den).unwrap()
}

fn amount(num: i64, den: u64) -> Amount {
    Amount { num, den }
}

/// The two fractions denote the same value.
fn same_value(w: WideAmount, num: i128, den: u128) -> bool {
    w.num * (den as i128) == num * (w.den as i128)
}

#[test]
fn identity_conversion_returns_amount_unchanged() {
    let mut info = CurrencyInformation::new();
    let r = info.convert(&code("USD"), &code("USD"), &amount(10, 1), 0);
    match r {
        Ok(Conversion::Done(w)) => {
            assert_eq!(w.num, 10);
            assert_eq!(w.den, 1);
        }
        _ => panic!("identity conversion must return the amount"),
    }
    // No lookup, no fetch: the store was never consulted or changed.
    assert_eq!(info.records().len(), 0);
}

#[test]
fn identity_conversion_skips_validation() {
    // Equal inputs short-circuit before any code validation.
    let mut info = CurrencyInformation::new();
    let r = info.convert(&code("zz"), &code("zz"), &amount(-3, 2), 99);
    match r {
        Ok(Conversion::Done(w)) => {
            assert_eq!(w.num, -3);
            assert_eq!(w.den, 2);
        }
        _ => panic!("identity conversion must return the amount"),
    }
}

#[test]
fn round_trip_returns_original_value() {
    let mut info = CurrencyInformation::new();
    let now = 500_000;
    info.add(ExchangeRate::new(code("USD"), code("EUR"), rate(3, 2), now));

    // USD -> EUR: 10 * 3/2.
    let out = match info.convert(&code("USD"), &code("EUR"), &amount(10, 1), now) {
        Ok(Conversion::Done(w)) => w,
        _ => panic!("cached rate must answer"),
    };
    assert!(same_value(out, 30, 2));

    // EUR -> USD with the flipped record: back to 10 exactly.
    let back = match info.convert(
        &code("EUR"),
        &code("USD"),
        &amount(out.num as i64, out.den as u64),
        now,
    ) {
        Ok(Conversion::Done(w)) => w,
        _ => panic!("flipped rate must answer"),
    };
    assert!(same_value(back, 10, 1));
}

#[test]
fn fresh_cached_rate_needs_no_fetch() {
    let mut info = CurrencyInformation::new();
    let fetched_at = 1_000_000;

    // Nothing cached: the resolver asks for a fetch.
    let (f, t) = match info.convert(&code("USD"), &code("EUR"), &amount(10, 1), fetched_at) {
        Ok(Conversion::NeedsFetch(f, t)) => (f, t),
        _ => panic!("an empty store must ask for a fetch"),
    };
    assert_eq!(f, code("USD"));
    assert_eq!(t, code("EUR"));

    // The fetch delivers; the rate is recorded in both directions.
    let w = info
        .convert_fetched(f, t, &amount(10, 1), Some(rate(9, 10)), fetched_at)
        .unwrap();
    assert!(same_value(w, 90, 10));
    assert_eq!(info.records().len(), 2);

    // Re-query within the freshness window: answered from the cache,
    // no fetch asked for, store unchanged.
    let again = info.convert(
        &code("USD"),
        &code("EUR"),
        &amount(20, 1),
        fetched_at + WEEK_SECONDS - 1,
    );
    match again {
        Ok(Conversion::Done(w2)) => assert!(same_value(w2, 180, 10)),
        _ => panic!("a fresh cached rate must answer without a fetch"),
    }
    assert_eq!(info.records().len(), 2);

    // The flipped direction is cached too.
    match info.convert(&code("EUR"), &code("USD"), &amount(9, 1), fetched_at + 10) {
        Ok(Conversion::Done(w3)) => assert!(same_value(w3, 10, 1)),
        _ => panic!("the flipped rate must answer without a fetch"),
    }
}

#[test]
fn stale_cached_rate_is_removed_and_refetched() {
    let mut info = CurrencyInformation::new();
    info.add(ExchangeRate::new(code("USD"), code("EUR"), rate(2, 1), 0));
    assert_eq!(info.records().len(), 2);

    // One week later the record is stale: the resolver removes it and
    // asks for exactly one fetch.
    let now = WEEK_SECONDS;
    let r = info.get_rate(&code("USD"), &code("EUR"), now);
    match r {
        Ok(RateLookup::NeedsFetch(f, t)) => {
            assert_eq!(f, code("USD"));
            assert_eq!(t, code("EUR"));
        }
        _ => panic!("a stale rate must trigger a fetch"),
    }
    assert_eq!(info.records().len(), 1);
    assert!(info.find(&code("USD"), &code("EUR")).is_none());

    // The fetch delivers a fresh pair; no duplicate stale entry survives
    // for the resolved direction.
    info.convert_fetched(code("USD"), code("EUR"), &amount(1, 1), Some(rate(3, 1)), now)
        .unwrap();
    let rec = info.find(&code("USD"), &code("EUR")).unwrap();
    assert_eq!(rec.rate, rate(3, 1));
    assert_eq!(rec.obtained_at, now);
}

#[test]
fn rate_exactly_one_week_old_is_stale() {
    let mut info = CurrencyInformation::new();
    info.add(ExchangeRate::new(code("USD"), code("EUR"), rate(2, 1), 100));
    // One second under a week: still fresh.
    match info.get_rate(&code("USD"), &code("EUR"), 100 + WEEK_SECONDS - 1) {
        Ok(RateLookup::Fresh(rt)) => assert_eq!(rt, rate(2, 1)),
        _ => panic!("a rate under a week old is fresh"),
    }
    // Exactly a week: stale.
    match info.get_rate(&code("USD"), &code("EUR"), 100 + WEEK_SECONDS) {
        Ok(RateLookup::NeedsFetch(_, _)) => {}
        _ => panic!("a rate a full week old is stale"),
    }
}

#[test]
fn unknown_currency_is_reported_with_the_code() {
    let mut info = CurrencyInformation::new();
    let r = info.get_rate(&code("ZZZ"), &code("USD"), 0);
    assert!(matches!(r, Err(CurrErr::UnknownCurrency(c)) if c == code("ZZZ")));

    // Lower-case input is upper-cased before validation and reporting.
    let r2 = info.get_rate(&code("usd"), &code("zzz"), 0);
    assert!(matches!(r2, Err(CurrErr::UnknownCurrency(c)) if c == code("ZZZ")));

    // An unknown pair never reaches the store.
    assert_eq!(info.records().len(), 0);
}

#[test]
fn lower_case_codes_are_recognized() {
    let mut info = CurrencyInformation::new();
    match info.get_rate(&code("usd"), &code("eur"), 0) {
        Ok(RateLookup::NeedsFetch(f, t)) => {
            assert_eq!(f, code("USD"));
            assert_eq!(t, code("EUR"));
        }
        _ => panic!("known codes in lower case must validate"),
    }
}

#[test]
fn failed_fetch_is_service_unavailable() {
    let mut info = CurrencyInformation::new();
    let r = info.convert_fetched(code("USD"), code("EUR"), &amount(10, 1), None, 0);
    assert!(matches!(r, Err(CurrErr::ExternalServiceUnavailable)));
    assert_eq!(info.records().len(), 0);
}

#[test]
fn no_prices_means_a_single_price_of_one() {
    let prices = prices_or_default(Vec::new());
    assert_eq!(prices.len(), 1);
    assert_eq!(prices[0], Amount { num: 1, den: 1 });
}

#[test]
fn given_prices_are_kept() {
    let prices = prices_or_default(vec![Amount { num: 10, den: 1 }, Amount { num: 20, den: 1 }]);
    assert_eq!(prices.len(), 2);
    assert_eq!(prices[0], Amount { num: 10, den: 1 });
    assert_eq!(prices[1], Amount { num: 20, den: 1 });
}

#[test]
fn conversion_table_for_two_prices() {
    // Two currencies, two prices, base USD: one row per price with the
    // base amount and the converted amount.
    let mut info = CurrencyInformation::new();
    let now = 42;
    let prices = prices_or_default(vec![amount(10, 1), amount(20, 1)]);
    let usd_eur = rate(9, 10);

    let mut cells: Vec<WideAmount> = Vec::new();
    for p in &prices {
        for c in [code("USD"), code("EUR")] {
            let w = match info.convert(&code("USD"), &c, p, now) {
                Ok(Conversion::Done(w)) => w,
                Ok(Conversion::NeedsFetch(f, t)) => info
                    .convert_fetched(f, t, p, Some(usd_eur), now)
                    .unwrap(),
                Err(_) => panic!("nothing may fail here"),
            };
            cells.push(w);
        }
    }
    assert!(same_value(cells[0], 10, 1));
    assert!(same_value(cells[1], 9, 1));
    assert!(same_value(cells[2], 20, 1));
    assert!(same_value(cells[3], 18, 1));
}
