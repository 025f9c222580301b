use curr::amounts::Rate;
use curr::store::CurrencyInformation;
use curr::store::ExchangeRate;

fn code(s: &str) -> Vec<u8> {
    s.as_bytes().to_vec()
}

fn rate(num: u32, den: u32) -> Rate {
    Rate::new(num, den).unwrap()
}

#[test]
fn add_inserts_both_directions() {
    let mut info = CurrencyInformation::new();
    info.add(ExchangeRate::new(code("USD"), code("EUR"), rate(2, 1), 1000));

    let fwd = info.find(&code("USD"), &code("EUR")).unwrap();
    assert_eq!(fwd.rate, rate(2, 1));
    assert_eq!(fwd.obtained_at, 1000);

    let back = info.find(&code("EUR"), &code("USD")).unwrap();
    assert_eq!(back.rate, rate(1, 2));
    assert_eq!(back.obtained_at, 1000);
}

#[test]
fn find_returns_first_match() {
    let mut info = CurrencyInformation::new();
    info.add(ExchangeRate::new(code("USD"), code("EUR"), rate(2, 1), 10));
    info.add(ExchangeRate::new(code("USD"), code("EUR"), rate(3, 1), 20));
    let fwd = info.find(&code("USD"), &code("EUR")).unwrap();
    assert_eq!(fwd.rate, rate(2, 1));
}

#[test]
fn find_absent_pair_is_none() {
    let mut info = CurrencyInformation::new();
    info.add(ExchangeRate::new(code("USD"), code("EUR"), rate(2, 1), 10));
    assert!(info.find(&code("USD"), &code("JPY")).is_none());
}

#[test]
fn remove_takes_out_first_match_even_when_last() {
    let mut info = CurrencyInformation::new();
    // The (USD, EUR) record sits at the very end of the backing sequence:
    // add pushes the flipped record first, the record itself last.
    info.add(ExchangeRate::new(code("USD"), code("EUR"), rate(2, 1), 10));
    assert_eq!(info.records().len(), 2);

    assert!(info.remove(&code("USD"), &code("EUR")));
    assert_eq!(info.records().len(), 1);
    assert!(info.find(&code("USD"), &code("EUR")).is_none());
    assert!(info.find(&code("EUR"), &code("USD")).is_some());
}

#[test]
fn remove_absent_pair_reports_false() {
    let mut info = CurrencyInformation::new();
    info.add(ExchangeRate::new(code("USD"), code("EUR"), rate(2, 1), 10));
    assert!(!info.remove(&code("USD"), &code("JPY")));
    assert_eq!(info.records().len(), 2);
}

#[test]
fn flip_swaps_codes_and_inverts_rate() {
    let rec = ExchangeRate::new(code("USD"), code("JPY"), rate(150, 1), 7);
    let flipped = rec.flip();
    assert_eq!(flipped.from, code("JPY"));
    assert_eq!(flipped.to, code("USD"));
    assert_eq!(flipped.rate, rate(1, 150));
    assert_eq!(flipped.obtained_at, 7);
}

#[test]
fn from_records_accepts_well_formed_rates() {
    let recs = vec![
        ExchangeRate::new(code("USD"), code("EUR"), rate(2, 1), 10),
        ExchangeRate::new(code("EUR"), code("USD"), rate(1, 2), 10),
    ];
    let info = CurrencyInformation::from_records(recs).unwrap();
    assert_eq!(info.records().len(), 2);
    assert_eq!(info.find(&code("USD"), &code("EUR")).unwrap().rate, rate(2, 1));
}

#[test]
fn from_records_rejects_zero_rate() {
    let bad = ExchangeRate {
        from: code("USD"),
        to: code("EUR"),
        rate: Rate { num: 0, den: 1 },
        obtained_at: 10,
    };
    assert!(CurrencyInformation::from_records(vec![bad]).is_none());
}

#[test]
fn rate_new_rejects_zero_parts() {
    assert!(Rate::new(0, 1).is_none());
    assert!(Rate::new(1, 0).is_none());
    assert!(Rate::new(3, 4).is_some());
}
