use std::cmp::Ordering;

use money::currency;
use money::Money;

#[test]
fn test_basic_formatting() {
    let money = Money::new(12345, currency::usd());
    assert_eq!("USD$123.45", money.format());
}

#[test]
fn test_japan_formatting() {
    let money = Money::new(12345, currency::jpy());
    assert_eq!("JPY¥12345", money.format());
}

#[test]
fn test_create_currency_from_code() {
    let currency = currency::from_code("USD").unwrap();
    assert_eq!(currency.code(), "USD");
    assert_eq!(currency.symbol(), '$');
    assert_eq!(currency.divisor(), 100);
}

#[test]
fn test_create_bad_currency_returns_err() {
    let currency = currency::from_code("ABC");
    assert!(currency.is_err());
}

#[test]
fn test_currency_eq() {
    let dollars = currency::from_code("USD").unwrap();
    let bucks = currency::from_code("AUD").unwrap();
    let yen = currency::from_code("JPY").unwrap();
    let bux = currency::from_code("USD").unwrap();

    assert!(bux == dollars);
    assert!(dollars == bux);
    assert!(dollars == dollars);
    assert!(dollars != bucks);
    assert!(bucks != yen);
    assert!(yen != bux);
}

#[test]
fn test_money_eq() {
    let money = Money::new(1050, currency::aud());
    let same = Money::new(1050, currency::aud());
    let short = Money::new(1000, currency::aud());
    let american = Money::new(1050, currency::usd());

    assert!(money == same);
    assert!(same == same);
    assert!(same == money);
    assert!(money != short);
    assert!(money != american);
}

#[test]
fn test_money_ord() {
    let large = Money::new(1050, currency::usd());
    let same = Money::new(1050, currency::usd());
    let small = Money::new(25, currency::usd());
    let diff = Money::new(1050, currency::aud());

    assert_eq!(small.partial_cmp(&large), Some(Ordering::Less));
    assert_eq!(large.partial_cmp(&small), Some(Ordering::Greater));
    assert_eq!(large.partial_cmp(&same), Some(Ordering::Equal));
    assert_eq!(large.partial_cmp(&diff), None);

    assert!(large.gt(&small));
    assert!(large.ge(&small));
    assert!(small.lt(&large));
    assert!(small.le(&large));
    assert!(large.ge(&same));
    assert!(large.le(&same));
}

#[test]
#[should_panic]
fn test_different_currencies_ord_should_panic() {
    let dollar = Money::new(1050, currency::usd());
    let yen = Money::new(1050, currency::jpy());

    assert!(dollar.gt(&yen));
}

#[test]
fn test_add_monies() {
    let bag = Money::new(2995, currency::usd());
    let hat = Money::new(9995, currency::usd());
    let total = Money::new(12990, currency::usd());
    assert!(bag.add(&hat) == total);

    let shirt = Money::new(1000, currency::aud());
    let pants = Money::new(2000, currency::aud());
    let clothes = Money::new(3000, currency::aud());
    assert!(shirt.add(&pants) == clothes);

    let ram = Money::new(20000, currency::usd());
    let cpu = Money::new(10000, currency::usd());
    let pc = Money::new(30000, currency::usd());
    assert!(ram.add(&cpu) == pc);

    let eraser = Money::new(100, currency::jpy());
    let pencil = Money::new(100, currency::jpy());
    let stationery = Money::new(200, currency::jpy());
    assert!(eraser.add(&pencil) == stationery);
}

#[test]
#[should_panic]
fn test_different_currencies_add_monies_should_panic() {
    let bag = Money::new(2995, currency::usd());
    let hat = Money::new(9995, currency::aud());
    let total = Money::new(12990, currency::usd());

    assert!(bag.add(&hat) == total);
}

#[test]
fn test_sub_monies() {
    let account = Money::new(200, currency::usd());
    let spend = Money::new(100, currency::usd());
    let balance = Money::new(100, currency::usd());
    assert!(account.sub(&spend) == balance);

    let money = Money::new(3000, currency::aud());
    let spend = Money::new(1000, currency::aud());
    let left = Money::new(2000, currency::aud());
    assert!(money.sub(&spend) == left);

    let cash = Money::new(50, currency::usd());
    let bill = Money::new(50, currency::usd());
    let broke = Money::new(0, currency::usd());
    assert!(cash.sub(&bill) == broke);

    let bank = Money::new(100, currency::jpy());
    let borrow = Money::new(1000, currency::jpy());
    let debt = Money::new(900, currency::jpy());
    assert!(borrow.sub(&bank) == debt);
}

#[test]
#[should_panic]
fn test_different_currencies_sub_monies_should_panic() {
    let account = Money::new(200, currency::usd());
    let spend = Money::new(100, currency::aud());
    let balance = Money::new(100, currency::usd());
    assert!(account.sub(&spend) == balance);
}

#[test]
fn test_div_monies() {
    let x = Money::new(200, currency::usd());
    let y = Money::new(100, currency::usd());
    let z = Money::new(2, currency::usd());
    assert!(x.div(&y) == z);

    let a = Money::new(200, currency::usd());
    let b = Money::new(100, currency::usd());
    let c = Money::new(2, currency::usd());
    assert!(a.div(&b) == c);

    let d = Money::new(200, currency::usd());
    let e = Money::new(100, currency::usd());
    let f = Money::new(2, currency::usd());
    assert!(d.div(&e) == f);

    let g = Money::new(200, currency::usd());
    let h = Money::new(100, currency::usd());
    let i = Money::new(2, currency::usd());
    assert!(g.div(&h) == i);
}

#[test]
#[should_panic]
fn test_different_currencies_div_should_panic() {
    let x = Money::new(200, currency::usd());
    let y = Money::new(100, currency::aud());
    let z = Money::new(2, currency::usd());
    assert!(x.div(&y) == z);
}

#[test]
fn test_mul_monies() {
    let x = Money::new(200, currency::usd());
    let y = Money::new(2, currency::usd());
    let z = Money::new(400, currency::usd());
    assert!(x.mul(&y) == z);
}

#[test]
#[should_panic]
fn test_different_currencies_mul_should_panic() {
    let x = Money::new(200, currency::usd());
    let y = Money::new(2, currency::aud());
    let z = Money::new(400, currency::usd());
    assert!(x.mul(&y) == z);
}
