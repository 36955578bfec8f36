use vstd::prelude::*;

verus! {

/// A descriptor of a currency: an ISO-like code such as `"USD"`, the number
/// of minor units that make up one major unit (100 for cents, 1 for a
/// currency without minor units), and the symbol shown in front of amounts.
///
/// Values are immutable once constructed, and every value carries a divisor
/// of at least one.
#[derive(Debug)]
pub struct Currency {
    code: String,
    divisor: i32,
    symbol: char,
}

/// Failure of [`from_code`]: the given code names no known currency.
#[derive(Debug)]
pub enum LookupError {
    UnknownCurrency(String),
}

/// The codes that [`from_code`] recognizes, case-sensitively.
pub open spec fn known_code(code: Seq<char>) -> bool {
    code == "USD"@ || code == "AUD"@ || code == "JPY"@ || code == "BTC"@
}

/// The minor-unit divisor that the table of known currencies assigns a code.
pub open spec fn known_divisor(code: Seq<char>) -> int {
    if code == "JPY"@ {
        1
    } else if code == "BTC"@ {
        100000000
    } else {
        100
    }
}

/// The display symbol that the table of known currencies assigns a code.
pub open spec fn known_symbol(code: Seq<char>) -> char {
    if code == "JPY"@ {
        '¥'
    } else if code == "BTC"@ {
        'Ƀ'
    } else {
        '$'
    }
}

impl Currency {
    /// Every currency has at least one minor unit per major unit.
    #[verifier::type_invariant]
    pub open spec fn inv(self) -> bool {
        self.spec_divisor() >= 1
    }

    /// The characters of the currency code.
    pub closed spec fn spec_code(self) -> Seq<char> {
        self.code@
    }

    /// The minor-unit divisor as a mathematical integer.
    pub closed spec fn spec_divisor(self) -> int {
        self.divisor as int
    }

    /// The display symbol.
    pub closed spec fn spec_symbol(self) -> char {
        self.symbol
    }

    /// Structural equality: two currencies are the same exactly when code,
    /// divisor and symbol all agree.
    pub open spec fn matches(self, other: Currency) -> bool {
        self.spec_code() == other.spec_code()
            && self.spec_divisor() == other.spec_divisor()
            && self.spec_symbol() == other.spec_symbol()
    }

    /// Builds a currency from its three attributes. The divisor must be at
    /// least one: a currency has no meaning with zero or negatively many
    /// minor units to the major unit.
    pub fn new(code: String, divisor: i32, symbol: char) -> (c: Currency)
        requires
            divisor >= 1,
        ensures
            c.spec_code() == code@,
            c.spec_divisor() == divisor as int,
            c.spec_symbol() == symbol,
    {
        Currency { code, divisor, symbol }
    }

    /// The currency code.
    pub fn code(&self) -> (r: &str)
        ensures
            r@ == self.spec_code(),
    {
        self.code.as_str()
    }

    /// The number of minor units per major unit; always at least one.
    pub fn divisor(&self) -> (r: i32)
        ensures
            r as int == self.spec_divisor(),
            r >= 1,
    {
        proof {
            use_type_invariant(self);
        }
        self.divisor
    }

    /// The display symbol.
    pub fn symbol(&self) -> (r: char)
        ensures
            r == self.spec_symbol(),
    {
        self.symbol
    }
}

impl Clone for Currency {
    fn clone(&self) -> (res: Self)
        ensures
            res == *self,
    {
        proof {
            use_type_invariant(self);
        }
        Currency { code: self.code.clone(), divisor: self.divisor, symbol: self.symbol }
    }
}

impl PartialEq for Currency {
    fn eq(&self, other: &Currency) -> (r: bool) {
        self.code == other.code && self.divisor == other.divisor && self.symbol == other.symbol
    }
}

impl vstd::std_specs::cmp::PartialEqSpecImpl for Currency {
    open spec fn obeys_eq_spec() -> bool {
        true
    }

    open spec fn eq_spec(&self, other: &Currency) -> bool {
        self.matches(*other)
    }
}

/// United States dollar: 100 cents to the dollar.
pub fn usd() -> (c: Currency)
    ensures
        c.spec_code() == "USD"@,
        c.spec_divisor() == 100,
        c.spec_symbol() == '$',
{
    Currency { code: "USD".to_owned(), divisor: 100, symbol: '$' }
}

/// Australian dollar: 100 cents to the dollar.
pub fn aud() -> (c: Currency)
    ensures
        c.spec_code() == "AUD"@,
        c.spec_divisor() == 100,
        c.spec_symbol() == '$',
{
    Currency { code: "AUD".to_owned(), divisor: 100, symbol: '$' }
}

/// Japanese yen: no minor unit.
pub fn jpy() -> (c: Currency)
    ensures
        c.spec_code() == "JPY"@,
        c.spec_divisor() == 1,
        c.spec_symbol() == '¥',
{
    Currency { code: "JPY".to_owned(), divisor: 1, symbol: '¥' }
}

/// Bitcoin: 100 000 000 satoshi to the coin.
pub fn btc() -> (c: Currency)
    ensures
        c.spec_code() == "BTC"@,
        c.spec_divisor() == 100000000,
        c.spec_symbol() == 'Ƀ',
{
    Currency { code: "BTC".to_owned(), divisor: 100000000, symbol: 'Ƀ' }
}

/// The four known codes are pairwise distinct: each starts with its own
/// letter.
proof fn lemma_known_codes_distinct()
    ensures
        "USD"@ != "AUD"@,
        "USD"@ != "JPY"@,
        "USD"@ != "BTC"@,
        "AUD"@ != "JPY"@,
        "AUD"@ != "BTC"@,
        "JPY"@ != "BTC"@,
{
    reveal_strlit("USD");
    reveal_strlit("AUD");
    reveal_strlit("JPY");
    reveal_strlit("BTC");
    assert("USD"@[0] == 'U' && "AUD"@[0] == 'A' && "JPY"@[0] == 'J' && "BTC"@[0] == 'B');
}

/// Character-for-character equality of two string slices.
fn str_eq(a: &str, b: &str) -> (r: bool)
    ensures
        r == (a@ == b@),
{
    a.to_owned() == b.to_owned()
}

/// Looks a currency up by its code, case-sensitively. A known code yields
/// the currency of the fixed table; any other code is reported back inside
/// the error.
pub fn from_code(code: &str) -> (r: Result<Currency, LookupError>)
    ensures
        r is Ok <==> known_code(code@),
        r matches Ok(c) ==> {
            &&& c.spec_code() == code@
            &&& c.spec_divisor() == known_divisor(code@)
            &&& c.spec_symbol() == known_symbol(code@)
        },
        r matches Err(e) ==> (e matches LookupError::UnknownCurrency(bad) && bad@ == code@),
{
    proof {
        lemma_known_codes_distinct();
    }
    if str_eq(code, "USD") {
        Ok(usd())
    } else if str_eq(code, "AUD") {
        Ok(aud())
    } else if str_eq(code, "JPY") {
        Ok(jpy())
    } else if str_eq(code, "BTC") {
        Ok(btc())
    } else {
        Err(LookupError::UnknownCurrency(code.to_owned()))
    }
}

} // verus!
