//! What each command-line word is, and what the words together ask for.
use vstd::prelude::*;

verus! {

/// Two texts hold the same characters.
pub(crate) fn same_text(s: &String, lit: &str) -> (r: bool)
    ensures
        r == (s@ == lit@),
{
    let t = String::from_str(lit);
    *s == t
}

/// `s` asks for the longer, sentence-like output.
pub open spec fn is_long_flag_text(s: Seq<char>) -> bool {
    s == "-l"@ || s == "--long"@
}

/// `s` is a word that may stand between the two currencies.
pub open spec fn is_connector_text(s: Seq<char>) -> bool {
    s == "to"@ || s == "as"@ || s == "in"@
}

/// `s` asks for the usage text.
pub open spec fn is_help_text(s: Seq<char>) -> bool {
    s == "-h"@ || s == "--help"@
}

/// `s` asks for the list of supported currencies.
pub open spec fn is_currencies_text(s: Seq<char>) -> bool {
    s == "-l"@ || s == "--list"@ || s == "-c"@ || s == "--currencies"@
}

/// Whether `s` is `-l` or `--long`.
pub fn is_long_flag(s: &String) -> (r: bool)
    ensures
        r == is_long_flag_text(s@),
{
    same_text(s, "-l") || same_text(s, "--long")
}

/// Whether `s` is one of the connectors `to`, `as` and `in`.
pub fn is_connector(s: &String) -> (r: bool)
    ensures
        r == is_connector_text(s@),
{
    same_text(s, "to") || same_text(s, "as") || same_text(s, "in")
}

/// Whether `s` is `-h` or `--help`.
pub fn is_help(s: &String) -> (r: bool)
    ensures
        r == is_help_text(s@),
{
    same_text(s, "-h") || same_text(s, "--help")
}

/// Whether `s` is `-l`, `--list`, `-c` or `--currencies`.
pub fn is_currencies(s: &String) -> (r: bool)
    ensures
        r == is_currencies_text(s@),
{
    same_text(s, "-l") || same_text(s, "--list") || same_text(s, "-c") || same_text(
        s,
        "--currencies",
    )
}

/// The codes of the supported currencies, in the order they are listed.
pub open spec fn currency_codes() -> Seq<Seq<char>> {
    seq![
        "EUR"@,
        "HKD"@,
        "THB"@,
        "ISK"@,
        "MXN"@,
        "AUD"@,
        "RUB"@,
        "TRY"@,
        "ZAR"@,
        "NZD"@,
        "BRL"@,
        "CZK"@,
        "JPY"@,
        "GBP"@,
        "CNY"@,
        "USD"@,
        "SEK"@,
        "RON"@,
        "BGN"@,
        "ILS"@,
        "INR"@,
        "DKK"@,
        "CAD"@,
        "CHF"@,
        "PLN"@,
        "PHP"@,
        "MYR"@,
        "SGD"@,
        "IDR"@,
        "NOK"@,
        "HUF"@,
        "HRK"@,
        "KRW"@,
    ]
}

/// The supported currency codes, in the order they are listed.
pub fn supported_currencies() -> (r: Vec<String>)
    ensures
        r@.map_values(|c: String| c@) == currency_codes(),
{
    let mut v: Vec<String> = Vec::new();
    v.push(String::from_str("EUR"));
    v.push(String::from_str("HKD"));
    v.push(String::from_str("THB"));
    v.push(String::from_str("ISK"));
    v.push(String::from_str("MXN"));
    v.push(String::from_str("AUD"));
    v.push(String::from_str("RUB"));
    v.push(String::from_str("TRY"));
    v.push(String::from_str("ZAR"));
    v.push(String::from_str("NZD"));
    v.push(String::from_str("BRL"));
    v.push(String::from_str("CZK"));
    v.push(String::from_str("JPY"));
    v.push(String::from_str("GBP"));
    v.push(String::from_str("CNY"));
    v.push(String::from_str("USD"));
    v.push(String::from_str("SEK"));
    v.push(String::from_str("RON"));
    v.push(String::from_str("BGN"));
    v.push(String::from_str("ILS"));
    v.push(String::from_str("INR"));
    v.push(String::from_str("DKK"));
    v.push(String::from_str("CAD"));
    v.push(String::from_str("CHF"));
    v.push(String::from_str("PLN"));
    v.push(String::from_str("PHP"));
    v.push(String::from_str("MYR"));
    v.push(String::from_str("SGD"));
    v.push(String::from_str("IDR"));
    v.push(String::from_str("NOK"));
    v.push(String::from_str("HUF"));
    v.push(String::from_str("HRK"));
    v.push(String::from_str("KRW"));
    assert(v@.map_values(|c: String| c@) =~= currency_codes());
    v
}

/// Whether `code` is, exactly, one of the supported currency codes.
pub fn is_currency_code(code: &String) -> (r: bool)
    ensures
        r == currency_codes().contains(code@),
{
    let list = supported_currencies();
    let mut i: usize = 0;
    while i < list.len()
        invariant
            i <= list@.len(),
            list@.map_values(|c: String| c@) == currency_codes(),
            forall|j: int| 0 <= j < i ==> list@[j]@ != code@,
        decreases list@.len() - i,
    {
        if *code == list[i] {
            assert(currency_codes()[i as int] == code@);
            return true;
        }
        i += 1;
    }
    proof {
        if currency_codes().contains(code@) {
            let k = choose|k: int| 0 <= k < currency_codes().len() && currency_codes()[k] == code@;
            assert(list@[k]@ == code@);
        }
    }
    false
}

/// What std's `str::to_uppercase` makes of a text.
pub uninterp spec fn upper_of(s: Seq<char>) -> Seq<char>;

/// Relies on std's `str::to_uppercase`: Unicode upper case, which depends on
/// the characters alone.
#[verifier::external_body]
fn to_upper(s: &str) -> (r: String)
    ensures
        r@ == upper_of(s@),
{
    s.to_uppercase()
}

/// Whether `s`, in upper case, is a supported currency code; the case of the
/// letters does not matter.
pub fn is_currency(s: &String) -> (r: bool)
    ensures
        r == currency_codes().contains(upper_of(s@)),
{
    let upper = to_upper(s.as_str());
    is_currency_code(&upper)
}

/// A text with its digit-group separators (`_` and `,`) taken out.
pub open spec fn without_separators_text(s: Seq<char>) -> Seq<char>
    decreases s.len(),
{
    if s.len() == 0 {
        s
    } else {
        let rest = without_separators_text(s.drop_last());
        if s.last() == '_' || s.last() == ',' {
            rest
        } else {
            rest.push(s.last())
        }
    }
}

/// `s` with every `_` and `,` taken out, as a number is read.
pub fn without_separators(s: &String) -> (r: String)
    ensures
        r@ == without_separators_text(s@),
{
    let text = s.as_str();
    let n = text.unicode_len();
    let mut out = String::new();
    let mut i: usize = 0;
    while i < n
        invariant
            n == text@.len(),
            text@ == s@,
            i <= n,
            out@ == without_separators_text(s@.subrange(0, i as int)),
        decreases n - i,
    {
        let c = text.get_char(i);
        assert(s@.subrange(0, i + 1).drop_last() =~= s@.subrange(0, i as int));
        if c != '_' && c != ',' {
            out.append(text.substring_char(i, i + 1));
            assert(text@.subrange(i as int, i + 1) =~= seq![c]);
        }
        i += 1;
    }
    assert(s@.subrange(0, n as int) =~= s@);
    out
}

/// One command-line word, by what it stands for.
#[derive(Debug)]
pub enum ArgType {
    /// A number, with its separators taken out.
    Amount(String),
    Connector,
    /// A supported currency code, in upper case.
    Currency(String),
    Help,
    Long,
    Currencies,
    Invalid,
}

/// What the word `s` stands for. `reads_as_number` tells whether the word,
/// without its separators, reads as a decimal number; a number comes before
/// any other reading, then a connector, a currency and the flags.
pub fn what_is(s: String, reads_as_number: bool) -> (r: ArgType)
    ensures
        reads_as_number ==> (r matches ArgType::Amount(n) && n@ == without_separators_text(s@)),
        !reads_as_number && is_connector_text(s@) ==> r is Connector,
        !reads_as_number && !is_connector_text(s@) && currency_codes().contains(upper_of(s@))
            ==> (r matches ArgType::Currency(c) && c@ == upper_of(s@)),
        !reads_as_number && !is_connector_text(s@) && !currency_codes().contains(upper_of(s@))
            ==> (if is_help_text(s@) {
            r is Help
        } else if is_long_flag_text(s@) {
            r is Long
        } else if is_currencies_text(s@) {
            r is Currencies
        } else {
            r is Invalid
        }),
{
    if reads_as_number {
        ArgType::Amount(without_separators(&s))
    } else if is_connector(&s) {
        ArgType::Connector
    } else if is_currency(&s) {
        ArgType::Currency(to_upper(s.as_str()))
    } else if is_help(&s) {
        ArgType::Help
    } else if is_long_flag(&s) {
        ArgType::Long
    } else if is_currencies(&s) {
        ArgType::Currencies
    } else {
        ArgType::Invalid
    }
}

} // verus!
