use cur::args::{
    is_connector, is_currencies, is_currency, is_currency_code, is_help, is_long_flag,
    supported_currencies, what_is, without_separators, ArgType,
};
use cur::command::{interpret, Command};

fn s(text: &str) -> String {
    text.to_string()
}

#[test]
fn flag_words() {
    assert!(is_long_flag(&s("-l")));
    assert!(is_long_flag(&s("--long")));
    assert!(!is_long_flag(&s("--LONG")));
    assert!(is_help(&s("-h")));
    assert!(is_help(&s("--help")));
    assert!(!is_help(&s("help")));
    assert!(is_currencies(&s("-l")));
    assert!(is_currencies(&s("--list")));
    assert!(is_currencies(&s("-c")));
    assert!(is_currencies(&s("--currencies")));
    assert!(!is_currencies(&s("-x")));
}

#[test]
fn connector_words() {
    assert!(is_connector(&s("to")));
    assert!(is_connector(&s("as")));
    assert!(is_connector(&s("in")));
    assert!(!is_connector(&s("TO")));
    assert!(!is_connector(&s("into")));
}

#[test]
fn currencies_any_case() {
    assert!(is_currency(&s("usd")));
    assert!(is_currency(&s("Eur")));
    assert!(is_currency(&s("KRW")));
    assert!(!is_currency(&s("XYZ")));
    assert!(!is_currency(&s("")));
    assert!(!is_currency_code(&s("usd")));
    assert!(is_currency_code(&s("USD")));
}

#[test]
fn currency_list() {
    let list = supported_currencies();
    assert_eq!(list.len(), 33);
    assert_eq!(list[0], "EUR");
    assert_eq!(list[32], "KRW");
    for code in &list {
        assert!(is_currency_code(code));
    }
}

#[test]
fn separators_are_dropped() {
    assert_eq!(without_separators(&s("1_000,50")), "100050");
    assert_eq!(without_separators(&s("12.5")), "12.5");
    assert_eq!(without_separators(&s("")), "");
}

#[test]
fn classifying_words() {
    assert!(matches!(what_is(s("1,000"), true), ArgType::Amount(n) if n == "1000"));
    assert!(matches!(what_is(s("to"), false), ArgType::Connector));
    assert!(matches!(what_is(s("usd"), false), ArgType::Currency(c) if c == "USD"));
    assert!(matches!(what_is(s("-h"), false), ArgType::Help));
    assert!(matches!(what_is(s("-l"), false), ArgType::Long));
    assert!(matches!(what_is(s("--list"), false), ArgType::Currencies));
    assert!(matches!(what_is(s("-c"), false), ArgType::Currencies));
    assert!(matches!(what_is(s("bogus"), false), ArgType::Invalid));
}

fn words(items: &[&str], numbers: &[bool]) -> Vec<ArgType> {
    items.iter().zip(numbers.iter()).map(|(w, n)| what_is(s(w), *n)).collect()
}

fn convert(cmd: Command) -> (Option<String>, String, String, bool) {
    match cmd {
        Command::Convert(q) => (q.amount, q.from, q.to, q.long),
        other => panic!("not a conversion: {:?}", other),
    }
}

#[test]
fn accepted_shapes() {
    let f = false;
    let t = true;
    let none: Option<String> = None;
    assert_eq!(
        convert(interpret(words(&["eur", "usd"], &[f, f]))),
        (none.clone(), s("EUR"), s("USD"), false)
    );
    assert_eq!(
        convert(interpret(words(&["eur", "to", "usd"], &[f, f, f]))),
        (none, s("EUR"), s("USD"), false)
    );
    assert_eq!(
        convert(interpret(words(&["eur", "usd", "10"], &[f, f, t]))),
        (Some(s("10")), s("EUR"), s("USD"), false)
    );
    assert_eq!(
        convert(interpret(words(&["eur", "in", "usd", "10"], &[f, f, f, t]))),
        (Some(s("10")), s("EUR"), s("USD"), false)
    );
    assert_eq!(
        convert(interpret(words(&["1_000", "gbp", "jpy"], &[t, f, f]))),
        (Some(s("1000")), s("GBP"), s("JPY"), false)
    );
    assert_eq!(
        convert(interpret(words(&["10", "gbp", "as", "jpy", "-l"], &[t, f, f, f, f]))),
        (Some(s("10")), s("GBP"), s("JPY"), true)
    );
}

#[test]
fn malformed_words_are_a_usage_error() {
    let t = true;
    let f = false;
    assert!(matches!(interpret(words(&["1", "2"], &[t, t])), Command::Usage));
    assert!(matches!(interpret(words(&[], &[])), Command::Usage));
    assert!(matches!(interpret(words(&["eur"], &[f])), Command::Usage));
    assert!(matches!(interpret(words(&["eur", "usd", "gbp"], &[f, f, f])), Command::Usage));
    assert!(matches!(interpret(words(&["eur", "to", "to", "usd"], &[f, f, f, f])), Command::Usage));
    assert!(matches!(interpret(words(&["10", "eur", "usd", "10"], &[t, f, f, t])), Command::Usage));
    assert!(matches!(interpret(words(&["eur", "bogus"], &[f, f])), Command::Usage));
}

#[test]
fn help_and_list_come_first() {
    assert!(matches!(interpret(words(&["-h"], &[false])), Command::Help));
    assert!(matches!(interpret(words(&["-h", "eur", "usd"], &[false, false, false])), Command::Help));
    assert!(matches!(interpret(words(&["--currencies"], &[false])), Command::ListCurrencies));
    assert!(matches!(interpret(words(&["-l", "-c"], &[false, false])), Command::ListCurrencies));
    // "-l" alone reads as the long flag, which is then dropped.
    assert!(matches!(interpret(words(&["-l"], &[false])), Command::Usage));
}
