//! What a whole command line asks for.
use crate::args::ArgType;
use vstd::prelude::*;

verus! {

/// The words with every `Long` flag taken out, in order.
pub open spec fn without_long(s: Seq<ArgType>) -> Seq<ArgType>
    decreases s.len(),
{
    if s.len() == 0 {
        s
    } else {
        let rest = without_long(s.drop_last());
        if s.last() is Long {
            rest
        } else {
            rest.push(s.last())
        }
    }
}

/// Some word asks for the longer output.
pub open spec fn has_long(s: Seq<ArgType>) -> bool {
    exists|i: int| 0 <= i < s.len() && s[i] is Long
}

/// The amount's text (if given) and the two currency codes, where the words
/// have one of the accepted shapes: two currencies, maybe with a connector
/// between them, and maybe an amount before or after them all.
pub open spec fn request_shape(t: Seq<ArgType>) -> Option<
    (Option<Seq<char>>, Seq<char>, Seq<char>),
> {
    if t.len() == 2 {
        match (t[0], t[1]) {
            (ArgType::Currency(a), ArgType::Currency(b)) => Some((None, a@, b@)),
            _ => None,
        }
    } else if t.len() == 3 {
        match (t[0], t[1], t[2]) {
            (ArgType::Currency(a), ArgType::Connector, ArgType::Currency(b)) => Some(
                (None, a@, b@),
            ),
            (ArgType::Currency(a), ArgType::Currency(b), ArgType::Amount(n)) => Some(
                (Some(n@), a@, b@),
            ),
            (ArgType::Amount(n), ArgType::Currency(a), ArgType::Currency(b)) => Some(
                (Some(n@), a@, b@),
            ),
            _ => None,
        }
    } else if t.len() == 4 {
        match (t[0], t[1], t[2], t[3]) {
            (
                ArgType::Currency(a),
                ArgType::Connector,
                ArgType::Currency(b),
                ArgType::Amount(n),
            ) => Some((Some(n@), a@, b@)),
            (
                ArgType::Amount(n),
                ArgType::Currency(a),
                ArgType::Connector,
                ArgType::Currency(b),
            ) => Some((Some(n@), a@, b@)),
            _ => None,
        }
    } else {
        None
    }
}

/// A conversion to carry out.
#[derive(Debug)]
pub struct ConversionRequest {
    /// The amount's text; one unit where it is not given.
    pub amount: Option<String>,
    pub from: String,
    pub to: String,
    /// Print a sentence instead of the bare number.
    pub long: bool,
}

/// What a command line asks for.
#[derive(Debug)]
pub enum Command {
    Help,
    ListCurrencies,
    Convert(ConversionRequest),
    /// The words have no accepted shape: nothing is fetched, read or written.
    Usage,
}

/// The amount's text as plain characters.
pub open spec fn amount_view(a: Option<String>) -> Option<Seq<char>> {
    match a {
        Some(s) => Some(s@),
        None => None,
    }
}

/// The first word that counts asks for help.
pub open spec fn asks_help(t: Seq<ArgType>) -> bool {
    t.len() > 0 && t[0] is Help
}

/// The first word that counts asks for the currency list.
pub open spec fn asks_currencies(t: Seq<ArgType>) -> bool {
    t.len() > 0 && t[0] is Currencies
}

/// A copy of one word.
fn duplicate(a: &ArgType) -> (r: ArgType)
    ensures
        r == *a,
{
    match a {
        ArgType::Amount(n) => ArgType::Amount(n.clone()),
        ArgType::Connector => ArgType::Connector,
        ArgType::Currency(c) => ArgType::Currency(c.clone()),
        ArgType::Help => ArgType::Help,
        ArgType::Long => ArgType::Long,
        ArgType::Currencies => ArgType::Currencies,
        ArgType::Invalid => ArgType::Invalid,
    }
}

/// The words without the `Long` flags, and whether there was one.
fn split_long(args: &Vec<ArgType>) -> (r: (Vec<ArgType>, bool))
    ensures
        r.0@ == without_long(args@),
        r.1 == has_long(args@),
{
    let mut kept: Vec<ArgType> = Vec::new();
    let mut long = false;
    let mut i: usize = 0;
    while i < args.len()
        invariant
            i <= args@.len(),
            kept@ == without_long(args@.subrange(0, i as int)),
            long == has_long(args@.subrange(0, i as int)),
        decreases args@.len() - i,
    {
        let ghost before = args@.subrange(0, i as int);
        let ghost after = args@.subrange(0, i + 1);
        assert(after.drop_last() =~= before);
        if matches!(args[i], ArgType::Long) {
            long = true;
            assert(after[i as int] is Long);
        } else {
            kept.push(duplicate(&args[i]));
            assert(long ==> has_long(after)) by {
                if long {
                    let k = choose|k: int| 0 <= k < before.len() && before[k] is Long;
                    assert(after[k] is Long);
                }
            };
            assert(has_long(after) ==> long) by {
                if has_long(after) {
                    let k = choose|k: int| 0 <= k < after.len() && after[k] is Long;
                    assert(before[k] is Long);
                }
            };
        }
        i += 1;
    }
    assert(args@.subrange(0, args@.len() as int) =~= args@);
    (kept, long)
}

/// The amount's text and the two codes, where `t` has an accepted shape.
fn match_shape(t: &Vec<ArgType>) -> (r: Option<(Option<String>, String, String)>)
    ensures
        r is None <==> request_shape(t@) is None,
        r matches Some(q) ==> request_shape(t@) == Some((amount_view(q.0), q.1@, q.2@)),
{
    let n = t.len();
    if n == 2 {
        match (&t[0], &t[1]) {
            (ArgType::Currency(a), ArgType::Currency(b)) => Some((None, a.clone(), b.clone())),
            _ => None,
        }
    } else if n == 3 {
        match (&t[0], &t[1], &t[2]) {
            (ArgType::Currency(a), ArgType::Connector, ArgType::Currency(b)) => Some(
                (None, a.clone(), b.clone()),
            ),
            (ArgType::Currency(a), ArgType::Currency(b), ArgType::Amount(x)) => Some(
                (Some(x.clone()), a.clone(), b.clone()),
            ),
            (ArgType::Amount(x), ArgType::Currency(a), ArgType::Currency(b)) => Some(
                (Some(x.clone()), a.clone(), b.clone()),
            ),
            _ => None,
        }
    } else if n == 4 {
        match (&t[0], &t[1], &t[2], &t[3]) {
            (
                ArgType::Currency(a),
                ArgType::Connector,
                ArgType::Currency(b),
                ArgType::Amount(x),
            ) => Some((Some(x.clone()), a.clone(), b.clone())),
            (
                ArgType::Amount(x),
                ArgType::Currency(a),
                ArgType::Connector,
                ArgType::Currency(b),
            ) => Some((Some(x.clone()), a.clone(), b.clone())),
            _ => None,
        }
    } else {
        None
    }
}

/// What the classified words of a command line ask for. `Long` flags may
/// stand anywhere; of the other words the first decides help and the
/// currency list, and otherwise they must have an accepted shape.
pub fn interpret(args: Vec<ArgType>) -> (r: Command)
    ensures
        ({
            let t = without_long(args@);
            match r {
                Command::Help => asks_help(t),
                Command::ListCurrencies => !asks_help(t) && asks_currencies(t),
                Command::Convert(q) => !asks_help(t) && !asks_currencies(t) && request_shape(t)
                    == Some((amount_view(q.amount), q.from@, q.to@)) && q.long == has_long(
                    args@,
                ),
                Command::Usage => !asks_help(t) && !asks_currencies(t) && request_shape(
                    t,
                ) is None,
            }
        }),
{
    let (t, long) = split_long(&args);
    if t.len() > 0 && matches!(t[0], ArgType::Help) {
        Command::Help
    } else if t.len() > 0 && matches!(t[0], ArgType::Currencies) {
        Command::ListCurrencies
    } else {
        match match_shape(&t) {
            Some((amount, from, to)) => Command::Convert(
                ConversionRequest { amount, from, to, long },
            ),
            None => Command::Usage,
        }
    }
}

} // verus!
