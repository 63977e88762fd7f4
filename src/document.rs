//! The daily rate document: its publication date and its rates, read from
//! the XML elements named `Cube`.
use crate::args::same_text;
use vstd::prelude::*;

verus! {

/// An attribute of an XML element, by its local name.
#[derive(Debug)]
pub struct XmlAttribute {
    pub name: String,
    pub value: String,
}

/// One event of an XML reader: the start of an element, by its local name
/// and attributes, or anything else.
#[derive(Debug)]
pub enum XmlItem {
    Start { name: String, attributes: Vec<XmlAttribute> },
    Other,
}

/// Attributes as (name, value) pairs.
pub open spec fn attributes_view(a: Seq<XmlAttribute>) -> Seq<(Seq<char>, Seq<char>)> {
    a.map_values(|x: XmlAttribute| (x.name@, x.value@))
}

/// An event as plain values: `None` for anything but the start of an element.
pub open spec fn item_view(i: XmlItem) -> Option<(Seq<char>, Seq<(Seq<char>, Seq<char>)>)> {
    match i {
        XmlItem::Start { name, attributes } => Some((name@, attributes_view(attributes@))),
        XmlItem::Other => None,
    }
}

/// Events as plain values.
pub open spec fn items_view(v: Seq<XmlItem>) -> Seq<
    Option<(Seq<char>, Seq<(Seq<char>, Seq<char>)>)>,
> {
    v.map_values(|i: XmlItem| item_view(i))
}

/// The events that xml-rs reads from a text, as plain values, or `None` where
/// it finds the text malformed.
pub uninterp spec fn xml_items_of(raw: Seq<char>) -> Option<
    Seq<Option<(Seq<char>, Seq<(Seq<char>, Seq<char>)>)>>,
>;

/// Relies on xml-rs's `EventReader`: the events of a text, up to its end or
/// to the first error, which depend on the text alone.
#[verifier::external_body]
fn xml_items(raw: &str) -> (r: Option<Vec<XmlItem>>)
    ensures
        r matches Some(v) ==> xml_items_of(raw@) == Some(items_view(v@)),
        r is None ==> xml_items_of(raw@) is None,
{
    let mut items = Vec::new();
    for e in xml::reader::EventReader::from_str(raw) {
        match e {
            Ok(xml::reader::XmlEvent::StartElement { name, attributes, .. }) => {
                let attributes = attributes.into_iter().map(
                    |a| XmlAttribute { name: a.name.local_name, value: a.value },
                ).collect();
                items.push(XmlItem::Start { name: name.local_name, attributes });
            },
            Ok(_) => items.push(XmlItem::Other),
            Err(_) => return None,
        }
    }
    Some(items)
}

/// The value of the last attribute named `key`.
pub open spec fn attribute_value(attrs: Seq<(Seq<char>, Seq<char>)>, key: Seq<char>) -> Option<
    Seq<char>,
>
    decreases attrs.len(),
{
    if attrs.len() == 0 {
        None
    } else if attrs.last().0 == key {
        Some(attrs.last().1)
    } else {
        attribute_value(attrs.drop_last(), key)
    }
}

/// A currency and its rate against the base currency, as written.
#[derive(Debug)]
pub struct Rate {
    pub currency: String,
    pub rate: String,
}

/// What a rate document states: the date of its rates and each rate in
/// document order, after the base currency's.
#[derive(Debug)]
pub struct RateDocument {
    pub time: String,
    pub rates: Vec<Rate>,
}

/// Rates as (currency, rate) pairs.
pub open spec fn rates_view(r: Seq<Rate>) -> Seq<(Seq<char>, Seq<char>)> {
    r.map_values(|x: Rate| (x.currency@, x.rate@))
}

impl View for RateDocument {
    type V = (Seq<char>, Seq<(Seq<char>, Seq<char>)>);

    open spec fn view(&self) -> Self::V {
        (self.time@, rates_view(self.rates@))
    }
}

/// The base currency, against which every rate is stated.
pub open spec fn base_entry() -> (Seq<char>, Seq<char>) {
    ("EUR"@, "1.0"@)
}

/// One `Cube` element's effect: a `time` attribute sets the date, and a
/// `currency` with a `rate` adds an entry.
pub open spec fn cube_step(
    doc: (Seq<char>, Seq<(Seq<char>, Seq<char>)>),
    attrs: Seq<(Seq<char>, Seq<char>)>,
) -> (Seq<char>, Seq<(Seq<char>, Seq<char>)>) {
    let time = match attribute_value(attrs, "time"@) {
        Some(t) => t,
        None => doc.0,
    };
    let rates = match (attribute_value(attrs, "currency"@), attribute_value(attrs, "rate"@)) {
        (Some(c), Some(r)) => doc.1.push((c, r)),
        _ => doc.1,
    };
    (time, rates)
}

/// The document that a sequence of events states.
pub open spec fn document_of(items: Seq<Option<(Seq<char>, Seq<(Seq<char>, Seq<char>)>)>>) -> (
    Seq<char>,
    Seq<(Seq<char>, Seq<char>)>,
)
    decreases items.len(),
{
    if items.len() == 0 {
        (Seq::empty(), seq![base_entry()])
    } else {
        let doc = document_of(items.drop_last());
        match items.last() {
            Some(start) => if start.0 == "Cube"@ {
                cube_step(doc, start.1)
            } else {
                doc
            },
            None => doc,
        }
    }
}

/// The document that a text holds, where xml-rs reads it.
pub open spec fn parsed_document(raw: Seq<char>) -> Option<
    (Seq<char>, Seq<(Seq<char>, Seq<char>)>),
> {
    match xml_items_of(raw) {
        Some(items) => Some(document_of(items)),
        None => None,
    }
}

/// An optional text as plain characters.
pub open spec fn text_option(o: Option<String>) -> Option<Seq<char>> {
    match o {
        Some(s) => Some(s@),
        None => None,
    }
}

/// Applies one `Cube` element's attributes to the date and the rates.
fn apply_cube(time: &mut String, rates: &mut Vec<Rate>, attrs: &Vec<XmlAttribute>)
    ensures
        (final(time)@, rates_view(final(rates)@)) == cube_step(
            (old(time)@, rates_view(old(rates)@)),
            attributes_view(attrs@),
        ),
{
    let ghost t0 = time@;
    let ghost av = attributes_view(attrs@);
    let mut currency: Option<String> = None;
    let mut rate: Option<String> = None;
    let mut j: usize = 0;
    while j < attrs.len()
        invariant
            j <= attrs@.len(),
            av == attributes_view(attrs@),
            rates@ == old(rates)@,
            time@ == match attribute_value(av.subrange(0, j as int), "time"@) {
                Some(t) => t,
                None => t0,
            },
            text_option(currency) == attribute_value(av.subrange(0, j as int), "currency"@),
            text_option(rate) == attribute_value(av.subrange(0, j as int), "rate"@),
        decreases attrs@.len() - j,
    {
        let a = &attrs[j];
        proof {
            reveal_strlit("time");
            reveal_strlit("currency");
            reveal_strlit("rate");
            assert("time"@.len() == 4 && "rate"@.len() == 4 && "currency"@.len() == 8);
            assert("time"@[0] == 't' && "rate"@[0] == 'r');
        }
        assert(av.subrange(0, j + 1).drop_last() =~= av.subrange(0, j as int));
        assert(av.subrange(0, j + 1).last() == (a.name@, a.value@));
        if same_text(&a.name, "time") {
            *time = a.value.clone();
        } else if same_text(&a.name, "currency") {
            currency = Some(a.value.clone());
        } else if same_text(&a.name, "rate") {
            rate = Some(a.value.clone());
        }
        j += 1;
    }
    assert(av.subrange(0, attrs@.len() as int) =~= av);
    match (currency, rate) {
        (Some(c), Some(r)) => {
            rates.push(Rate { currency: c, rate: r });
            assert(rates_view(rates@) =~= rates_view(old(rates)@).push((c@, r@)));
        },
        _ => {},
    }
}

/// The document that a sequence of XML events states.
pub fn read_document(items: &Vec<XmlItem>) -> (r: RateDocument)
    ensures
        r@ == document_of(items_view(items@)),
{
    let ghost iv = items_view(items@);
    let mut time = String::new();
    let mut rates: Vec<Rate> = Vec::new();
    rates.push(Rate { currency: String::from_str("EUR"), rate: String::from_str("1.0") });
    assert(rates_view(rates@) =~= seq![base_entry()]);
    assert(iv.subrange(0, 0) =~= Seq::empty());
    let mut i: usize = 0;
    while i < items.len()
        invariant
            i <= items@.len(),
            iv == items_view(items@),
            (time@, rates_view(rates@)) == document_of(iv.subrange(0, i as int)),
        decreases items@.len() - i,
    {
        assert(iv.subrange(0, i + 1).drop_last() =~= iv.subrange(0, i as int));
        assert(iv.subrange(0, i + 1).last() == item_view(items@[i as int]));
        match &items[i] {
            XmlItem::Start { name, attributes } => {
                if same_text(name, "Cube") {
                    apply_cube(&mut time, &mut rates, attributes);
                }
            },
            XmlItem::Other => {},
        }
        i += 1;
    }
    assert(iv.subrange(0, items@.len() as int) =~= iv);
    RateDocument { time, rates }
}

/// The date and rates that a rate document states, or `None` where it is not
/// well-formed XML.
pub fn parse_xml(raw_xml: String) -> (r: Option<RateDocument>)
    ensures
        match r {
            Some(d) => parsed_document(raw_xml@) == Some(d@),
            None => parsed_document(raw_xml@) is None,
        },
{
    match xml_items(raw_xml.as_str()) {
        Some(items) => Some(read_document(&items)),
        None => None,
    }
}

} // verus!
