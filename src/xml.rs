//! Reading the feed's XML: quick-xml's reader yields the events, and the
//! feed's schema is checked over them here.
use vstd::prelude::*;

use quick_xml::events::{BytesRef, Event};

use crate::finnkino::{areas_view, opt_view, TheatreArea, TheatreAreas};

verus! {

/// One event of an XML document, with names and text as strings.
pub enum XmlEvent {
    /// A start tag, by its qualified name.
    Start(String),
    /// An end tag, by its qualified name.
    End(String),
    /// A self-closing tag, by its qualified name.
    Empty(String),
    /// Character data, from text or a CDATA section, with line ends normalized.
    Text(String),
    /// A reference such as `&amp;` or `&#233;`, by what stands between `&` and `;`.
    Reference(String),
    /// The end of the document.
    Eof,
    /// A declaration, comment, processing instruction or document type.
    Other,
    /// The document is not well-formed here, with the reader's error.
    Malformed(String),
}

/// quick_xml::Reader, the pull parser that yields a document's events; it is
/// carried through unopened.
#[verifier::external_type_specification]
#[verifier::external_body]
#[verifier::reject_recursive_types(R)]
pub struct ExReader<R>(quick_xml::Reader<R>);

/// The events that quick-xml's reader, in its default configuration, yields
/// on a text: up to and including the end of the document or the first
/// error, whichever comes first.
pub uninterp spec fn xml_events_of(text: Seq<char>) -> Seq<XmlEvent>;

/// The text a reader was made over.
pub uninterp spec fn reader_source(r: quick_xml::Reader<&[u8]>) -> Seq<char>;

/// How many events a reader has yielded so far.
pub uninterp spec fn events_read(r: quick_xml::Reader<&[u8]>) -> nat;

/// The event is the document's end or an error: the last event a reader yields.
pub open spec fn closing(e: XmlEvent) -> bool {
    e is Eof || e is Malformed
}

/// Relies on quick_xml::Reader::from_str: a reader over the text, with
/// quick-xml's default configuration, that has yielded nothing yet. The
/// reader yields at least one event, the end of the document if nothing else.
#[verifier::external_body]
fn xml_reader(text: &str) -> (r: quick_xml::Reader<&[u8]>)
    ensures
        reader_source(r) == text@,
        events_read(r) == 0,
        xml_events_of(reader_source(r)).len() > 0,
{
    quick_xml::Reader::from_str(text)
}

/// Relies on quick_xml::Reader::read_event: the reader's next event, with
/// names and text as strings. The end of the document and an error are the
/// last events; every other event is followed by one more.
#[verifier::external_body]
fn next_event(reader: &mut quick_xml::Reader<&[u8]>) -> (r: XmlEvent)
    requires
        events_read(*old(reader)) < xml_events_of(reader_source(*old(reader))).len(),
    ensures
        reader_source(*final(reader)) == reader_source(*old(reader)),
        events_read(*final(reader)) == events_read(*old(reader)) + 1,
        r == xml_events_of(reader_source(*old(reader)))[events_read(*old(reader)) as int],
        closing(r) <==> events_read(*final(reader)) == xml_events_of(
            reader_source(*old(reader)),
        ).len(),
{
    match reader.read_event() {
        Ok(Event::Start(e)) => XmlEvent::Start(e.name().0.to_owned()),
        Ok(Event::End(e)) => XmlEvent::End(e.name().0.to_owned()),
        Ok(Event::Empty(e)) => XmlEvent::Empty(e.name().0.to_owned()),
        Ok(Event::Text(e)) => XmlEvent::Text(e.xml10_content().into_owned()),
        Ok(Event::CData(e)) => XmlEvent::Text(e.xml10_content().into_owned()),
        Ok(Event::GeneralRef(e)) => XmlEvent::Reference(e.into_inner().into_owned()),
        Ok(Event::Eof) => XmlEvent::Eof,
        Ok(_) => XmlEvent::Other,
        Err(err) => XmlEvent::Malformed(format!("{err:?}")),
    }
}

/// The events of a document, up to and including its end or the first
/// point where it is not well-formed.
pub fn read_events(text: &str) -> (r: Vec<XmlEvent>)
    ensures
        r@ == xml_events_of(text@),
{
    let mut reader = xml_reader(text);
    let mut events: Vec<XmlEvent> = Vec::new();
    loop
        invariant_except_break
            events_read(reader) < xml_events_of(text@).len(),
        invariant
            reader_source(reader) == text@,
            events@ == xml_events_of(text@).take(events_read(reader) as int),
        ensures
            events@ == xml_events_of(text@),
        decreases xml_events_of(text@).len() - events_read(reader),
    {
        let e = next_event(&mut reader);
        let last = match e {
            XmlEvent::Eof | XmlEvent::Malformed(_) => true,
            _ => false,
        };
        events.push(e);
        assert(events@ =~= xml_events_of(text@).take(events_read(reader) as int));
        if last {
            assert(events@ =~= xml_events_of(text@));
            break;
        }
    }
    events
}

/// The text of the five entities that XML predefines.
pub open spec fn predefined_entity_of(name: Seq<char>) -> Option<Seq<char>> {
    if name == "lt"@ {
        Some("<"@)
    } else if name == "gt"@ {
        Some(">"@)
    } else if name == "amp"@ {
        Some("&"@)
    } else if name == "apos"@ {
        Some("'"@)
    } else if name == "quot"@ {
        Some("\""@)
    } else {
        None
    }
}

/// The five entities that XML predefines, as quick_xml::escape's
/// `resolve_predefined_entity` knows them without its `escape-html` feature.
fn predefined_entity(name: &String) -> (r: Option<&'static str>)
    ensures
        match r {
            Some(s) => predefined_entity_of(name@) == Some(s@),
            None => predefined_entity_of(name@) is None,
        },
{
    if named(name, "lt") {
        Some("<")
    } else if named(name, "gt") {
        Some(">")
    } else if named(name, "amp") {
        Some("&")
    } else if named(name, "apos") {
        Some("'")
    } else if named(name, "quot") {
        Some("\"")
    } else {
        None
    }
}

/// The character that a character reference (`#233`, `#xE9`) stands for.
pub uninterp spec fn char_reference_of(name: Seq<char>) -> Option<Seq<char>>;

/// Relies on quick_xml::events::BytesRef::resolve_char_ref: the character
/// depends on the reference alone. A reference it cannot resolve gives none.
#[verifier::external_body]
fn char_reference(name: &str) -> (r: Option<String>)
    ensures
        opt_view(r) == char_reference_of(name@),
{
    match BytesRef::new(name).resolve_char_ref() {
        Ok(Some(c)) => Some(c.to_string()),
        _ => None,
    }
}

/// The text a reference stands for, if it is known.
pub open spec fn reference_text(name: Seq<char>) -> Option<Seq<char>> {
    match predefined_entity_of(name) {
        Some(t) => Some(t),
        None => char_reference_of(name),
    }
}

fn reference(name: &String) -> (r: Option<String>)
    ensures
        opt_view(r) == reference_text(name@),
{
    match predefined_entity(name) {
        Some(t) => Some(t.to_owned()),
        None => char_reference(name.as_str()),
    }
}

/// Where the decoder stands in the feed.
#[derive(Clone, Copy, Debug, PartialEq, Eq, Structural)]
pub enum Place {
    /// Before the envelope.
    Prolog,
    /// In the envelope, between entries.
    Root,
    /// In an entry, between its fields.
    Entry,
    /// In an entry's `ID`.
    InId,
    /// In an entry's `Name`.
    InName,
    /// After the envelope.
    Epilog,
}

/// What the decoder has gathered so far.
pub struct Gathered {
    pub place: Place,
    pub areas: Seq<(Seq<char>, Seq<char>)>,
    pub id: Option<Seq<char>>,
    pub name: Option<Seq<char>>,
    pub text: Seq<char>,
}

/// Nothing gathered, before the envelope.
pub open spec fn start() -> Gathered {
    Gathered { place: Place::Prolog, areas: seq![], id: None, name: None, text: seq![] }
}

/// The message for an event that the feed's schema does not allow where it stands.
pub open spec fn unexpected(e: XmlEvent) -> Seq<char> {
    match e {
        XmlEvent::Start(n) => "unexpected element `"@ + n@ + "`"@,
        XmlEvent::Empty(n) => "unexpected element `"@ + n@ + "`"@,
        XmlEvent::End(n) => "unexpected end tag `"@ + n@ + "`"@,
        XmlEvent::Text(_) => "unexpected text"@,
        XmlEvent::Reference(_) => "unexpected text"@,
        XmlEvent::Eof => "unexpected end of document"@,
        XmlEvent::Other => "unexpected markup"@,
        XmlEvent::Malformed(m) => m@,
    }
}

/// The event is a start tag with this name.
pub open spec fn starts(e: XmlEvent, name: Seq<char>) -> bool {
    e matches XmlEvent::Start(n) && n@ == name
}

/// The event is a self-closing tag with this name.
pub open spec fn empty(e: XmlEvent, name: Seq<char>) -> bool {
    e matches XmlEvent::Empty(n) && n@ == name
}

/// The event is an end tag with this name.
pub open spec fn ends(e: XmlEvent, name: Seq<char>) -> bool {
    e matches XmlEvent::End(n) && n@ == name
}

/// One of the four white-space characters of XML.
pub open spec fn xml_space(c: char) -> bool {
    c == ' ' || c == '\t' || c == '\n' || c == '\r'
}

/// Text made of white space alone.
pub open spec fn blank(t: Seq<char>) -> bool {
    forall|i: int| 0 <= i < t.len() ==> xml_space(#[trigger] t[i])
}

fn is_blank(t: &String) -> (r: bool)
    ensures
        r == blank(t@),
{
    let s = t.as_str();
    let n = s.unicode_len();
    let mut i: usize = 0;
    while i < n
        invariant
            n == s@.len(),
            s@ == t@,
            i <= n,
            forall|k: int| 0 <= k < i ==> xml_space(#[trigger] s@[k]),
        decreases n - i,
    {
        let c = s.get_char(i);
        if !(c == ' ' || c == '\t' || c == '\n' || c == '\r') {
            return false;
        }
        i = i + 1;
    }
    true
}

/// Passed over wherever it stands outside a field: declarations, comments
/// and the like, and white space between elements.
pub open spec fn ignorable(place: Place, e: XmlEvent) -> bool {
    ||| e is Other
    ||| (place != Place::InId && place != Place::InName && (e matches XmlEvent::Text(t) && blank(t@)))
}

/// The feed's schema as one step: what one event does to what was gathered,
/// or why it is refused. Text inside a field is kept as it stands.
pub open spec fn step(g: Gathered, e: XmlEvent) -> Result<Gathered, Seq<char>> {
    if ignorable(g.place, e) {
        Ok(g)
    } else {
        match g.place {
            Place::Prolog => if starts(e, "TheatreAreas"@) {
                Ok(Gathered { place: Place::Root, ..g })
            } else if empty(e, "TheatreAreas"@) {
                Ok(Gathered { place: Place::Epilog, ..g })
            } else {
                Err(unexpected(e))
            },
            Place::Root => if starts(e, "TheatreArea"@) {
                Ok(Gathered { place: Place::Entry, id: None, name: None, ..g })
            } else if empty(e, "TheatreArea"@) {
                Err("missing field `ID`"@)
            } else if ends(e, "TheatreAreas"@) {
                Ok(Gathered { place: Place::Epilog, ..g })
            } else {
                Err(unexpected(e))
            },
            Place::Entry => if starts(e, "ID"@) || empty(e, "ID"@) {
                if g.id is Some {
                    Err("duplicate field `ID`"@)
                } else if starts(e, "ID"@) {
                    Ok(Gathered { place: Place::InId, text: seq![], ..g })
                } else {
                    Ok(Gathered { id: Some(seq![]), ..g })
                }
            } else if starts(e, "Name"@) || empty(e, "Name"@) {
                if g.name is Some {
                    Err("duplicate field `Name`"@)
                } else if starts(e, "Name"@) {
                    Ok(Gathered { place: Place::InName, text: seq![], ..g })
                } else {
                    Ok(Gathered { name: Some(seq![]), ..g })
                }
            } else if ends(e, "TheatreArea"@) {
                match (g.id, g.name) {
                    (Some(i), Some(n)) => Ok(
                        Gathered {
                            place: Place::Root,
                            areas: g.areas.push((i, n)),
                            id: None,
                            name: None,
                            text: seq![],
                        },
                    ),
                    (None, _) => Err("missing field `ID`"@),
                    _ => Err("missing field `Name`"@),
                }
            } else {
                Err(unexpected(e))
            },
            Place::InId | Place::InName => match e {
                XmlEvent::Text(t) => Ok(Gathered { text: g.text + t@, ..g }),
                XmlEvent::Reference(r) => match reference_text(r@) {
                    Some(t) => Ok(Gathered { text: g.text + t, ..g }),
                    None => Err("unknown reference `&"@ + r@ + ";`"@),
                },
                _ => if g.place == Place::InId && ends(e, "ID"@) {
                    Ok(Gathered { place: Place::Entry, id: Some(g.text), ..g })
                } else if g.place == Place::InName && ends(e, "Name"@) {
                    Ok(Gathered { place: Place::Entry, name: Some(g.text), ..g })
                } else {
                    Err(unexpected(e))
                },
            },
            Place::Epilog => Err(unexpected(e)),
        }
    }
}

/// The outcome of decoding the events `evs` from what was gathered in `g`:
/// the entries once the document ends after its envelope, or the first refusal.
pub open spec fn run(g: Gathered, evs: Seq<XmlEvent>) -> Result<
    Seq<(Seq<char>, Seq<char>)>,
    Seq<char>,
>
    decreases evs.len(),
{
    if evs.len() == 0 {
        Err("unexpected end of document"@)
    } else if evs[0] is Eof && g.place == Place::Epilog {
        Ok(g.areas)
    } else {
        match step(g, evs[0]) {
            Ok(h) => run(h, evs.drop_first()),
            Err(m) => Err(m),
        }
    }
}


/// The decoder's state; its view is what it has gathered.
struct Decoder {
    place: Place,
    areas: Vec<TheatreArea>,
    id: Option<String>,
    name: Option<String>,
    text: String,
}

impl View for Decoder {
    type V = Gathered;

    closed spec fn view(&self) -> Gathered {
        Gathered {
            place: self.place,
            areas: areas_view(self.areas@),
            id: opt_view(self.id),
            name: opt_view(self.name),
            text: self.text@,
        }
    }
}

/// The decoder did what the schema's step says.
pub open spec fn stepped(s: Result<Gathered, Seq<char>>, r: Result<(), String>, after: Gathered) -> bool {
    match s {
        Ok(h) => r is Ok && after == h,
        Err(m) => r matches Err(x) && x@ == m,
    }
}

fn named(s: &String, lit: &str) -> (r: bool)
    ensures
        r == (s@ == lit@),
{
    let l = lit.to_owned();
    *s == l
}

fn quoted(before: &str, n: &String, after: &str) -> (r: String)
    ensures
        r@ == before@ + n@ + after@,
{
    let mut m = before.to_owned();
    m.append(n.as_str());
    m.append(after);
    m
}

fn unexpected_message(e: &XmlEvent) -> (r: String)
    ensures
        r@ == unexpected(*e),
{
    match e {
        XmlEvent::Start(n) => quoted("unexpected element `", n, "`"),
        XmlEvent::Empty(n) => quoted("unexpected element `", n, "`"),
        XmlEvent::End(n) => quoted("unexpected end tag `", n, "`"),
        XmlEvent::Text(_) => "unexpected text".to_owned(),
        XmlEvent::Reference(_) => "unexpected text".to_owned(),
        XmlEvent::Eof => "unexpected end of document".to_owned(),
        XmlEvent::Other => "unexpected markup".to_owned(),
        XmlEvent::Malformed(m) => m.clone(),
    }
}

fn is_start(e: &XmlEvent, lit: &str) -> (r: bool)
    ensures
        r == starts(*e, lit@),
{
    match e {
        XmlEvent::Start(n) => named(n, lit),
        _ => false,
    }
}

fn is_empty(e: &XmlEvent, lit: &str) -> (r: bool)
    ensures
        r == empty(*e, lit@),
{
    match e {
        XmlEvent::Empty(n) => named(n, lit),
        _ => false,
    }
}

fn is_end(e: &XmlEvent, lit: &str) -> (r: bool)
    ensures
        r == ends(*e, lit@),
{
    match e {
        XmlEvent::End(n) => named(n, lit),
        _ => false,
    }
}

fn in_prolog(d: &mut Decoder, e: &XmlEvent) -> (r: Result<(), String>)
    requires
        old(d)@.place == Place::Prolog,
        !ignorable(old(d)@.place, *e),
    ensures
        stepped(step(old(d)@, *e), r, final(d)@),
{
    if is_start(e, "TheatreAreas") {
        d.place = Place::Root;
        Ok(())
    } else if is_empty(e, "TheatreAreas") {
        d.place = Place::Epilog;
        Ok(())
    } else {
        Err(unexpected_message(e))
    }
}

fn in_root(d: &mut Decoder, e: &XmlEvent) -> (r: Result<(), String>)
    requires
        old(d)@.place == Place::Root,
        !ignorable(old(d)@.place, *e),
    ensures
        stepped(step(old(d)@, *e), r, final(d)@),
{
    if is_start(e, "TheatreArea") {
        d.place = Place::Entry;
        d.id = None;
        d.name = None;
        Ok(())
    } else if is_empty(e, "TheatreArea") {
        Err("missing field `ID`".to_owned())
    } else if is_end(e, "TheatreAreas") {
        d.place = Place::Epilog;
        Ok(())
    } else {
        Err(unexpected_message(e))
    }
}

fn in_entry(d: &mut Decoder, e: &XmlEvent) -> (r: Result<(), String>)
    requires
        old(d)@.place == Place::Entry,
        !ignorable(old(d)@.place, *e),
    ensures
        stepped(step(old(d)@, *e), r, final(d)@),
{
    if is_start(e, "ID") || is_empty(e, "ID") {
        if d.id.is_some() {
            Err("duplicate field `ID`".to_owned())
        } else if is_start(e, "ID") {
            d.place = Place::InId;
            d.text = String::new();
            Ok(())
        } else {
            d.id = Some(String::new());
            Ok(())
        }
    } else if is_start(e, "Name") || is_empty(e, "Name") {
        if d.name.is_some() {
            Err("duplicate field `Name`".to_owned())
        } else if is_start(e, "Name") {
            d.place = Place::InName;
            d.text = String::new();
            Ok(())
        } else {
            d.name = Some(String::new());
            Ok(())
        }
    } else if is_end(e, "TheatreArea") {
        match (d.id.take(), d.name.take()) {
            (Some(i), Some(n)) => {
                let ghost before = d.areas@;
                let area = TheatreArea { id: i, name: n };
                d.areas.push(area);
                assert(areas_view(d.areas@) =~= areas_view(before).push(area@));
                d.place = Place::Root;
                d.text = String::new();
                Ok(())
            },
            (None, _) => Err("missing field `ID`".to_owned()),
            _ => Err("missing field `Name`".to_owned()),
        }
    } else {
        Err(unexpected_message(e))
    }
}

fn in_field(d: &mut Decoder, e: &XmlEvent) -> (r: Result<(), String>)
    requires
        old(d)@.place == Place::InId || old(d)@.place == Place::InName,
        !ignorable(old(d)@.place, *e),
    ensures
        stepped(step(old(d)@, *e), r, final(d)@),
{
    match e {
        XmlEvent::Text(t) => {
            d.text.append(t.as_str());
            Ok(())
        },
        XmlEvent::Reference(n) => match reference(n) {
            Some(t) => {
                d.text.append(t.as_str());
                Ok(())
            },
            None => Err(quoted("unknown reference `&", n, ";`")),
        },
        _ => {
            if d.place == Place::InId && is_end(e, "ID") {
                d.id = Some(d.text.clone());
                d.place = Place::Entry;
                Ok(())
            } else if d.place == Place::InName && is_end(e, "Name") {
                d.name = Some(d.text.clone());
                d.place = Place::Entry;
                Ok(())
            } else {
                Err(unexpected_message(e))
            }
        },
    }
}


fn advance(d: &mut Decoder, e: &XmlEvent) -> (r: Result<(), String>)
    ensures
        stepped(step(old(d)@, *e), r, final(d)@),
{
    let skip = match e {
        XmlEvent::Other => true,
        XmlEvent::Text(t) => d.place != Place::InId && d.place != Place::InName && is_blank(t),
        _ => false,
    };
    if skip {
        return Ok(());
    }
    match d.place {
        Place::Prolog => in_prolog(d, e),
        Place::Root => in_root(d, e),
        Place::Entry => in_entry(d, e),
        Place::InId | Place::InName => in_field(d, e),
        Place::Epilog => Err(unexpected_message(e)),
    }
}

/// Decoding the events from `j` on is one step at `j`, then the rest.
proof fn lemma_run_at(g: Gathered, evs: Seq<XmlEvent>, j: int)
    requires
        0 <= j < evs.len(),
        !(evs[j] is Eof && g.place == Place::Epilog),
    ensures
        run(g, evs.skip(j)) == match step(g, evs[j]) {
            Ok(h) => run(h, evs.skip(j + 1)),
            Err(m) => Err(m),
        },
{
    assert(evs.skip(j)[0] == evs[j]);
    assert(evs.skip(j).drop_first() =~= evs.skip(j + 1));
}

/// What the feed's schema makes of a list of events: its entries, or why it
/// refuses them.
pub open spec fn decodes_as(r: Result<TheatreAreas, String>, evs: Seq<XmlEvent>) -> bool {
    match run(start(), evs) {
        Ok(s) => r matches Ok(a) && areas_view(a.theatre_areas@) == s,
        Err(m) => r matches Err(x) && x@ == m,
    }
}

/// Decodes a document's events against the feed's schema.
pub fn decode_events(events: &Vec<XmlEvent>) -> (r: Result<TheatreAreas, String>)
    ensures
        decodes_as(r, events@),
{
    let mut d = Decoder {
        place: Place::Prolog,
        areas: Vec::new(),
        id: None,
        name: None,
        text: String::new(),
    };
    assert(areas_view(d.areas@) =~= seq![]);
    assert(d.text@ =~= seq![]);
    assert(d@ == start());
    assert(events@.skip(0) =~= events@);
    let mut i: usize = 0;
    while i < events.len()
        invariant
            i <= events@.len(),
            run(d@, events@.skip(i as int)) == run(start(), events@),
        decreases events.len() - i,
    {
        let e = &events[i];
        if let XmlEvent::Eof = e {
            if d.place == Place::Epilog {
                assert(events@.skip(i as int)[0] == events@[i as int]);
                return Ok(TheatreAreas { theatre_areas: d.areas });
            }
        }
        proof {
            lemma_run_at(d@, events@, i as int);
        }
        match advance(&mut d, e) {
            Ok(()) => {},
            Err(m) => {
                return Err(m);
            },
        }
        i = i + 1;
    }
    assert(events@.skip(i as int).len() == 0);
    Err("unexpected end of document".to_owned())
}

/// Decodes the feed's XML text into its envelope of entries, or says why the
/// text is not a feed. The events come from quick-xml's reader; what the
/// schema makes of them is [`decodes_as`].
pub fn decode_feed(text: &str) -> (r: Result<TheatreAreas, String>)
    ensures
        decodes_as(r, xml_events_of(text@)),
{
    let events = read_events(text);
    decode_events(&events)
}


/// In the envelope, with these entries gathered.
pub open spec fn in_envelope(areas: Seq<(Seq<char>, Seq<char>)>) -> Gathered {
    Gathered { place: Place::Root, areas, id: None, name: None, text: seq![] }
}

/// The schema's steps over a run of events, none of them the document's end.
pub open spec fn steps(g: Gathered, s: Seq<XmlEvent>) -> Result<Gathered, Seq<char>>
    decreases s.len(),
{
    if s.len() == 0 {
        Ok(g)
    } else {
        match step(g, s[0]) {
            Ok(h) => steps(h, s.drop_first()),
            Err(m) => Err(m),
        }
    }
}

/// Events passed over between elements: declarations, comments and the
/// like, and white space.
pub open spec fn skippable(s: Seq<XmlEvent>) -> bool {
    forall|i: int| 0 <= i < s.len() ==> ignorable(Place::Root, #[trigger] s[i])
}

/// The text a field's content spells, where each event is text, a known
/// reference, or passed over.
pub open spec fn field_text(s: Seq<XmlEvent>) -> Option<Seq<char>>
    decreases s.len(),
{
    if s.len() == 0 {
        Some(seq![])
    } else {
        match field_text(s.drop_last()) {
            None => None,
            Some(t) => match s.last() {
                XmlEvent::Text(x) => Some(t + x@),
                XmlEvent::Reference(r) => match reference_text(r@) {
                    Some(x) => Some(t + x),
                    None => None,
                },
                XmlEvent::Other => Some(t),
                _ => None,
            },
        }
    }
}

/// The element `<name>...</name>`, whose content spells `text`.
pub open spec fn element_events(s: Seq<XmlEvent>, name: Seq<char>, text: Seq<char>) -> bool {
    &&& s.len() >= 2
    &&& starts(s[0], name)
    &&& ends(s.last(), name)
    &&& field_text(s.subrange(1, s.len() - 1)) == Some(text)
}

/// One entry: `<TheatreArea>`, its `ID` element, its `Name` element and
/// `</TheatreArea>`, with events to pass over between them.
pub open spec fn entry_events(s: Seq<XmlEvent>, entry: (Seq<char>, Seq<char>)) -> bool {
    &&& s.len() >= 2
    &&& starts(s[0], "TheatreArea"@)
    &&& ends(s.last(), "TheatreArea"@)
    &&& exists|a: Seq<XmlEvent>, i: Seq<XmlEvent>, b: Seq<XmlEvent>, n: Seq<XmlEvent>, c: Seq<XmlEvent>|
        #![trigger element_events(i, "ID"@, entry.0), element_events(n, "Name"@, entry.1), skippable(a), skippable(b), skippable(c)]
        s.subrange(1, s.len() - 1) == a + i + b + n + c && skippable(a) && element_events(
            i,
            "ID"@,
            entry.0,
        ) && skippable(b) && element_events(n, "Name"@, entry.1) && skippable(c)
}

/// The entries in turn, each after events to pass over, then events to pass over.
pub open spec fn entries_events(s: Seq<XmlEvent>, entries: Seq<(Seq<char>, Seq<char>)>) -> bool
    decreases entries.len(),
{
    if entries.len() == 0 {
        skippable(s)
    } else {
        exists|a: Seq<XmlEvent>, e: Seq<XmlEvent>, rest: Seq<XmlEvent>|
            #![trigger skippable(a), entry_events(e, entries[0]), rest.len()]
            s == a + e + rest && skippable(a) && entry_events(e, entries[0]) && entries_events(
                rest,
                entries.drop_first(),
            )
    }
}

/// The events of a well-formed feed with these entries: events to pass over,
/// the envelope holding the entries, events to pass over, and the end.
pub open spec fn feed_events(evs: Seq<XmlEvent>, entries: Seq<(Seq<char>, Seq<char>)>) -> bool {
    &&& evs.len() >= 1
    &&& evs.last() is Eof
    &&& exists|p: Seq<XmlEvent>, body: Seq<XmlEvent>, q: Seq<XmlEvent>|
        #![trigger skippable(p), skippable(q), entries_events(body.subrange(1, body.len() - 1), entries)]
        evs.drop_last() == p + body + q && skippable(p) && skippable(q) && body.len() >= 2 && starts(
            body[0],
            "TheatreAreas"@,
        ) && ends(body.last(), "TheatreAreas"@) && entries_events(
            body.subrange(1, body.len() - 1),
            entries,
        )
}

proof fn lemma_steps_one(g: Gathered, x: XmlEvent)
    ensures
        steps(g, seq![x]) == step(g, x),
{
    let s = seq![x];
    assert(s[0] == x);
    assert(s.drop_first() =~= Seq::<XmlEvent>::empty());
    if let Ok(h) = step(g, x) {
        assert(steps(h, s.drop_first()) == Ok::<_, Seq<char>>(h));
    }
}

proof fn lemma_steps_concat(g: Gathered, a: Seq<XmlEvent>, b: Seq<XmlEvent>)
    ensures
        steps(g, a + b) == match steps(g, a) {
            Ok(h) => steps(h, b),
            Err(m) => Err(m),
        },
    decreases a.len(),
{
    if a.len() == 0 {
        assert(a + b =~= b);
    } else {
        assert((a + b)[0] == a[0]);
        assert((a + b).drop_first() =~= a.drop_first() + b);
        if let Ok(h) = step(g, a[0]) {
            lemma_steps_concat(h, a.drop_first(), b);
        }
    }
}

/// Steps that succeed never meet the document's end, so decoding goes on after them.
proof fn lemma_run_concat(g: Gathered, a: Seq<XmlEvent>, b: Seq<XmlEvent>)
    requires
        steps(g, a) is Ok,
    ensures
        run(g, a + b) == run(steps(g, a)->Ok_0, b),
    decreases a.len(),
{
    if a.len() == 0 {
        assert(a + b =~= b);
    } else {
        assert((a + b)[0] == a[0]);
        assert((a + b).drop_first() =~= a.drop_first() + b);
        lemma_run_concat(step(g, a[0])->Ok_0, a.drop_first(), b);
    }
}

proof fn lemma_skip(g: Gathered, s: Seq<XmlEvent>)
    requires
        skippable(s),
        g.place != Place::InId && g.place != Place::InName,
    ensures
        steps(g, s) == Ok::<_, Seq<char>>(g),
    decreases s.len(),
{
    if s.len() > 0 {
        assert(ignorable(Place::Root, s[0]));
        assert forall|i: int| 0 <= i < s.drop_first().len() implies ignorable(
            Place::Root,
            #[trigger] s.drop_first()[i],
        ) by {
            assert(s.drop_first()[i] == s[i + 1]);
        }
        lemma_skip(g, s.drop_first());
    }
}

proof fn lemma_field(g: Gathered, s: Seq<XmlEvent>)
    requires
        g.place == Place::InId || g.place == Place::InName,
        field_text(s) is Some,
    ensures
        steps(g, s) == Ok::<_, Seq<char>>(Gathered { text: g.text + field_text(s)->Some_0, ..g }),
    decreases s.len(),
{
    if s.len() == 0 {
        assert(g.text + seq![] =~= g.text);
    } else {
        let front = s.drop_last();
        lemma_field(g, front);
        assert(s =~= front + seq![s.last()]);
        lemma_steps_concat(g, front, seq![s.last()]);
        let t = field_text(front)->Some_0;
        let h = Gathered { text: g.text + t, ..g };
        lemma_steps_one(h, s.last());
        match s.last() {
            XmlEvent::Text(x) => {
                assert(g.text + t + x@ =~= g.text + (t + x@));
            },
            XmlEvent::Reference(r) => {
                let x = reference_text(r@)->Some_0;
                assert(g.text + t + x =~= g.text + (t + x));
            },
            _ => {},
        }
    }
}

proof fn lemma_id_element(g: Gathered, s: Seq<XmlEvent>, text: Seq<char>)
    requires
        g.place == Place::Entry,
        g.id is None,
        element_events(s, "ID"@, text),
    ensures
        steps(g, s) matches Ok(h) && h.place == Place::Entry && h.id == Some(text) && h.name
            == g.name && h.areas == g.areas,
{
    let mid = s.subrange(1, s.len() - 1);
    assert(s =~= seq![s[0]] + mid + seq![s.last()]);
    lemma_steps_concat(g, seq![s[0]] + mid, seq![s.last()]);
    lemma_steps_concat(g, seq![s[0]], mid);
    let g1 = Gathered { place: Place::InId, text: seq![], ..g };
    lemma_steps_one(g, s[0]);
    assert(steps(g, seq![s[0]]) == Ok::<_, Seq<char>>(g1));
    lemma_field(g1, mid);
    assert(seq![] + text =~= text);
    lemma_steps_one(steps(g1, mid)->Ok_0, s.last());
}

proof fn lemma_name_element(g: Gathered, s: Seq<XmlEvent>, text: Seq<char>)
    requires
        g.place == Place::Entry,
        g.name is None,
        element_events(s, "Name"@, text),
    ensures
        steps(g, s) matches Ok(h) && h.place == Place::Entry && h.name == Some(text) && h.id
            == g.id && h.areas == g.areas,
{
    reveal_strlit("ID");
    reveal_strlit("Name");
    let mid = s.subrange(1, s.len() - 1);
    assert(s =~= seq![s[0]] + mid + seq![s.last()]);
    lemma_steps_concat(g, seq![s[0]] + mid, seq![s.last()]);
    lemma_steps_concat(g, seq![s[0]], mid);
    let g1 = Gathered { place: Place::InName, text: seq![], ..g };
    assert("Name"@.len() != "ID"@.len());
    assert(!starts(s[0], "ID"@));
    assert(!empty(s[0], "ID"@));
    lemma_steps_one(g, s[0]);
    assert(steps(g, seq![s[0]]) == Ok::<_, Seq<char>>(g1));
    lemma_field(g1, mid);
    assert(seq![] + text =~= text);
    lemma_steps_one(steps(g1, mid)->Ok_0, s.last());
}

proof fn lemma_entry(acc: Seq<(Seq<char>, Seq<char>)>, s: Seq<XmlEvent>, entry: (Seq<char>, Seq<char>))
    requires
        entry_events(s, entry),
    ensures
        steps(in_envelope(acc), s) == Ok::<_, Seq<char>>(in_envelope(acc.push(entry))),
{
    let (a, i, b, n, c) = choose|a: Seq<XmlEvent>, i: Seq<XmlEvent>, b: Seq<XmlEvent>, n: Seq<XmlEvent>, c: Seq<XmlEvent>|
        #![trigger element_events(i, "ID"@, entry.0), element_events(n, "Name"@, entry.1), skippable(a), skippable(b), skippable(c)]
        s.subrange(1, s.len() - 1) == a + i + b + n + c && skippable(a) && element_events(
            i,
            "ID"@,
            entry.0,
        ) && skippable(b) && element_events(n, "Name"@, entry.1) && skippable(c);
    let open = seq![s[0]];
    let close = seq![s.last()];
    assert(s =~= open + s.subrange(1, s.len() - 1) + close);
    assert(s =~= open + a + i + b + n + c + close);
    let g0 = in_envelope(acc);
    let g1 = Gathered { place: Place::Entry, ..g0 };
    lemma_steps_one(g0, s[0]);
    assert(steps(g0, open) == Ok::<_, Seq<char>>(g1));
    lemma_steps_concat(g0, open, a);
    lemma_skip(g1, a);
    lemma_steps_concat(g0, open + a, i);
    lemma_id_element(g1, i, entry.0);
    let h1 = steps(g1, i)->Ok_0;
    lemma_steps_concat(g0, open + a + i, b);
    lemma_skip(h1, b);
    lemma_steps_concat(g0, open + a + i + b, n);
    lemma_name_element(h1, n, entry.1);
    let h2 = steps(h1, n)->Ok_0;
    lemma_steps_concat(g0, open + a + i + b + n, c);
    lemma_skip(h2, c);
    lemma_steps_concat(g0, open + a + i + b + n + c, close);
    lemma_steps_one(h2, s.last());
    assert(steps(h2, close) == Ok::<_, Seq<char>>(in_envelope(acc.push(entry))));
}

proof fn lemma_entries(
    acc: Seq<(Seq<char>, Seq<char>)>,
    s: Seq<XmlEvent>,
    entries: Seq<(Seq<char>, Seq<char>)>,
)
    requires
        entries_events(s, entries),
    ensures
        steps(in_envelope(acc), s) == Ok::<_, Seq<char>>(in_envelope(acc + entries)),
    decreases entries.len(),
{
    if entries.len() == 0 {
        lemma_skip(in_envelope(acc), s);
        assert(acc + entries =~= acc);
    } else {
        let (a, e, rest) = choose|a: Seq<XmlEvent>, e: Seq<XmlEvent>, rest: Seq<XmlEvent>|
            #![trigger skippable(a), entry_events(e, entries[0]), rest.len()]
            s == a + e + rest && skippable(a) && entry_events(e, entries[0]) && entries_events(
                rest,
                entries.drop_first(),
            );
        let g0 = in_envelope(acc);
        lemma_steps_concat(g0, a + e, rest);
        lemma_steps_concat(g0, a, e);
        lemma_skip(g0, a);
        lemma_entry(acc, e, entries[0]);
        lemma_entries(acc.push(entries[0]), rest, entries.drop_first());
        assert(acc.push(entries[0]) + entries.drop_first() =~= acc + entries);
    }
}

/// A well-formed feed with N entries decodes to exactly those N entries,
/// their `ID` and `Name` texts copied verbatim, in document order. The
/// declaration, comments and white space between elements are passed over,
/// and a field's text may come in several pieces of text and references.
pub proof fn feed_decodes_to_its_entries(
    evs: Seq<XmlEvent>,
    entries: Seq<(Seq<char>, Seq<char>)>,
)
    requires
        feed_events(evs, entries),
    ensures
        run(start(), evs) == Ok::<_, Seq<char>>(entries),
{
    let (p, body, q) = choose|p: Seq<XmlEvent>, body: Seq<XmlEvent>, q: Seq<XmlEvent>|
        #![trigger skippable(p), skippable(q), entries_events(body.subrange(1, body.len() - 1), entries)]
        evs.drop_last() == p + body + q && skippable(p) && skippable(q) && body.len() >= 2 && starts(
            body[0],
            "TheatreAreas"@,
        ) && ends(body.last(), "TheatreAreas"@) && entries_events(
            body.subrange(1, body.len() - 1),
            entries,
        );
    let open = seq![body[0]];
    let inner = body.subrange(1, body.len() - 1);
    let close = seq![body.last()];
    assert(body =~= open + inner + close);
    let front = p + open + inner + close + q;
    assert(evs.drop_last() =~= front);
    assert(evs =~= front + seq![evs.last()]);
    let g0 = start();
    lemma_skip(g0, p);
    lemma_steps_concat(g0, p, open);
    lemma_steps_one(g0, body[0]);
    assert(seq![] + entries =~= entries);
    assert(steps(g0, open) == Ok::<_, Seq<char>>(in_envelope(seq![])));
    lemma_steps_concat(g0, p + open, inner);
    lemma_entries(seq![], inner, entries);
    lemma_steps_concat(g0, p + open + inner, close);
    lemma_steps_one(in_envelope(entries), body.last());
    let done = Gathered { place: Place::Epilog, ..in_envelope(entries) };
    assert(steps(in_envelope(entries), close) == Ok::<_, Seq<char>>(done));
    lemma_steps_concat(g0, p + open + inner + close, q);
    lemma_skip(done, q);
    lemma_run_concat(g0, front, seq![evs.last()]);
}

} // verus!
