use vstd::prelude::*;

verus! {

/// The reader of quick-xml over a source of bytes.
#[verifier::external_type_specification]
#[verifier::external_body]
#[verifier::reject_recursive_types(R)]
pub struct ExXmlReader<R>(quick_xml::Reader<R>);

/// What the reader of quick-xml gives at one read.
#[verifier::external_type_specification]
#[verifier::external_body]
pub struct ExXmlEvent<'a>(quick_xml::events::Event<'a>);

/// The kinds of event that are told apart.
#[derive(Debug, Clone, Copy, PartialEq, Eq, Structural)]
pub enum XmlKind {
    /// The start tag of an element.
    Start,
    /// The end tag of an element.
    End,
    /// An element without content, written as one tag.
    Empty,
    /// Text between tags.
    Text,
    /// The end of the document.
    Eof,
    /// Anything else: a comment, a declaration, a reference and so on.
    Other,
}

/// What the reader of quick-xml gives for `text`, read after read, up to
/// the end of the document or the first failure, which comes as `None`.
pub uninterp spec fn xml_events(text: Seq<char>) -> Seq<Option<quick_xml::events::Event<'static>>>;

/// What the reader has yet to give, up to the end of the document or the
/// first failure.
pub uninterp spec fn xml_pending(reader: quick_xml::Reader<&[u8]>) -> Seq<
    Option<quick_xml::events::Event<'static>>,
>;

/// The kind of an event.
pub uninterp spec fn xml_kind(event: quick_xml::events::Event<'static>) -> XmlKind;

/// The name of the element that a start tag or an empty element opens;
/// `None` for other events.
pub uninterp spec fn xml_name(event: quick_xml::events::Event<'static>) -> Option<Seq<char>>;

/// The value of the attribute `key` of a start tag or an empty element;
/// `None` where there is no such attribute, or the attributes or the value
/// are malformed, and for other events.
pub uninterp spec fn xml_attribute(event: quick_xml::events::Event<'static>, key: Seq<char>)
    -> Option<Seq<char>>;

/// The content of a text event; `None` for other events.
pub uninterp spec fn xml_text(event: quick_xml::events::Event<'static>) -> Option<Seq<char>>;

/// Whether `events` end as a document does: with the end of the document or
/// a failure, and with neither before.
pub open spec fn ends_once(events: Seq<Option<quick_xml::events::Event<'static>>>) -> bool {
    &&& events.len() > 0
    &&& events.last() matches Some(e) ==> xml_kind(e) == XmlKind::Eof
    &&& forall|i: int|
        0 <= i < events.len() - 1 ==> (#[trigger] events[i]) is Some && xml_kind(events[i]->0)
            != XmlKind::Eof
}

/// Calls `quick_xml::Reader::from_str`. The reader gives event after event
/// until the document ends or a read fails; it stays at its end from then
/// on. The contract names what the reader will give and says that this
/// comes to an end.
#[verifier::external_body]
pub(crate) fn open_reader<'a>(text: &'a str) -> (reader: quick_xml::Reader<&'a [u8]>)
    ensures
        xml_pending(reader) == xml_events(text@),
        ends_once(xml_pending(reader)),
{
    quick_xml::Reader::from_str(text)
}

/// Calls `quick_xml::Reader::read_event` and `Event::into_owned`. A failed
/// read comes back as `None`.
#[verifier::external_body]
pub(crate) fn next_event(reader: &mut quick_xml::Reader<&[u8]>) -> (event: Option<
    quick_xml::events::Event<'static>,
>)
    ensures
        xml_pending(*old(reader)).len() > 0 ==> event == xml_pending(*old(reader))[0]
            && xml_pending(*final(reader)) == xml_pending(*old(reader)).skip(1),
{
    match reader.read_event() {
        Ok(event) => Some(event.into_owned()),
        Err(_) => None,
    }
}

/// Tells the variants of `quick_xml::events::Event` apart.
#[verifier::external_body]
pub(crate) fn event_kind(event: &quick_xml::events::Event<'static>) -> (kind: XmlKind)
    ensures
        kind == xml_kind(*event),
{
    match event {
        quick_xml::events::Event::Start(_) => XmlKind::Start,
        quick_xml::events::Event::End(_) => XmlKind::End,
        quick_xml::events::Event::Empty(_) => XmlKind::Empty,
        quick_xml::events::Event::Text(_) => XmlKind::Text,
        quick_xml::events::Event::Eof => XmlKind::Eof,
        _ => XmlKind::Other,
    }
}

/// Calls `BytesStart::name` on a start tag or an empty element: the name
/// as it is written, a prefix included.
#[verifier::external_body]
pub(crate) fn event_name(event: &quick_xml::events::Event<'static>) -> (name: Option<String>)
    ensures
        name matches Some(n) ==> xml_name(*event) == Some(n@),
        name is None ==> xml_name(*event) is None,
{
    match event {
        quick_xml::events::Event::Start(e) | quick_xml::events::Event::Empty(e) => Some(
            e.name().as_ref().to_owned(),
        ),
        _ => None,
    }
}

/// Calls `BytesStart::try_get_attribute` on a start tag or an empty
/// element, and `Attribute::normalized_value` on what it finds.
#[verifier::external_body]
pub(crate) fn event_attribute(event: &quick_xml::events::Event<'static>, key: &str) -> (value:
    Option<String>)
    ensures
        value matches Some(v) ==> xml_attribute(*event, key@) == Some(v@),
        value is None ==> xml_attribute(*event, key@) is None,
{
    match event {
        quick_xml::events::Event::Start(e) | quick_xml::events::Event::Empty(e) => {
            match e.try_get_attribute(key) {
                Ok(Some(a)) => match a.normalized_value(quick_xml::XmlVersion::Implicit1_0) {
                    Ok(v) => Some(v.into_owned()),
                    Err(_) => None,
                },
                _ => None,
            }
        },
        _ => None,
    }
}

/// Calls `BytesText::xml10_content` on a text event.
#[verifier::external_body]
pub(crate) fn event_text(event: &quick_xml::events::Event<'static>) -> (text: Option<String>)
    ensures
        text matches Some(t) ==> xml_text(*event) == Some(t@),
        text is None ==> xml_text(*event) is None,
{
    match event {
        quick_xml::events::Event::Text(t) => Some(t.xml10_content().into_owned()),
        _ => None,
    }
}

} // verus!
