use vstd::prelude::*;

use vstd::string::StringExecFns;

use crate::extract::{
    attribute_lookup, element_text, element_text_spec, find_attribute, join_text,
    lemma_unclosed_rejected, opt_view, scan_text, Attribute, Element, XmlError, XmlEvent,
};
use crate::markup::{escape, escape_spec};

verus! {

/// The mathematical value of a [`Source`]: its URL and its optional title.
pub struct SourceView {
    pub url: Seq<char>,
    pub title: Option<Seq<char>>,
}

/// Represents the source of an RSS item.
#[derive(Debug)]
pub struct Source {
    /// The URL of the source.
    pub(crate) url: String,
    /// The title of the source.
    pub(crate) title: Option<String>,
}

impl View for Source {
    type V = SourceView;

    closed spec fn view(&self) -> SourceView {
        SourceView { url: self.url@, title: opt_view(self.title) }
    }
}

impl Default for Source {
    /// A source with an empty URL and no title.
    fn default() -> (r: Source)
        ensures
            r@.url == Seq::<char>::empty(),
            r@.title is None,
    {
        Source { url: String::new(), title: None }
    }
}

impl Clone for Source {
    fn clone(&self) -> (r: Source)
        ensures
            r@ == self@,
    {
        let title = match &self.title {
            Some(t) => Some(t.clone()),
            None => None,
        };
        Source { url: self.url.clone(), title }
    }
}

impl PartialEq for Source {
    /// Two sources are equal when their URLs and titles are.
    fn eq(&self, other: &Source) -> (r: bool)
        ensures
            r == (self@ == other@),
    {
        let same_title = match &self.title {
            Some(a) => match &other.title {
                Some(b) => a.eq(b),
                None => false,
            },
            None => other.title.is_none(),
        };
        let same_url = self.url.eq(&other.url);
        same_url && same_title
    }
}

impl vstd::std_specs::cmp::PartialEqSpecImpl for Source {
    open spec fn obeys_eq_spec() -> bool {
        true
    }

    open spec fn eq_spec(&self, other: &Source) -> bool {
        self@ == other@
    }
}

impl Source {
    /// Return the URL of this source.
    pub fn url(&self) -> (r: &str)
        ensures
            r@ == self@.url,
    {
        self.url.as_str()
    }

    /// Set the URL of this source.
    pub fn set_url(&mut self, url: String)
        ensures
            final(self)@ == (SourceView { url: url@, title: old(self)@.title }),
    {
        self.url = url;
    }

    /// Return the title of this source.
    pub fn title(&self) -> (r: Option<&str>)
        ensures
            match r {
                Some(t) => self@.title == Some(t@),
                None => self@.title is None,
            },
    {
        match &self.title {
            Some(t) => Some(t.as_str()),
            None => None,
        }
    }

    /// Set the title of this source.
    pub fn set_title(&mut self, title: Option<String>)
        ensures
            final(self)@ == (SourceView { url: old(self)@.url, title: opt_view(title) }),
    {
        self.title = title;
    }
}

/// The name of the element.
pub open spec fn source_name() -> Seq<char> {
    seq!['s', 'o', 'u', 'r', 'c', 'e']
}

/// The name of the attribute that holds the URL.
pub open spec fn url_key() -> Seq<char> {
    seq!['u', 'r', 'l']
}

/// What reading a `source` element gives: the attributes of its start tag,
/// and its content from index `start` of the events. The URL comes from the
/// first `url` attribute, and is empty where there is none; the title is the
/// element's text. The result holds the index just past the end tag.
pub open spec fn read_spec(attrs: Seq<Option<Attribute>>, evs: Seq<XmlEvent>, start: int) -> Result<
    (SourceView, int),
    XmlError,
> {
    match attribute_lookup(attrs, url_key()) {
        Some(None) => Err(XmlError::BadAttributeValue),
        found => match element_text_spec(evs, start) {
            Ok((title, next)) => Ok(
                (
                    SourceView {
                        url: match found {
                            Some(Some(u)) => u,
                            _ => Seq::<char>::empty(),
                        },
                        title,
                    },
                    next,
                ),
            ),
            Err(e) => Err(e),
        },
    }
}

/// Whether an event is a text event holding `t`.
pub open spec fn is_text(ev: XmlEvent, t: Seq<char>) -> bool {
    match ev {
        XmlEvent::Text(s) => s@ == t,
        _ => false,
    }
}

/// Whether an event is the end tag of a `source` element.
pub open spec fn is_source_end(ev: XmlEvent) -> bool {
    match ev {
        XmlEvent::End(n) => n@ == source_name(),
        _ => false,
    }
}

/// Whether an attribute is well-formed, named `url`, and has the value `u`.
pub open spec fn is_url_attribute(a: Option<Attribute>, u: Seq<char>) -> bool {
    match a {
        Some(a) => a.key@ == url_key() && opt_view(a.value) == Some(u),
        None => false,
    }
}

/// Whether an element is the written form of `v`: a `source` start tag with
/// the single attribute `url`, the title as one text event where there is
/// one, and the end tag.
pub open spec fn written_form(v: SourceView, el: Element) -> bool {
    &&& el.name@ == source_name()
    &&& el.attributes@.len() == 1
    &&& is_url_attribute(el.attributes@[0], v.url)
    &&& match v.title {
        Some(t) => el.content@.len() == 2 && is_text(el.content@[0], t) && is_source_end(
            el.content@[1],
        ),
        None => el.content@.len() == 1 && is_source_end(el.content@[0]),
    }
}

/// The markup that the writer emits for `v`: a `source` start tag whose `url`
/// attribute holds the escaped URL, the escaped title where there is one, and
/// the end tag, never a self-closed tag.
pub open spec fn markup_spec(v: SourceView) -> Seq<char> {
    "<source url=\""@ + escape_spec(v.url) + "\">"@ + match v.title {
        Some(t) => escape_spec(t),
        None => Seq::<char>::empty(),
    } + "</source>"@
}

impl Source {
    /// Writes this source as XML markup.
    pub fn to_xml(&self) -> (r: String)
        ensures
            r@ == markup_spec(self@),
    {
        let mut out = String::from_str("<source url=\"");
        let url = escape(self.url.as_str());
        out.append(url.as_str());
        out.append("\">");
        match &self.title {
            Some(t) => {
                let text = escape(t.as_str());
                out.append(text.as_str());
            },
            None => {},
        }
        out.append("</source>");
        out
    }

    /// Reads a `source` element whose start tag, with attributes `attrs`, has
    /// just been read, from its content in `evs` at index `start` up to and
    /// including its end tag. Returns the source and the index just past the
    /// end tag.
    pub fn from_xml(attrs: &Vec<Option<Attribute>>, evs: &Vec<XmlEvent>, start: usize) -> (r: Result<
        (Source, usize),
        XmlError,
    >)
        requires
            start <= evs.len(),
        ensures
            match read_spec(attrs@, evs@, start as int) {
                Ok((v, n)) => r matches Ok((s, m)) && s@ == v && m == n,
                Err(e) => r == Err::<(Source, usize), XmlError>(e),
            },
    {
        let mut source = Source::default();
        let key = String::from_str("url");
        proof {
            reveal_strlit("url");
            assert(key@ =~= url_key());
        }
        match find_attribute(attrs, &key) {
            Ok(Some(u)) => {
                source.url = u;
            },
            Ok(None) => {},
            Err(e) => {
                return Err(e);
            },
        }
        match element_text(evs, start) {
            Ok((title, next)) => {
                source.title = title;
                Ok((source, next))
            },
            Err(e) => Err(e),
        }
    }

    /// Writes this source as a `source` element: the URL as its `url`
    /// attribute, the title, where there is one, as its text.
    pub fn to_element(&self) -> (r: Element)
        ensures
            written_form(self@, r),
    {
        let name = String::from_str("source");
        let end_name = String::from_str("source");
        let key = String::from_str("url");
        proof {
            reveal_strlit("source");
            reveal_strlit("url");
            assert(name@ =~= source_name());
            assert(end_name@ =~= source_name());
            assert(key@ =~= url_key());
        }
        let mut attributes: Vec<Option<Attribute>> = Vec::new();
        attributes.push(Some(Attribute { key, value: Some(self.url.clone()) }));
        let mut content: Vec<XmlEvent> = Vec::new();
        match &self.title {
            Some(t) => {
                content.push(XmlEvent::Text(t.clone()));
            },
            None => {},
        }
        content.push(XmlEvent::End(end_name));
        Element { name, attributes, content }
    }
}

/// Round trip: reading back the element that the writer emits for a source
/// gives that source, for any URL (the empty one included) and with or
/// without a title, and consumes the whole element.
pub proof fn lemma_round_trip(v: SourceView, el: Element)
    requires
        written_form(v, el),
    ensures
        read_spec(el.attributes@, el.content@, 0) == Ok::<(SourceView, int), XmlError>(
            (v, el.content@.len() as int),
        ),
{
    let attrs = el.attributes@;
    let evs = el.content@;
    assert(attribute_lookup(attrs, url_key()) == Some(Some(v.url)));
    match v.title {
        Some(t) => {
            assert(scan_text(evs, 1, 0, Some(t)) == Ok::<(Option<Seq<char>>, int), XmlError>(
                (Some(t), 2),
            ));
            assert(element_text_spec(evs, 0) == scan_text(evs, 1, 0, join_text(None, t)));
        },
        None => {
            assert(element_text_spec(evs, 0) == Ok::<(Option<Seq<char>>, int), XmlError>(
                (None, 1),
            ));
        },
    }
}

/// Tolerance of a missing URL: where no well-formed attribute is named `url`,
/// reading gives the empty URL, and fails only where the element's content
/// does.
pub proof fn lemma_missing_url(attrs: Seq<Option<Attribute>>, evs: Seq<XmlEvent>, start: int)
    requires
        forall|i: int| 0 <= i < attrs.len() ==> !(#[trigger] attrs[i] matches Some(a) && a.key@ == url_key()),
    ensures
        read_spec(attrs, evs, start) == match element_text_spec(evs, start) {
            Ok((title, next)) => Ok((SourceView { url: Seq::<char>::empty(), title }, next)),
            Err(e) => Err::<(SourceView, int), XmlError>(e),
        },
    decreases attrs.len(),
{
    if attrs.len() > 0 {
        let rest = attrs.drop_first();
        assert forall|i: int| 0 <= i < rest.len() implies !(#[trigger] rest[i] matches Some(a) && a.key@
            == url_key()) by {
            assert(rest[i] == attrs[i + 1]);
        }
        lemma_missing_url(rest, evs, start);
        assert(attribute_lookup(attrs, url_key()) == attribute_lookup(rest, url_key())) by {
            assert(!(attrs[0] matches Some(a) && a.key@ == url_key()));
        }
    }
}

/// Precedence of the first attribute: where the first attribute of the start
/// tag is a well-formed `url` with a decoded value, that value is the URL read,
/// whatever attributes follow, later `url` ones included.
pub proof fn lemma_first_url_wins(
    attrs: Seq<Option<Attribute>>,
    evs: Seq<XmlEvent>,
    start: int,
    u: Seq<char>,
)
    requires
        attrs.len() > 0,
        is_url_attribute(attrs[0], u),
    ensures
        read_spec(attrs, evs, start) is Ok ==> read_spec(attrs, evs, start)->Ok_0.0.url == u,
        read_spec(attrs, evs, start) is Ok <==> element_text_spec(evs, start) is Ok,
{
}

/// Rejection of an unclosed element: where the content holds no end tag
/// before the stream runs out, reading fails and gives no source.
pub proof fn lemma_unclosed_element(attrs: Seq<Option<Attribute>>, evs: Seq<XmlEvent>, start: int)
    requires
        forall|j: int| start <= j < evs.len() ==> !(#[trigger] evs[j] is End),
    ensures
        read_spec(attrs, evs, start) is Err,
{
    lemma_unclosed_rejected(evs, start, 0, None);
}

} // verus!
