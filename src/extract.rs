use vstd::prelude::*;
use vstd::string::StringExecFns;

verus! {

/// One event of an XML element stream, as the outer document walker hands it
/// on. Names and text are already decoded from the document's encoding.
#[derive(Debug)]
pub enum XmlEvent {
    /// A start tag `<name ...>`.
    Start(String),
    /// A self-closed tag `<name .../>`.
    Empty(String),
    /// An end tag `</name>`.
    End(String),
    /// A run of character data, without references.
    Text(String),
    /// The content of a `<![CDATA[...]]>` section.
    CData(String),
    /// A general reference `&name;`, holding `name` (`lt`, `#38`, `#x26`, ...).
    Ref(String),
    /// A comment, processing instruction, declaration or doctype.
    Other,
    /// The document is not well-formed at this point.
    Malformed,
    /// The end of the document.
    Eof,
}

/// One attribute of a start tag, with its key and its value with references
/// resolved; `value` is `None` where the raw value holds a reference that
/// cannot be resolved.
#[derive(Debug)]
pub struct Attribute {
    pub key: String,
    pub value: Option<String>,
}

/// An element as a writer emits it: the name and attributes of its start tag,
/// then its content, ending with its end tag.
#[derive(Debug)]
pub struct Element {
    pub name: String,
    pub attributes: Vec<Option<Attribute>>,
    pub content: Vec<XmlEvent>,
}

/// Why an element could not be read.
#[derive(PartialEq, Eq, Structural, Clone, Copy, Debug)]
pub enum XmlError {
    /// The stream reported input that is not well-formed XML.
    Malformed,
    /// The stream ended before the element's end tag.
    UnexpectedEof,
    /// A reference in the element's text names no character or known entity.
    BadReference,
    /// The value of the looked-up attribute could not be decoded.
    BadAttributeValue,
}

/// What the five predefined XML entities stand for.
pub open spec fn predefined_entity_spec(name: Seq<char>) -> Option<Seq<char>> {
    if name == seq!['l', 't'] {
        Some(seq!['<'])
    } else if name == seq!['g', 't'] {
        Some(seq!['>'])
    } else if name == seq!['a', 'm', 'p'] {
        Some(seq!['&'])
    } else if name == seq!['a', 'p', 'o', 's'] {
        Some(seq!['\''])
    } else if name == seq!['q', 'u', 'o', 't'] {
        Some(seq!['"'])
    } else {
        None
    }
}

/// Whether a reference name is a character reference (`#...`).
pub open spec fn is_char_ref(name: Seq<char>) -> bool {
    name.len() > 0 && name[0] == '#'
}

/// The character that a character reference `#...` (decimal, or hexadecimal
/// after `#x`) stands for, or `None` where the number is not a valid one.
pub uninterp spec fn char_ref_of(name: Seq<char>) -> Option<char>;

/// Relies on quick_xml::escape::resolve_xml_entity: the replacement text of
/// the predefined entities `lt`, `gt`, `amp`, `apos` and `quot`, none for others.
#[verifier::external_body]
fn predefined_entity(name: &str) -> (r: Option<String>)
    ensures
        match r {
            Some(t) => predefined_entity_spec(name@) == Some(t@),
            None => predefined_entity_spec(name@) is None,
        },
{
    match quick_xml::escape::resolve_xml_entity(name) {
        Some(t) => Some(t.to_string()),
        None => None,
    }
}

/// Relies on quick_xml::events::BytesRef::resolve_char_ref: `Some(None)` for a
/// name that does not start with `#`, the character of a valid character
/// reference, and `None` for an invalid one.
#[verifier::external_body]
fn char_reference(name: &str) -> (r: Option<Option<String>>)
    ensures
        !is_char_ref(name@) ==> r == Some(None::<String>),
        is_char_ref(name@) ==> match r {
            Some(Some(t)) => char_ref_of(name@) matches Some(c) && t@ == seq![c],
            Some(None) => false,
            None => char_ref_of(name@) is None,
        },
{
    match quick_xml::events::BytesRef::new(name).resolve_char_ref() {
        Ok(Some(c)) => Some(Some(c.to_string())),
        Ok(None) => Some(None),
        Err(_) => None,
    }
}

/// The text that a general reference stands for, if any.
pub open spec fn reference_text(name: Seq<char>) -> Option<Seq<char>> {
    if is_char_ref(name) {
        match char_ref_of(name) {
            Some(c) => Some(seq![c]),
            None => None,
        }
    } else {
        predefined_entity_spec(name)
    }
}

/// Resolves a general reference: a character reference, or one of the
/// predefined entities.
pub fn resolve_reference(name: &str) -> (r: Option<String>)
    ensures
        match r {
            Some(t) => reference_text(name@) == Some(t@),
            None => reference_text(name@) is None,
        },
{
    match char_reference(name) {
        Some(Some(t)) => Some(t),
        Some(None) => predefined_entity(name),
        None => None,
    }
}

/// The view of an optional string.
pub open spec fn opt_view(o: Option<String>) -> Option<Seq<char>> {
    match o {
        Some(s) => Some(s@),
        None => None,
    }
}

/// The first well-formed attribute named `key`: `None` where there is none,
/// else the view of its decoded value (`None` where it could not be decoded).
/// Malformed attributes are passed over, and later ones of the same name too.
pub open spec fn attribute_lookup(attrs: Seq<Option<Attribute>>, key: Seq<char>) -> Option<
    Option<Seq<char>>,
>
    decreases attrs.len(),
{
    if attrs.len() == 0 {
        None
    } else {
        match attrs[0] {
            Some(a) if a.key@ == key => Some(opt_view(a.value)),
            _ => attribute_lookup(attrs.drop_first(), key),
        }
    }
}

/// Looks up the attribute named `key` among those of a start tag, in
/// document order, stopping at the first one of that name.
pub fn find_attribute(attrs: &Vec<Option<Attribute>>, key: &String) -> (r: Result<
    Option<String>,
    XmlError,
>)
    ensures
        match attribute_lookup(attrs@, key@) {
            None => r == Ok::<Option<String>, XmlError>(None),
            Some(None) => r == Err::<Option<String>, XmlError>(XmlError::BadAttributeValue),
            Some(Some(v)) => r matches Ok(Some(s)) && s@ == v,
        },
{
    let mut i: usize = 0;
    assert(attrs@.skip(0) =~= attrs@);
    while i < attrs.len()
        invariant
            i <= attrs.len(),
            attribute_lookup(attrs@.skip(i as int), key@) == attribute_lookup(attrs@, key@),
        decreases attrs.len() - i,
    {
        assert(attrs@.skip(i as int).drop_first() =~= attrs@.skip(i + 1));
        match &attrs[i] {
            Some(a) => {
                if a.key.eq(key) {
                    return match &a.value {
                        Some(v) => Ok(Some(v.clone())),
                        None => Err(XmlError::BadAttributeValue),
                    };
                }
            },
            None => {},
        }
        i = i + 1;
    }
    assert(attrs@.skip(i as int).len() == 0);
    Ok(None)
}

/// Text collected so far, extended by one more piece: the result is present
/// even where both are empty.
pub open spec fn join_text(acc: Option<Seq<char>>, t: Seq<char>) -> Option<Seq<char>> {
    match acc {
        Some(a) => Some(a + t),
        None => Some(t),
    }
}

/// Reads the events from index `i` on, inside an element whose start tag has
/// been consumed, `depth` levels down in child elements, with the element's
/// text so far `acc`. The result is the element's text and the index just
/// past its end tag. Text inside child elements is passed over.
pub open spec fn scan_text(evs: Seq<XmlEvent>, i: int, depth: nat, acc: Option<Seq<char>>) -> Result<
    (Option<Seq<char>>, int),
    XmlError,
>
    decreases evs.len() - i,
{
    if i < 0 || i >= evs.len() {
        Err(XmlError::UnexpectedEof)
    } else {
        match evs[i] {
            XmlEvent::Start(_) => scan_text(evs, i + 1, depth + 1, acc),
            XmlEvent::End(_) => if depth == 0 {
                Ok((acc, i + 1))
            } else {
                scan_text(evs, i + 1, (depth - 1) as nat, acc)
            },
            XmlEvent::Text(t) => if depth == 0 {
                scan_text(evs, i + 1, depth, join_text(acc, t@))
            } else {
                scan_text(evs, i + 1, depth, acc)
            },
            XmlEvent::CData(t) => if depth == 0 {
                scan_text(evs, i + 1, depth, join_text(acc, t@))
            } else {
                scan_text(evs, i + 1, depth, acc)
            },
            XmlEvent::Ref(n) => if depth == 0 {
                match reference_text(n@) {
                    Some(t) => scan_text(evs, i + 1, depth, join_text(acc, t)),
                    None => Err(XmlError::BadReference),
                }
            } else {
                scan_text(evs, i + 1, depth, acc)
            },
            XmlEvent::Empty(_) => scan_text(evs, i + 1, depth, acc),
            XmlEvent::Other => scan_text(evs, i + 1, depth, acc),
            XmlEvent::Malformed => Err(XmlError::Malformed),
            XmlEvent::Eof => Err(XmlError::UnexpectedEof),
        }
    }
}

/// The text of the element whose content starts at index `start`, with the
/// index just past its end tag.
pub open spec fn element_text_spec(evs: Seq<XmlEvent>, start: int) -> Result<
    (Option<Seq<char>>, int),
    XmlError,
> {
    scan_text(evs, start, 0, None)
}

/// Rejection of an unclosed element: where no end tag follows, reading the
/// text fails, whatever the depth and the text so far.
pub proof fn lemma_unclosed_rejected(evs: Seq<XmlEvent>, i: int, depth: nat, acc: Option<Seq<char>>)
    requires
        forall|j: int| i <= j < evs.len() ==> !(#[trigger] evs[j] is End),
    ensures
        scan_text(evs, i, depth, acc) is Err,
    decreases evs.len() - i,
{
    if 0 <= i < evs.len() {
        let d1 = depth + 1;
        let d2: nat = if depth > 0 { (depth - 1) as nat } else { 0 };
        lemma_unclosed_rejected(evs, i + 1, depth, acc);
        lemma_unclosed_rejected(evs, i + 1, d1, acc);
        lemma_unclosed_rejected(evs, i + 1, d2, acc);
        match evs[i] {
            XmlEvent::Text(t) => lemma_unclosed_rejected(evs, i + 1, depth, join_text(acc, t@)),
            XmlEvent::CData(t) => lemma_unclosed_rejected(evs, i + 1, depth, join_text(acc, t@)),
            XmlEvent::Ref(n) => match reference_text(n@) {
                Some(t) => lemma_unclosed_rejected(evs, i + 1, depth, join_text(acc, t)),
                None => {},
            },
            _ => {},
        }
    }
}

fn join(acc: Option<String>, t: &str) -> (r: String)
    ensures
        join_text(opt_view(acc), t@) == Some(r@),
{
    match acc {
        Some(mut a) => {
            a.append(t);
            a
        },
        None => String::from_str(t),
    }
}

/// Collects the text of the element whose start tag has just been read:
/// the events from `start` on, up to its matching end tag. Returns the text,
/// `None` where the element holds none, and the index just past the end tag.
pub fn element_text(evs: &Vec<XmlEvent>, start: usize) -> (r: Result<(Option<String>, usize), XmlError>)
    requires
        start <= evs.len(),
    ensures
        match element_text_spec(evs@, start as int) {
            Ok((t, n)) => r matches Ok((s, m)) && opt_view(s) == t && m == n,
            Err(e) => r == Err::<(Option<String>, usize), XmlError>(e),
        },
{
    let mut i: usize = start;
    let mut depth: usize = 0;
    let mut acc: Option<String> = None;
    while i < evs.len()
        invariant
            start <= i <= evs.len(),
            depth <= i - start,
            scan_text(evs@, i as int, depth as nat, opt_view(acc)) == element_text_spec(
                evs@,
                start as int,
            ),
        decreases evs.len() - i,
    {
        match &evs[i] {
            XmlEvent::Start(_) => {
                depth = depth + 1;
            },
            XmlEvent::End(_) => {
                if depth == 0 {
                    return Ok((acc, i + 1));
                }
                depth = depth - 1;
            },
            XmlEvent::Text(t) => {
                if depth == 0 {
                    acc = Some(join(acc, t.as_str()));
                }
            },
            XmlEvent::CData(t) => {
                if depth == 0 {
                    acc = Some(join(acc, t.as_str()));
                }
            },
            XmlEvent::Ref(n) => {
                if depth == 0 {
                    match resolve_reference(n.as_str()) {
                        Some(t) => {
                            acc = Some(join(acc, t.as_str()));
                        },
                        None => {
                            return Err(XmlError::BadReference);
                        },
                    }
                }
            },
            XmlEvent::Empty(_) => {},
            XmlEvent::Other => {},
            XmlEvent::Malformed => {
                return Err(XmlError::Malformed);
            },
            XmlEvent::Eof => {
                return Err(XmlError::UnexpectedEof);
            },
        }
        i = i + 1;
    }
    Err(XmlError::UnexpectedEof)
}

} // verus!
