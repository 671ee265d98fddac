use vstd::prelude::*;

use crate::extract::reference_text;

verus! {

/// What one character becomes in escaped text: `<`, `>`, `&`, `'`, `"` and a
/// carriage return become references, any other character stays.
pub open spec fn escape_char_spec(c: char) -> Seq<char> {
    if c == '<' {
        seq!['&', 'l', 't', ';']
    } else if c == '>' {
        seq!['&', 'g', 't', ';']
    } else if c == '&' {
        seq!['&', 'a', 'm', 'p', ';']
    } else if c == '\'' {
        seq!['&', 'a', 'p', 'o', 's', ';']
    } else if c == '"' {
        seq!['&', 'q', 'u', 'o', 't', ';']
    } else if c == '\r' {
        seq!['&', '#', '1', '3', ';']
    } else {
        seq![c]
    }
}

/// Escaped text: each character escaped in turn.
pub open spec fn escape_spec(s: Seq<char>) -> Seq<char>
    decreases s.len(),
{
    if s.len() == 0 {
        Seq::<char>::empty()
    } else {
        escape_spec(s.drop_last()) + escape_char_spec(s.last())
    }
}

/// Relies on quick_xml::escape::escape: replaces `<`, `>`, `&`, `'`, `"` and
/// `\r` by `&lt;`, `&gt;`, `&amp;`, `&apos;`, `&quot;` and `&#13;`, and keeps
/// every other character.
#[verifier::external_body]
pub(crate) fn escape(s: &str) -> (r: String)
    ensures
        r@ == escape_spec(s@),
{
    quick_xml::escape::escape(s).into_owned()
}

/// Escaping is undone by reading: every character that escaping replaces,
/// but for the carriage return (a numeric reference), becomes `&name;` where
/// `name` resolves back to that character; every other character stays as
/// it is.
pub proof fn lemma_escape_resolves(c: char)
    requires
        c != '\r',
    ensures
        escape_char_spec(c) == seq![c] || (escape_char_spec(c).len() >= 3 && escape_char_spec(c)[0]
            == '&' && escape_char_spec(c).last() == ';' && reference_text(
            escape_char_spec(c).subrange(1, escape_char_spec(c).len() - 1),
        ) == Some(seq![c])),
        escape_char_spec(c) == seq![c] <==> (c != '<' && c != '>' && c != '&' && c != '\''
            && c != '"'),
{
    let e = escape_char_spec(c);
    if c == '<' {
        assert(e.subrange(1, e.len() - 1) =~= seq!['l', 't']);
    } else if c == '>' {
        assert(e.subrange(1, e.len() - 1) =~= seq!['g', 't']);
    } else if c == '&' {
        assert(e.subrange(1, e.len() - 1) =~= seq!['a', 'm', 'p']);
    } else if c == '\'' {
        assert(e.subrange(1, e.len() - 1) =~= seq!['a', 'p', 'o', 's']);
    } else if c == '"' {
        assert(e.subrange(1, e.len() - 1) =~= seq!['q', 'u', 'o', 't']);
    }
}

} // verus!
