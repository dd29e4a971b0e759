//! Escaping of user text for embedding in markup.
//!
//! Every string a caller hands to the builder is escaped once, at
//! configuration time, so that the rendered document is well-formed no
//! matter what the text contains.

use vstd::prelude::*;

verus! {

/// The characters that must never appear raw inside markup text or
/// attribute values.
pub open spec fn markup_special(c: char) -> bool {
    c == '<' || c == '>' || c == '"' || c == '\''
}

/// What one character of user text contributes to escaped markup: the five
/// markup-significant characters and the two line breaks become character
/// entities, every other character stands as itself.
pub open spec fn escape_char(c: char) -> Seq<char> {
    if c == '<' {
        seq!['&', 'l', 't', ';']
    } else if c == '>' {
        seq!['&', 'g', 't', ';']
    } else if c == '"' {
        seq!['&', 'q', 'u', 'o', 't', ';']
    } else if c == '\'' {
        seq!['&', 'a', 'p', 'o', 's', ';']
    } else if c == '&' {
        seq!['&', 'a', 'm', 'p', ';']
    } else if c == '\n' {
        seq!['&', '#', 'x', 'A', ';']
    } else if c == '\r' {
        seq!['&', '#', 'x', 'D', ';']
    } else {
        seq![c]
    }
}

/// The escaped form of a whole piece of user text.
pub open spec fn escape_text(s: Seq<char>) -> Seq<char>
    decreases s.len(),
{
    if s.len() == 0 {
        Seq::empty()
    } else {
        escape_char(s[0]) + escape_text(s.drop_first())
    }
}

/// One of the seven entities written by `escape_char` begins at index `i`
/// of `t`.
pub open spec fn entity_at(t: Seq<char>, i: int) -> bool {
    ||| (i + 4 <= t.len() && t[i] == '&' && t[i + 1] == 'l' && t[i + 2] == 't' && t[i + 3] == ';')
    ||| (i + 4 <= t.len() && t[i] == '&' && t[i + 1] == 'g' && t[i + 2] == 't' && t[i + 3] == ';')
    ||| (i + 6 <= t.len() && t[i] == '&' && t[i + 1] == 'q' && t[i + 2] == 'u' && t[i + 3] == 'o'
        && t[i + 4] == 't' && t[i + 5] == ';')
    ||| (i + 6 <= t.len() && t[i] == '&' && t[i + 1] == 'a' && t[i + 2] == 'p' && t[i + 3] == 'o'
        && t[i + 4] == 's' && t[i + 5] == ';')
    ||| (i + 5 <= t.len() && t[i] == '&' && t[i + 1] == 'a' && t[i + 2] == 'm' && t[i + 3] == 'p'
        && t[i + 4] == ';')
    ||| (i + 5 <= t.len() && t[i] == '&' && t[i + 1] == '#' && t[i + 2] == 'x' && t[i + 3] == 'A'
        && t[i + 4] == ';')
    ||| (i + 5 <= t.len() && t[i] == '&' && t[i + 1] == '#' && t[i + 2] == 'x' && t[i + 3] == 'D'
        && t[i + 4] == ';')
}

/// Text is inert when it holds no raw `<`, `>`, `"` or `'` at all and
/// every `&` in it begins one of the seven entities: embedding such text
/// in an attribute value or a text node cannot change the document's
/// structure.
pub open spec fn markup_inert(t: Seq<char>) -> bool {
    &&& forall|i: int| 0 <= i < t.len() ==> !markup_special(#[trigger] t[i])
    &&& forall|i: int| 0 <= i < t.len() && #[trigger] t[i] == '&' ==> entity_at(t, i)
}

/// Escaped text is always inert, whatever the user text held: this is
/// why every rendered document is well-formed and why the escaped
/// characters appear only as entities.
pub proof fn lemma_escape_text_inert(s: Seq<char>)
    ensures
        markup_inert(escape_text(s)),
    decreases s.len(),
{
    if s.len() > 0 {
        let head = escape_char(s[0]);
        let rest = escape_text(s.drop_first());
        let t = escape_text(s);
        lemma_escape_text_inert(s.drop_first());
        assert(t == head + rest);
        assert forall|i: int| 0 <= i < t.len() implies !markup_special(#[trigger] t[i]) by {
            if i < head.len() {
                assert(t[i] == head[i]);
            } else {
                assert(t[i] == rest[i - head.len()]);
            }
        }
        assert forall|i: int| 0 <= i < t.len() && #[trigger] t[i] == '&' implies entity_at(t, i) by {
            if i < head.len() {
                assert(t[i] == head[i]);
                if head.len() == 1 {
                    assert(head[0] == s[0] && !markup_special(s[0]));
                } else {
                    assert(i == 0);
                    assert(forall|k: int| 0 <= k < head.len() ==> t[k] == head[k]);
                }
            } else {
                let j = i - head.len();
                assert(rest[j] == t[i] && rest[j] == '&');
                assert(entity_at(rest, j));
                assert(forall|k: int| 0 <= k < rest.len() ==> #[trigger] rest[k] == t[k + head.len()]);
            }
        }
    }
}

/// Relies on xml::escape::escape_str_attribute: it rewrites the UTF-8 bytes
/// of `s`, replacing each of the seven ASCII bytes `<` `>` `"` `'` `&`
/// newline and carriage return by the entity that `escape_char` names and
/// keeping every other byte. No multi-byte character holds an ASCII byte,
/// so on characters this is exactly `escape_text`.
#[verifier::external_body]
pub(crate) fn escape_attribute(s: &str) -> (r: String)
    ensures
        r@ == escape_text(s@),
{
    xml::escape::escape_str_attribute(s).into_owned()
}

} // verus!
