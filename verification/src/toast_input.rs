//! Inputs a toast offers the user: a text box or a single-choice list.

use crate::escape::escape_attribute;
use crate::escape::escape_text;
use crate::escape::lemma_escape_text_inert;
use crate::escape::markup_inert;
use vstd::prelude::*;
use vstd::string::StringExecFns;

verus! {

/// The kind of an input element.
#[derive(Clone, Copy, Debug)]
pub enum ToastInputType {
    /// A free-text box.
    Text,
    /// A single-choice list of selection entries.
    Selection,
}

/// One entry of a single-choice input: an id and the label shown for it.
pub struct SelectionEntry {
    id: String,
    content: String,
}

/// The mathematical value of a [`SelectionEntry`], in escaped form.
#[verifier::ext_equal]
pub ghost struct SelectionEntryView {
    pub id: Seq<char>,
    pub content: Seq<char>,
}

impl View for SelectionEntry {
    type V = SelectionEntryView;

    closed spec fn view(&self) -> SelectionEntryView {
        SelectionEntryView { id: self.id@, content: self.content@ }
    }
}

/// One input of a toast. The id is what the application later uses to
/// retrieve the entered or selected value.
///
/// Text fields are escaped when set, so a rendered input is always
/// well-formed markup.
pub struct ToastInput {
    id: String,
    input_type: ToastInputType,
    title: Option<String>,
    place_holder_content: Option<String>,
    default_input: Option<String>,
    selections: Vec<SelectionEntry>,
}

/// The mathematical value of a [`ToastInput`]: its text fields as
/// character sequences, already in escaped form.
#[verifier::ext_equal]
pub ghost struct ToastInputView {
    pub id: Seq<char>,
    pub input_type: ToastInputType,
    pub title: Option<Seq<char>>,
    pub place_holder_content: Option<Seq<char>>,
    pub default_input: Option<Seq<char>>,
    pub selections: Seq<SelectionEntryView>,
}

impl View for ToastInput {
    type V = ToastInputView;

    closed spec fn view(&self) -> ToastInputView {
        ToastInputView {
            id: self.id@,
            input_type: self.input_type,
            title: match self.title {
                Option::None => Option::None,
                Option::Some(ref s) => Option::Some(s@),
            },
            place_holder_content: match self.place_holder_content {
                Option::None => Option::None,
                Option::Some(ref s) => Option::Some(s@),
            },
            default_input: match self.default_input {
                Option::None => Option::None,
                Option::Some(ref s) => Option::Some(s@),
            },
            selections: self.selections@.map_values(|e: SelectionEntry| e@),
        }
    }
}

/// The attribute value that names an input type.
pub open spec fn input_type_name(t: ToastInputType) -> Seq<char> {
    match t {
        ToastInputType::Text => "text"@,
        ToastInputType::Selection => "selection"@,
    }
}

/// An optional attribute: nothing when unset, else the given opening (a
/// space, the attribute name, `="`), the stored value and a closing quote.
pub open spec fn opt_attr(open: Seq<char>, value: Option<Seq<char>>) -> Seq<char> {
    match value {
        Option::None => Seq::empty(),
        Option::Some(v) => open + v + "\""@,
    }
}

/// The markup of one selection entry.
pub open spec fn selection_markup(s: SelectionEntryView) -> Seq<char> {
    "<selection id=\""@ + s.id + "\" content=\""@ + s.content + "\" />"@
}

/// The markup of a list of selection entries, in order.
pub open spec fn selections_markup(s: Seq<SelectionEntryView>) -> Seq<char>
    decreases s.len(),
{
    if s.len() == 0 {
        Seq::empty()
    } else {
        selections_markup(s.drop_last()) + selection_markup(s.last())
    }
}

/// The markup of one input element: its id and type, the optional title,
/// placeholder and default value, and its selection entries as children.
pub open spec fn input_markup(i: ToastInputView) -> Seq<char> {
    "<input id=\""@ + i.id + "\" type=\""@ + input_type_name(i.input_type) + "\""@
        + opt_attr(" title=\""@, i.title)
        + opt_attr(" placeHolderContent=\""@, i.place_holder_content)
        + opt_attr(" defaultInput=\""@, i.default_input)
        + (if i.selections.len() == 0 {
            " />"@
        } else {
            ">"@ + selections_markup(i.selections) + "</input>"@
        })
}

/// Every piece of caller text an input stores is inert.
pub open spec fn input_text_inert(i: ToastInputView) -> bool {
    &&& markup_inert(i.id)
    &&& (i.title matches Option::Some(t) ==> markup_inert(t))
    &&& (i.place_holder_content matches Option::Some(t) ==> markup_inert(t))
    &&& (i.default_input matches Option::Some(t) ==> markup_inert(t))
    &&& forall|k: int|
        0 <= k < i.selections.len() ==> markup_inert((#[trigger] i.selections[k]).id)
            && markup_inert(i.selections[k].content)
}

/// A fresh input stores only inert text, and every setter keeps it so:
/// whatever an input was built from, nothing it hands to the renderer
/// can change the document's structure.
pub proof fn lemma_input_text_inert(i: ToastInputView, s: Seq<char>, id: Option<Seq<char>>)
    ensures
        input_text_inert(
            ToastInputView {
                id: escape_text(s),
                input_type: ToastInputType::Text,
                title: Option::None,
                place_holder_content: Option::None,
                default_input: Option::None,
                selections: Seq::empty(),
            },
        ),
        input_text_inert(i) ==> input_text_inert(ToastInputView { id: escape_text(s), ..i }),
        input_text_inert(i) ==> input_text_inert(
            ToastInputView { title: Option::Some(escape_text(s)), ..i },
        ),
        input_text_inert(i) ==> input_text_inert(
            ToastInputView { place_holder_content: Option::Some(escape_text(s)), ..i },
        ),
        input_text_inert(i) ==> input_text_inert(
            ToastInputView { default_input: Option::Some(escape_text(s)), ..i },
        ),
        input_text_inert(i) ==> input_text_inert(
            ToastInputView {
                selections: i.selections.push(
                    SelectionEntryView {
                        id: match id {
                            Option::None => escape_text(s),
                            Option::Some(explicit) => escape_text(explicit),
                        },
                        content: escape_text(s),
                    },
                ),
                ..i
            },
        ),
{
    lemma_escape_text_inert(s);
    if id is Some {
        lemma_escape_text_inert(id->0);
    }
    if input_text_inert(i) {
        let entry = SelectionEntryView {
            id: match id {
                Option::None => escape_text(s),
                Option::Some(explicit) => escape_text(explicit),
            },
            content: escape_text(s),
        };
        let pushed = i.selections.push(entry);
        assert forall|k: int| 0 <= k < pushed.len() implies markup_inert(
            (#[trigger] pushed[k]).id,
        ) && markup_inert(pushed[k].content) by {
            if k < i.selections.len() {
                assert(pushed[k] == i.selections[k]);
            } else {
                assert(pushed[k] == entry);
            }
        }
    }
}

impl ToastInput {
    /// A fresh free-text input with the given id.
    pub fn new(id: &str) -> (r: ToastInput)
        ensures
            r@ == (ToastInputView {
                id: escape_text(id@),
                input_type: ToastInputType::Text,
                title: Option::None,
                place_holder_content: Option::None,
                default_input: Option::None,
                selections: Seq::empty(),
            }),
    {
        let r = ToastInput {
            id: escape_attribute(id),
            input_type: ToastInputType::Text,
            title: Option::None,
            place_holder_content: Option::None,
            default_input: Option::None,
            selections: Vec::new(),
        };
        proof {
            assert(r@.selections =~= Seq::<SelectionEntryView>::empty());
        }
        r
    }

    /// Replaces the id.
    pub fn id(self, id: &str) -> (r: ToastInput)
        ensures
            r@ == (ToastInputView { id: escape_text(id@), ..self@ }),
    {
        let mut i = self;
        i.id = escape_attribute(id);
        i
    }

    /// Sets the kind of the input.
    pub fn input_type(self, input_type: &ToastInputType) -> (r: ToastInput)
        ensures
            r@ == (ToastInputView { input_type: *input_type, ..self@ }),
    {
        let mut i = self;
        i.input_type = *input_type;
        i
    }

    /// Sets the title shown above the input.
    pub fn title(self, title: &str) -> (r: ToastInput)
        ensures
            r@ == (ToastInputView { title: Option::Some(escape_text(title@)), ..self@ }),
    {
        let mut i = self;
        i.title = Option::Some(escape_attribute(title));
        i
    }

    /// Sets the greyed-out hint text of a text input.
    pub fn place_holder_content(self, place_holder_content: &str) -> (r: ToastInput)
        ensures
            r@ == (ToastInputView {
                place_holder_content: Option::Some(escape_text(place_holder_content@)),
                ..self@
            }),
    {
        let mut i = self;
        i.place_holder_content = Option::Some(escape_attribute(place_holder_content));
        i
    }

    /// Sets the default value of the input.
    pub fn default_input(self, default_input: &str) -> (r: ToastInput)
        ensures
            r@ == (ToastInputView {
                default_input: Option::Some(escape_text(default_input@)),
                ..self@
            }),
    {
        let mut i = self;
        i.default_input = Option::Some(escape_attribute(default_input));
        i
    }

    /// Appends one selection entry. An entry given without an explicit id
    /// uses its label text as the id.
    pub fn add_selection(self, id: Option<&str>, content: &str) -> (r: ToastInput)
        ensures
            r@ == (ToastInputView {
                selections: self@.selections.push(SelectionEntryView {
                    id: match id {
                        Option::None => escape_text(content@),
                        Option::Some(explicit) => escape_text(explicit@),
                    },
                    content: escape_text(content@),
                }),
                ..self@
            }),
    {
        let entry = SelectionEntry {
            id: match id {
                Option::None => escape_attribute(content),
                Option::Some(explicit) => escape_attribute(explicit),
            },
            content: escape_attribute(content),
        };
        let mut i = self;
        let ghost before = i@.selections;
        i.selections.push(entry);
        proof {
            assert(i@.selections =~= before.push(entry@));
        }
        i
    }

    /// The markup of this input, as one `input` element with its
    /// selection entries as children.
    pub fn markup(&self) -> (r: String)
        ensures
            r@ == input_markup(self@),
    {
        let mut out = String::new();
        out.append("<input id=\"");
        out.append(self.id.as_str());
        out.append("\" type=\"");
        out.append(input_type_str(self.input_type));
        out.append("\"");
        push_opt_attr(&mut out, " title=\"", &self.title);
        push_opt_attr(&mut out, " placeHolderContent=\"", &self.place_holder_content);
        push_opt_attr(&mut out, " defaultInput=\"", &self.default_input);
        let ghost mid = out@;
        if self.selections.len() == 0 {
            out.append(" />");
            proof {
                assert(self@.selections.len() == 0);
            }
        } else {
            out.append(">");
            let ghost sels = self@.selections;
            let mut k: usize = 0;
            while k < self.selections.len()
                invariant
                    k <= self.selections.len(),
                    sels == self@.selections,
                    sels.len() == self.selections.len(),
                    forall|j: int| 0 <= j < sels.len() ==> sels[j] == #[trigger] self.selections@[j]@,
                    out@ =~= mid + ">"@ + selections_markup(sels.take(k as int)),
                decreases self.selections.len() - k,
            {
                let e = &self.selections[k];
                out.append("<selection id=\"");
                out.append(e.id.as_str());
                out.append("\" content=\"");
                out.append(e.content.as_str());
                out.append("\" />");
                proof {
                    assert(sels.take(k + 1).drop_last() =~= sels.take(k as int));
                    assert(sels.take(k + 1).last() == sels[k as int]);
                }
                k = k + 1;
            }
            proof {
                assert(sels.take(self.selections.len() as int) =~= sels);
            }
            out.append("</input>");
        }
        assert(out@ =~= input_markup(self@));
        out
    }
}

/// Appends an optional attribute to `out`: nothing when the value is
/// unset, else the opening, the value, and a closing quote.
fn push_opt_attr(out: &mut String, open: &str, value: &Option<String>)
    ensures
        final(out)@ == old(out)@ + opt_attr(open@, match *value {
            Option::None => Option::None,
            Option::Some(ref s) => Option::Some(s@),
        }),
{
    match value {
        Option::None => {
            proof {
                assert(old(out)@ + Seq::<char>::empty() =~= old(out)@);
            }
        },
        Option::Some(v) => {
            out.append(open);
            out.append(v.as_str());
            out.append("\"");
        },
    }
}

/// The attribute value that names an input type.
pub fn input_type_str(t: ToastInputType) -> (r: &'static str)
    ensures
        r@ == input_type_name(t),
{
    match t {
        ToastInputType::Text => "text",
        ToastInputType::Selection => "selection",
    }
}

} // verus!
