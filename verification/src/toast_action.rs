//! Buttons and context-menu entries for a toast.

use crate::escape::escape_attribute;
use crate::escape::escape_text;
use crate::escape::lemma_escape_text_inert;
use crate::escape::markup_inert;
use vstd::prelude::*;
use vstd::string::StringExecFns;

verus! {

/// What the host does when the user invokes an action.
#[derive(Clone, Copy, Debug)]
pub enum ToastActivationType {
    /// Default value. The foreground app is launched.
    Foreground,
    /// The corresponding background task is triggered without
    /// interrupting the user.
    Background,
    /// Launch a different app using protocol activation.
    Protocol,
    /// The system handles the activation.
    System,
}

/// How the toast behaves after the user invokes an action.
#[derive(Clone, Copy, Debug)]
pub enum ToastAfterActivationBehavior {
    /// Default behavior: the toast is dismissed when the user acts on it.
    Default,
    /// The toast stays on screen in a pending-update state.
    PendingUpdate,
}

/// Where an action is shown: as an inline button or in the context menu.
#[derive(Clone, Copy, Debug)]
pub enum ToastActionPlacement {
    Inline,
    ContextMenu,
}

/// One action of a toast: a labelled button or context-menu entry whose
/// `arguments` string is returned verbatim when the user invokes it.
///
/// Text fields are escaped when set, so a rendered action is always
/// well-formed markup.
pub struct ToastAction {
    content: String,
    arguments: String,
    placement: ToastActionPlacement,
    activation_type: Option<ToastActivationType>,
    hint_input_id: Option<String>,
}

/// The mathematical value of a [`ToastAction`]: its text fields as
/// character sequences, already in escaped form.
#[verifier::ext_equal]
pub ghost struct ToastActionView {
    pub content: Seq<char>,
    pub arguments: Seq<char>,
    pub placement: ToastActionPlacement,
    pub activation_type: Option<ToastActivationType>,
    pub hint_input_id: Option<Seq<char>>,
}

impl View for ToastAction {
    type V = ToastActionView;

    closed spec fn view(&self) -> ToastActionView {
        ToastActionView {
            content: self.content@,
            arguments: self.arguments@,
            placement: self.placement,
            activation_type: self.activation_type,
            hint_input_id: match self.hint_input_id {
                Option::None => Option::None,
                Option::Some(ref s) => Option::Some(s@),
            },
        }
    }
}

/// The attribute name of an activation type, as the markup writes it.
pub open spec fn activation_type_name(t: ToastActivationType) -> Seq<char> {
    match t {
        ToastActivationType::Foreground => "foreground"@,
        ToastActivationType::Background => "background"@,
        ToastActivationType::Protocol => "protocol"@,
        ToastActivationType::System => "system"@,
    }
}

/// The placement attribute an action contributes: context-menu entries
/// carry `placement="contextMenu"`, inline buttons carry nothing.
pub open spec fn placement_attr(p: ToastActionPlacement) -> Seq<char> {
    match p {
        ToastActionPlacement::Inline => Seq::empty(),
        ToastActionPlacement::ContextMenu => " placement=\"contextMenu\""@,
    }
}

/// The opening of an action element, up to where the placement attribute
/// would stand.
pub open spec fn action_open(a: ToastActionView) -> Seq<char> {
    "<action content=\""@ + a.content + "\" arguments=\""@ + a.arguments + "\""@
}

/// What follows the placement attribute: the optional input association
/// and activation type, and the close of the element.
pub open spec fn action_close(a: ToastActionView) -> Seq<char> {
    (match a.hint_input_id {
        Option::None => Seq::<char>::empty(),
        Option::Some(id) => " hint-inputId=\""@ + id + "\""@,
    }) + (match a.activation_type {
        Option::None => Seq::<char>::empty(),
        Option::Some(t) => " activationType=\""@ + activation_type_name(t) + "\""@,
    }) + " />"@
}

/// The markup of one action element.
pub open spec fn action_markup(a: ToastActionView) -> Seq<char> {
    action_open(a) + placement_attr(a.placement) + action_close(a)
}

/// An action placed in the context menu renders with
/// `placement="contextMenu"`; an inline action renders with no placement
/// attribute at all.
pub proof fn lemma_action_placement(a: ToastActionView)
    ensures
        a.placement is ContextMenu ==> action_markup(a) =~= action_open(a)
            + " placement=\"contextMenu\""@ + action_close(a),
        a.placement is Inline ==> action_markup(a) =~= action_open(a) + action_close(a),
{
}

/// Every piece of caller text an action stores is inert.
pub open spec fn action_text_inert(a: ToastActionView) -> bool {
    &&& markup_inert(a.content)
    &&& markup_inert(a.arguments)
    &&& (a.hint_input_id matches Option::Some(t) ==> markup_inert(t))
}

/// A fresh action stores only inert text, and every setter keeps it so:
/// whatever an action was built from, nothing it hands to the renderer
/// can change the document's structure.
pub proof fn lemma_action_text_inert(a: ToastActionView, s: Seq<char>)
    ensures
        action_text_inert(
            ToastActionView {
                content: Seq::empty(),
                arguments: Seq::empty(),
                placement: ToastActionPlacement::Inline,
                activation_type: Option::None,
                hint_input_id: Option::None,
            },
        ),
        action_text_inert(a) ==> action_text_inert(
            ToastActionView { content: escape_text(s), ..a },
        ),
        action_text_inert(a) ==> action_text_inert(
            ToastActionView { arguments: escape_text(s), ..a },
        ),
        action_text_inert(a) ==> action_text_inert(
            ToastActionView { hint_input_id: Option::Some(escape_text(s)), ..a },
        ),
{
    lemma_escape_text_inert(s);
    assert(markup_inert(Seq::<char>::empty()));
}

impl ToastAction {
    /// A fresh action: empty label and arguments, shown inline, with the
    /// host's default activation.
    pub fn new() -> (r: ToastAction)
        ensures
            r@ == (ToastActionView {
                content: Seq::empty(),
                arguments: Seq::empty(),
                placement: ToastActionPlacement::Inline,
                activation_type: Option::None,
                hint_input_id: Option::None,
            }),
    {
        ToastAction {
            content: String::new(),
            arguments: String::new(),
            placement: ToastActionPlacement::Inline,
            activation_type: Option::None,
            hint_input_id: Option::None,
        }
    }

    /// Sets the text shown on the button or menu entry.
    pub fn text(self, content: &str) -> (r: ToastAction)
        ensures
            r@ == (ToastActionView { content: escape_text(content@), ..self@ }),
    {
        let mut a = self;
        a.content = escape_attribute(content);
        a
    }

    /// Sets the opaque argument string handed back on activation.
    pub fn arguments(self, argument: &str) -> (r: ToastAction)
        ensures
            r@ == (ToastActionView { arguments: escape_text(argument@), ..self@ }),
    {
        let mut a = self;
        a.arguments = escape_attribute(argument);
        a
    }

    /// Associates the action with the input of the given id.
    pub fn hint_input_id(self, hint_input_id: &str) -> (r: ToastAction)
        ensures
            r@ == (ToastActionView {
                hint_input_id: Option::Some(escape_text(hint_input_id@)),
                ..self@
            }),
    {
        let mut a = self;
        a.hint_input_id = Option::Some(escape_attribute(hint_input_id));
        a
    }

    /// Sets how the host activates the application for this action.
    pub fn activation_type(self, activation_type: ToastActivationType) -> (r: ToastAction)
        ensures
            r@ == (ToastActionView { activation_type: Option::Some(activation_type), ..self@ }),
    {
        let mut a = self;
        a.activation_type = Option::Some(activation_type);
        a
    }

    /// Places the action inline or in the context menu.
    pub fn placement(self, placement: ToastActionPlacement) -> (r: ToastAction)
        ensures
            r@ == (ToastActionView { placement, ..self@ }),
    {
        let mut a = self;
        a.placement = placement;
        a
    }

    /// The markup of this action, as one `action` element.
    pub fn markup(&self) -> (r: String)
        ensures
            r@ == action_markup(self@),
    {
        let mut out = String::new();
        out.append("<action content=\"");
        out.append(self.content.as_str());
        out.append("\" arguments=\"");
        out.append(self.arguments.as_str());
        out.append("\"");
        assert(out@ =~= action_open(self@));
        match self.placement {
            ToastActionPlacement::Inline => {},
            ToastActionPlacement::ContextMenu => {
                out.append(" placement=\"contextMenu\"");
            },
        }
        assert(out@ =~= action_open(self@) + placement_attr(self@.placement));
        let ghost mid = out@;
        match &self.hint_input_id {
            Option::None => {},
            Option::Some(id) => {
                out.append(" hint-inputId=\"");
                out.append(id.as_str());
                out.append("\"");
            },
        }
        match &self.activation_type {
            Option::None => {},
            Option::Some(t) => {
                out.append(" activationType=\"");
                out.append(activation_type_str(*t));
                out.append("\"");
            },
        }
        out.append(" />");
        assert(out@ =~= mid + action_close(self@));
        assert(out@ =~= action_markup(self@));
        out
    }
}

/// The attribute value that names an activation type.
pub fn activation_type_str(t: ToastActivationType) -> (r: &'static str)
    ensures
        r@ == activation_type_name(t),
{
    match t {
        ToastActivationType::Foreground => "foreground",
        ToastActivationType::Background => "background",
        ToastActivationType::Protocol => "protocol",
        ToastActivationType::System => "system",
    }
}

} // verus!
