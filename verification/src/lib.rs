//! A builder for desktop toast notifications delivered through the
//! Windows notification service.
//!
//! The builder accumulates text lines, images, an audio directive,
//! duration and scenario hints, inputs and actions, then renders one
//! markup document. Hosts at or below the Windows 8.1 generation accept
//! only a single image and a narrower template set; that capability split
//! is carried as a flag on the builder. Delivery itself, and the version
//! probe, are operating-system calls that live outside this crate: a
//! caller probes the host once, constructs the builder with the probe's
//! answer, renders, and hands the document to the notification service.

use vstd::prelude::*;
use vstd::string::StringExecFns;

mod escape;
pub mod toast_action;
pub mod toast_input;
pub mod windows_check;

pub use escape::entity_at;
pub use escape::escape_char;
pub use escape::escape_text;
pub use escape::lemma_escape_text_inert;
pub use escape::markup_inert;
pub use escape::markup_special;
pub use toast_action::ToastAction;
pub use toast_action::ToastActionPlacement;
pub use toast_action::ToastActionView;
pub use toast_action::ToastActivationType;
pub use toast_action::ToastAfterActivationBehavior;
pub use toast_input::ToastInput;
pub use toast_input::ToastInputType;
pub use toast_input::ToastInputView;

use crate::escape::escape_attribute;
use crate::toast_action::action_markup;
use crate::toast_action::action_text_inert;
use crate::toast_input::input_markup;
use crate::toast_input::input_text_inert;

verus! {

/// How long the host is asked to keep the toast on screen. A display
/// hint only: the host may ignore it.
#[derive(Clone, Copy, Debug)]
pub enum Duration {
    /// 7 seconds
    Short,
    /// 25 seconds
    Long,
}

/// Sounds suitable for looping.
#[derive(Clone, Copy, Debug)]
pub enum LoopableSound {
    Alarm,
    Alarm2,
    Alarm3,
    Alarm4,
    Alarm5,
    Alarm6,
    Alarm7,
    Alarm8,
    Alarm9,
    Alarm10,
    Call,
    Call2,
    Call3,
    Call4,
    Call5,
    Call6,
    Call7,
    Call8,
    Call9,
    Call10,
}

/// The sound a toast plays.
#[derive(Clone, Copy, Debug)]
pub enum Sound {
    /// The host's default notification sound; no audio element is
    /// written.
    Default,
    IM,
    Mail,
    Reminder,
    SMS,
    /// Play the loopable sound only once.
    Single(LoopableSound),
    /// Loop the loopable sound for the entire duration of the toast.
    Loop(LoopableSound),
}

/// How the icon image is cropped.
#[derive(Clone, Copy, Debug)]
pub enum IconCrop {
    Square,
    Circular,
}

/// The urgency and category hint of a toast.
#[derive(Clone, Copy, Debug)]
pub enum Scenario {
    /// The normal toast behavior; no scenario attribute is written.
    Default,
    /// Displayed pre-expanded, stays until dismissed, alarm audio.
    Alarm,
    /// Displayed pre-expanded, stays until dismissed.
    Reminder,
    /// Displayed pre-expanded in a call format, stays until dismissed.
    IncomingCall,
}

/// The role an image plays on the toast.
#[derive(Clone, Copy, Debug)]
pub enum ImageRole {
    /// Overrides the application logo in the upper left corner.
    Icon { crop: IconCrop },
    /// A banner above the toast text.
    Hero,
    /// A plain image below the text.
    Generic,
}

/// One accumulated image: its role, its source path and its alternate
/// text, the latter two already in escaped form.
pub struct ImageEntry {
    role: ImageRole,
    source: String,
    alt: String,
}

/// The mathematical value of an [`ImageEntry`].
#[verifier::ext_equal]
pub ghost struct ImageEntryView {
    pub role: ImageRole,
    pub source: Seq<char>,
    pub alt: Seq<char>,
}

impl View for ImageEntry {
    type V = ImageEntryView;

    closed spec fn view(&self) -> ImageEntryView {
        ImageEntryView { role: self.role, source: self.source@, alt: self.alt@ }
    }
}

/// Why a toast left the screen, as reported by the notification service.
#[derive(Clone, Copy, Debug, PartialEq, Eq, Structural)]
pub enum DismissalReason {
    UserCanceled,
    ApplicationHidden,
    TimedOut,
    /// A reason code this crate does not know.
    Unknown,
}

/// The accumulated state of one toast, built once per notification and
/// consumed by [`Toast::render`].
pub struct Toast {
    app_id: String,
    legacy: bool,
    duration: Option<Duration>,
    scenario: Scenario,
    title: Option<String>,
    line1: Option<String>,
    line2: Option<String>,
    images: Vec<ImageEntry>,
    audio: Option<Sound>,
    inputs: Vec<ToastInput>,
    actions: Vec<ToastAction>,
}

/// The mathematical value of a [`Toast`]. All text is already in escaped
/// form; `legacy` is the capability flag the builder was constructed
/// with. `audio` is the argument of the last [`Toast::sound`] call:
/// `None` asks for silence, `Some(Sound::Default)` (also the initial
/// state) leaves the host's default.
#[verifier::ext_equal]
pub ghost struct ToastView {
    pub app_id: Seq<char>,
    pub legacy: bool,
    pub duration: Option<Duration>,
    pub scenario: Scenario,
    pub title: Option<Seq<char>>,
    pub line1: Option<Seq<char>>,
    pub line2: Option<Seq<char>>,
    pub images: Seq<ImageEntryView>,
    pub audio: Option<Sound>,
    pub inputs: Seq<ToastInputView>,
    pub actions: Seq<ToastActionView>,
}

/// The entry values a list of stored images stands for.
pub open spec fn image_views(s: Seq<ImageEntry>) -> Seq<ImageEntryView> {
    s.map_values(|e: ImageEntry| e@)
}

/// The input values a list of stored inputs stands for.
pub open spec fn input_views(s: Seq<ToastInput>) -> Seq<ToastInputView> {
    s.map_values(|i: ToastInput| i@)
}

/// The action values a list of stored actions stands for.
pub open spec fn action_views(s: Seq<ToastAction>) -> Seq<ToastActionView> {
    s.map_values(|a: ToastAction| a@)
}

impl View for Toast {
    type V = ToastView;

    closed spec fn view(&self) -> ToastView {
        ToastView {
            app_id: self.app_id@,
            legacy: self.legacy,
            duration: self.duration,
            scenario: self.scenario,
            title: opt_string_view(&self.title),
            line1: opt_string_view(&self.line1),
            line2: opt_string_view(&self.line2),
            images: image_views(self.images@),
            audio: self.audio,
            inputs: input_views(self.inputs@),
            actions: action_views(self.actions@),
        }
    }
}

/// The character sequence a stored optional string stands for.
pub open spec fn opt_string_view(o: &Option<String>) -> Option<Seq<char>> {
    match *o {
        Option::None => Option::None,
        Option::Some(ref s) => Option::Some(s@),
    }
}

/// The duration attribute of the root element, nothing when unset.
pub open spec fn duration_attr(d: Option<Duration>) -> Seq<char> {
    match d {
        Option::None => Seq::empty(),
        Option::Some(Duration::Short) => " duration=\"short\""@,
        Option::Some(Duration::Long) => " duration=\"long\""@,
    }
}

/// The scenario attribute of the root element, nothing for the default
/// scenario.
pub open spec fn scenario_attr(s: Scenario) -> Seq<char> {
    match s {
        Scenario::Default => Seq::empty(),
        Scenario::Alarm => " scenario=\"alarm\""@,
        Scenario::Reminder => " scenario=\"reminder\""@,
        Scenario::IncomingCall => " scenario=\"incomingCall\""@,
    }
}

/// Which template the binding names: modern hosts always take the
/// adaptive generic template; legacy hosts take a text-only or an
/// image-and-text template, by whether any image is present.
pub open spec fn template_name(legacy: bool, image_count: nat) -> Seq<char> {
    if !legacy {
        "ToastGeneric"@
    } else if image_count == 0 {
        "ToastText04"@
    } else {
        "ToastImageAndText04"@
    }
}

/// The name of a loopable sound, as the sound path writes it.
pub open spec fn loopable_sound_name(s: LoopableSound) -> Seq<char> {
    match s {
        LoopableSound::Alarm => "Alarm"@,
        LoopableSound::Alarm2 => "Alarm2"@,
        LoopableSound::Alarm3 => "Alarm3"@,
        LoopableSound::Alarm4 => "Alarm4"@,
        LoopableSound::Alarm5 => "Alarm5"@,
        LoopableSound::Alarm6 => "Alarm6"@,
        LoopableSound::Alarm7 => "Alarm7"@,
        LoopableSound::Alarm8 => "Alarm8"@,
        LoopableSound::Alarm9 => "Alarm9"@,
        LoopableSound::Alarm10 => "Alarm10"@,
        LoopableSound::Call => "Call"@,
        LoopableSound::Call2 => "Call2"@,
        LoopableSound::Call3 => "Call3"@,
        LoopableSound::Call4 => "Call4"@,
        LoopableSound::Call5 => "Call5"@,
        LoopableSound::Call6 => "Call6"@,
        LoopableSound::Call7 => "Call7"@,
        LoopableSound::Call8 => "Call8"@,
        LoopableSound::Call9 => "Call9"@,
        LoopableSound::Call10 => "Call10"@,
    }
}

/// The name of a sound, as the sound path writes it; for the loopable
/// wrappers, the name of the wrapped loopable sound.
pub open spec fn sound_name(s: Sound) -> Seq<char> {
    match s {
        Sound::Default => "Default"@,
        Sound::IM => "IM"@,
        Sound::Mail => "Mail"@,
        Sound::Reminder => "Reminder"@,
        Sound::SMS => "SMS"@,
        Sound::Single(l) => loopable_sound_name(l),
        Sound::Loop(l) => loopable_sound_name(l),
    }
}

/// The crop attribute of an icon image, nothing for a square crop.
pub open spec fn crop_attr(c: IconCrop) -> Seq<char> {
    match c {
        IconCrop::Square => Seq::empty(),
        IconCrop::Circular => " hint-crop=\"circle\""@,
    }
}

/// The markup of one image element, by its role.
pub open spec fn image_markup(e: ImageEntryView) -> Seq<char> {
    match e.role {
        ImageRole::Icon { crop } => "<image placement=\"appLogoOverride\""@ + crop_attr(crop)
            + " src=\"file:///"@ + e.source + "\" alt=\""@ + e.alt + "\" />"@,
        ImageRole::Hero => "<image placement=\"Hero\" src=\"file:///"@ + e.source + "\" alt=\""@
            + e.alt + "\" />"@,
        ImageRole::Generic => "<image id=\"1\" src=\"file:///"@ + e.source + "\" alt=\""@ + e.alt
            + "\" />"@,
    }
}

/// The markup of the accumulated images, in order.
pub open spec fn images_markup(s: Seq<ImageEntryView>) -> Seq<char>
    decreases s.len(),
{
    if s.len() == 0 {
        Seq::empty()
    } else {
        images_markup(s.drop_last()) + image_markup(s.last())
    }
}

/// The markup of one text slot: nothing when the slot is unset, else the
/// given opening tag, the stored text and the closing tag.
pub open spec fn text_markup(open: Seq<char>, content: Option<Seq<char>>) -> Seq<char> {
    match content {
        Option::None => Seq::empty(),
        Option::Some(t) => open + t + "</text>"@,
    }
}

/// The audio element: an explicit silence for `None`, nothing for the
/// host default, else the named system sound, looped or not.
pub open spec fn audio_markup(audio: Option<Sound>) -> Seq<char> {
    match audio {
        Option::None => "<audio silent=\"true\" />"@,
        Option::Some(Sound::Default) => Seq::empty(),
        Option::Some(Sound::Single(l)) => "<audio src=\"ms-winsoundevent:Notification.Looping."@
            + loopable_sound_name(l) + "\" />"@,
        Option::Some(Sound::Loop(l)) =>
            "<audio loop=\"true\" src=\"ms-winsoundevent:Notification.Looping."@
            + loopable_sound_name(l) + "\" />"@,
        Option::Some(s) => "<audio src=\"ms-winsoundevent:Notification."@ + sound_name(s)
            + "\" />"@,
    }
}

/// The markup of the accumulated inputs, in order.
pub open spec fn inputs_markup(s: Seq<ToastInputView>) -> Seq<char>
    decreases s.len(),
{
    if s.len() == 0 {
        Seq::empty()
    } else {
        inputs_markup(s.drop_last()) + input_markup(s.last())
    }
}

/// The markup of the accumulated actions, in order.
pub open spec fn actions_markup(s: Seq<ToastActionView>) -> Seq<char>
    decreases s.len(),
{
    if s.len() == 0 {
        Seq::empty()
    } else {
        actions_markup(s.drop_last()) + action_markup(s.last())
    }
}

/// The actions section: nothing when no input and no action was added,
/// else all input elements followed by all action elements, whatever
/// order they were added in.
pub open spec fn actions_section_markup(
    inputs: Seq<ToastInputView>,
    actions: Seq<ToastActionView>,
) -> Seq<char> {
    if inputs.len() == 0 && actions.len() == 0 {
        Seq::empty()
    } else {
        "<actions>"@ + inputs_markup(inputs) + actions_markup(actions) + "</actions>"@
    }
}

/// The opening of the root element, with its optional attributes.
pub open spec fn toast_open_markup(v: ToastView) -> Seq<char> {
    "<toast"@ + duration_attr(v.duration) + scenario_attr(v.scenario) + ">"@
}

/// The visual section: the binding with the selected template, the
/// images, then title, first and second line, in that fixed order.
pub open spec fn visual_markup(v: ToastView) -> Seq<char> {
    "<visual><binding template=\""@ + template_name(v.legacy, v.images.len()) + "\">"@
        + images_markup(v.images) + text_markup("<text id=\"1\">"@, v.title)
        + text_markup("<text id=\"2\">"@, v.line1) + text_markup("<text id=\"3\">"@, v.line2)
        + "</binding></visual>"@
}

/// The whole document a toast state renders to.
pub open spec fn render_spec(v: ToastView) -> Seq<char> {
    toast_open_markup(v) + visual_markup(v) + audio_markup(v.audio)
        + actions_section_markup(v.inputs, v.actions) + "</toast>"@
}

/// The generic image entry that [`Toast::image`] appends for the given
/// raw source path and alternate text.
pub open spec fn generic_image_entry(source: Seq<char>, alt: Seq<char>) -> ImageEntryView {
    ImageEntryView { role: ImageRole::Generic, source: escape_text(source), alt: escape_text(alt) }
}

/// Whether an entry fills the app-logo slot.
pub open spec fn is_icon(e: ImageEntryView) -> bool {
    e.role is Icon
}

/// Whether an entry fills the hero slot.
pub open spec fn is_hero(e: ImageEntryView) -> bool {
    e.role is Hero
}

/// Some entry fills the app-logo slot.
pub open spec fn has_icon(s: Seq<ImageEntryView>) -> bool {
    exists|j: int| 0 <= j < s.len() && is_icon(#[trigger] s[j])
}

/// Some entry fills the hero slot.
pub open spec fn has_hero(s: Seq<ImageEntryView>) -> bool {
    exists|j: int| 0 <= j < s.len() && is_hero(#[trigger] s[j])
}

/// The index of the first entry that fills the app-logo slot.
pub open spec fn first_icon_index(s: Seq<ImageEntryView>) -> int
    recommends
        has_icon(s),
    decreases s.len(),
{
    if s.len() == 0 {
        0
    } else if is_icon(s[0]) {
        0
    } else {
        1 + first_icon_index(s.drop_first())
    }
}

/// The index of the first entry that fills the hero slot.
pub open spec fn first_hero_index(s: Seq<ImageEntryView>) -> int
    recommends
        has_hero(s),
    decreases s.len(),
{
    if s.len() == 0 {
        0
    } else if is_hero(s[0]) {
        0
    } else {
        1 + first_hero_index(s.drop_first())
    }
}

/// The image list after the app-logo slot is filled with `e`: the entry
/// that held the slot leaves, and `e` is appended.
pub open spec fn icon_slot_filled(s: Seq<ImageEntryView>, e: ImageEntryView) -> Seq<
    ImageEntryView,
> {
    if has_icon(s) {
        s.remove(first_icon_index(s)).push(e)
    } else {
        s.push(e)
    }
}

/// The image list after the hero slot is filled with `e`.
pub open spec fn hero_slot_filled(s: Seq<ImageEntryView>, e: ImageEntryView) -> Seq<
    ImageEntryView,
> {
    if has_hero(s) {
        s.remove(first_hero_index(s)).push(e)
    } else {
        s.push(e)
    }
}

/// At most one entry fills the app-logo slot and at most one the hero
/// slot; generic entries are not counted.
pub open spec fn image_slots_wf(s: Seq<ImageEntryView>) -> bool {
    &&& forall|i: int, j: int|
        0 <= i < s.len() && 0 <= j < s.len() && is_icon(#[trigger] s[i]) && is_icon(
            #[trigger] s[j],
        ) ==> i == j
    &&& forall|i: int, j: int|
        0 <= i < s.len() && 0 <= j < s.len() && is_hero(#[trigger] s[i]) && is_hero(
            #[trigger] s[j],
        ) ==> i == j
}

/// The state after [`Toast::image`]: on a legacy host the new entry
/// replaces every earlier image, on a modern host it is appended.
pub open spec fn image_added(v: ToastView, source: Seq<char>, alt: Seq<char>) -> ToastView {
    ToastView {
        images: if v.legacy {
            seq![generic_image_entry(source, alt)]
        } else {
            v.images.push(generic_image_entry(source, alt))
        },
        ..v
    }
}

/// The state after [`Toast::icon`]: on a modern host the app-logo slot
/// is filled with an entry carrying the crop hint, replacing any entry
/// that held it; a legacy host cannot express that role and falls back
/// to [`Toast::image`].
pub open spec fn icon_added(
    v: ToastView,
    source: Seq<char>,
    crop: IconCrop,
    alt: Seq<char>,
) -> ToastView {
    if v.legacy {
        image_added(v, source, alt)
    } else {
        ToastView {
            images: icon_slot_filled(
                v.images,
                ImageEntryView {
                    role: ImageRole::Icon { crop },
                    source: escape_text(source),
                    alt: escape_text(alt),
                },
            ),
            ..v
        }
    }
}

/// The state after [`Toast::hero`]: on a modern host the hero slot is
/// filled, replacing any entry that held it; a legacy host falls back
/// to [`Toast::image`].
pub open spec fn hero_added(v: ToastView, source: Seq<char>, alt: Seq<char>) -> ToastView {
    if v.legacy {
        image_added(v, source, alt)
    } else {
        ToastView {
            images: hero_slot_filled(
                v.images,
                ImageEntryView {
                    role: ImageRole::Hero,
                    source: escape_text(source),
                    alt: escape_text(alt),
                },
            ),
            ..v
        }
    }
}

/// The state after [`Toast::add_input`].
pub open spec fn input_added(v: ToastView, i: ToastInputView) -> ToastView {
    ToastView { inputs: v.inputs.push(i), ..v }
}

/// The state after [`Toast::add_action`].
pub open spec fn action_added(v: ToastView, a: ToastActionView) -> ToastView {
    ToastView { actions: v.actions.push(a), ..v }
}

/// The state a fresh builder starts from.
pub open spec fn initial_toast(app_id: Seq<char>, legacy: bool) -> ToastView {
    ToastView {
        app_id: app_id,
        legacy: legacy,
        duration: Option::None,
        scenario: Scenario::Default,
        title: Option::None,
        line1: Option::None,
        line2: Option::None,
        images: Seq::empty(),
        audio: Option::Some(Sound::Default),
        inputs: Seq::empty(),
        actions: Seq::empty(),
    }
}

/// On a legacy host every way of adding an image collapses to the same
/// single-image state: `image` leaves exactly the one entry it adds, and
/// `icon` and `hero` produce the very state an equivalent `image` call
/// produces, so their rendered markup is the same single generic image
/// element.
pub proof fn lemma_legacy_single_image(
    v: ToastView,
    source: Seq<char>,
    crop: IconCrop,
    alt: Seq<char>,
)
    requires
        v.legacy,
    ensures
        image_added(v, source, alt).images == seq![generic_image_entry(source, alt)],
        icon_added(v, source, crop, alt) == image_added(v, source, alt),
        hero_added(v, source, alt) == image_added(v, source, alt),
        images_markup(image_added(v, source, alt).images) == image_markup(
            generic_image_entry(source, alt),
        ),
{
    let e = generic_image_entry(source, alt);
    assert(seq![e].drop_last() =~= Seq::<ImageEntryView>::empty());
    assert(images_markup(seq![e]) == images_markup(Seq::empty()) + image_markup(e));
    assert(Seq::<char>::empty() + image_markup(e) =~= image_markup(e));
}

/// Where an entry fills the app-logo slot at `i` and no earlier entry
/// does, `i` is the first app-logo index.
proof fn lemma_first_icon_index_at(s: Seq<ImageEntryView>, i: int)
    requires
        0 <= i < s.len(),
        is_icon(s[i]),
        forall|j: int| 0 <= j < i ==> !is_icon(#[trigger] s[j]),
    ensures
        has_icon(s),
        first_icon_index(s) == i,
    decreases s.len(),
{
    assert(has_icon(s));
    if i > 0 {
        let d = s.drop_first();
        assert(forall|j: int| 0 <= j < d.len() ==> #[trigger] d[j] == s[j + 1]);
        lemma_first_icon_index_at(d, i - 1);
    }
}

/// Where an entry fills the hero slot at `i` and no earlier entry does,
/// `i` is the first hero index.
proof fn lemma_first_hero_index_at(s: Seq<ImageEntryView>, i: int)
    requires
        0 <= i < s.len(),
        is_hero(s[i]),
        forall|j: int| 0 <= j < i ==> !is_hero(#[trigger] s[j]),
    ensures
        has_hero(s),
        first_hero_index(s) == i,
    decreases s.len(),
{
    assert(has_hero(s));
    if i > 0 {
        let d = s.drop_first();
        assert(forall|j: int| 0 <= j < d.len() ==> #[trigger] d[j] == s[j + 1]);
        lemma_first_hero_index_at(d, i - 1);
    }
}

/// The first app-logo index points at an app-logo entry and nothing
/// earlier is one.
proof fn lemma_first_icon_index_props(s: Seq<ImageEntryView>)
    requires
        has_icon(s),
    ensures
        0 <= first_icon_index(s) < s.len(),
        is_icon(s[first_icon_index(s)]),
        forall|j: int| 0 <= j < first_icon_index(s) ==> !is_icon(#[trigger] s[j]),
    decreases s.len(),
{
    let k = choose|k: int| 0 <= k < s.len() && is_icon(#[trigger] s[k]);
    if !is_icon(s[0]) {
        let d = s.drop_first();
        assert(forall|j: int| 0 <= j < d.len() ==> #[trigger] d[j] == s[j + 1]);
        assert(is_icon(d[k - 1]));
        lemma_first_icon_index_props(d);
        let fi = first_icon_index(s);
        assert(fi == 1 + first_icon_index(d));
        assert(is_icon(s[fi]));
        assert forall|j: int| 0 <= j < fi implies !is_icon(#[trigger] s[j]) by {
            if j > 0 {
                assert(s[j] == d[j - 1]);
            }
        }
    }
}

/// The first hero index points at a hero entry and nothing earlier is
/// one.
proof fn lemma_first_hero_index_props(s: Seq<ImageEntryView>)
    requires
        has_hero(s),
    ensures
        0 <= first_hero_index(s) < s.len(),
        is_hero(s[first_hero_index(s)]),
        forall|j: int| 0 <= j < first_hero_index(s) ==> !is_hero(#[trigger] s[j]),
    decreases s.len(),
{
    let k = choose|k: int| 0 <= k < s.len() && is_hero(#[trigger] s[k]);
    if !is_hero(s[0]) {
        let d = s.drop_first();
        assert(forall|j: int| 0 <= j < d.len() ==> #[trigger] d[j] == s[j + 1]);
        assert(is_hero(d[k - 1]));
        lemma_first_hero_index_props(d);
        let fh = first_hero_index(s);
        assert(fh == 1 + first_hero_index(d));
        assert(is_hero(s[fh]));
        assert forall|j: int| 0 <= j < fh implies !is_hero(#[trigger] s[j]) by {
            if j > 0 {
                assert(s[j] == d[j - 1]);
            }
        }
    }
}

/// Appending an entry that fills no already-filled slot keeps the image
/// list well-formed.
proof fn lemma_push_keeps_slots_wf(s: Seq<ImageEntryView>, e: ImageEntryView)
    requires
        image_slots_wf(s),
        is_icon(e) ==> !has_icon(s),
        is_hero(e) ==> !has_hero(s),
    ensures
        image_slots_wf(s.push(e)),
{
    let s2 = s.push(e);
    assert forall|i: int, j: int|
        0 <= i < s2.len() && 0 <= j < s2.len() && is_icon(s2[i]) && is_icon(s2[j]) implies i
        == j by {
        if i < s.len() && j < s.len() {
            assert(s2[i] == s[i] && s2[j] == s[j]);
        } else if i < s.len() {
            assert(s2[i] == s[i] && s2[j] == e);
            assert(has_icon(s));
        } else if j < s.len() {
            assert(s2[i] == e && s2[j] == s[j]);
            assert(has_icon(s));
        }
    }
    assert forall|i: int, j: int|
        0 <= i < s2.len() && 0 <= j < s2.len() && is_hero(s2[i]) && is_hero(s2[j]) implies i
        == j by {
        if i < s.len() && j < s.len() {
            assert(s2[i] == s[i] && s2[j] == s[j]);
        } else if i < s.len() {
            assert(s2[i] == s[i] && s2[j] == e);
            assert(has_hero(s));
        } else if j < s.len() {
            assert(s2[i] == e && s2[j] == s[j]);
            assert(has_hero(s));
        }
    }
}

/// Removing the entry that fills the app-logo slot leaves a well-formed
/// list with that slot empty.
proof fn lemma_remove_first_icon(s: Seq<ImageEntryView>)
    requires
        image_slots_wf(s),
        has_icon(s),
    ensures
        image_slots_wf(s.remove(first_icon_index(s))),
        !has_icon(s.remove(first_icon_index(s))),
{
    let fi = first_icon_index(s);
    lemma_first_icon_index_props(s);
    s.remove_ensures(fi);
    let r = s.remove(fi);
    assert forall|k: int| 0 <= k < r.len() implies !is_icon(#[trigger] r[k]) by {
        if k < fi {
            assert(r[k] == s[k]);
        } else {
            assert(r[k] == s[k + 1]);
            if is_icon(s[k + 1]) {
                assert(k + 1 == fi);
            }
        }
    }
    assert forall|i: int, j: int|
        0 <= i < r.len() && 0 <= j < r.len() && is_hero(r[i]) && is_hero(r[j]) implies i == j by {
        let i0: int = if i < fi { i } else { i + 1 };
        let j0: int = if j < fi { j } else { j + 1 };
        assert(r[i] == s[i0] && r[j] == s[j0]);
    }
}

/// Removing the entry that fills the hero slot leaves a well-formed
/// list with that slot empty.
proof fn lemma_remove_first_hero(s: Seq<ImageEntryView>)
    requires
        image_slots_wf(s),
        has_hero(s),
    ensures
        image_slots_wf(s.remove(first_hero_index(s))),
        !has_hero(s.remove(first_hero_index(s))),
{
    let fh = first_hero_index(s);
    lemma_first_hero_index_props(s);
    s.remove_ensures(fh);
    let r = s.remove(fh);
    assert forall|k: int| 0 <= k < r.len() implies !is_hero(#[trigger] r[k]) by {
        if k < fh {
            assert(r[k] == s[k]);
        } else {
            assert(r[k] == s[k + 1]);
            if is_hero(s[k + 1]) {
                assert(k + 1 == fh);
            }
        }
    }
    assert forall|i: int, j: int|
        0 <= i < r.len() && 0 <= j < r.len() && is_icon(r[i]) && is_icon(r[j]) implies i == j by {
        let i0: int = if i < fh { i } else { i + 1 };
        let j0: int = if j < fh { j } else { j + 1 };
        assert(r[i] == s[i0] && r[j] == s[j0]);
    }
}

/// A fresh builder's image list is well-formed, and every way of adding
/// an image keeps it so: at most one entry fills the app-logo slot and
/// at most one the hero slot, while generic images accumulate freely.
pub proof fn lemma_image_slots_invariant(
    v: ToastView,
    source: Seq<char>,
    crop: IconCrop,
    alt: Seq<char>,
)
    requires
        image_slots_wf(v.images),
    ensures
        image_slots_wf(Seq::<ImageEntryView>::empty()),
        image_slots_wf(icon_added(v, source, crop, alt).images),
        image_slots_wf(hero_added(v, source, alt).images),
        image_slots_wf(image_added(v, source, alt).images),
{
    let ge = generic_image_entry(source, alt);
    let ie = ImageEntryView {
        role: ImageRole::Icon { crop },
        source: escape_text(source),
        alt: escape_text(alt),
    };
    let he = ImageEntryView {
        role: ImageRole::Hero,
        source: escape_text(source),
        alt: escape_text(alt),
    };
    if v.legacy {
        assert(image_added(v, source, alt).images == seq![ge]);
    } else {
        lemma_push_keeps_slots_wf(v.images, ge);
        if has_icon(v.images) {
            lemma_remove_first_icon(v.images);
            lemma_push_keeps_slots_wf(v.images.remove(first_icon_index(v.images)), ie);
        } else {
            lemma_push_keeps_slots_wf(v.images, ie);
        }
        if has_hero(v.images) {
            lemma_remove_first_hero(v.images);
            lemma_push_keeps_slots_wf(v.images.remove(first_hero_index(v.images)), he);
        } else {
            lemma_push_keeps_slots_wf(v.images, he);
        }
    }
}

/// Every image entry of the list stores only inert text.
pub open spec fn images_text_inert(s: Seq<ImageEntryView>) -> bool {
    forall|k: int|
        0 <= k < s.len() ==> markup_inert((#[trigger] s[k]).source) && markup_inert(s[k].alt)
}

/// Every piece of caller text a toast state stores is inert.
pub open spec fn toast_text_inert(v: ToastView) -> bool {
    &&& (v.title matches Option::Some(t) ==> markup_inert(t))
    &&& (v.line1 matches Option::Some(t) ==> markup_inert(t))
    &&& (v.line2 matches Option::Some(t) ==> markup_inert(t))
    &&& images_text_inert(v.images)
    &&& forall|k: int| 0 <= k < v.inputs.len() ==> input_text_inert(#[trigger] v.inputs[k])
    &&& forall|k: int| 0 <= k < v.actions.len() ==> action_text_inert(#[trigger] v.actions[k])
}

/// Appending an entry of inert text keeps the image list inert.
proof fn lemma_images_inert_push(s: Seq<ImageEntryView>, e: ImageEntryView)
    requires
        images_text_inert(s),
        markup_inert(e.source),
        markup_inert(e.alt),
    ensures
        images_text_inert(s.push(e)),
{
    let s2 = s.push(e);
    assert forall|k: int| 0 <= k < s2.len() implies markup_inert((#[trigger] s2[k]).source)
        && markup_inert(s2[k].alt) by {
        if k < s.len() {
            assert(s2[k] == s[k]);
        } else {
            assert(s2[k] == e);
        }
    }
}

/// Removing an entry keeps the image list inert.
proof fn lemma_images_inert_remove(s: Seq<ImageEntryView>, i: int)
    requires
        images_text_inert(s),
        0 <= i < s.len(),
    ensures
        images_text_inert(s.remove(i)),
{
    s.remove_ensures(i);
    let r = s.remove(i);
    assert forall|k: int| 0 <= k < r.len() implies markup_inert((#[trigger] r[k]).source)
        && markup_inert(r[k].alt) by {
        if k < i {
            assert(r[k] == s[k]);
        } else {
            assert(r[k] == s[k + 1]);
        }
    }
}

/// A fresh builder stores only inert text, and every configuration call
/// keeps it so. Together with the markup functions, which embed exactly
/// these stored pieces between fixed tags, this says that caller text —
/// whatever `<`, `>`, `&`, `"` or `'` it held — reaches the rendered
/// document only in escaped form and cannot change its structure.
pub proof fn lemma_toast_text_inert(
    v: ToastView,
    app_id: Seq<char>,
    legacy: bool,
    s: Seq<char>,
    source: Seq<char>,
    crop: IconCrop,
    alt: Seq<char>,
    i: ToastInputView,
    a: ToastActionView,
    audio: Option<Sound>,
    duration: Duration,
    scenario: Scenario,
)
    ensures
        toast_text_inert(initial_toast(app_id, legacy)),
        toast_text_inert(v) ==> toast_text_inert(
            (ToastView { title: Option::Some(escape_text(s)), ..v }),
        ),
        toast_text_inert(v) ==> toast_text_inert(
            (ToastView { line1: Option::Some(escape_text(s)), ..v }),
        ),
        toast_text_inert(v) ==> toast_text_inert(
            (ToastView { line2: Option::Some(escape_text(s)), ..v }),
        ),
        toast_text_inert(v) ==> toast_text_inert(image_added(v, source, alt)),
        toast_text_inert(v) ==> toast_text_inert(icon_added(v, source, crop, alt)),
        toast_text_inert(v) ==> toast_text_inert(hero_added(v, source, alt)),
        toast_text_inert(v) && input_text_inert(i) ==> toast_text_inert(input_added(v, i)),
        toast_text_inert(v) && action_text_inert(a) ==> toast_text_inert(action_added(v, a)),
        toast_text_inert(v) ==> toast_text_inert((ToastView { audio: audio, ..v })),
        toast_text_inert(v) ==> toast_text_inert(
            (ToastView { duration: Option::Some(duration), ..v }),
        ),
        toast_text_inert(v) ==> toast_text_inert((ToastView { scenario: scenario, ..v })),
{
    lemma_escape_text_inert(s);
    lemma_escape_text_inert(source);
    lemma_escape_text_inert(alt);
    if toast_text_inert(v) {
        let ge = generic_image_entry(source, alt);
        let ie = ImageEntryView {
            role: ImageRole::Icon { crop },
            source: escape_text(source),
            alt: escape_text(alt),
        };
        let he = ImageEntryView {
            role: ImageRole::Hero,
            source: escape_text(source),
            alt: escape_text(alt),
        };
        if v.legacy {
            assert(images_text_inert(seq![ge])) by {
                assert(seq![ge][0] == ge);
            }
        } else {
            lemma_images_inert_push(v.images, ge);
            if has_icon(v.images) {
                lemma_first_icon_index_props(v.images);
                lemma_images_inert_remove(v.images, first_icon_index(v.images));
                lemma_images_inert_push(v.images.remove(first_icon_index(v.images)), ie);
            } else {
                lemma_images_inert_push(v.images, ie);
            }
            if has_hero(v.images) {
                lemma_first_hero_index_props(v.images);
                lemma_images_inert_remove(v.images, first_hero_index(v.images));
                lemma_images_inert_push(v.images.remove(first_hero_index(v.images)), he);
            } else {
                lemma_images_inert_push(v.images, he);
            }
        }
        if input_text_inert(i) {
            let pushed = v.inputs.push(i);
            assert forall|k: int| 0 <= k < pushed.len() implies input_text_inert(
                #[trigger] pushed[k],
            ) by {
                if k < v.inputs.len() {
                    assert(pushed[k] == v.inputs[k]);
                } else {
                    assert(pushed[k] == i);
                }
            }
        }
        if action_text_inert(a) {
            let pushed = v.actions.push(a);
            assert forall|k: int| 0 <= k < pushed.len() implies action_text_inert(
                #[trigger] pushed[k],
            ) by {
                if k < v.actions.len() {
                    assert(pushed[k] == v.actions[k]);
                } else {
                    assert(pushed[k] == a);
                }
            }
        }
    }
}

/// Which template a host selects: a legacy host with no image takes the
/// text-only legacy template, a legacy host with at least one image the
/// image-and-text legacy template, and a modern host the generic
/// adaptive template whatever the image count.
pub proof fn lemma_template_selection(legacy: bool, image_count: nat)
    ensures
        !legacy ==> template_name(legacy, image_count) == "ToastGeneric"@,
        legacy && image_count == 0 ==> template_name(legacy, image_count) == "ToastText04"@,
        legacy && image_count > 0 ==> template_name(legacy, image_count)
            == "ToastImageAndText04"@,
{
}

/// Adding an input and adding an action commute: the builder state, and
/// with it the rendered document, does not depend on their interleaving,
/// because the rendered actions section always places every input before
/// every action.
pub proof fn lemma_input_action_order(v: ToastView, i: ToastInputView, a: ToastActionView)
    ensures
        input_added(action_added(v, a), i) == action_added(input_added(v, i), a),
{
    assert(input_added(action_added(v, a), i) =~= action_added(input_added(v, i), a));
}

impl Toast {
    /// This can be used if you do not have an AppUserModelID; the toast
    /// will report its origin as powershell.
    pub const POWERSHELL_APP_ID: &'static str =
        "{1AC14E77-02E7-4E5D-B744-2EB1AE5198B7}\\WindowsPowerShell\\v1.0\\powershell.exe";

    /// A fresh builder for a host of the given capability generation.
    /// `legacy_host` is the negation of what
    /// [`crate::windows_check::is_newer_than_windows81`] decides for the
    /// probed host version.
    pub fn for_host(app_id: &str, legacy_host: bool) -> (t: Toast)
        ensures
            t@ == initial_toast(app_id@, legacy_host),
    {
        let t = Toast {
            app_id: String::from_str(app_id),
            legacy: legacy_host,
            duration: Option::None,
            scenario: Scenario::Default,
            title: Option::None,
            line1: Option::None,
            line2: Option::None,
            images: Vec::new(),
            audio: Option::Some(Sound::Default),
            inputs: Vec::new(),
            actions: Vec::new(),
        };
        proof {
            assert(t@ =~= initial_toast(app_id@, legacy_host));
        }
        t
    }

    /// A fresh builder. `app_id` is the running application's
    /// AppUserModelID. The host is taken as modern, which is also what
    /// the version probe reports when it is unavailable; construct
    /// through [`Toast::for_host`] to honor a probed legacy host.
    pub fn new(app_id: &str) -> (t: Toast)
        ensures
            t@ == initial_toast(app_id@, false),
    {
        Toast::for_host(app_id, false)
    }

    /// The application identity the builder was constructed with.
    pub fn app_id(&self) -> (r: &str)
        ensures
            r@ == self@.app_id,
    {
        self.app_id.as_str()
    }

    /// Sets the title of the toast.
    pub fn title(self, content: &str) -> (t: Toast)
        ensures
            t@ == (ToastView { title: Option::Some(escape_text(content@)), ..self@ }),
    {
        let mut t = self;
        t.title = Option::Some(escape_attribute(content));
        t
    }

    /// Sets the first line of text below the title.
    pub fn text1(self, content: &str) -> (t: Toast)
        ensures
            t@ == (ToastView { line1: Option::Some(escape_text(content@)), ..self@ }),
    {
        let mut t = self;
        t.line1 = Option::Some(escape_attribute(content));
        t
    }

    /// Sets the second line of text below the title.
    pub fn text2(self, content: &str) -> (t: Toast)
        ensures
            t@ == (ToastView { line2: Option::Some(escape_text(content@)), ..self@ }),
    {
        let mut t = self;
        t.line2 = Option::Some(escape_attribute(content));
        t
    }

    /// Sets the length of time to show the toast.
    pub fn duration(self, duration: Duration) -> (t: Toast)
        ensures
            t@ == (ToastView { duration: Option::Some(duration), ..self@ }),
    {
        let mut t = self;
        t.duration = Option::Some(duration);
        t
    }

    /// Sets the scenario of the toast.
    pub fn scenario(self, scenario: Scenario) -> (t: Toast)
        ensures
            t@ == (ToastView { scenario: scenario, ..self@ }),
    {
        let mut t = self;
        t.scenario = scenario;
        t
    }

    /// Sets the icon shown in the upper left of the toast, replacing an
    /// earlier icon: at most one image fills that slot. A legacy host
    /// cannot express this placement and falls back to [`Toast::image`].
    pub fn icon(self, source: &str, crop: IconCrop, alt_text: &str) -> (t: Toast)
        ensures
            t@ == icon_added(self@, source@, crop, alt_text@),
    {
        if !self.legacy {
            let entry = ImageEntry {
                role: ImageRole::Icon { crop },
                source: escape_attribute(source),
                alt: escape_attribute(alt_text),
            };
            let ghost before = self@;
            let ghost ev = entry@;
            let mut t = self;
            match find_icon_slot(&t.images) {
                Option::Some(i) => {
                    t.images.remove(i);
                    t.images.push(entry);
                    proof {
                        assert(t@.images =~= before.images.remove(
                            first_icon_index(before.images),
                        ).push(ev));
                        assert(t@ =~= icon_added(before, source@, crop, alt_text@));
                    }
                },
                Option::None => {
                    t.images.push(entry);
                    proof {
                        assert(t@.images =~= before.images.push(ev));
                        assert(t@ =~= icon_added(before, source@, crop, alt_text@));
                    }
                },
            }
            t
        } else {
            self.image(source, alt_text)
        }
    }

    /// Sets a hero image, shown above the toast text and the icon,
    /// replacing an earlier hero: at most one image fills that slot. A
    /// legacy host cannot express this placement and falls back to
    /// [`Toast::image`].
    pub fn hero(self, source: &str, alt_text: &str) -> (t: Toast)
        ensures
            t@ == hero_added(self@, source@, alt_text@),
    {
        if !self.legacy {
            let entry = ImageEntry {
                role: ImageRole::Hero,
                source: escape_attribute(source),
                alt: escape_attribute(alt_text),
            };
            let ghost before = self@;
            let ghost ev = entry@;
            let mut t = self;
            match find_hero_slot(&t.images) {
                Option::Some(i) => {
                    t.images.remove(i);
                    t.images.push(entry);
                    proof {
                        assert(t@.images =~= before.images.remove(
                            first_hero_index(before.images),
                        ).push(ev));
                        assert(t@ =~= hero_added(before, source@, alt_text@));
                    }
                },
                Option::None => {
                    t.images.push(entry);
                    proof {
                        assert(t@.images =~= before.images.push(ev));
                        assert(t@ =~= hero_added(before, source@, alt_text@));
                    }
                },
            }
            t
        } else {
            self.image(source, alt_text)
        }
    }

    /// Adds an image below the text. May be done many times on a modern
    /// host; a legacy host supports only one image total and shows
    /// nothing when more are present, so there the new image replaces
    /// every earlier one.
    pub fn image(self, source: &str, alt_text: &str) -> (t: Toast)
        ensures
            t@ == image_added(self@, source@, alt_text@),
    {
        let entry = ImageEntry {
            role: ImageRole::Generic,
            source: escape_attribute(source),
            alt: escape_attribute(alt_text),
        };
        let ghost before = self@;
        let mut t = self;
        if t.legacy {
            t.images = Vec::new();
        }
        t.images.push(entry);
        proof {
            if before.legacy {
                assert(t@.images =~= seq![generic_image_entry(source@, alt_text@)]);
            } else {
                assert(t@.images =~= before.images.push(entry@));
            }
            assert(t@ =~= image_added(before, source@, alt_text@));
        }
        t
    }

    /// Sets the sound for the toast or, with `None`, silences it.
    pub fn sound(self, src: Option<Sound>) -> (t: Toast)
        ensures
            t@ == (ToastView { audio: src, ..self@ }),
    {
        let mut t = self;
        t.audio = src;
        t
    }

    /// Appends an input. In the rendered document all inputs stand
    /// before all actions, whatever order they were added in.
    pub fn add_input(self, input: ToastInput) -> (t: Toast)
        ensures
            t@ == input_added(self@, input@),
    {
        let ghost before = self@;
        let ghost iv = input@;
        let mut t = self;
        t.inputs.push(input);
        proof {
            assert(t@.inputs =~= before.inputs.push(iv));
            assert(t@ =~= input_added(before, iv));
        }
        t
    }

    /// Appends an action. In the rendered document all actions stand
    /// after all inputs, whatever order they were added in.
    pub fn add_action(self, action: ToastAction) -> (t: Toast)
        ensures
            t@ == action_added(self@, action@),
    {
        let ghost before = self@;
        let ghost av = action@;
        let mut t = self;
        t.actions.push(action);
        proof {
            assert(t@.actions =~= before.actions.push(av));
            assert(t@ =~= action_added(before, av));
        }
        t
    }

    /// Renders the accumulated state into the one markup document it
    /// stands for. The result is a function of the state alone, so
    /// rendering an unmodified builder twice yields identical output;
    /// the builder is not consumed.
    pub fn render(&self) -> (r: String)
        ensures
            r@ == render_spec(self@),
    {
        let mut out = String::new();
        out.append("<toast");
        match self.duration {
            Option::None => {},
            Option::Some(Duration::Short) => out.append(" duration=\"short\""),
            Option::Some(Duration::Long) => out.append(" duration=\"long\""),
        }
        match self.scenario {
            Scenario::Default => {},
            Scenario::Alarm => out.append(" scenario=\"alarm\""),
            Scenario::Reminder => out.append(" scenario=\"reminder\""),
            Scenario::IncomingCall => out.append(" scenario=\"incomingCall\""),
        }
        out.append(">");
        assert(out@ =~= toast_open_markup(self@));
        let visual = self.visual_string();
        out.append(visual.as_str());
        let audio = audio_string(&self.audio);
        out.append(audio.as_str());
        let section = self.actions_section_string();
        out.append(section.as_str());
        out.append("</toast>");
        assert(out@ =~= render_spec(self@));
        out
    }

    /// The visual section of the document.
    fn visual_string(&self) -> (r: String)
        ensures
            r@ == visual_markup(self@),
    {
        let mut out = String::new();
        out.append("<visual><binding template=\"");
        if !self.legacy {
            out.append("ToastGeneric");
        } else if self.images.len() == 0 {
            out.append("ToastText04");
        } else {
            out.append("ToastImageAndText04");
        }
        out.append("\">");
        proof {
            assert(self@.images.len() == self.images@.len());
            assert(out@ =~= "<visual><binding template=\""@ + template_name(
                self@.legacy,
                self@.images.len(),
            ) + "\">"@);
        }
        let ghost head = out@;
        let ghost ims = self@.images;
        let mut k: usize = 0;
        while k < self.images.len()
            invariant
                k <= self.images.len(),
                ims == self@.images,
                ims.len() == self.images.len(),
                forall|j: int| 0 <= j < ims.len() ==> ims[j] == #[trigger] self.images@[j]@,
                out@ =~= head + images_markup(ims.take(k as int)),
            decreases self.images.len() - k,
        {
            let piece = image_string(&self.images[k]);
            out.append(piece.as_str());
            proof {
                assert(ims.take(k + 1).drop_last() =~= ims.take(k as int));
                assert(ims.take(k + 1).last() == ims[k as int]);
            }
            k = k + 1;
        }
        proof {
            assert(ims.take(self.images.len() as int) =~= ims);
        }
        push_text(&mut out, "<text id=\"1\">", &self.title);
        push_text(&mut out, "<text id=\"2\">", &self.line1);
        push_text(&mut out, "<text id=\"3\">", &self.line2);
        out.append("</binding></visual>");
        assert(out@ =~= visual_markup(self@));
        out
    }

    /// The actions section of the document: the inputs, then the
    /// actions; nothing when there are neither.
    fn actions_section_string(&self) -> (r: String)
        ensures
            r@ == actions_section_markup(self@.inputs, self@.actions),
    {
        let mut out = String::new();
        if self.inputs.len() == 0 && self.actions.len() == 0 {
            proof {
                assert(self@.inputs.len() == 0 && self@.actions.len() == 0);
            }
            return out;
        }
        out.append("<actions>");
        let ghost ins = self@.inputs;
        let mut k: usize = 0;
        while k < self.inputs.len()
            invariant
                k <= self.inputs.len(),
                ins == self@.inputs,
                ins.len() == self.inputs.len(),
                forall|j: int| 0 <= j < ins.len() ==> ins[j] == #[trigger] self.inputs@[j]@,
                out@ =~= "<actions>"@ + inputs_markup(ins.take(k as int)),
            decreases self.inputs.len() - k,
        {
            let piece = self.inputs[k].markup();
            out.append(piece.as_str());
            proof {
                assert(ins.take(k + 1).drop_last() =~= ins.take(k as int));
                assert(ins.take(k + 1).last() == ins[k as int]);
            }
            k = k + 1;
        }
        proof {
            assert(ins.take(self.inputs.len() as int) =~= ins);
        }
        let ghost mid = out@;
        let ghost acts = self@.actions;
        let mut k2: usize = 0;
        while k2 < self.actions.len()
            invariant
                k2 <= self.actions.len(),
                acts == self@.actions,
                acts.len() == self.actions.len(),
                forall|j: int| 0 <= j < acts.len() ==> acts[j] == #[trigger] self.actions@[j]@,
                out@ =~= mid + actions_markup(acts.take(k2 as int)),
            decreases self.actions.len() - k2,
        {
            let piece = self.actions[k2].markup();
            out.append(piece.as_str());
            proof {
                assert(acts.take(k2 + 1).drop_last() =~= acts.take(k2 as int));
                assert(acts.take(k2 + 1).last() == acts[k2 as int]);
            }
            k2 = k2 + 1;
        }
        proof {
            assert(acts.take(self.actions.len() as int) =~= acts);
        }
        out.append("</actions>");
        assert(out@ =~= actions_section_markup(self@.inputs, self@.actions));
        out
    }
}

impl Sound {
    /// The name of this sound, as the sound path writes it.
    pub fn name(&self) -> (r: &'static str)
        ensures
            r@ == sound_name(*self),
    {
        match self {
            Sound::Default => "Default",
            Sound::IM => "IM",
            Sound::Mail => "Mail",
            Sound::Reminder => "Reminder",
            Sound::SMS => "SMS",
            Sound::Single(l) => l.name(),
            Sound::Loop(l) => l.name(),
        }
    }
}

impl LoopableSound {
    /// The name of this loopable sound, as the sound path writes it.
    pub fn name(&self) -> (r: &'static str)
        ensures
            r@ == loopable_sound_name(*self),
    {
        match self {
            LoopableSound::Alarm => "Alarm",
            LoopableSound::Alarm2 => "Alarm2",
            LoopableSound::Alarm3 => "Alarm3",
            LoopableSound::Alarm4 => "Alarm4",
            LoopableSound::Alarm5 => "Alarm5",
            LoopableSound::Alarm6 => "Alarm6",
            LoopableSound::Alarm7 => "Alarm7",
            LoopableSound::Alarm8 => "Alarm8",
            LoopableSound::Alarm9 => "Alarm9",
            LoopableSound::Alarm10 => "Alarm10",
            LoopableSound::Call => "Call",
            LoopableSound::Call2 => "Call2",
            LoopableSound::Call3 => "Call3",
            LoopableSound::Call4 => "Call4",
            LoopableSound::Call5 => "Call5",
            LoopableSound::Call6 => "Call6",
            LoopableSound::Call7 => "Call7",
            LoopableSound::Call8 => "Call8",
            LoopableSound::Call9 => "Call9",
            LoopableSound::Call10 => "Call10",
        }
    }
}

/// The position of the entry that fills the app-logo slot, when one
/// does.
fn find_icon_slot(images: &Vec<ImageEntry>) -> (r: Option<usize>)
    ensures
        match r {
            Option::Some(i) => has_icon(image_views(images@)) && i < images.len()
                && first_icon_index(image_views(images@)) == i as int,
            Option::None => !has_icon(image_views(images@)),
        },
{
    let ghost ims = image_views(images@);
    let mut k: usize = 0;
    while k < images.len()
        invariant
            k <= images.len(),
            ims == image_views(images@),
            ims.len() == images.len(),
            forall|j: int| 0 <= j < ims.len() ==> ims[j] == #[trigger] images@[j]@,
            forall|j: int| 0 <= j < k ==> !is_icon(#[trigger] ims[j]),
        decreases images.len() - k,
    {
        let hit = match images[k].role {
            ImageRole::Icon { .. } => true,
            _ => false,
        };
        if hit {
            proof {
                assert(is_icon(ims[k as int]));
                lemma_first_icon_index_at(ims, k as int);
            }
            return Option::Some(k);
        }
        proof {
            assert(!is_icon(ims[k as int]));
        }
        k = k + 1;
    }
    Option::None
}

/// The position of the entry that fills the hero slot, when one does.
fn find_hero_slot(images: &Vec<ImageEntry>) -> (r: Option<usize>)
    ensures
        match r {
            Option::Some(i) => has_hero(image_views(images@)) && i < images.len()
                && first_hero_index(image_views(images@)) == i as int,
            Option::None => !has_hero(image_views(images@)),
        },
{
    let ghost ims = image_views(images@);
    let mut k: usize = 0;
    while k < images.len()
        invariant
            k <= images.len(),
            ims == image_views(images@),
            ims.len() == images.len(),
            forall|j: int| 0 <= j < ims.len() ==> ims[j] == #[trigger] images@[j]@,
            forall|j: int| 0 <= j < k ==> !is_hero(#[trigger] ims[j]),
        decreases images.len() - k,
    {
        let hit = match images[k].role {
            ImageRole::Hero => true,
            _ => false,
        };
        if hit {
            proof {
                assert(is_hero(ims[k as int]));
                lemma_first_hero_index_at(ims, k as int);
            }
            return Option::Some(k);
        }
        proof {
            assert(!is_hero(ims[k as int]));
        }
        k = k + 1;
    }
    Option::None
}

/// The markup of one image element.
fn image_string(e: &ImageEntry) -> (r: String)
    ensures
        r@ == image_markup(e@),
{
    let mut out = String::new();
    match e.role {
        ImageRole::Icon { crop } => {
            out.append("<image placement=\"appLogoOverride\"");
            match crop {
                IconCrop::Square => {},
                IconCrop::Circular => out.append(" hint-crop=\"circle\""),
            }
            out.append(" src=\"file:///");
        },
        ImageRole::Hero => {
            out.append("<image placement=\"Hero\" src=\"file:///");
        },
        ImageRole::Generic => {
            out.append("<image id=\"1\" src=\"file:///");
        },
    }
    out.append(e.source.as_str());
    out.append("\" alt=\"");
    out.append(e.alt.as_str());
    out.append("\" />");
    assert(out@ =~= image_markup(e@));
    out
}

/// One text slot of the visual section, appended to `out`.
fn push_text(out: &mut String, open: &str, content: &Option<String>)
    ensures
        final(out)@ == old(out)@ + text_markup(open@, opt_string_view(content)),
{
    match content {
        Option::None => {
            proof {
                assert(old(out)@ + Seq::<char>::empty() =~= old(out)@);
            }
        },
        Option::Some(t) => {
            out.append(open);
            out.append(t.as_str());
            out.append("</text>");
        },
    }
}

/// The audio element of the document.
fn audio_string(audio: &Option<Sound>) -> (r: String)
    ensures
        r@ == audio_markup(*audio),
{
    let mut out = String::new();
    match audio {
        Option::None => {
            out.append("<audio silent=\"true\" />");
        },
        Option::Some(Sound::Default) => {},
        Option::Some(Sound::Single(l)) => {
            out.append("<audio src=\"ms-winsoundevent:Notification.Looping.");
            out.append(l.name());
            out.append("\" />");
        },
        Option::Some(Sound::Loop(l)) => {
            out.append("<audio loop=\"true\" src=\"ms-winsoundevent:Notification.Looping.");
            out.append(l.name());
            out.append("\" />");
        },
        Option::Some(s) => {
            out.append("<audio src=\"ms-winsoundevent:Notification.");
            out.append(s.name());
            out.append("\" />");
        },
    }
    assert(out@ =~= audio_markup(*audio));
    out
}

/// The reason behind a dismissal event, decoded from the code the
/// notification service reports: 0 the user canceled, 1 the application
/// hid the toast, 2 it timed out; every other code is unknown.
pub open spec fn dismissal_reason_of(code: int) -> DismissalReason {
    if code == 0 {
        DismissalReason::UserCanceled
    } else if code == 1 {
        DismissalReason::ApplicationHidden
    } else if code == 2 {
        DismissalReason::TimedOut
    } else {
        DismissalReason::Unknown
    }
}

/// Decodes the dismissal-reason code of the notification service's
/// dismissed event into the reason it stands for.
pub fn dismissal_reason_from_code(code: i32) -> (r: DismissalReason)
    ensures
        r == dismissal_reason_of(code as int),
{
    if code == 0 {
        DismissalReason::UserCanceled
    } else if code == 1 {
        DismissalReason::ApplicationHidden
    } else if code == 2 {
        DismissalReason::TimedOut
    } else {
        DismissalReason::Unknown
    }
}

} // verus!
