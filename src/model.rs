use vstd::prelude::*;
use vstd::string::{StrSliceExecFns, StringExecFns};
use whatlang::dev::RawInfo;
use whatlang::Info;
use crate::demo::{reveal_step, Show};
use crate::icon::Icon;

verus! {

#[verifier::external_type_specification]
#[verifier::external_body]
pub struct ExInfo(Info);

#[verifier::external_type_specification]
#[verifier::external_body]
pub struct ExRawInfo(RawInfo);

/// What whatlang's `detect` makes of a text.
pub uninterp spec fn detected(text: Seq<char>) -> Option<Info>;

/// What whatlang's `raw_detect` makes of a text.
pub uninterp spec fn raw_detected(text: Seq<char>) -> RawInfo;

/// Relies on `whatlang::dev::detect`: the outcome depends on the text alone,
/// and a text with no characters gives `None`.
#[verifier::external_body]
fn detect_text(text: &str) -> (r: Option<Info>)
    ensures
        r == detected(text@),
        text@.len() == 0 ==> r is None,
{
    whatlang::dev::detect(text)
}

/// Relies on `whatlang::dev::raw_detect`: the diagnostics depend on the text
/// alone.
#[verifier::external_body]
fn raw_detect_text(text: &str) -> (r: RawInfo)
    ensures
        r == raw_detected(text@),
{
    whatlang::dev::raw_detect(text)
}

/// Who drives the text: the demo playback, counting the ticks it has taken
/// (a count nothing reads), or the user.
#[derive(Debug, Copy, Clone, PartialEq, Eq, Structural)]
pub enum Mode {
    Auto(usize),
    Manual,
}

/// Which view of the detection results is active.
#[derive(Debug, Copy, Clone, PartialEq, Eq, Structural)]
pub enum Tab {
    Language,
    Debug,
}

/// The label of a tab.
pub open spec fn tab_name(tab: Tab) -> Seq<char> {
    match tab {
        Tab::Language => "Language"@,
        Tab::Debug => "Debug"@,
    }
}

/// The icon of a tab.
pub open spec fn tab_icon(tab: Tab) -> Icon {
    match tab {
        Tab::Language => Icon::Language,
        Tab::Debug => Icon::DraftingCompass,
    }
}

impl Tab {
    pub fn name_and_icon(self) -> (r: (&'static str, Icon))
        ensures
            r.0@ == tab_name(self),
            r.1 == tab_icon(self),
    {
        match self {
            Tab::Language => ("Language", Icon::Language),
            Tab::Debug => ("Debug", Icon::DraftingCompass),
        }
    }
}

/// The events the state machine consumes.
#[derive(Debug, Clone)]
pub enum Msg {
    /// The whole content of the text field after a keystroke.
    UpdateText(String),
    OnTick,
    ChangeTab(Tab),
}

/// The text a user means when typing into a field that still shows the demo
/// text: the last character typed, or nothing.
pub open spec fn last_char_text(raw: Seq<char>) -> Seq<char> {
    if raw.len() == 0 {
        Seq::<char>::empty()
    } else {
        seq![raw.last()]
    }
}

/// The state of a demo session.
pub struct Model {
    mode: Mode,
    text: String,
    info: Option<Info>,
    raw_info: RawInfo,
    tab: Tab,
    show: Show,
}

/// The text a tick leaves, from what the engine returned.
pub open spec fn tick_text(out: Option<Seq<char>>) -> Seq<char> {
    match out {
        Some(t) => t,
        None => Seq::<char>::empty(),
    }
}

/// How `update` relates the model before an event to the model after it.
pub open spec fn update_post(m: Model, msg: Msg, n: Model) -> bool {
    match msg {
        Msg::UpdateText(raw) => {
            &&& n.text_view() == (if m.mode_view() is Auto {
                last_char_text(raw@)
            } else {
                raw@
            })
            &&& n.mode_view() == Mode::Manual
            &&& n.tab_view() == m.tab_view()
            &&& n.show_view() == m.show_view()
            &&& n.consistent()
        },
        Msg::OnTick => match m.mode_view() {
            Mode::Manual => n == m,
            Mode::Auto(ticks) => {
                let step = reveal_step(
                    m.show_view().slides_view(),
                    m.show_view().index(),
                    m.show_view().shown(),
                );
                &&& n.text_view() == tick_text(step.0)
                &&& n.mode_view() == Mode::Auto((ticks + 1) as usize)
                &&& n.tab_view() == m.tab_view()
                &&& n.show_view().slides_view() == m.show_view().slides_view()
                &&& n.show_view().index() == step.1
                &&& n.show_view().shown() == step.2
                &&& n.consistent()
            },
        },
        Msg::ChangeTab(tab) => n == m.with_tab(tab),
    }
}

impl Model {
    pub closed spec fn mode_view(self) -> Mode {
        self.mode
    }

    pub closed spec fn text_view(self) -> Seq<char> {
        self.text@
    }

    pub closed spec fn info_view(self) -> Option<Info> {
        self.info
    }

    pub closed spec fn raw_info_view(self) -> RawInfo {
        self.raw_info
    }

    pub closed spec fn tab_view(self) -> Tab {
        self.tab
    }

    pub closed spec fn show_view(self) -> Show {
        self.show
    }

    /// The same model, on `tab`.
    pub closed spec fn with_tab(self, tab: Tab) -> Model {
        Model { tab, ..self }
    }

    /// The detection results are those of the current text.
    pub open spec fn consistent(self) -> bool {
        &&& self.info_view() == detected(self.text_view())
        &&& self.raw_info_view() == raw_detected(self.text_view())
    }

    pub fn mode(&self) -> (r: Mode)
        ensures
            r == self.mode_view(),
    {
        self.mode
    }

    pub fn text(&self) -> (r: &String)
        ensures
            r@ == self.text_view(),
    {
        &self.text
    }

    pub fn info(&self) -> (r: &Option<Info>)
        ensures
            *r == self.info_view(),
    {
        &self.info
    }

    pub fn raw_info(&self) -> (r: &RawInfo)
        ensures
            *r == self.raw_info_view(),
    {
        &self.raw_info
    }

    pub fn tab(&self) -> (r: Tab)
        ensures
            r == self.tab_view(),
    {
        self.tab
    }
}

/// Starts a session over an engine: reveals its first step, runs detection
/// on that text, and begins in demo playback on the language tab.
pub fn init(show: Show) -> (r: Model)
    ensures
        r.text_view() == tick_text(
            reveal_step(show.slides_view(), show.index(), show.shown()).0,
        ),
        r.mode_view() == Mode::Auto(0),
        r.tab_view() == Tab::Language,
        r.show_view().slides_view() == show.slides_view(),
        r.show_view().index() == reveal_step(show.slides_view(), show.index(), show.shown()).1,
        r.show_view().shown() == reveal_step(show.slides_view(), show.index(), show.shown()).2,
        r.consistent(),
{
    let mut show = show;
    let text = match show.next() {
        Some(t) => t,
        None => String::new(),
    };
    let info = detect_text(text.as_str());
    let raw_info = raw_detect_text(text.as_str());
    Model { mode: Mode::Auto(0), info, raw_info, text, tab: Tab::Language, show }
}

/// Processes one event to completion.
pub fn update(msg: Msg, model: &mut Model)
    requires
        msg is OnTick && old(model).mode_view() is Auto ==> old(model).mode_view()->Auto_0
            < usize::MAX,
    ensures
        update_post(*old(model), msg, *final(model)),
{
    match msg {
        Msg::UpdateText(raw) => {
            match model.mode {
                Mode::Auto(_) => {
                    let n = raw.as_str().unicode_len();
                    let typed = if n == 0 {
                        String::new()
                    } else {
                        String::from_str(raw.as_str().substring_char(n - 1, n))
                    };
                    assert(typed@ =~= last_char_text(raw@));
                    model.text = typed;
                },
                Mode::Manual => {
                    model.text = raw;
                },
            }
            model.mode = Mode::Manual;
            model.info = detect_text(model.text.as_str());
            model.raw_info = raw_detect_text(model.text.as_str());
        },
        Msg::OnTick => match model.mode {
            Mode::Auto(ticks) => {
                let text = match model.show.next() {
                    Some(t) => t,
                    None => String::new(),
                };
                model.info = detect_text(text.as_str());
                model.raw_info = raw_detect_text(text.as_str());
                model.text = text;
                model.mode = Mode::Auto(ticks + 1);
            },
            Mode::Manual => {},
        },
        Msg::ChangeTab(tab) => {
            model.tab = tab;
        },
    }
}

proof fn lemma_manual_stays(models: Seq<Model>, raw: String, k: int)
    requires
        models.len() >= 2,
        update_post(models[0], Msg::UpdateText(raw), models[1]),
        forall|i: int|
            1 <= i < models.len() - 1 ==> update_post(#[trigger] models[i], Msg::OnTick, models[i + 1]),
        1 <= k < models.len(),
    ensures
        models[k] == models[1],
    decreases k,
{
    if k > 1 {
        lemma_manual_stays(models, raw, k - 1);
        assert(update_post(models[k - 1], Msg::OnTick, models[k]));
    }
}

/// Once a user input has been processed, ticks leave the model (its text, its
/// detection results, everything) as it is, however many of them arrive.
pub proof fn lemma_ticks_after_input(models: Seq<Model>, raw: String)
    requires
        models.len() >= 2,
        update_post(models[0], Msg::UpdateText(raw), models[1]),
        forall|i: int|
            1 <= i < models.len() - 1 ==> update_post(#[trigger] models[i], Msg::OnTick, models[i + 1]),
    ensures
        models[1].mode_view() == Mode::Manual,
        forall|i: int|
            1 <= i < models.len() ==> {
                &&& (#[trigger] models[i]).text_view() == models[1].text_view()
                &&& models[i].info_view() == models[1].info_view()
                &&& models[i].raw_info_view() == models[1].raw_info_view()
                &&& models[i] == models[1]
            },
{
    assert forall|i: int| 1 <= i < models.len() implies #[trigger] models[i] == models[1] by {
        lemma_manual_stays(models, raw, i);
    }
}

/// Switching to the tab that is already active changes nothing.
pub proof fn lemma_same_tab_changes_nothing(m: Model, n: Model)
    requires
        update_post(m, Msg::ChangeTab(m.tab_view()), n),
    ensures
        n == m,
{
}

} // verus!
