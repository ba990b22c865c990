use vstd::prelude::*;
use vstd::string::{StrSliceExecFns, StringExecFns};
use rand::seq::SliceRandom;

verus! {

pub const START_TEXT: &'static str = "Hello there, thank you for visiting me.
I am Whatlang, a Rust library for natural language detection. You give me a text, I tell what language it is written in.
";

pub const MID_TEXT_RUS: &'static str = "Ну, как дела чувак? Ты не скучай, зайди на гитхаб, посмотри сорцы да звёздочку поставить не забудь!";

pub const MID_TEXT_UKR: &'static str = "Привіт, чуваче! Дуже радий тебе бачити на просторах Інету!
Якщо ти сьогодні вже поїв трохи борщу з сальцем, почуваєшся у доброму гуморі, то може зайдеш на гітхаб та ткнеш зірочку?
         Я тобі трохи заздрю, бо вже дуже давно не куштував борщ!           .";

pub const MID_TEXT_DEU: &'static str = "Wenn Du verstehst, was ich schreibe, dann bist Du wahrscheinlich deutsch.
Für Dich habe ich eine kleine Gedankenstütze: Kein Bier vor Vier. Ansonsten geht es..... immer los!!!";

pub const MID_TEXT_EPO: &'static str = "Se vi tion komprenas, verŝajne vi estas esperantisto aŭ esperantistino.
Do mi salutegas vin kaj deziras al vi, ke vi neniam perdu la Esperon!
                Ĝis revido!";

pub const MID_TEXT_ESP: &'static str = "¡Hola Amigo!
¿Dónde está la marcha?
¿Vas a tomar una cervezita conmigo cuando acabe la cuarentena?
           ¡Acordado! ";

pub const END_TEXT: &'static str = "You can try to type something yourself.
Try also to click \"Debug\" to see what is happening inside of me.          ... GO! GO! GO!
";

/// One block of sample text.
#[derive(Debug, Copy, Clone)]
pub struct Slide(pub &'static str);

/// The characters of each slide.
pub open spec fn slide_texts(slides: Seq<Slide>) -> Seq<Seq<char>> {
    slides.map_values(|s: Slide| s.0@)
}

/// One step of the reveal engine over `slides`, from the state where slide
/// `index` is current and `shown` of its characters are revealed: what is
/// returned, and the next state.
pub open spec fn reveal_step(slides: Seq<Seq<char>>, index: nat, shown: nat) -> (Option<Seq<char>>, nat, nat) {
    if index < slides.len() && shown < slides[index as int].len() {
        (Some(slides[index as int].take(shown as int + 1)), index, shown + 1)
    } else if index + 1 < slides.len() {
        (Some(Seq::<char>::empty()), index + 1, 0)
    } else {
        (None, slides.len(), shown)
    }
}

/// The candidates for the middle slide.
pub open spec fn mid_pool() -> Seq<Slide> {
    seq![
        Slide(MID_TEXT_UKR),
        Slide(MID_TEXT_RUS),
        Slide(MID_TEXT_DEU),
        Slide(MID_TEXT_EPO),
        Slide(MID_TEXT_ESP),
    ]
}

/// The slide sequence of a session: the start block, the middle block if one
/// was drawn, and the end block.
pub open spec fn sequence_of(mid: Option<Slide>) -> Seq<Slide> {
    match mid {
        Some(m) => seq![Slide(START_TEXT), m, Slide(END_TEXT)],
        None => seq![Slide(START_TEXT), Slide(END_TEXT)],
    }
}

/// The state `(index, shown)` of an engine over `slides` after `k` calls from
/// a fresh start.
pub open spec fn state_after(slides: Seq<Seq<char>>, k: nat) -> (nat, nat)
    decreases k,
{
    if k == 0 {
        (0, 0)
    } else {
        let s = state_after(slides, (k - 1) as nat);
        let t = reveal_step(slides, s.0, s.1);
        (t.1, t.2)
    }
}

/// What the call numbered `k` (from 0) of a fresh engine over `slides` returns.
pub open spec fn output_at(slides: Seq<Seq<char>>, k: nat) -> Option<Seq<char>> {
    let s = state_after(slides, k);
    reveal_step(slides, s.0, s.1).0
}

/// The number of characters in the slides from position `j` on.
pub open spec fn chars_from(slides: Seq<Seq<char>>, j: nat) -> nat
    decreases slides.len() - j,
{
    if j >= slides.len() {
        0
    } else {
        slides[j as int].len() + chars_from(slides, j + 1)
    }
}

/// The number of characters in all the slides.
pub open spec fn char_total(slides: Seq<Seq<char>>) -> nat {
    chars_from(slides, 0)
}

/// How many more values an engine in state `(index, shown)` returns.
spec fn values_left(slides: Seq<Seq<char>>, index: nat, shown: nat) -> int {
    if index < slides.len() {
        slides[index as int].len() - shown + chars_from(slides, index + 1) + slides.len() - (
        index + 1)
    } else {
        0
    }
}

spec fn valid_state(slides: Seq<Seq<char>>, index: nat, shown: nat) -> bool {
    &&& index <= slides.len()
    &&& index < slides.len() ==> shown <= slides[index as int].len()
}

proof fn lemma_step_counts_down(slides: Seq<Seq<char>>, index: nat, shown: nat)
    requires
        valid_state(slides, index, shown),
    ensures
        ({
            let t = reveal_step(slides, index, shown);
            &&& valid_state(slides, t.1, t.2)
            &&& t.0 is Some <==> values_left(slides, index, shown) > 0
            &&& values_left(slides, index, shown) > 0 ==> values_left(slides, t.1, t.2)
                == values_left(slides, index, shown) - 1
            &&& values_left(slides, index, shown) <= 0 ==> values_left(slides, t.1, t.2) == 0
        }),
{
    if index + 1 < slides.len() {
        assert(chars_from(slides, index + 1) == slides[index + 1 as int].len() + chars_from(
            slides,
            index + 2,
        ));
    }
}

proof fn lemma_values_left_after(slides: Seq<Seq<char>>, k: nat)
    ensures
        valid_state(slides, state_after(slides, k).0, state_after(slides, k).1),
        values_left(slides, state_after(slides, k).0, state_after(slides, k).1) == if k
            <= values_left(slides, 0, 0) {
            values_left(slides, 0, 0) - k
        } else {
            0
        },
    decreases k,
{
    if k > 0 {
        lemma_values_left_after(slides, (k - 1) as nat);
        let s = state_after(slides, (k - 1) as nat);
        lemma_step_counts_down(slides, s.0, s.1);
    }
}

/// Over N slides, a fresh engine returns a value (a prefix, or the empty string
/// at a slide boundary) on exactly its first (number of characters + N - 1)
/// calls, and nothing on every call after those.
pub proof fn lemma_output_count(slides: Seq<Seq<char>>, k: nat)
    requires
        slides.len() > 0,
    ensures
        output_at(slides, k) is Some <==> k < char_total(slides) + slides.len() - 1,
{
    lemma_values_left_after(slides, k);
    let s = state_after(slides, k);
    lemma_step_counts_down(slides, s.0, s.1);
}

/// The characters of a returned string, if any.
pub open spec fn opt_view(r: Option<String>) -> Option<Seq<char>> {
    match r {
        Some(s) => Some(s@),
        None => None,
    }
}

/// The pool the middle slide is drawn from.
pub fn mid_slides() -> (r: Vec<Slide>)
    ensures
        r@ == mid_pool(),
{
    let r = vec![
        Slide(MID_TEXT_UKR),
        Slide(MID_TEXT_RUS),
        Slide(MID_TEXT_DEU),
        Slide(MID_TEXT_EPO),
        Slide(MID_TEXT_ESP),
    ];
    assert(r@ =~= mid_pool());
    r
}

/// Relies on rand's `SliceRandom::choose` with the thread-local generator:
/// `None` exactly when the slice is empty, otherwise one of its elements.
#[verifier::external_body]
fn choose_slide(pool: &[Slide]) -> (r: Option<Slide>)
    ensures
        r is None <==> pool@.len() == 0,
        r matches Some(s) ==> pool@.contains(s),
{
    pool.choose(&mut rand::thread_rng()).copied()
}

/// Builds the slide sequence around the drawn middle slide, or without one.
pub fn select_sequence(mid: Option<Slide>) -> (r: Vec<Slide>)
    ensures
        r@ == sequence_of(mid),
        r@.len() == 2 || r@.len() == 3,
        r@.first() == Slide(START_TEXT),
        r@.last() == Slide(END_TEXT),
{
    let r = match mid {
        Some(m) => vec![Slide(START_TEXT), m, Slide(END_TEXT)],
        None => vec![Slide(START_TEXT), Slide(END_TEXT)],
    };
    assert(r@ =~= sequence_of(mid));
    r
}

/// The reveal engine: a forward-only cursor over a sequence of slides.
pub struct Show {
    slide_index: usize,
    slides: Vec<Slide>,
    text: String,
}

impl Show {
    #[verifier::type_invariant]
    spec fn inv(self) -> bool {
        &&& self.slides@.len() > 0
        &&& self.slide_index <= self.slides@.len()
        &&& self.slide_index < self.slides@.len() ==> self.text@ =~= self.slides@[self.slide_index as int].0@.take(
            self.text@.len() as int,
        ) && self.text@.len() <= self.slides@[self.slide_index as int].0@.len()
    }

    /// The characters of each slide, in order.
    pub closed spec fn slides_view(self) -> Seq<Seq<char>> {
        slide_texts(self.slides@)
    }

    /// The position of the current slide; the number of slides once exhausted.
    pub closed spec fn index(self) -> nat {
        self.slide_index as nat
    }

    /// How many characters of the current slide have been revealed.
    pub closed spec fn shown(self) -> nat {
        self.text@.len()
    }

    /// A fresh engine over the start block, a middle block drawn uniformly
    /// from the pool, and the end block.
    pub fn gen_random() -> (r: Self)
        ensures
            r.index() == 0,
            r.shown() == 0,
            r.slides_view().len() == 3,
            r.slides_view().first() == START_TEXT@,
            r.slides_view().last() == END_TEXT@,
            exists|i: int| 0 <= i < mid_pool().len() && r.slides_view()[1] == mid_pool()[i].0@,
    {
        let pool = mid_slides();
        let mid = choose_slide(pool.as_slice());
        let slides = select_sequence(mid);
        let r = Show::new(slides);
        proof {
            let m = mid->0;
            let i = choose|i: int| 0 <= i < mid_pool().len() && mid_pool()[i] == m;
            assert(r.slides_view()[1] == mid_pool()[i].0@);
        }
        r
    }

    /// An engine at the start of the first of `slides`.
    pub fn new(slides: Vec<Slide>) -> (r: Self)
        requires
            slides@.len() > 0,
        ensures
            r.slides_view() == slide_texts(slides@),
            r.index() == 0,
            r.shown() == 0,
    {
        Show { slide_index: 0, slides, text: String::new() }
    }

    /// Reveals the next character of the current slide and returns the revealed
    /// prefix; at the end of a slide moves to the next one and returns an empty
    /// string; after the last slide returns `None`.
    pub fn next(&mut self) -> (r: Option<String>)
        ensures
            final(self).slides_view() == old(self).slides_view(),
            ({
                let step = reveal_step(old(self).slides_view(), old(self).index(), old(self).shown());
                &&& opt_view(r) == step.0
                &&& final(self).index() == step.1
                &&& final(self).shown() == step.2
            }),
    {
        proof {
            use_type_invariant(&*self);
        }
        let idx = self.slide_index;
        if idx < self.slides.len() {
            let slide = self.slides[idx].0;
            let shown = self.text.as_str().unicode_len();
            if shown < slide.unicode_len() {
                let mut text = self.text.clone();
                text.append(slide.substring_char(shown, shown + 1));
                assert(text@ =~= slide@.take(shown + 1));
                self.text = text;
                return Some(self.text.clone());
            }
        }
        if idx < self.slides.len() - 1 {
            self.text = String::new();
            self.slide_index = idx + 1;
            Some(String::new())
        } else {
            self.slide_index = self.slides.len();
            None
        }
    }
}

} // verus!
