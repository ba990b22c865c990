use whatlang_demo::demo::{mid_slides, select_sequence, Show, Slide, END_TEXT, START_TEXT};
use whatlang_demo::icon::Icon;

fn drain(show: &mut Show) -> Vec<String> {
    let mut out = Vec::new();
    while let Some(t) = show.next() {
        out.push(t);
    }
    out
}

#[test]
fn test_show() {
    let mut show = Show::new(vec![Slide("Sal"), Slide("Мир")]);

    assert_eq!(show.next().unwrap(), "S");
    assert_eq!(show.next().unwrap(), "Sa");
    assert_eq!(show.next().unwrap(), "Sal");
    assert_eq!(show.next().unwrap(), "");
    assert_eq!(show.next().unwrap(), "М");
    assert_eq!(show.next().unwrap(), "Ми");
    assert_eq!(show.next().unwrap(), "Мир");
    assert_eq!(show.next(), None);
}

#[test]
fn exhausted_engine_stays_exhausted() {
    let mut show = Show::new(vec![Slide("ab")]);
    assert_eq!(show.next().unwrap(), "a");
    assert_eq!(show.next().unwrap(), "ab");
    for _ in 0..5 {
        assert_eq!(show.next(), None);
    }
}

#[test]
fn prefixes_never_split_characters() {
    let text = "¡Hola! Ĝis revido, звёздочку";
    let mut show = Show::new(vec![Slide(text)]);
    let out = drain(&mut show);
    let chars: Vec<char> = text.chars().collect();
    assert_eq!(out.len(), chars.len());
    for (i, prefix) in out.iter().enumerate() {
        let expected: String = chars[..i + 1].iter().collect();
        assert_eq!(prefix, &expected);
    }
}

#[test]
fn output_count_is_characters_plus_boundaries() {
    let mut show = Show::new(vec![Slide("Hi"), Slide(""), Slide("Bye")]);
    let out = drain(&mut show);
    // 5 characters and 2 slide boundaries
    assert_eq!(out.len(), 7);
    assert_eq!(out, vec!["H", "Hi", "", "", "B", "By", "Bye"]);
}

#[test]
fn empty_single_slide_ends_at_once() {
    let mut show = Show::new(vec![Slide("")]);
    assert_eq!(show.next(), None);
}

#[test]
fn sequence_with_and_without_middle() {
    let with_mid = select_sequence(Some(Slide("mid")));
    assert_eq!(with_mid.len(), 3);
    assert_eq!(with_mid[0].0, START_TEXT);
    assert_eq!(with_mid[1].0, "mid");
    assert_eq!(with_mid[2].0, END_TEXT);

    let without = select_sequence(None);
    assert_eq!(without.len(), 2);
    assert_eq!(without[0].0, START_TEXT);
    assert_eq!(without[1].0, END_TEXT);
}

#[test]
fn random_session_runs_start_middle_end() {
    let mut show = Show::gen_random();
    let out = drain(&mut show);
    assert_eq!(out[0], "H");
    let finished: Vec<&String> = out
        .iter()
        .enumerate()
        .filter(|(i, t)| out.get(i + 1).map_or(true, |n| n.is_empty()) && !t.is_empty())
        .map(|(_, t)| t)
        .collect();
    assert_eq!(finished.len(), 3);
    assert_eq!(finished[0], START_TEXT);
    assert!(mid_slides().iter().any(|s| s.0 == finished[1]));
    assert_eq!(finished[2], END_TEXT);
    let chars: usize = finished.iter().map(|t| t.chars().count()).sum();
    assert_eq!(out.len(), chars + 2);
}

#[test]
fn pool_holds_five_distinct_texts() {
    let pool = mid_slides();
    assert_eq!(pool.len(), 5);
    for i in 0..pool.len() {
        for j in i + 1..pool.len() {
            assert_ne!(pool[i].0, pool[j].0);
        }
    }
}

#[test]
fn icon_classes() {
    assert_eq!(Icon::Language.to_class(), "fa-language");
    assert_eq!(Icon::DraftingCompass.to_class(), "fa-drafting-compass");
}
