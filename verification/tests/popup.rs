use harper_desktop::popup::{
    CardAction,
    is_spelling_kind, popup_palette_for_lint_kind, suggestion_hover_text, suggestion_text,
    HitTarget, LintKind, RenderState, Rgb, Suggestion,
};

#[test]
fn a_new_state_has_no_popup() {
    let state = RenderState::new(3);
    assert_eq!(state.highlighted_lint(), None);
    assert!(!state.popup_open());
}

#[test]
fn selecting_an_existing_lint_opens_its_popup() {
    let mut state = RenderState::new(3);
    state.set_highlighted_lint(Some(2));
    assert_eq!(state.highlighted_lint(), Some(2));
    assert!(state.popup_open());
}

#[test]
fn selecting_a_missing_lint_closes_the_popup() {
    let mut state = RenderState::new(3);
    state.set_highlighted_lint(Some(1));
    state.set_highlighted_lint(Some(3));
    assert_eq!(state.highlighted_lint(), None);
}

#[test]
fn fewer_lints_close_a_stale_popup() {
    let mut state = RenderState::new(5);
    state.set_highlighted_lint(Some(4));
    state.set_rects(5);
    assert_eq!(state.highlighted_lint(), Some(4));
    state.set_rects(4);
    assert_eq!(state.highlighted_lint(), None);
}

#[test]
fn closing_clears_the_popup() {
    let mut state = RenderState::new(2);
    state.set_highlighted_lint(Some(0));
    state.close_popup();
    assert!(!state.popup_open());
}

#[test]
fn an_open_popup_wins_the_hit_test() {
    let mut state = RenderState::new(2);
    assert_eq!(state.hit_target_at_pos(true, &[false, true]), HitTarget::Lint(1));
    state.set_highlighted_lint(Some(0));
    assert_eq!(state.hit_target_at_pos(true, &[false, true]), HitTarget::Popup);
    assert_eq!(state.hit_target_at_pos(false, &[true, true]), HitTarget::Lint(0));
    assert_eq!(state.hit_target_at_pos(false, &[false, false]), HitTarget::Nothing);
}

#[test]
fn clicking_a_lint_selects_it() {
    let mut state = RenderState::new(2);
    assert!(state.select_hit_lint(HitTarget::Lint(1)));
    assert_eq!(state.highlighted_lint(), Some(1));
    assert!(!state.select_hit_lint(HitTarget::Popup));
    assert_eq!(state.highlighted_lint(), Some(1));
    assert!(!state.select_hit_lint(HitTarget::Nothing));
    assert_eq!(state.highlighted_lint(), Some(1));
}

#[test]
fn spelling_kinds_offer_the_dictionary() {
    assert!(is_spelling_kind(LintKind::Spelling));
    assert!(is_spelling_kind(LintKind::Typo));
    assert!(is_spelling_kind(LintKind::Eggcorn));
    assert!(is_spelling_kind(LintKind::Malapropism));
    assert!(!is_spelling_kind(LintKind::Grammar));
    assert!(!is_spelling_kind(LintKind::WordOrder));
}

#[test]
fn palettes_follow_the_lint_kind() {
    let spelling = popup_palette_for_lint_kind(LintKind::Typo);
    assert_eq!(spelling.background, Rgb { r: 0xff, g: 0xee, b: 0xf2 });
    assert_eq!(spelling.foreground, Rgb { r: 0xbe, g: 0x12, b: 0x3c });
    let capitalization = popup_palette_for_lint_kind(LintKind::Capitalization);
    assert_eq!(capitalization.foreground, Rgb { r: 0x5b, g: 0x21, b: 0xb6 });
    let style = popup_palette_for_lint_kind(LintKind::Style);
    assert_eq!(style.background, Rgb { r: 0xf3, g: 0xf4, b: 0xf6 });
}

#[test]
fn suggestions_are_labelled_by_what_they_write() {
    assert_eq!(suggestion_text(&Suggestion::ReplaceWith(vec!['t', 'h', 'e'])), "the");
    assert_eq!(suggestion_text(&Suggestion::InsertAfter(vec![','])), ",");
    assert_eq!(suggestion_text(&Suggestion::Remove), "Remove");
    assert_eq!(
        suggestion_hover_text(&Suggestion::ReplaceWith(vec!['t', 'h', 'e'])),
        "Replace with \"the\""
    );
    assert_eq!(suggestion_hover_text(&Suggestion::Remove), "Remove");
}

#[test]
fn every_card_action_closes_the_popup() {
    let mut state = RenderState::new(3);
    state.set_highlighted_lint(Some(2));
    assert_eq!(state.finish_card_action(CardAction::DisableRule), Some(2));
    assert!(!state.popup_open());

    state.set_highlighted_lint(Some(1));
    assert_eq!(state.finish_card_action(CardAction::Close), None);
    assert!(!state.popup_open());

    assert_eq!(state.finish_card_action(CardAction::ApplySuggestion), None);
}
