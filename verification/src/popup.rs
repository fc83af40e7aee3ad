//! The overlay's interaction state: which lint's suggestion popup is open,
//! what lies under the cursor, and how a popup presents a lint.
//!
//! Geometry is measured in floating point by the renderer; what it measured —
//! whether the cursor lies in the popup and in each lint's rectangle — is
//! decided on here.
use vstd::prelude::*;
use crate::text::string_from_chars;
use vstd::string::StringExecFns;

verus! {

/// The interactive region under the cursor.
#[derive(Debug, Clone, Copy, PartialEq, Eq, Structural)]
pub enum HitTarget {
    /// The highlight of the lint at this index.
    Lint(usize),
    /// The open suggestion popup.
    Popup,
    /// Nothing interactive: clicks pass through to the application below.
    Nothing,
}

/// Which lint, if any, owns the suggestion popup, among the lints currently
/// highlighted. A popup never points at a lint that no longer exists.
pub struct RenderState {
    lint_count: usize,
    highlighted_lint: Option<usize>,
}

/// The first index from `start` on at which `hits` holds, if any.
pub open spec fn first_hit_from(hits: Seq<bool>, start: nat) -> Option<usize>
    decreases hits.len() - start,
{
    if start >= hits.len() {
        None
    } else if hits[start as int] {
        Some(start as usize)
    } else {
        first_hit_from(hits, start + 1)
    }
}

/// The first index at which `hits` holds, if any.
pub open spec fn first_hit(hits: Seq<bool>) -> Option<usize> {
    first_hit_from(hits, 0)
}

impl RenderState {
    #[verifier::type_invariant]
    spec fn points_at_existing_lint(&self) -> bool {
        self.highlighted_lint matches Some(index) ==> index < self.lint_count
    }

    /// The number of lints currently highlighted.
    pub closed spec fn lints(&self) -> nat {
        self.lint_count as nat
    }

    /// The lint whose popup is open, if any.
    pub closed spec fn popup(&self) -> Option<usize> {
        self.highlighted_lint
    }

    /// State for `lint_count` highlighted lints, with no popup open.
    pub fn new(lint_count: usize) -> (state: Self)
        ensures
            state.lints() == lint_count,
            state.popup() is None,
    {
        RenderState { lint_count, highlighted_lint: None }
    }

    /// Replaces the highlighted lints with `lint_count` fresh ones, closing a
    /// popup whose lint no longer exists after the latest read.
    pub fn set_rects(&mut self, lint_count: usize)
        ensures
            final(self).lints() == lint_count,
            final(self).popup() == match old(self).popup() {
                Some(index) => if index < lint_count {
                    Some(index)
                } else {
                    None
                },
                None => None,
            },
    {
        let highlighted_lint = match self.highlighted_lint {
            Some(index) => if index < lint_count {
                Some(index)
            } else {
                None
            },
            None => None,
        };
        *self = RenderState { lint_count, highlighted_lint };
    }

    /// Opens the popup for `highlighted_lint`, or closes it for `None` or for
    /// an index that does not name an existing lint.
    pub fn set_highlighted_lint(&mut self, highlighted_lint: Option<usize>)
        ensures
            final(self).lints() == old(self).lints(),
            final(self).popup() == match highlighted_lint {
                Some(index) => if index < old(self).lints() {
                    Some(index)
                } else {
                    None
                },
                None => None,
            },
    {
        self.highlighted_lint = match highlighted_lint {
            Some(index) => if index < self.lint_count {
                Some(index)
            } else {
                None
            },
            None => None,
        };
    }

    /// Closes the popup.
    pub fn close_popup(&mut self)
        ensures
            final(self).lints() == old(self).lints(),
            final(self).popup() is None,
    {
        self.highlighted_lint = None;
    }

    /// The lint whose popup is open, if any.
    pub fn highlighted_lint(&self) -> (index: Option<usize>)
        ensures
            index == self.popup(),
            index matches Some(i) ==> i < self.lints(),
    {
        proof {
            use_type_invariant(self);
        }
        self.highlighted_lint
    }

    /// Whether a suggestion popup is open.
    pub fn popup_open(&self) -> (open: bool)
        ensures
            open == self.popup() is Some,
    {
        self.highlighted_lint.is_some()
    }

    /// The interactive region under the cursor, given whether the cursor lies
    /// in the popup's rectangle (`in_popup`) and in each lint's rectangle
    /// (`in_lints`, in lint order): the popup when it is open and contains the
    /// cursor, else the first lint containing it, else nothing.
    pub fn hit_target_at_pos(&self, in_popup: bool, in_lints: &[bool]) -> (target: HitTarget)
        ensures
            target == if self.popup() is Some && in_popup {
                HitTarget::Popup
            } else {
                match first_hit(in_lints@) {
                    Some(index) => HitTarget::Lint(index),
                    None => HitTarget::Nothing,
                }
            },
    {
        if self.highlighted_lint.is_some() && in_popup {
            return HitTarget::Popup;
        }
        let mut i: usize = 0;
        while i < in_lints.len()
            invariant
                i <= in_lints@.len(),
                first_hit(in_lints@) == first_hit_from(in_lints@, i as nat),
                !(self.popup() is Some && in_popup),
            decreases in_lints@.len() - i,
        {
            if in_lints[i] {
                return HitTarget::Lint(i);
            }
            i = i + 1;
        }
        HitTarget::Nothing
    }

    /// Opens the popup of the lint clicked on, when a lint was clicked;
    /// clicks on the popup are left to its own controls. Returns whether the
    /// overlay must be redrawn.
    pub fn select_hit_lint(&mut self, target: HitTarget) -> (redraw: bool)
        ensures
            final(self).lints() == old(self).lints(),
            match target {
                HitTarget::Lint(index) => redraw && final(self).popup() == if index < old(self).lints() {
                    Some(index)
                } else {
                    None
                },
                _ => !redraw && final(self).popup() == old(self).popup(),
            },
    {
        match target {
            HitTarget::Lint(index) => {
                self.set_highlighted_lint(Some(index));
                true
            },
            _ => false,
        }
    }
}

/// What the user chose in a lint's popup.
#[derive(Debug, Clone, Copy, PartialEq, Eq, Structural)]
pub enum CardAction {
    Close,
    ApplySuggestion,
    IgnoreLint,
    AddToDictionary,
    DisableRule,
}

impl RenderState {
    /// Carries out the popup's `action`: every action closes the popup, and
    /// all but closing act on the lint the popup was open for, whose index is
    /// returned so the caller can apply the suggestion, ignore the lint, add
    /// its word to the dictionary, or disable its rule.
    pub fn finish_card_action(&mut self, action: CardAction) -> (target: Option<usize>)
        ensures
            final(self).lints() == old(self).lints(),
            final(self).popup() is None,
            target == if action == CardAction::Close {
                None
            } else {
                old(self).popup()
            },
            target matches Some(index) ==> index < old(self).lints(),
    {
        proof {
            use_type_invariant(&*self);
        }
        let target = match action {
            CardAction::Close => None,
            _ => self.highlighted_lint,
        };
        self.close_popup();
        target
    }
}

/// A rendered popup or highlight is clickable exactly where the cursor finds a
/// lint or the popup: elsewhere clicks must reach the application below.
pub open spec fn accepts_clicks(target: HitTarget) -> bool {
    !(target is Nothing)
}

/// The category of a lint, which decides how its popup looks.
#[derive(Debug, Clone, Copy, PartialEq, Eq, Structural)]
pub enum LintKind {
    Agreement,
    BoundaryError,
    Capitalization,
    Eggcorn,
    Enhancement,
    Formatting,
    Grammar,
    Malapropism,
    Miscellaneous,
    Nonstandard,
    Punctuation,
    Readability,
    Redundancy,
    Regionalism,
    Repetition,
    Spelling,
    Style,
    Typo,
    Usage,
    WordChoice,
    WordOrder,
}

/// Whether lints of `kind` are about a misspelled word, which the user can
/// add to their dictionary instead.
pub open spec fn spelling_kind(kind: LintKind) -> bool {
    kind is Eggcorn || kind is Malapropism || kind is Spelling || kind is Typo
}

/// Whether lints of `kind` are about a misspelled word.
pub fn is_spelling_kind(kind: LintKind) -> (spelling: bool)
    ensures
        spelling == spelling_kind(kind),
{
    match kind {
        LintKind::Eggcorn | LintKind::Malapropism | LintKind::Spelling | LintKind::Typo => true,
        LintKind::Agreement
        | LintKind::BoundaryError
        | LintKind::Capitalization
        | LintKind::Enhancement
        | LintKind::Formatting
        | LintKind::Grammar
        | LintKind::Miscellaneous
        | LintKind::Nonstandard
        | LintKind::Punctuation
        | LintKind::Readability
        | LintKind::Redundancy
        | LintKind::Regionalism
        | LintKind::Repetition
        | LintKind::Style
        | LintKind::Usage
        | LintKind::WordChoice
        | LintKind::WordOrder => false,
    }
}

/// An opaque 8-bit RGB color.
#[derive(Debug, Clone, Copy, PartialEq, Eq, Structural)]
pub struct Rgb {
    pub r: u8,
    pub g: u8,
    pub b: u8,
}

/// The badge colors of a popup: its background tint and its text color.
#[derive(Debug, Clone, Copy, PartialEq, Eq, Structural)]
pub struct PopupPalette {
    pub background: Rgb,
    pub foreground: Rgb,
}

/// The palette for lints of `kind`: red for spelling, orange for grammar,
/// violet for capitalization, blue for punctuation and layout, grey for the
/// rest.
pub open spec fn palette_for(kind: LintKind) -> PopupPalette {
    if spelling_kind(kind) {
        PopupPalette { background: Rgb { r: 0xff, g: 0xee, b: 0xf2 }, foreground: Rgb { r: 0xbe, g: 0x12, b: 0x3c } }
    } else if kind is Agreement || kind is BoundaryError || kind is Grammar || kind is Repetition {
        PopupPalette { background: Rgb { r: 0xff, g: 0xf7, b: 0xed }, foreground: Rgb { r: 0xc2, g: 0x41, b: 0x0c } }
    } else if kind is Capitalization {
        PopupPalette { background: Rgb { r: 0xf3, g: 0xee, b: 0xff }, foreground: Rgb { r: 0x5b, g: 0x21, b: 0xb6 } }
    } else if kind is Formatting || kind is Punctuation || kind is Readability {
        PopupPalette { background: Rgb { r: 0xef, g: 0xf6, b: 0xff }, foreground: Rgb { r: 0x1d, g: 0x4e, b: 0xd8 } }
    } else {
        PopupPalette { background: Rgb { r: 0xf3, g: 0xf4, b: 0xf6 }, foreground: Rgb { r: 0x37, g: 0x41, b: 0x51 } }
    }
}

/// The palette for lints of `kind`.
pub fn popup_palette_for_lint_kind(kind: LintKind) -> (palette: PopupPalette)
    ensures
        palette == palette_for(kind),
{
    match kind {
        LintKind::Eggcorn | LintKind::Malapropism | LintKind::Spelling | LintKind::Typo => PopupPalette {
            background: Rgb { r: 0xff, g: 0xee, b: 0xf2 },
            foreground: Rgb { r: 0xbe, g: 0x12, b: 0x3c },
        },
        LintKind::Agreement | LintKind::BoundaryError | LintKind::Grammar | LintKind::Repetition => PopupPalette {
            background: Rgb { r: 0xff, g: 0xf7, b: 0xed },
            foreground: Rgb { r: 0xc2, g: 0x41, b: 0x0c },
        },
        LintKind::Capitalization => PopupPalette {
            background: Rgb { r: 0xf3, g: 0xee, b: 0xff },
            foreground: Rgb { r: 0x5b, g: 0x21, b: 0xb6 },
        },
        LintKind::Formatting | LintKind::Punctuation | LintKind::Readability => PopupPalette {
            background: Rgb { r: 0xef, g: 0xf6, b: 0xff },
            foreground: Rgb { r: 0x1d, g: 0x4e, b: 0xd8 },
        },
        LintKind::Enhancement
        | LintKind::Miscellaneous
        | LintKind::Nonstandard
        | LintKind::Redundancy
        | LintKind::Regionalism
        | LintKind::Style
        | LintKind::Usage
        | LintKind::WordChoice
        | LintKind::WordOrder => PopupPalette {
            background: Rgb { r: 0xf3, g: 0xf4, b: 0xf6 },
            foreground: Rgb { r: 0x37, g: 0x41, b: 0x51 },
        },
    }
}

/// A suggested fix for a lint.
#[derive(Debug, Clone)]
pub enum Suggestion {
    /// Replace the lint's span with these characters.
    ReplaceWith(Vec<char>),
    /// Insert these characters after the lint's span.
    InsertAfter(Vec<char>),
    /// Remove the lint's span.
    Remove,
}

/// The label of a suggestion's button.
pub open spec fn suggestion_label(suggestion: Suggestion) -> Seq<char> {
    match suggestion {
        Suggestion::ReplaceWith(chars) => chars@,
        Suggestion::InsertAfter(chars) => chars@,
        Suggestion::Remove => "Remove"@,
    }
}

/// The tooltip of a suggestion's button.
pub open spec fn suggestion_hover_label(suggestion: Suggestion) -> Seq<char> {
    match suggestion {
        Suggestion::Remove => "Remove"@,
        Suggestion::ReplaceWith(chars) => "Replace with "@ + seq!['"'] + chars@ + seq!['"'],
        Suggestion::InsertAfter(chars) => "Replace with "@ + seq!['"'] + chars@ + seq!['"'],
    }
}

/// The label of a suggestion's button: the text it writes, or "Remove".
pub fn suggestion_text(suggestion: &Suggestion) -> (text: String)
    ensures
        text@ == suggestion_label(*suggestion),
{
    match suggestion {
        Suggestion::ReplaceWith(chars) | Suggestion::InsertAfter(chars) => string_from_chars(chars.as_slice()),
        Suggestion::Remove => "Remove".to_owned(),
    }
}

/// The tooltip of a suggestion's button.
pub fn suggestion_hover_text(suggestion: &Suggestion) -> (text: String)
    ensures
        text@ == suggestion_hover_label(*suggestion),
{
    match suggestion {
        Suggestion::Remove => "Remove".to_owned(),
        Suggestion::ReplaceWith(chars) | Suggestion::InsertAfter(chars) => {
            let mut text = "Replace with ".to_owned();
            text.push('"');
            let written = string_from_chars(chars.as_slice());
            text.append(written.as_str());
            text.push('"');
            text
        },
    }
}

} // verus!
