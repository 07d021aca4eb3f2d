//! The suggestion overlay's state: what is shown, where, and whether.

use vstd::prelude::*;

verus! {

/// The text of an optional string.
pub open spec fn opt_text(o: Option<String>) -> Option<Seq<char>> {
    match o {
        Some(s) => Some(s@),
        None => None,
    }
}

/// The overlay's state as the library reasons about it.
pub struct OverlayView<P> {
    pub shown: bool,
    pub suggestion: Option<Seq<char>>,
    pub at: Option<P>,
}

/// The state after showing a suggestion at a position.
pub open spec fn shown_with<P>(v: OverlayView<P>, text: Seq<char>, at: Option<P>) -> OverlayView<P> {
    OverlayView { shown: true, suggestion: Some(text), at }
}

/// The state after dismissing: hidden, no suggestion, same position.
pub open spec fn dismissed<P>(v: OverlayView<P>) -> OverlayView<P> {
    OverlayView { shown: false, suggestion: None, at: v.at }
}

/// The state after accepting, and the suggestion handed over.
pub open spec fn accepted<P>(v: OverlayView<P>) -> (OverlayView<P>, Option<Seq<char>>) {
    (OverlayView { shown: false, suggestion: None, at: v.at }, v.suggestion)
}

/// Manages the suggestion overlay's visibility, its suggestion, and the
/// screen position (of type `P`) it is shown at.
pub struct OverlayManager<P> {
    visible: bool,
    current_suggestion: Option<String>,
    position: Option<P>,
}

impl<P> OverlayManager<P> {
    /// A visible overlay always has a suggestion to show.
    #[verifier::type_invariant]
    spec fn visible_needs_suggestion(self) -> bool {
        self.visible ==> self.current_suggestion is Some
    }

    pub closed spec fn view(&self) -> OverlayView<P> {
        OverlayView { shown: self.visible, suggestion: opt_text(self.current_suggestion), at: self.position }
    }

    pub fn new() -> (m: Self)
        ensures
            m.view() == (OverlayView::<P> { shown: false, suggestion: None, at: None }),
            visible_has_suggestion(m.view()),
    {
        OverlayManager { visible: false, current_suggestion: None, position: None }
    }

    /// Shows a suggestion at the given caret position.
    pub fn show_suggestion(&mut self, suggestion: String, position: Option<P>)
        ensures
            final(self).view() == shown_with(old(self).view(), suggestion@, position),
            visible_has_suggestion(final(self).view()),
    {
        self.current_suggestion = Some(suggestion);
        self.position = position;
        self.visible = true;
    }

    /// Dismisses the current suggestion; the position is kept.
    pub fn dismiss(&mut self)
        ensures
            final(self).view() == dismissed(old(self).view()),
            visible_has_suggestion(final(self).view()),
    {
        self.visible = false;
        self.current_suggestion = None;
    }

    /// Accepts the current suggestion: hides the overlay and hands the text
    /// over (to be typed by input simulation); the position is kept.
    pub fn accept(&mut self) -> (r: Option<String>)
        ensures
            (final(self).view(), opt_text(r)) == accepted(old(self).view()),
            visible_has_suggestion(final(self).view()),
    {
        self.visible = false;
        let mut taken: Option<String> = None;
        std::mem::swap(&mut taken, &mut self.current_suggestion);
        taken
    }

    /// Whether the overlay is shown; when it is, it has a suggestion.
    pub fn is_visible(&self) -> (r: bool)
        ensures
            r == self.view().shown,
            visible_has_suggestion(self.view()),
    {
        proof {
            use_type_invariant(self);
        }
        self.visible
    }

    pub fn current_suggestion(&self) -> (r: Option<&str>)
        ensures
            match r {
                Some(s) => self.view().suggestion == Some(s@),
                None => self.view().suggestion is None,
            },
            visible_has_suggestion(self.view()),
    {
        proof {
            use_type_invariant(self);
        }
        match &self.current_suggestion {
            Some(s) => Some(s.as_str()),
            None => None,
        }
    }

    pub fn position(&self) -> (r: Option<&P>)
        ensures
            match r {
                Some(p) => self.view().at == Some(*p),
                None => self.view().at is None,
            },
    {
        match &self.position {
            Some(p) => Some(p),
            None => None,
        }
    }
}

/// An overlay that is visible has a suggestion to show.
pub open spec fn visible_has_suggestion<P>(v: OverlayView<P>) -> bool {
    v.shown ==> v.suggestion is Some
}

/// The overlay starts consistent, and showing, dismissing and accepting keep
/// it so: whatever sequence of them reaches a state, a visible overlay has a
/// suggestion.
pub proof fn lemma_visible_implies_suggestion<P>(v: OverlayView<P>, text: Seq<char>, at: Option<P>)
    requires
        visible_has_suggestion(v),
    ensures
        visible_has_suggestion(OverlayView::<P> { shown: false, suggestion: None, at: None }),
        visible_has_suggestion(shown_with(v, text, at)),
        visible_has_suggestion(dismissed(v)),
        visible_has_suggestion(accepted(v).0),
{
}

/// Accepting hands over exactly the suggestion last shown, and only once:
/// a second accept hands over nothing.
pub proof fn lemma_accept_returns_shown_once<P>(v: OverlayView<P>, text: Seq<char>, at: Option<P>)
    ensures
        accepted(shown_with(v, text, at)).1 == Some(text),
        accepted(accepted(shown_with(v, text, at)).0).1 is None,
        !accepted(shown_with(v, text, at)).0.shown,
{
}

/// A dismissed suggestion can no longer be accepted, and the overlay is hidden.
pub proof fn lemma_dismissed_cannot_be_accepted<P>(v: OverlayView<P>)
    ensures
        accepted(dismissed(v)).1 is None,
        !dismissed(v).shown,
{
}

} // verus!
