//! The scroll position over the lines of a detail view.

use crate::widget_state::{
    scrollbar_content_length,
    scrollbar_position,
    scrollbar_state_default,
    scrollbar_viewport_length,
};
use ratatui::widgets::ScrollbarState;
use vstd::prelude::*;

verus! {

/// What a scrollbar holds: the first visible line, and the largest value that
/// it may take.
pub struct ScrollView {
    pub position: nat,
    pub length: nat,
}

impl ScrollView {
    /// The position lies between 0 and the length.
    pub open spec fn valid(self) -> bool {
        self.position <= self.length
    }

    /// One line down; from the end the position goes back to the top.
    pub open spec fn scrolled_down(self) -> ScrollView {
        ScrollView {
            position: if self.position < self.length {
                self.position + 1
            } else {
                0
            },
            length: self.length,
        }
    }

    /// One line up; from the top the position goes to the end.
    pub open spec fn scrolled_up(self) -> ScrollView {
        ScrollView {
            position: if self.position > 0 {
                (self.position - 1) as nat
            } else {
                self.length
            },
            length: self.length,
        }
    }

    /// The scrollbar over `lines` lines of content in a viewport of `viewport`
    /// lines: the lines that do not fit give the length, and the position is
    /// at the top.
    pub open spec fn sized(lines: nat, viewport: nat) -> ScrollView {
        ScrollView {
            position: 0,
            length: if lines >= viewport {
                (lines - viewport) as nat
            } else {
                0
            },
        }
    }
}

/// Scrolling keeps a valid scrollbar valid and never changes its length.
pub proof fn lemma_scrolling_stays_in_range(view: ScrollView)
    requires
        view.valid(),
    ensures
        view.scrolled_down().valid(),
        view.scrolled_up().valid(),
        view.scrolled_down().length == view.length,
        view.scrolled_up().length == view.length,
{
}

/// At the end a step down leads to the top, and at the top a step up leads to the end.
pub proof fn lemma_scrolling_wraps(view: ScrollView)
    ensures
        view.position == view.length ==> view.scrolled_down().position == 0,
        view.position == 0 ==> view.scrolled_up().position == view.length,
{
}

/// However a scrollbar is sized, its length is the number of lines that do
/// not fit into the viewport, and its position is at the top.
pub proof fn lemma_sized_is_valid(lines: nat, viewport: nat)
    ensures
        ScrollView::sized(lines, viewport).valid(),
        ScrollView::sized(lines, viewport).position == 0,
        lines >= viewport ==> ScrollView::sized(lines, viewport).length == lines - viewport,
        lines < viewport ==> ScrollView::sized(lines, viewport).length == 0,
{
}

/// Where the content fits into the viewport there is nothing to scroll: the
/// length is 0, and scrolling either way leaves the position at 0.
pub proof fn lemma_fitting_content_does_not_scroll(lines: nat, viewport: nat)
    requires
        lines <= viewport,
    ensures
        ScrollView::sized(lines, viewport).length == 0,
        ScrollView::sized(lines, viewport).scrolled_down().position == 0,
        ScrollView::sized(lines, viewport).scrolled_up().position == 0,
{
}

/// A position and the bound that it keeps to.
struct ScrollRange {
    length: usize,
    position: usize,
}

impl ScrollRange {
    #[verifier::type_invariant]
    spec fn in_range(&self) -> bool {
        self.position <= self.length
    }
}

/// The scrollbar of the alert details.
pub struct DependabotScrollbar {
    state: ScrollbarState,
    range: ScrollRange,
}

impl View for DependabotScrollbar {
    type V = ScrollView;

    closed spec fn view(&self) -> ScrollView {
        ScrollView { position: self.range.position as nat, length: self.range.length as nat }
    }
}

impl DependabotScrollbar {
    /// The state that the scrollbar widget is drawn with.
    pub closed spec fn widget_state(&self) -> ScrollbarState {
        self.state
    }

    /// The widget is drawn at the position and with the length of the scrollbar.
    pub open spec fn widget_follows(&self) -> bool {
        &&& scrollbar_position(self.widget_state()) == self@.position
        &&& scrollbar_content_length(self.widget_state()) == self@.length
    }

    /// The widget is drawn at the position of the scrollbar, and `before` is
    /// what it was drawn with before in every other respect.
    pub open spec fn widget_moved_from(&self, before: ScrollbarState) -> bool {
        &&& scrollbar_position(self.widget_state()) == self@.position
        &&& scrollbar_content_length(self.widget_state()) == scrollbar_content_length(before)
        &&& scrollbar_viewport_length(self.widget_state()) == scrollbar_viewport_length(before)
    }

    /// A scrollbar over nothing.
    pub fn default() -> (scrollbar: Self)
        ensures
            scrollbar@ == (ScrollView { position: 0, length: 0 }),
            scrollbar.widget_follows(),
            scrollbar_viewport_length(scrollbar.widget_state()) == 0,
    {
        DependabotScrollbar {
            state: scrollbar_state_default(),
            range: ScrollRange { length: 0, position: 0 },
        }
    }

    /// A scrollbar of the given length, at the top.
    pub fn new(length: usize) -> (scrollbar: Self)
        ensures
            scrollbar@ == (ScrollView { position: 0, length: length as nat }),
            scrollbar.widget_follows(),
            scrollbar_viewport_length(scrollbar.widget_state()) == 1,
    {
        DependabotScrollbar {
            state: scrollbar_state_default().content_length(length).viewport_content_length(
                1,
            ).position(0),
            range: ScrollRange { length, position: 0 },
        }
    }

    /// Moves one line down, and from the end back to the top.
    pub fn scroll_down(&mut self)
        ensures
            final(self)@ == old(self)@.scrolled_down(),
            final(self)@.valid(),
            final(self).widget_moved_from(old(self).widget_state()),
    {
        proof {
            use_type_invariant(&self.range);
        }
        if self.range.position < self.range.length {
            self.range.position += 1;
        } else {
            self.range.position = 0;
        }
        self.state = self.state.position(self.range.position);
    }

    /// Moves one line up, and from the top to the end.
    pub fn scroll_up(&mut self)
        ensures
            final(self)@ == old(self)@.scrolled_up(),
            final(self)@.valid(),
            final(self).widget_moved_from(old(self).widget_state()),
    {
        proof {
            use_type_invariant(&self.range);
        }
        if self.range.position > 0 {
            self.range.position -= 1;
        } else {
            self.range.position = self.range.length;
        }
        self.state = self.state.position(self.range.position);
    }

    /// Jumps to the top.
    pub fn top(&mut self)
        ensures
            final(self)@ == (ScrollView { position: 0, length: old(self)@.length }),
            final(self).widget_moved_from(old(self).widget_state()),
    {
        self.range.position = 0;
        self.state = self.state.position(self.range.position);
    }

    /// The state that the scrollbar widget is drawn with. What the renderer
    /// does to it changes neither the position nor the length.
    pub fn get_mut_state(&mut self) -> (state: &mut ScrollbarState)
        ensures
            *state == old(self).widget_state(),
            final(self).widget_state() == *final(state),
            final(self)@ == old(self)@,
    {
        &mut self.state
    }

    /// Sizes the scrollbar for `lines` lines of content in a viewport of
    /// `viewport` lines, and jumps to the top.
    pub fn resize(&mut self, lines: usize, viewport: usize)
        ensures
            final(self)@ == ScrollView::sized(lines as nat, viewport as nat),
            final(self).widget_follows(),
            scrollbar_viewport_length(final(self).widget_state()) == scrollbar_viewport_length(
                old(self).widget_state(),
            ),
    {
        let length = if lines >= viewport {
            lines - viewport
        } else {
            0
        };
        self.range.position = 0;
        self.range.length = length;
        self.state = self.state.content_length(length).position(0);
    }

    /// The largest position.
    pub fn get_length(&self) -> (length: usize)
        ensures
            length == self@.length,
            self@.valid(),
    {
        proof {
            use_type_invariant(&self.range);
        }
        self.range.length
    }

    /// The first visible line.
    pub fn position(&self) -> (position: usize)
        ensures
            position == self@.position,
            position <= self@.length,
    {
        proof {
            use_type_invariant(&self.range);
        }
        self.range.position
    }
}

} // verus!
