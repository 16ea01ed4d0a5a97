//! The widget states of the terminal toolkit that the session carries for its renderer.
//!
//! Nothing in this file is proved: each item declares an outside type or says what
//! one outside function does, as its source shows it.

use ratatui::widgets::{ListState, ScrollbarState};
use throbber_widgets_tui::ThrobberState;
use vstd::prelude::*;

verus! {

/// `ratatui::widgets::ListState`, the state of a rendered list.
#[verifier::external_type_specification]
#[verifier::external_body]
pub struct ExListState(ListState);

/// `ratatui::widgets::ScrollbarState`, the state of a rendered scrollbar.
#[verifier::external_type_specification]
#[verifier::external_body]
pub struct ExScrollbarState(ScrollbarState);

/// `throbber_widgets_tui::ThrobberState`, the animation state of a busy indicator.
#[verifier::external_type_specification]
#[verifier::external_body]
pub struct ExThrobberState(ThrobberState);

/// The item that a `ListState` highlights: what `ListState::selected` returns.
pub uninterp spec fn list_selected(state: ListState) -> Option<usize>;

/// The first item that a `ListState` shows: what `ListState::offset` returns.
pub uninterp spec fn list_offset(state: ListState) -> usize;

/// The position that a `ScrollbarState` holds, in its field `position`.
pub uninterp spec fn scrollbar_position(state: ScrollbarState) -> usize;

/// The length of the content that a `ScrollbarState` holds, in its field `content_length`.
pub uninterp spec fn scrollbar_content_length(state: ScrollbarState) -> usize;

/// The length of the viewport that a `ScrollbarState` holds, in its field
/// `viewport_content_length`.
pub uninterp spec fn scrollbar_viewport_length(state: ScrollbarState) -> usize;

/// The symbol index that a `ThrobberState` holds: what `ThrobberState::index` returns.
pub uninterp spec fn throbber_index(state: ThrobberState) -> i8;

/// `ListState::default()`: a list state that highlights nothing and starts at the
/// first item.
#[verifier::external_body]
pub(crate) fn list_state_default() -> (state: ListState)
    ensures
        list_selected(state) == None::<usize>,
        list_offset(state) == 0,
{
    ListState::default()
}

/// `ListState::select` stores the index it is given, and goes back to the first
/// item when that index is `None`.
pub assume_specification[ ListState::select ](state: &mut ListState, index: Option<usize>)
    ensures
        list_selected(*final(state)) == index,
        list_offset(*final(state)) == if index is None {
            0
        } else {
            list_offset(*old(state))
        },
;

/// `ScrollbarState::default()`: a scrollbar state with no content, at position 0.
#[verifier::external_body]
pub(crate) fn scrollbar_state_default() -> (state: ScrollbarState)
    ensures
        scrollbar_position(state) == 0,
        scrollbar_content_length(state) == 0,
        scrollbar_viewport_length(state) == 0,
{
    ScrollbarState::default()
}

/// `ScrollbarState::content_length`: the same state with another content length.
pub assume_specification[ ScrollbarState::content_length ](
    state: ScrollbarState,
    content_length: usize,
) -> (next: ScrollbarState)
    ensures
        scrollbar_content_length(next) == content_length,
        scrollbar_position(next) == scrollbar_position(state),
        scrollbar_viewport_length(next) == scrollbar_viewport_length(state),
;

/// `ScrollbarState::viewport_content_length`: the same state with another viewport length.
pub assume_specification[ ScrollbarState::viewport_content_length ](
    state: ScrollbarState,
    viewport_content_length: usize,
) -> (next: ScrollbarState)
    ensures
        scrollbar_viewport_length(next) == viewport_content_length,
        scrollbar_position(next) == scrollbar_position(state),
        scrollbar_content_length(next) == scrollbar_content_length(state),
;

/// `ScrollbarState::position`: the same state with another position.
pub assume_specification[ ScrollbarState::position ](
    state: ScrollbarState,
    position: usize,
) -> (next: ScrollbarState)
    ensures
        scrollbar_position(next) == position,
        scrollbar_content_length(next) == scrollbar_content_length(state),
        scrollbar_viewport_length(next) == scrollbar_viewport_length(state),
;

/// `ThrobberState::default()`: the animation starts at symbol 0.
#[verifier::external_body]
pub(crate) fn throbber_state_default() -> (state: ThrobberState)
    ensures
        throbber_index(state) == 0,
{
    ThrobberState::default()
}

/// `ThrobberState::calc_next` adds one to the index and stops at `i8::MAX`.
pub assume_specification[ ThrobberState::calc_next ](state: &mut ThrobberState)
    ensures
        throbber_index(*final(state)) == if throbber_index(*old(state)) == i8::MAX {
            i8::MAX
        } else {
            (throbber_index(*old(state)) + 1) as i8
        },
;

} // verus!
