//! Fitting the list of userproxies into the rows that the terminal shows.

use vstd::prelude::*;
use crate::app::{saturating_minus, App};

verus! {

/// The rows scrolled past and the selection's row after fitting the list into
/// `avail` visible rows with `len` entries: the rows scrolled past are capped
/// at the visible rows; the selection at the top row scrolls up while rows
/// are hidden above; at the bottom row it scrolls down while entries are
/// hidden below; a selection below the visible rows or past the entries moves
/// up.
pub open spec fn fitted_view(skip: usize, scroll: usize, avail: usize, len: usize) -> (usize, usize) {
    let skip = if skip > avail { avail } else { skip };
    let last = saturating_minus(avail, 1);
    if scroll == 0 && skip != 0 {
        ((skip - 1) as usize, 1)
    } else if scroll == last && skip + avail < len {
        ((skip + 1) as usize, saturating_minus(scroll, 1))
    } else if scroll == last {
        (skip, last)
    } else if scroll >= avail {
        (skip, saturating_minus(scroll, if scroll - avail > 1 { (scroll - avail) as usize } else { 1 }))
    } else if scroll >= len {
        (skip, saturating_minus(scroll, 1))
    } else {
        (skip, scroll)
    }
}

/// The rows of a list area of this height that show entries (two go to its border).
pub open spec fn visible_rows(list_height: u16) -> usize {
    saturating_minus(list_height as usize, 2)
}

/// The rows scrolled past and the selection's row after fitting a list of
/// `len` entries into `avail` visible rows; see `fitted_view`. Afterwards the
/// selection's row is at most `avail` and at most `avail + 1` rows are
/// scrolled past.
pub fn fit_view(skip: usize, scroll: usize, avail: usize, len: usize) -> (res: (usize, usize))
    requires
        avail <= u16::MAX,
    ensures
        res == fitted_view(skip, scroll, avail, len),
        res.1 <= avail,
        res.0 <= avail + 1,
{
    let mut skip = skip;
    if skip > avail {
        skip = skip.saturating_sub(skip.saturating_sub(avail));
    }
    let last = avail.saturating_sub(1);
    if scroll == 0 && skip != 0 {
        (skip.saturating_sub(1), scroll.saturating_add(1))
    } else if scroll == last && skip + avail < len {
        (skip.saturating_add(1), scroll.saturating_sub(1))
    } else if scroll == last && skip + avail >= len {
        (skip, last)
    } else if scroll >= avail {
        let over = scroll.saturating_sub(avail);
        (skip, scroll.saturating_sub(if over > 1 { over } else { 1 }))
    } else if scroll >= len {
        (skip, scroll.saturating_sub(1))
    } else {
        (skip, scroll)
    }
}

/// When fitting moves the window over a list whose rows scrolled past are
/// within the visible rows, it moves the selection's row the other way, so the
/// same entry (the one at `skip + scroll`) stays selected; with fewer than two
/// visible rows the window can only move along with the selection.
pub proof fn lemma_scrolling_keeps_selection(skip: usize, scroll: usize, avail: usize, len: usize)
    requires
        skip <= avail,
        avail >= 2,
    ensures
        fitted_view(skip, scroll, avail, len).0 != skip
            ==> fitted_view(skip, scroll, avail, len).0 + fitted_view(skip, scroll, avail, len).1 == skip + scroll,
{
}

/// A view that needs no fitting is left as it is: where the rows scrolled past
/// are within the visible rows and the selection's row is inside the visible
/// rows and inside the entries, neither the top row with rows hidden above nor
/// the bottom row, fitting changes neither.
pub proof fn lemma_fitted_view_keeps_settled_view(skip: usize, scroll: usize, avail: usize, len: usize)
    requires
        skip <= avail,
        scroll < avail,
        scroll < len,
        !(scroll == 0 && skip != 0),
        scroll + 1 != avail,
    ensures
        fitted_view(skip, scroll, avail, len) == (skip, scroll),
{
}

/// At the top row with rows hidden above, the window moves up one row and the
/// selection down one row; at the bottom row with entries hidden below, the
/// window moves down one row and the selection up one row.
pub proof fn lemma_fitted_view_scrolls_by_one(skip: usize, scroll: usize, avail: usize, len: usize)
    requires
        skip <= avail,
        avail >= 2,
    ensures
        scroll == 0 && skip > 0 ==> fitted_view(skip, scroll, avail, len) == ((skip - 1) as usize, 1usize),
        scroll + 1 == avail && skip + avail < len ==> fitted_view(skip, scroll, avail, len)
            == ((skip + 1) as usize, (scroll - 1) as usize),
        scroll + 1 == avail && skip + avail >= len ==> fitted_view(skip, scroll, avail, len) == (skip, scroll),
        scroll >= avail && !(scroll == 0 && skip > 0)
            ==> fitted_view(skip, scroll, avail, len).0 == skip
            && fitted_view(skip, scroll, avail, len).1 + 1 >= avail
            && fitted_view(skip, scroll, avail, len).1 <= avail,
        0 < scroll && scroll + 1 < avail && scroll >= len
            ==> fitted_view(skip, scroll, avail, len) == (skip, (scroll - 1) as usize),
{
}

impl App {
    /// Fit the list into a list area of `list_height` rows (see `fitted_view`),
    /// and return the userproxy under the selection, as an index into
    /// `userproxies`; unless the status is being edited, the input line shows
    /// that userproxy's status.
    pub fn layout_list(&mut self, list_height: u16) -> (res: Option<usize>)
        requires
            old(self).wf(),
        ensures
            final(self).wf(),
            (final(self).skip, final(self).scroll_position) == fitted_view(
                old(self).skip,
                old(self).scroll_position,
                visible_rows(list_height),
                old(self).filtered_userproxies@.len() as usize,
            ),
            final(self).scroll_position <= visible_rows(list_height),
            final(self).skip <= visible_rows(list_height) + 1,
            res == final(self).selected_spec(),
            res matches Some(i) ==> i < final(self).userproxies@.len(),
            old(self).skip <= visible_rows(list_height) && visible_rows(list_height) >= 2
                && final(self).skip != old(self).skip
                ==> final(self).scroll_position + final(self).skip == old(self).scroll_position + old(self).skip,
            match res {
                Some(i) if !old(self).config.status_selected => *final(self) == (App {
                    skip: final(self).skip,
                    scroll_position: final(self).scroll_position,
                    status_input: old(self).userproxies@[i as int].status,
                    ..*old(self)
                }),
                _ => *final(self) == (App {
                    skip: final(self).skip,
                    scroll_position: final(self).scroll_position,
                    ..*old(self)
                }),
            },
    {
        let available_lines = (list_height as usize).saturating_sub(2);
        let (skip, scroll) = fit_view(self.skip, self.scroll_position, available_lines, self.filtered_userproxies.len());
        proof {
            if self.skip <= available_lines && available_lines >= 2 {
                lemma_scrolling_keeps_selection(self.skip, self.scroll_position, available_lines, self.filtered_userproxies@.len() as usize);
            }
        }
        self.skip = skip;
        self.scroll_position = scroll;
        let selected = self.selected_userproxy();
        if let Some(i) = selected {
            if !self.config.status_selected {
                self.status_input = self.userproxies[i].status.clone();
            }
        }
        selected
    }

}

} // verus!
