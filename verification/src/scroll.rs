//! Scrolling of the read-only text views by half pages.
use vstd::prelude::*;
use crate::keys::{KeyCode, KeyEvent};

verus! {

/// The page height used before the view has been drawn once.
pub const DEFAULT_PAGE_HEIGHT: usize = 24;

pub struct ScrollState {
    /// The first line shown.
    pub scroll_offset: usize,
    /// The rows the view had when it was last drawn; 0 before that.
    pub viewport_height: usize,
}

pub open spec fn spec_sat_add(a: int, b: int) -> int {
    if a + b > usize::MAX {
        usize::MAX as int
    } else {
        a + b
    }
}

pub open spec fn spec_sat_sub(a: int, b: int) -> int {
    if a - b < 0 {
        0
    } else {
        a - b
    }
}

impl ScrollState {
    pub fn new() -> (s: ScrollState)
        ensures
            s.scroll_offset == 0,
            s.viewport_height == 0,
    {
        ScrollState { scroll_offset: 0, viewport_height: 0 }
    }

    pub open spec fn spec_page_height(&self) -> int {
        if self.viewport_height > 0 {
            self.viewport_height as int
        } else {
            DEFAULT_PAGE_HEIGHT as int
        }
    }

    /// The last drawn height, or the default before the first drawing.
    pub fn effective_viewport_height(&self) -> (h: usize)
        ensures
            h as int == self.spec_page_height(),
    {
        if self.viewport_height > 0 {
            self.viewport_height
        } else {
            DEFAULT_PAGE_HEIGHT
        }
    }

    pub fn scroll_down(&mut self, half_page: usize)
        ensures
            final(self).scroll_offset as int == spec_sat_add(old(self).scroll_offset as int, half_page as int),
            final(self).viewport_height == old(self).viewport_height,
    {
        self.scroll_offset = self.scroll_offset.saturating_add(half_page);
    }

    pub fn scroll_up(&mut self, half_page: usize)
        ensures
            final(self).scroll_offset as int == spec_sat_sub(old(self).scroll_offset as int, half_page as int),
            final(self).viewport_height == old(self).viewport_height,
    {
        self.scroll_offset = self.scroll_offset.saturating_sub(half_page);
    }

    /// Esc and `q` ask to close the view (true); Ctrl-d and Ctrl-u scroll down and
    /// up by half of `page_height`; other keys do nothing.
    pub fn handle_key_with_page(&mut self, key: KeyEvent, page_height: usize) -> (close: bool)
        ensures
            final(self).viewport_height == old(self).viewport_height,
            close == (key.code == KeyCode::Esc || key.code == KeyCode::Char('q')),
            (key.code == KeyCode::Char('d') && key.spec_has_control()) ==> final(self).scroll_offset as int
                == spec_sat_add(old(self).scroll_offset as int, page_height as int / 2),
            (key.code == KeyCode::Char('u') && key.spec_has_control()) ==> final(self).scroll_offset as int
                == spec_sat_sub(old(self).scroll_offset as int, page_height as int / 2),
            !((key.code == KeyCode::Char('d') || key.code == KeyCode::Char('u')) && key.spec_has_control())
                ==> final(self).scroll_offset == old(self).scroll_offset,
    {
        match key.code {
            KeyCode::Esc | KeyCode::Char('q') => true,
            KeyCode::Char('d') => {
                if key.has_control() {
                    self.scroll_down(page_height / 2);
                }
                false
            },
            KeyCode::Char('u') => {
                if key.has_control() {
                    self.scroll_up(page_height / 2);
                }
                false
            },
            _ => false,
        }
    }

    /// As `handle_key_with_page`, with the last drawn height (or the default) as the page.
    pub fn handle_key(&mut self, key: KeyEvent) -> (close: bool)
        ensures
            final(self).viewport_height == old(self).viewport_height,
            close == (key.code == KeyCode::Esc || key.code == KeyCode::Char('q')),
            (key.code == KeyCode::Char('d') && key.spec_has_control()) ==> final(self).scroll_offset as int
                == spec_sat_add(old(self).scroll_offset as int, old(self).spec_page_height() / 2),
            (key.code == KeyCode::Char('u') && key.spec_has_control()) ==> final(self).scroll_offset as int
                == spec_sat_sub(old(self).scroll_offset as int, old(self).spec_page_height() / 2),
            !((key.code == KeyCode::Char('d') || key.code == KeyCode::Char('u')) && key.spec_has_control())
                ==> final(self).scroll_offset == old(self).scroll_offset,
    {
        let h = self.effective_viewport_height();
        self.handle_key_with_page(key, h)
    }

    /// Called when drawing: remembers the height and keeps the offset within the
    /// text, so that the last page ends at the last line.
    pub fn fit(&mut self, viewport_height: usize, content_height: usize)
        ensures
            final(self).viewport_height == viewport_height,
            final(self).scroll_offset as int == if old(self).scroll_offset as int <= spec_sat_sub(
                content_height as int,
                viewport_height as int,
            ) {
                old(self).scroll_offset as int
            } else {
                spec_sat_sub(content_height as int, viewport_height as int)
            },
    {
        self.viewport_height = viewport_height;
        let max_scroll = content_height.saturating_sub(viewport_height);
        if self.scroll_offset > max_scroll {
            self.scroll_offset = max_scroll;
        }
    }
}

} // verus!
