//! A cursor and a scroll offset over a list that lives elsewhere.

use vstd::prelude::*;
use crate::platform::Key;

verus! {

/// What a key press asks of the list that a menu points into.
#[derive(Debug, Clone, Copy, PartialEq, Eq, Structural)]
pub enum SelectMenuAction {
    Nothing,
    Toggle(usize),
    ToggleAll,
}

/// The hovered row (`cursor`) and the first row shown (`scroll`).
#[derive(Debug, Clone, Copy, PartialEq, Eq, Structural)]
pub struct SelectMenu {
    pub cursor: usize,
    pub scroll: usize,
}

/// The greatest valid index of a list of `n` rows, and 0 for an empty list.
pub open spec fn last_index(n: int) -> int {
    if n > 0 {
        n - 1
    } else {
        0
    }
}

/// Where a key would put the cursor if the list had no end.
pub open spec fn cursor_target(cursor: int, half_height: int, key: Key) -> int {
    match key {
        Key::Down | Key::Ctrl('n') | Key::Char('j') => cursor + 1,
        Key::Up | Key::Ctrl('p') | Key::Char('k') => if cursor >= 1 {
            cursor - 1
        } else {
            0
        },
        Key::Ctrl('h') | Key::Home => 0,
        Key::Ctrl('e') | Key::End => usize::MAX as int,
        Key::Ctrl('d') | Key::PageDown => cursor + half_height,
        Key::Ctrl('u') | Key::PageUp => if cursor >= half_height {
            cursor - half_height
        } else {
            0
        },
        _ => cursor,
    }
}

/// The scroll offset that keeps `cursor` inside a window of `height` rows
/// while moving the window as little as possible.
pub open spec fn scroll_following(scroll: int, cursor: int, height: int) -> int {
    if cursor < scroll {
        cursor
    } else if cursor >= scroll + height {
        cursor + 1 - height
    } else {
        scroll
    }
}

impl SelectMenu {
    /// The menu with its cursor pulled back onto a list of `entries_len` rows.
    pub open spec fn saturated(self, entries_len: usize) -> SelectMenu {
        SelectMenu {
            cursor: if self.cursor <= last_index(entries_len as int) {
                self.cursor
            } else {
                last_index(entries_len as int) as usize
            },
            scroll: self.scroll,
        }
    }

    /// The menu after the row at `index` has left the list.
    pub open spec fn without_entry(self, index: usize) -> SelectMenu {
        SelectMenu {
            cursor: if index <= self.cursor && self.cursor > 0 {
                (self.cursor - 1) as usize
            } else {
                self.cursor
            },
            scroll: self.scroll,
        }
    }

    /// The cursor after `key` on a list of `entries_len` rows.
    pub open spec fn cursor_after_key(self, entries_len: usize, available_height: usize, key: Key) -> int {
        let target = cursor_target(self.cursor as int, available_height as int / 2, key);
        if target <= last_index(entries_len as int) {
            target
        } else {
            last_index(entries_len as int)
        }
    }

    /// The menu after `key` on a list of `entries_len` rows of which
    /// `available_height` fit on the screen.
    pub open spec fn after_key(self, entries_len: usize, available_height: usize, key: Key) -> SelectMenu {
        let cursor = self.cursor_after_key(entries_len, available_height, key);
        SelectMenu {
            cursor: cursor as usize,
            scroll: scroll_following(self.scroll as int, cursor, available_height as int) as usize,
        }
    }

    /// What `key` asks of the list, given the menu as the key left it.
    pub open spec fn action_of(self, entries_len: usize, key: Key) -> SelectMenuAction {
        if key == Key::Char(' ') && self.cursor < entries_len {
            SelectMenuAction::Toggle(self.cursor)
        } else if key == Key::Char('a') {
            SelectMenuAction::ToggleAll
        } else {
            SelectMenuAction::Nothing
        }
    }

    /// The cursor is on the list, and it is inside the window.
    pub open spec fn in_view(self, entries_len: usize, available_height: usize) -> bool {
        &&& 0 <= self.cursor <= last_index(entries_len as int)
        &&& self.scroll <= self.cursor < self.scroll + available_height
    }

    pub fn new() -> (r: Self)
        ensures
            r == (SelectMenu { cursor: 0, scroll: 0 }),
    {
        SelectMenu { cursor: 0, scroll: 0 }
    }

    /// The hovered row.
    pub fn cursor(&self) -> (r: usize)
        ensures
            r == self.cursor,
    {
        self.cursor
    }

    /// The first row shown.
    pub fn scroll(&self) -> (r: usize)
        ensures
            r == self.scroll,
    {
        self.scroll
    }

    /// Pulls the cursor back onto a list of `entries_len` rows.
    pub fn saturate_cursor(&mut self, entries_len: usize)
        ensures
            *final(self) == old(self).saturated(entries_len),
            final(self).cursor <= last_index(entries_len as int),
    {
        let last: usize = entries_len.saturating_sub(1);
        if last < self.cursor {
            self.cursor = last;
        }
    }

    /// Follows the removal of the row at `index`: the cursor moves up by one
    /// exactly when `index` is at or above it and it is not already at the top.
    pub fn on_remove_entry(&mut self, index: usize)
        ensures
            *final(self) == old(self).without_entry(index),
    {
        if index <= self.cursor {
            self.cursor = self.cursor.saturating_sub(1);
        }
    }

    /// Moves the cursor as `key` says, keeps it on the list, slides the window
    /// after it, and reports what the key asks of the list.
    pub fn on_key(&mut self, entries_len: usize, available_height: usize, key: Key) -> (action: SelectMenuAction)
        ensures
            *final(self) == old(self).after_key(entries_len, available_height, key),
            action == final(self).action_of(entries_len, key),
            0 <= final(self).cursor <= last_index(entries_len as int),
            available_height > 0 ==> final(self).scroll <= final(self).cursor < final(self).scroll
                + available_height,
            action matches SelectMenuAction::Toggle(i) ==> i < entries_len,
    {
        let half_height: usize = available_height / 2;
        let target: usize = match key {
            Key::Down | Key::Ctrl('n') | Key::Char('j') => self.cursor.saturating_add(1),
            Key::Up | Key::Ctrl('p') | Key::Char('k') => self.cursor.saturating_sub(1),
            Key::Ctrl('h') | Key::Home => 0,
            Key::Ctrl('e') | Key::End => usize::MAX,
            Key::Ctrl('d') | Key::PageDown => self.cursor.saturating_add(half_height),
            Key::Ctrl('u') | Key::PageUp => self.cursor.saturating_sub(half_height),
            _ => self.cursor,
        };
        let last: usize = entries_len.saturating_sub(1);
        self.cursor = if target <= last {
            target
        } else {
            last
        };

        if self.cursor < self.scroll {
            self.scroll = self.cursor;
        } else if self.cursor - self.scroll >= available_height {
            self.scroll = self.cursor - available_height + 1;
        }

        match key {
            Key::Char(' ') if self.cursor < entries_len => SelectMenuAction::Toggle(self.cursor),
            Key::Char('a') => SelectMenuAction::ToggleAll,
            _ => SelectMenuAction::Nothing,
        }
    }
}

impl Default for SelectMenu {
    fn default() -> (r: Self)
        ensures
            r == (SelectMenu { cursor: 0, scroll: 0 }),
    {
        SelectMenu { cursor: 0, scroll: 0 }
    }
}

/// After any key the cursor is on the list, and on a screen with at least one
/// row it is inside the window.
pub proof fn lemma_after_key_in_view(menu: SelectMenu, entries_len: usize, available_height: usize, key: Key)
    requires
        available_height > 0,
    ensures
        menu.after_key(entries_len, available_height, key).in_view(entries_len, available_height),
{
}

/// One step down and one step up bring the cursor back whenever a row lies
/// below it. They bring the window back as well exactly when the window
/// started at the cursor, or started above it with the row below the cursor
/// already inside.
pub proof fn lemma_down_then_up(menu: SelectMenu, entries_len: usize, available_height: usize)
    requires
        menu.cursor + 1 < entries_len,
    ensures
        menu.after_key(entries_len, available_height, Key::Down).after_key(
            entries_len,
            available_height,
            Key::Up,
        ).cursor == menu.cursor,
        menu.after_key(entries_len, available_height, Key::Down).after_key(
            entries_len,
            available_height,
            Key::Up,
        ) == menu <==> (menu.scroll == menu.cursor || (menu.scroll < menu.cursor && menu.cursor + 1
            < menu.scroll + available_height)),
{
}

} // verus!
