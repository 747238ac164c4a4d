use vstd::prelude::*;

use crate::keys::{KeyCode, KeyEvent};

verus! {

/// What a menu is: its labels in order and the row under the cursor.
pub struct MenuView {
    pub labels: Seq<String>,
    pub cursor: nat,
}

/// A selectable list of labels with a cursor that never leaves the list.
pub struct Menu {
    options: Vec<String>,
    index: usize,
}

impl View for Menu {
    type V = MenuView;

    closed spec fn view(&self) -> MenuView {
        MenuView { labels: self.options@, cursor: self.index as nat }
    }
}

impl Menu {
    /// The cursor stands on one of the labels.
    pub open spec fn inv(&self) -> bool {
        self@.cursor < self@.labels.len()
    }

    /// A menu over `options`, in that order, with the cursor on the first row.
    pub fn new(options: Vec<String>) -> (r: Menu)
        requires
            options@.len() > 0,
        ensures
            r@.labels == options@,
            r@.cursor == 0,
            r.inv(),
    {
        Menu { options, index: 0 }
    }

    /// A menu of the screens titled `titles`, in that order, followed by a
    /// quit row, with the cursor on the first row.
    pub fn with_quit_row(titles: Vec<String>) -> (r: Menu)
        requires
            titles@.len() < usize::MAX,
        ensures
            r@.labels.len() == titles@.len() + 1,
            r@.labels.take(titles@.len() as int) == titles@,
            r@.labels.last()@ == seq!['Q', 'u', 'i', 't'],
            r@.cursor == 0,
            r.inv(),
    {
        let mut options = titles;
        let quit_row = "Quit".to_string();
        proof {
            reveal_strlit("Quit");
        }
        let ghost before = options@;
        options.push(quit_row);
        assert(options@.take(before.len() as int) =~= before);
        assert(options@.last()@ =~= seq!['Q', 'u', 'i', 't']);
        Menu::new(options)
    }

    /// Reads the row under the cursor and puts the cursor back on the first row.
    pub fn flush(&mut self) -> (r: usize)
        requires
            old(self).inv(),
        ensures
            (r as nat, final(self)@) == Menu::flushed(old(self)@),
            final(self).inv(),
    {
        let index = self.index;
        self.index = 0;
        index
    }

    /// What reading the selection of a menu gives, and the menu after it: the
    /// row under the cursor, and the same labels with the cursor on the first row.
    pub open spec fn flushed(v: MenuView) -> (nat, MenuView) {
        (v.cursor, MenuView { labels: v.labels, cursor: 0 })
    }

    /// Up moves the cursor one row up, down one row down; other keys are ignored.
    pub fn keyhook(&mut self, event: KeyEvent)
        requires
            old(self).inv(),
        ensures
            final(self)@ == Menu::pressed(old(self)@, event),
            final(self).inv(),
    {
        match event.code {
            KeyCode::Up => self.prev(),
            KeyCode::Down => self.next(),
            _ => {},
        }
    }

    /// A menu after a key press: up and down move the cursor, other keys
    /// leave it.
    pub open spec fn pressed(v: MenuView, event: KeyEvent) -> MenuView {
        MenuView {
            labels: v.labels,
            cursor: match event.code {
                KeyCode::Up => Menu::moved_up(v.cursor),
                KeyCode::Down => Menu::moved_down(v.cursor, v.labels.len()),
                _ => v.cursor,
            },
        }
    }

    /// The cursor after one step down in a list of `len` rows: it stops on the last row.
    pub open spec fn moved_down(cursor: nat, len: nat) -> nat {
        if cursor + 1 < len {
            cursor + 1
        } else {
            cursor
        }
    }

    /// The cursor after one step up: it stops on the first row.
    pub open spec fn moved_up(cursor: nat) -> nat {
        if cursor > 0 {
            (cursor - 1) as nat
        } else {
            cursor
        }
    }

    /// Moves the cursor one row down, unless it is on the last row.
    pub fn next(&mut self)
        requires
            old(self).inv(),
        ensures
            final(self)@.labels == old(self)@.labels,
            final(self)@.cursor == Menu::moved_down(old(self)@.cursor, old(self)@.labels.len()),
            final(self).inv(),
    {
        if self.index < self.options.len() - 1 {
            self.index = self.index + 1;
        }
    }

    /// Moves the cursor one row up, unless it is on the first row.
    pub fn prev(&mut self)
        requires
            old(self).inv(),
        ensures
            final(self)@.labels == old(self)@.labels,
            final(self)@.cursor == Menu::moved_up(old(self)@.cursor),
            final(self).inv(),
    {
        if self.index > 0 {
            self.index = self.index - 1;
        }
    }

    /// The labels, in order.
    pub fn options(&self) -> (r: &Vec<String>)
        ensures
            r@ == self@.labels,
    {
        &self.options
    }

    /// The row under the cursor.
    pub fn selected(&self) -> (r: usize)
        ensures
            r == self@.cursor,
    {
        self.index
    }
}

} // verus!

verus! {

/// Where a cursor in a list of `len` rows ends after a run of moves, each one
/// step down (`true`) or one step up (`false`).
pub open spec fn walk(cursor: nat, len: nat, moves: Seq<bool>) -> nat
    decreases moves.len(),
{
    if moves.len() == 0 {
        cursor
    } else {
        let step = if moves[0] {
            Menu::moved_down(cursor, len)
        } else {
            Menu::moved_up(cursor)
        };
        walk(step, len, moves.drop_first())
    }
}

/// However the cursor of a menu is moved down and up, it stays on a row of the
/// list, and it never wraps: a step down never lowers it, a step up never
/// raises it, and no step moves it by more than one row.
pub proof fn lemma_cursor_stays_in_list(cursor: nat, len: nat, moves: Seq<bool>)
    requires
        cursor < len,
    ensures
        walk(cursor, len, moves) < len,
        cursor <= Menu::moved_down(cursor, len) <= cursor + 1,
        cursor <= Menu::moved_up(cursor) + 1,
        Menu::moved_up(cursor) <= cursor,
    decreases moves.len(),
{
    if moves.len() > 0 {
        let step = if moves[0] {
            Menu::moved_down(cursor, len)
        } else {
            Menu::moved_up(cursor)
        };
        lemma_cursor_stays_in_list(step, len, moves.drop_first());
    }
}

} // verus!

verus! {

/// Reading the selection twice with no move between gives the first row the
/// second time, and leaves the menu as the first reading left it.
pub proof fn lemma_flush_twice(v: MenuView)
    ensures
        Menu::flushed(Menu::flushed(v).1).0 == 0,
        Menu::flushed(Menu::flushed(v).1).1 == Menu::flushed(v).1,
{
}

} // verus!
