use vstd::prelude::*;

use crate::component::Component;
use crate::keys::{KeyCode, KeyEvent};
use crate::menu::{Menu, MenuView};
use crate::processing::JobResult;

verus! {

/// Which receiver gets the keys: the menu, or the active screen.
#[derive(Clone, Copy, Debug, PartialEq, Eq, Structural)]
pub enum Focus {
    Menu,
    Component,
}

/// The shell apart from its screens: the shutdown flag, the menu, the index
/// of the active screen, the focus, and the number of screens.
pub struct ShellView {
    pub quit: bool,
    pub menu: MenuView,
    pub active: nat,
    pub focus: Focus,
    pub count: nat,
}

/// What an application shell is: its state, and its screens in menu order.
pub struct AppView<C> {
    pub shell: ShellView,
    pub components: Seq<C>,
}

impl<C> AppView<C> {
    /// The shell is well formed and counts exactly its screens.
    pub open spec fn inv(self) -> bool {
        self.shell.inv() && self.shell.count == self.components.len()
    }
}

impl ShellView {
    /// The menu lists each screen and then the quit row, its cursor is on a
    /// row, and a focused screen exists.
    pub open spec fn inv(self) -> bool {
        &&& self.menu.cursor < self.menu.labels.len()
        &&& self.menu.labels.len() == self.count + 1
        &&& self.focus == Focus::Component ==> self.active < self.count
    }

    /// First stage of a key press: with the menu focused, the menu handles
    /// it; a focused screen handles it on its own side.
    pub open spec fn routed(self, event: KeyEvent) -> ShellView {
        if self.focus == Focus::Menu {
            ShellView { menu: Menu::pressed(self.menu, event), ..self }
        } else {
            self
        }
    }

    /// Screen `index` becomes the active one; it takes focus if it mounted.
    pub open spec fn mounted(self, index: nat, ok: bool) -> ShellView {
        ShellView {
            active: index,
            focus: if ok {
                Focus::Component
            } else {
                self.focus
            },
            ..self
        }
    }

    /// Confirming the menu: the selection is read and the cursor reset; the
    /// quit row raises the shutdown flag and moves nothing, another row
    /// mounts its screen, with `ok` telling whether that succeeded.
    pub open spec fn tab_selected(self, ok: bool) -> ShellView {
        let (index, menu) = Menu::flushed(self.menu);
        let s = ShellView { menu: menu, ..self };
        if index == self.count {
            ShellView { quit: true, ..s }
        } else {
            s.mounted(index, ok)
        }
    }

    /// The shell after a key press, `ok` telling whether a screen that the
    /// press selected mounted: the routed press is then inspected for enter
    /// on the menu, escape on a screen, and the force-quit chord.
    pub open spec fn keyed(self, event: KeyEvent, ok: bool) -> ShellView {
        let s = self.routed(event);
        if event.code == KeyCode::Enter && s.focus == Focus::Menu {
            s.tab_selected(ok)
        } else if event.code == KeyCode::Esc && s.focus != Focus::Menu {
            ShellView { focus: Focus::Menu, ..s }
        } else if event.is_force_quit() {
            ShellView { quit: true, ..s }
        } else {
            s
        }
    }

    /// The screen that a key press may change: the focused one, or the one
    /// that confirming the menu mounts.
    pub open spec fn touched(self, event: KeyEvent) -> Option<nat> {
        if self.focus == Focus::Component {
            Some(self.active)
        } else if event.code == KeyCode::Enter && self.menu.cursor < self.count {
            Some(self.menu.cursor)
        } else {
            None
        }
    }
}

/// Screens `a` and `b` agree but for the one at `index`, if any.
pub open spec fn same_but<C>(a: Seq<C>, b: Seq<C>, index: Option<nat>) -> bool {
    &&& a.len() == b.len()
    &&& forall|j: int| 0 <= j < a.len() && index != Some(j as nat) ==> #[trigger] a[j] == b[j]
}

/// The application shell: owns the menu, the screens and the focus, routes
/// each key press, forwards job outcomes, and holds the shutdown flag.
pub struct App<C> {
    pub quit: bool,
    menu: Menu,
    components: Vec<C>,
    active: usize,
    state: Focus,
}

impl<C> View for App<C> {
    type V = AppView<C>;

    closed spec fn view(&self) -> AppView<C> {
        AppView {
            shell: ShellView {
                quit: self.quit,
                menu: self.menu@,
                active: self.active as nat,
                focus: self.state,
                count: self.components@.len(),
            },
            components: self.components@,
        }
    }
}

impl<C: Component> App<C> {
    /// A shell over `components`, focused on a menu that lists their titles in
    /// order and then a quit row, with the cursor on the first row.
    pub fn new(components: Vec<C>) -> (r: App<C>)
        requires
            components@.len() < usize::MAX,
        ensures
            r@.components == components@,
            r@.shell.count == components@.len(),
            r@.shell.menu.labels.len() == components@.len() + 1,
            forall|j: int|
                0 <= j < components@.len() ==> components@[j].titled(
                    #[trigger] r@.shell.menu.labels[j]@,
                ),
            r@.shell.menu.labels.last()@ == seq!['Q', 'u', 'i', 't'],
            r@.shell.menu.cursor == 0,
            r@.shell.focus == Focus::Menu,
            r@.shell.active == 0,
            r@.shell.quit == false,
            r@.inv(),
    {
        let mut titles: Vec<String> = Vec::new();
        let mut i: usize = 0;
        while i < components.len()
            invariant
                i <= components@.len(),
                titles@.len() == i,
                forall|j: int| 0 <= j < i ==> components@[j].titled(#[trigger] titles@[j]@),
            decreases components@.len() - i,
        {
            titles.push(components[i].title());
            i = i + 1;
        }
        let ghost title_view = titles@;
        let menu = Menu::with_quit_row(titles);
        assert forall|j: int| 0 <= j < components@.len() implies components@[j].titled(
            #[trigger] menu@.labels[j]@,
        ) by {
            assert(menu@.labels.take(title_view.len() as int)[j] == title_view[j]);
        }
        App { quit: false, menu, components, active: 0, state: Focus::Menu }
    }

    /// Delivers the outcome of a job to the screen that submitted it, at
    /// index `origin`, whether or not that screen has focus: that screen's
    /// `wake` receives `result`. Nothing else changes: not the focus, the
    /// menu, the flag, nor any other screen.
    pub fn wake(&mut self, origin: usize, result: JobResult)
        requires
            old(self)@.inv(),
            origin < old(self)@.components.len(),
        ensures
            final(self)@.shell == old(self)@.shell,
            final(self)@.components[origin as int].woken_from(
                &old(self)@.components[origin as int],
                result,
            ),
            same_but(final(self)@.components, old(self)@.components, Some(origin as nat)),
            old(self)@.shell.focus == Focus::Component && old(self)@.shell.active != origin
                ==> final(self)@.components[old(self)@.shell.active as int]
                == old(self)@.components[old(self)@.shell.active as int],
            final(self)@.inv(),
    {
        self.components[origin].wake(result);
    }

    /// Screen `active` has been asked to mount, and `ok` says whether that
    /// succeeded: it takes focus if so, and the focus stays where it was if
    /// not.
    pub fn finish_mount(&mut self, ok: bool)
        requires
            old(self)@.inv(),
            old(self)@.shell.active < old(self)@.shell.count,
        ensures
            final(self)@.shell == old(self)@.shell.mounted(old(self)@.shell.active, ok),
            final(self)@.components == old(self)@.components,
            final(self)@.inv(),
    {
        if ok {
            self.state = Focus::Component;
        }
    }

    /// Mounts the active screen and moves focus to it if that succeeded.
    fn mount_component(&mut self)
        requires
            old(self)@.inv(),
            old(self)@.shell.active < old(self)@.shell.count,
        ensures
            exists|r: Result<(), String>|
                #[trigger] final(self)@.components[old(self)@.shell.active as int].mounted_from(
                    &old(self)@.components[old(self)@.shell.active as int],
                    r,
                ) && final(self)@.shell == old(self)@.shell.mounted(
                    old(self)@.shell.active,
                    r is Ok,
                ),
            same_but(
                final(self)@.components,
                old(self)@.components,
                Some(old(self)@.shell.active),
            ),
            final(self)@.inv(),
    {
        let outcome = self.components[self.active].mounted();
        self.finish_mount(outcome.is_ok());
    }

    /// Reads the menu's selection: the quit row raises the shutdown flag,
    /// another row makes its screen the active one and mounts it.
    fn select_tab(&mut self)
        requires
            old(self)@.inv(),
        ensures
            old(self)@.shell.menu.cursor == old(self)@.shell.count ==> final(self)@.shell
                == old(self)@.shell.tab_selected(true) && final(self)@.components == old(self)@.components,
            old(self)@.shell.menu.cursor < old(self)@.shell.count ==> exists|r: Result<(), String>|
                #[trigger] final(self)@.components[old(self)@.shell.menu.cursor as int].mounted_from(
                    &old(self)@.components[old(self)@.shell.menu.cursor as int],
                    r,
                ) && final(self)@.shell == old(self)@.shell.tab_selected(r is Ok),
            same_but(
                final(self)@.components,
                old(self)@.components,
                if old(self)@.shell.menu.cursor < old(self)@.shell.count {
                    Some(old(self)@.shell.menu.cursor)
                } else {
                    None
                },
            ),
            final(self)@.inv(),
    {
        let index = self.menu.flush();
        if index == self.components.len() {
            self.quit = true;
        } else {
            self.active = index;
            self.mount_component();
        }
    }

    /// Handles a key press in two stages: the focused receiver (the menu or
    /// the active screen) handles it first, then the shell inspects the same
    /// press for enter on the menu, escape on a screen, and the force-quit
    /// chord, whatever the focus.
    pub fn keyhook(&mut self, event: KeyEvent)
        requires
            old(self)@.inv(),
        ensures
            final(self)@.shell == old(self)@.shell.keyed(event, true)
                || final(self)@.shell == old(self)@.shell.keyed(event, false),
            old(self)@.shell.focus == Focus::Component ==> final(self)@.components[old(self)@.shell.active as int].keyed_from(
                &old(self)@.components[old(self)@.shell.active as int],
                event,
            ),
            old(self)@.shell.focus == Focus::Menu && event.code == KeyCode::Enter
                && old(self)@.shell.menu.cursor < old(self)@.shell.count ==> exists|r: Result<(), String>|
                #[trigger] final(self)@.components[old(self)@.shell.menu.cursor as int].mounted_from(
                    &old(self)@.components[old(self)@.shell.menu.cursor as int],
                    r,
                ) && final(self)@.shell == old(self)@.shell.keyed(event, r is Ok),
            same_but(final(self)@.components, old(self)@.components, old(self)@.shell.touched(event)),
            final(self)@.inv(),
    {
        match self.state {
            Focus::Menu => self.menu.keyhook(event),
            Focus::Component => self.components[self.active].keyhook(event),
        }
        if event.code == KeyCode::Enter && self.state == Focus::Menu {
            self.select_tab();
        } else if event.code == KeyCode::Esc && self.state != Focus::Menu {
            self.state = Focus::Menu;
        } else if event.is_force_quit() {
            self.quit = true;
        }
    }

    /// Which receiver has focus.
    pub fn focus(&self) -> (r: Focus)
        ensures
            r == self@.shell.focus,
    {
        self.state
    }

    /// The index of the active screen.
    pub fn active(&self) -> (r: usize)
        ensures
            r == self@.shell.active,
    {
        self.active
    }

    /// The menu.
    pub fn menu(&self) -> (r: &Menu)
        ensures
            r@ == self@.shell.menu,
    {
        &self.menu
    }

    /// The screens, in menu order.
    pub fn components(&self) -> (r: &Vec<C>)
        ensures
            r@ == self@.components,
    {
        &self.components
    }
}

} // verus!

verus! {

/// Confirming the quit row of the menu raises the shutdown flag and moves
/// nothing: focus stays on the menu, the active screen stays the same, and no
/// screen is handed the key press, whatever a mount would have given.
pub proof fn lemma_quit_row(v: ShellView, event: KeyEvent, ok: bool)
    requires
        v.inv(),
        v.focus == Focus::Menu,
        v.menu.cursor == v.count,
        event.code == KeyCode::Enter,
    ensures
        v.keyed(event, ok).quit,
        v.keyed(event, ok).focus == Focus::Menu,
        v.keyed(event, ok).active == v.active,
        v.keyed(event, ok).count == v.count,
        v.touched(event) is None,
{
}

} // verus!
