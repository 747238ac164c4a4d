use vstd::prelude::*;

use crate::keys::KeyEvent;
use crate::processing::JobResult;

verus! {

/// A screen that the shell hosts: it has a title for the menu, is told when
/// it gains focus, handles the keys pressed while it has focus, and receives
/// the outcomes of the jobs it submitted. Drawing is left to the host.
///
/// Each operation is tied to a relation that a screen may define, so that the
/// shell can state which call reached which screen and with what. A screen
/// that leaves a relation as it is claims nothing through it.
pub trait Component {
    /// `title` is the title that the screen shows in the menu.
    closed spec fn titled(&self, title: Seq<char>) -> bool {
        true
    }

    /// `self` is what `before` became by handling the key press `event`.
    closed spec fn keyed_from(&self, before: &Self, event: KeyEvent) -> bool {
        true
    }

    /// `self` is what `before` became by being mounted, with `outcome`.
    closed spec fn mounted_from(&self, before: &Self, outcome: Result<(), String>) -> bool {
        true
    }

    /// `self` is what `before` became by receiving the job outcome `result`.
    closed spec fn woken_from(&self, before: &Self, result: JobResult) -> bool {
        true
    }

    /// The label of the screen in the menu.
    fn title(&self) -> (r: String)
        ensures
            self.titled(r@),
    ;

    /// Handles a key press while the screen has focus.
    fn keyhook(&mut self, event: KeyEvent)
        ensures
            final(self).keyed_from(&*old(self), event),
    ;

    /// Called each time focus moves to the screen. On `Err` the screen does
    /// not take focus; the message says why.
    fn mounted(&mut self) -> (r: Result<(), String>)
        ensures
            final(self).mounted_from(&*old(self), r),
    ;

    /// Called when the screen is left. Nothing requires a screen to free
    /// anything here.
    fn unmounted(&mut self);

    /// Receives the outcome of a job that the screen submitted.
    fn wake(&mut self, result: JobResult)
        ensures
            final(self).woken_from(&*old(self), result),
    ;
}

} // verus!
