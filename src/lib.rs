//! Focus and job engine for a terminal application: a menu of screens, the
//! state machine that routes input between the menu and the active screen, a
//! directory browser's selection logic, and cancellable background jobs with
//! a single outstanding job per screen.

mod app;
mod browser;
mod component;
mod keys;
mod menu;
mod processing;

pub use app::{lemma_quit_row, same_but, App, AppView, Focus, ShellView};
pub use browser::{
    is_special_pair, lemma_one_job_at_a_time, parent_of, special_directories, up_of, Browser,
    BrowserView, DirEntry, FileType, Selection,
};
pub use component::Component;
pub use keys::{KeyCode, KeyEvent, ALT, CONTROL, NONE, SHIFT};
pub use menu::{lemma_cursor_stays_in_list, lemma_flush_twice, walk, Menu, MenuView};
pub use processing::{
    conclude, CancelToken, JobResult, ProcessError, ProcessEvent, ProcessResult, Processor,
};
