use vstd::prelude::*;

use crate::keys::{KeyCode, KeyEvent, NONE};
use crate::processing::{JobResult, Processor};

verus! {

/// The kind of a directory entry.
#[derive(Clone, Copy, Debug, PartialEq, Eq, Structural)]
pub enum FileType {
    File,
    Directory,
    Symlink,
    Other,
}

/// One row of a directory listing.
pub struct DirEntry {
    pub path: String,
    pub name: String,
    pub file_type: FileType,
}

/// The directory that holds `p`, as `std::path::Path::parent` finds it; `None`
/// for a root or an empty path.
pub uninterp spec fn parent_of(p: Seq<char>) -> Option<Seq<char>>;

/// Relies on `std::path::Path::parent`: the path without its last component,
/// or `None` where there is none. The path comes from a `str`, so the parent
/// is valid text and converting it loses nothing.
#[verifier::external_body]
fn parent_path(path: &str) -> (r: Option<String>)
    ensures
        r is Some == parent_of(path@) is Some,
        r is Some ==> r->Some_0@ == parent_of(path@)->Some_0,
{
    match std::path::Path::new(path).parent() {
        Some(p) => Some(p.to_string_lossy().into_owned()),
        None => None,
    }
}

/// The path that the `..` row of a listing of `path` leads to: the parent, or
/// the directory itself where it has none.
pub open spec fn up_of(path: Seq<char>) -> Seq<char> {
    match parent_of(path) {
        Some(q) => q,
        None => path,
    }
}

/// `rows` are the two rows that head every listing of `path`: `.`, the
/// directory itself, then `..`, its parent (the directory itself at a root).
pub open spec fn is_special_pair(rows: Seq<DirEntry>, path: Seq<char>) -> bool {
    &&& rows.len() == 2
    &&& rows[0].name@ == seq!['.']
    &&& rows[0].path@ == path
    &&& rows[0].file_type == FileType::Directory
    &&& rows[1].name@ == seq!['.', '.']
    &&& rows[1].path@ == up_of(path)
    &&& rows[1].file_type == FileType::Directory
}

/// The `.` and `..` rows of a listing of `path`.
pub fn special_directories(path: String) -> (r: Vec<DirEntry>)
    ensures
        is_special_pair(r@, path@),
{
    let up = match parent_path(path.as_str()) {
        Some(parent) => parent,
        None => path.clone(),
    };
    let parent = DirEntry { path: up, name: "..".to_string(), file_type: FileType::Directory };
    let cwd = DirEntry { path, name: ".".to_string(), file_type: FileType::Directory };
    proof {
        reveal_strlit(".");
        reveal_strlit("..");
    }
    let mut files = Vec::new();
    files.push(cwd);
    files.push(parent);
    assert(files@[0].name@ =~= seq!['.']);
    assert(files@[1].name@ =~= seq!['.', '.']);
    files
}

} // verus!

verus! {

/// What a browser asks its host to do after a key press.
pub enum Selection {
    /// Nothing to do.
    Nothing,
    /// List this directory and hand the rows to [`Browser::load`].
    Open(String),
    /// Submit a job that reads this file, and hand its handle to [`Browser::start_job`].
    Process(String),
    /// A file was chosen while a job is outstanding: the submission is refused.
    Busy,
}

/// What a browser is: the rows of the listing, the row under the cursor, the
/// outstanding job (with whether it was asked to stop), and the outcome of
/// the last job that finished.
pub struct BrowserView {
    pub files: Seq<DirEntry>,
    pub selected: nat,
    pub job: Option<bool>,
    pub outcome: Option<JobResult>,
}

/// A directory browser: a listing with a cursor, and a single slot for a
/// background job that reads the chosen file.
pub struct Browser {
    files: Vec<DirEntry>,
    selected: usize,
    job: Option<Processor>,
    outcome: Option<JobResult>,
}

impl View for Browser {
    type V = BrowserView;

    closed spec fn view(&self) -> BrowserView {
        BrowserView {
            files: self.files@,
            selected: self.selected as nat,
            job: match self.job {
                Some(p) => Some(p@),
                None => None,
            },
            outcome: self.outcome,
        }
    }
}

impl BrowserView {
    /// The cursor is on a row, or on the first place of an empty listing.
    pub open spec fn inv(self) -> bool {
        if self.files.len() == 0 {
            self.selected == 0
        } else {
            self.selected < self.files.len()
        }
    }

    /// What choosing the row under the cursor asks for: a directory is opened,
    /// a file is processed unless a job is outstanding, other rows do nothing.
    pub open spec fn selection(self) -> Selection {
        if self.selected < self.files.len() {
            let e = self.files[self.selected as int];
            match e.file_type {
                FileType::Directory => Selection::Open(e.path),
                FileType::File => if self.job is Some {
                    Selection::Busy
                } else {
                    Selection::Process(e.path)
                },
                _ => Selection::Nothing,
            }
        } else {
            Selection::Nothing
        }
    }

    /// The view with the cursor one row down, unless it is on the last row.
    pub open spec fn moved_down(self) -> BrowserView {
        if self.selected + 1 < self.files.len() {
            BrowserView { selected: self.selected + 1, ..self }
        } else {
            self
        }
    }

    /// The view with the cursor one row up, unless it is on the first row.
    pub open spec fn moved_up(self) -> BrowserView {
        if self.selected > 0 {
            BrowserView { selected: (self.selected - 1) as nat, ..self }
        } else {
            self
        }
    }

    /// The view with cancellation asked of the outstanding job, if any.
    pub open spec fn cancelled(self) -> BrowserView {
        if self.job is Some {
            BrowserView { job: Some(true), ..self }
        } else {
            self
        }
    }

    /// A key press: up and down move the cursor, enter chooses the row under
    /// it, `x` alone asks the outstanding job to stop; other keys do nothing.
    pub open spec fn pressed(self, event: KeyEvent) -> (Selection, BrowserView) {
        match event.code {
            KeyCode::Up => (Selection::Nothing, self.moved_up()),
            KeyCode::Down => (Selection::Nothing, self.moved_down()),
            KeyCode::Enter => (self.selection(), self),
            KeyCode::Char(c) => if c == 'x' && event.modifiers == NONE {
                (Selection::Nothing, self.cancelled())
            } else {
                (Selection::Nothing, self)
            },
            _ => (Selection::Nothing, self),
        }
    }

    /// Offering a job: taken, and the slot filled, only if the slot is free.
    pub open spec fn started(self) -> (bool, BrowserView) {
        if self.job is Some {
            (false, self)
        } else {
            (true, BrowserView { job: Some(false), ..self })
        }
    }

    /// Delivering an outcome: where a job is outstanding the slot is freed
    /// and the outcome kept; with no job outstanding nothing changes.
    pub open spec fn woken(self, result: JobResult) -> (bool, BrowserView) {
        if self.job is Some {
            (true, BrowserView { job: None, outcome: Some(result), ..self })
        } else {
            (false, self)
        }
    }
}

impl Browser {
    /// The cursor is on a row, or on the first place of an empty listing.
    #[verifier::type_invariant]
    closed spec fn well_formed(self) -> bool {
        self@.inv()
    }

    /// An empty browser with no job.
    pub fn new() -> (r: Browser)
        ensures
            r@.files.len() == 0,
            r@.selected == 0,
            r@.job is None,
            r@.outcome is None,
            r@.inv(),
    {
        Browser { files: Vec::new(), selected: 0, job: None, outcome: None }
    }

    /// Whether the browser has no listing yet, so that mounting it must list a
    /// directory first.
    pub fn needs_listing(&self) -> (r: bool)
        ensures
            r == (self@.files.len() == 0),
    {
        self.files.len() == 0
    }

    /// Shows the listing of `path`: its `.` and `..` rows, then `entries` in
    /// order, with the cursor on the first row. The job slot is kept.
    pub fn load(&mut self, path: String, entries: Vec<DirEntry>)
        requires
            entries@.len() + 2 <= usize::MAX,
        ensures
            final(self)@.files.len() == entries@.len() + 2,
            is_special_pair(final(self)@.files.subrange(0, 2), path@),
            final(self)@.files.subrange(2, final(self)@.files.len() as int) == entries@,
            final(self)@.selected == 0,
            final(self)@.job == old(self)@.job,
            final(self)@.outcome == old(self)@.outcome,
            final(self)@.inv(),
    {
        let mut files = special_directories(path);
        let ghost files_head = files@;
        let ghost entries_view = entries@;
        let mut entries = entries;
        files.append(&mut entries);
        self.selected = 0;
        self.files = files;
        assert(self.files@.subrange(0, 2) =~= files_head);
        assert(self.files@.subrange(2, self.files@.len() as int) =~= entries_view);
    }

    /// Moves the cursor one row down, unless it is on the last row.
    pub fn next(&mut self)
        ensures
            final(self)@ == old(self)@.moved_down(),
            final(self)@.inv(),
    {
        proof {
            use_type_invariant(&*self);
        }
        if self.files.len() > 0 && self.selected < self.files.len() - 1 {
            self.selected = self.selected + 1;
        }
        proof {
            use_type_invariant(&*self);
        }
    }

    /// Moves the cursor one row up, unless it is on the first row.
    pub fn prev(&mut self)
        ensures
            final(self)@ == old(self)@.moved_up(),
            final(self)@.inv(),
    {
        proof {
            use_type_invariant(&*self);
        }
        if self.selected > 0 {
            self.selected = self.selected - 1;
        }
    }

    /// What choosing the row under the cursor asks of the host.
    pub fn select(&self) -> (r: Selection)
        ensures
            r == self@.selection(),
    {
        proof {
            use_type_invariant(self);
        }
        if self.selected >= self.files.len() {
            return Selection::Nothing;
        }
        let entry = &self.files[self.selected];
        match entry.file_type {
            FileType::Directory => Selection::Open(entry.path.clone()),
            FileType::File => {
                if self.job.is_some() {
                    Selection::Busy
                } else {
                    Selection::Process(entry.path.clone())
                }
            },
            _ => Selection::Nothing,
        }
    }

    /// Asks the outstanding job, if any, to stop.
    pub fn cancel_job(&mut self)
        ensures
            final(self)@ == old(self)@.cancelled(),
    {
        let mut current = Browser::new();
        std::mem::swap(self, &mut current);
        proof {
            use_type_invariant(&current);
        }
        let Browser { files, selected, job, outcome } = current;
        let job = match job {
            Some(mut p) => {
                p.cancel();
                Some(p)
            },
            None => None,
        };
        *self = Browser { files, selected, job, outcome };
    }

    /// Handles a key press and says what the host has to do for it.
    pub fn keyhook(&mut self, event: KeyEvent) -> (r: Selection)
        ensures
            (r, final(self)@) == old(self)@.pressed(event),
            final(self)@.inv(),
    {
        proof {
            use_type_invariant(&*self);
        }
        match event.code {
            KeyCode::Up => {
                self.prev();
                Selection::Nothing
            },
            KeyCode::Down => {
                self.next();
                Selection::Nothing
            },
            KeyCode::Enter => self.select(),
            KeyCode::Char(c) => {
                if c == 'x' && event.modifiers == NONE {
                    self.cancel_job();
                }
                Selection::Nothing
            },
            _ => Selection::Nothing,
        }
    }

    /// Takes the handle of a newly submitted job if the slot is free; refuses
    /// it, and keeps the outstanding job, if not.
    pub fn start_job(&mut self, processor: Processor) -> (accepted: bool)
        requires
            processor@ == false,
        ensures
            (accepted, final(self)@) == old(self)@.started(),
    {
        proof {
            use_type_invariant(&*self);
        }
        if self.job.is_some() {
            false
        } else {
            self.job = Some(processor);
            true
        }
    }

    /// Delivers the outcome of the outstanding job: frees the slot and keeps
    /// the outcome for display. With no job outstanding the delivery is
    /// ignored, so one job's outcome is taken at most once.
    pub fn wake(&mut self, result: JobResult) -> (taken: bool)
        ensures
            (taken, final(self)@) == old(self)@.woken(result),
    {
        proof {
            use_type_invariant(&*self);
        }
        if self.job.is_some() {
            self.job = None;
            self.outcome = Some(result);
            true
        } else {
            false
        }
    }

    /// The rows of the listing, in order.
    pub fn files(&self) -> (r: &Vec<DirEntry>)
        ensures
            r@ == self@.files,
    {
        &self.files
    }

    /// The row under the cursor.
    pub fn selected(&self) -> (r: usize)
        ensures
            r == self@.selected,
    {
        self.selected
    }

    /// Whether a job is outstanding.
    pub fn is_busy(&self) -> (r: bool)
        ensures
            r == self@.job is Some,
    {
        self.job.is_some()
    }

    /// The outcome of the last job that finished, if any.
    pub fn outcome(&self) -> (r: &Option<JobResult>)
        ensures
            *r == self@.outcome,
    {
        &self.outcome
    }
}

} // verus!

verus! {

/// A browser runs one job at a time: while a job is outstanding, choosing a
/// file is answered `Busy` and a new job is refused with the browser left as
/// it was; the outstanding job's outcome is then taken once, and a second
/// delivery is ignored.
pub proof fn lemma_one_job_at_a_time(v: BrowserView, first: JobResult, second: JobResult)
    requires
        v.inv(),
        v.job is Some,
    ensures
        v.started() == (false, v),
        v.selected < v.files.len() && v.files[v.selected as int].file_type == FileType::File
            ==> v.selection() == Selection::Busy,
        v.woken(first).0,
        v.woken(first).1.job is None,
        v.woken(first).1.outcome == Some(first),
        v.woken(first).1.woken(second) == (false, v.woken(first).1),
{
}

} // verus!
