use termshell::{
    conclude, App, Browser, Component, DirEntry, FileType, Focus, JobResult, KeyCode, KeyEvent,
    Menu, ProcessError, ProcessResult, Processor, Selection, CONTROL, NONE, SHIFT,
};

struct Screen {
    name: String,
    fail_mount: bool,
    mounts: usize,
    keys: Vec<KeyEvent>,
    woken: Vec<JobResult>,
}

impl Screen {
    fn new(name: &str) -> Screen {
        Screen { name: name.to_string(), fail_mount: false, mounts: 0, keys: Vec::new(), woken: Vec::new() }
    }

    fn failing(name: &str) -> Screen {
        Screen { fail_mount: true, ..Screen::new(name) }
    }
}

impl Component for Screen {
    fn title(&self) -> String {
        self.name.clone()
    }

    fn keyhook(&mut self, event: KeyEvent) {
        self.keys.push(event);
    }

    fn mounted(&mut self) -> Result<(), String> {
        self.mounts += 1;
        if self.fail_mount {
            Err("cannot list directory".to_string())
        } else {
            Ok(())
        }
    }

    fn unmounted(&mut self) {}

    fn wake(&mut self, result: JobResult) {
        self.woken.push(result);
    }
}

fn key(code: KeyCode) -> KeyEvent {
    KeyEvent { code, modifiers: NONE }
}

fn labels(menu: &Menu) -> Vec<String> {
    menu.options().clone()
}

fn entry(name: &str, file_type: FileType) -> DirEntry {
    DirEntry { path: format!("/data/{}", name), name: name.to_string(), file_type }
}

#[test]
fn menu_cursor_is_clamped_at_both_ends() {
    let mut menu = Menu::new(vec!["A".to_string(), "B".to_string(), "Quit".to_string()]);
    menu.prev();
    assert_eq!(menu.selected(), 0);
    menu.next();
    menu.next();
    assert_eq!(menu.selected(), 2);
    menu.next();
    menu.next();
    assert_eq!(menu.selected(), 2);
    menu.prev();
    assert_eq!(menu.selected(), 1);
    menu.keyhook(key(KeyCode::Up));
    menu.keyhook(key(KeyCode::Up));
    assert_eq!(menu.selected(), 0);
    menu.keyhook(key(KeyCode::Down));
    assert_eq!(menu.selected(), 1);
    menu.keyhook(key(KeyCode::Enter));
    assert_eq!(menu.selected(), 1);
}

#[test]
fn menu_with_one_row_never_moves() {
    let mut menu = Menu::new(vec!["Quit".to_string()]);
    menu.next();
    menu.prev();
    menu.next();
    assert_eq!(menu.selected(), 0);
}

#[test]
fn menu_flush_twice_gives_first_row() {
    let mut menu = Menu::new(vec!["A".to_string(), "B".to_string(), "Quit".to_string()]);
    menu.next();
    menu.next();
    assert_eq!(menu.flush(), 2);
    assert_eq!(menu.flush(), 0);
    assert_eq!(menu.selected(), 0);
}

#[test]
fn app_labels_and_selection_of_second_screen() {
    let mut app = App::new(vec![Screen::new("A"), Screen::new("B")]);
    assert_eq!(labels(app.menu()), vec!["A".to_string(), "B".to_string(), "Quit".to_string()]);
    assert_eq!(app.menu().selected(), 0);
    app.keyhook(key(KeyCode::Down));
    assert_eq!(app.menu().selected(), 1);
    app.keyhook(key(KeyCode::Enter));
    assert_eq!(app.menu().selected(), 0);
    assert_eq!(app.focus(), Focus::Component);
    assert_eq!(app.active(), 1);
    assert_eq!(app.components()[1].mounts, 1);
    assert_eq!(app.components()[0].mounts, 0);
    assert!(!app.quit);
}

#[test]
fn app_without_screens_lists_only_quit() {
    let mut app: App<Screen> = App::new(Vec::new());
    assert_eq!(labels(app.menu()), vec!["Quit".to_string()]);
    app.keyhook(key(KeyCode::Enter));
    assert!(app.quit);
    assert_eq!(app.focus(), Focus::Menu);
}

#[test]
fn app_quit_row_sets_flag_without_transition() {
    let mut app = App::new(vec![Screen::new("A"), Screen::new("B")]);
    app.keyhook(key(KeyCode::Down));
    app.keyhook(key(KeyCode::Down));
    app.keyhook(key(KeyCode::Down));
    assert_eq!(app.menu().selected(), 2);
    app.keyhook(key(KeyCode::Enter));
    assert!(app.quit);
    assert_eq!(app.focus(), Focus::Menu);
    assert_eq!(app.active(), 0);
    assert_eq!(app.components().len(), 2);
    assert_eq!(app.components()[0].mounts, 0);
    assert_eq!(app.components()[1].mounts, 0);
}

#[test]
fn app_failed_mount_keeps_menu_focus() {
    let mut app = App::new(vec![Screen::failing("Directory Browser")]);
    app.keyhook(key(KeyCode::Enter));
    assert_eq!(app.focus(), Focus::Menu);
    assert_eq!(app.components()[0].mounts, 1);
    assert!(!app.quit);
    app.keyhook(key(KeyCode::Char('q')));
    assert!(app.components()[0].keys.is_empty());
}

#[test]
fn app_force_quit_from_component() {
    let mut app = App::new(vec![Screen::new("A")]);
    app.keyhook(key(KeyCode::Enter));
    assert_eq!(app.focus(), Focus::Component);
    let chord = KeyEvent { code: KeyCode::Char('c'), modifiers: CONTROL };
    app.keyhook(chord);
    assert!(app.quit);
    assert_eq!(app.focus(), Focus::Component);
    assert_eq!(app.components()[0].keys, vec![chord]);
}

#[test]
fn app_plain_c_is_not_force_quit() {
    let mut app = App::new(vec![Screen::new("A")]);
    app.keyhook(key(KeyCode::Char('c')));
    assert!(!app.quit);
    app.keyhook(KeyEvent { code: KeyCode::Char('c'), modifiers: CONTROL | SHIFT });
    assert!(!app.quit);
}

#[test]
fn app_force_quit_from_menu() {
    let mut app = App::new(vec![Screen::new("A")]);
    app.keyhook(KeyEvent { code: KeyCode::Char('c'), modifiers: CONTROL });
    assert!(app.quit);
    assert_eq!(app.focus(), Focus::Menu);
}

#[test]
fn app_escape_returns_to_menu() {
    let mut app = App::new(vec![Screen::new("A"), Screen::new("B")]);
    app.keyhook(key(KeyCode::Enter));
    assert_eq!(app.focus(), Focus::Component);
    app.keyhook(key(KeyCode::Down));
    assert_eq!(app.menu().selected(), 0);
    app.keyhook(key(KeyCode::Esc));
    assert_eq!(app.focus(), Focus::Menu);
    assert_eq!(app.active(), 0);
    assert_eq!(app.components()[0].keys, vec![key(KeyCode::Down), key(KeyCode::Esc)]);
    app.keyhook(key(KeyCode::Esc));
    assert_eq!(app.focus(), Focus::Menu);
}

#[test]
fn app_wake_reaches_submitter_after_navigation() {
    let mut app = App::new(vec![Screen::new("A"), Screen::new("B")]);
    app.keyhook(key(KeyCode::Enter));
    app.keyhook(key(KeyCode::Esc));
    app.keyhook(key(KeyCode::Down));
    app.keyhook(key(KeyCode::Enter));
    assert_eq!(app.focus(), Focus::Component);
    assert_eq!(app.active(), 1);
    app.wake(0, Ok(ProcessResult::File(vec![1, 2, 3])));
    assert_eq!(app.components()[0].woken.len(), 1);
    assert!(app.components()[1].woken.is_empty());
    assert_eq!(app.focus(), Focus::Component);
    assert_eq!(app.active(), 1);
}

#[test]
fn conclude_outcomes() {
    assert!(matches!(conclude(false, Ok(vec![7, 8])), Ok(ProcessResult::File(ref b)) if *b == vec![7, 8]));
    assert!(matches!(conclude(false, Err("gone".to_string())), Err(ProcessError::Io(ref m)) if m == "gone"));
    assert!(matches!(conclude(true, Ok(vec![7])), Err(ProcessError::Cancelled)));
    assert!(matches!(conclude(true, Err("gone".to_string())), Err(ProcessError::Cancelled)));
}

#[test]
fn processor_cancel_reaches_token() {
    let mut p = Processor::new();
    let token = p.token();
    assert!(!p.is_cancel_requested());
    assert!(!token.is_cancelled());
    p.cancel();
    assert!(p.is_cancel_requested());
    assert!(token.is_cancelled());
    p.cancel();
    assert!(token.is_cancelled());
}

#[test]
fn special_rows_of_nested_directory() {
    let rows = termshell::special_directories("/home/user".to_string());
    assert_eq!(rows.len(), 2);
    assert_eq!(rows[0].name, ".");
    assert_eq!(rows[0].path, "/home/user");
    assert_eq!(rows[1].name, "..");
    assert_eq!(rows[1].path, "/home");
    assert_eq!(rows[1].file_type, FileType::Directory);
}

#[test]
fn special_rows_of_root() {
    let rows = termshell::special_directories("/".to_string());
    assert_eq!(rows[0].path, "/");
    assert_eq!(rows[1].name, "..");
    assert_eq!(rows[1].path, "/");
}

#[test]
fn browser_load_and_navigate() {
    let mut b = Browser::new();
    assert!(b.needs_listing());
    assert!(matches!(b.select(), Selection::Nothing));
    b.next();
    b.prev();
    assert_eq!(b.selected(), 0);
    b.load("/data".to_string(), vec![entry("notes.txt", FileType::File), entry("link", FileType::Symlink)]);
    assert!(!b.needs_listing());
    let names: Vec<&str> = b.files().iter().map(|e| e.name.as_str()).collect();
    assert_eq!(names, vec![".", "..", "notes.txt", "link"]);
    assert!(matches!(b.select(), Selection::Open(ref p) if p == "/data"));
    b.next();
    assert!(matches!(b.select(), Selection::Open(ref p) if p == "/"));
    b.next();
    assert!(matches!(b.keyhook(key(KeyCode::Enter)), Selection::Process(ref p) if p == "/data/notes.txt"));
    b.keyhook(key(KeyCode::Down));
    b.keyhook(key(KeyCode::Down));
    assert_eq!(b.selected(), 3);
    assert!(matches!(b.select(), Selection::Nothing));
    b.keyhook(key(KeyCode::Up));
    assert_eq!(b.selected(), 2);
}

#[test]
fn browser_rejects_second_job_and_takes_outcome_once() {
    let mut b = Browser::new();
    b.load("/data".to_string(), vec![entry("a.bin", FileType::File)]);
    b.next();
    b.next();
    assert!(matches!(b.select(), Selection::Process(_)));
    assert!(b.start_job(Processor::new()));
    assert!(b.is_busy());
    assert!(matches!(b.select(), Selection::Busy));
    assert!(!b.start_job(Processor::new()));
    assert!(b.is_busy());
    assert!(b.wake(Ok(ProcessResult::File(vec![9]))));
    assert!(!b.is_busy());
    assert!(matches!(b.outcome(), Some(Ok(ProcessResult::File(ref v))) if *v == vec![9]));
    assert!(!b.wake(Err(ProcessError::Cancelled)));
    assert!(matches!(b.outcome(), Some(Ok(_))));
    assert!(matches!(b.select(), Selection::Process(_)));
}

#[test]
fn browser_cancel_key_raises_job_flag() {
    let mut b = Browser::new();
    b.load("/data".to_string(), vec![entry("a.bin", FileType::File)]);
    let p = Processor::new();
    let token = p.token();
    assert!(b.start_job(p));
    assert!(matches!(b.keyhook(KeyEvent { code: KeyCode::Char('x'), modifiers: CONTROL }), Selection::Nothing));
    assert!(!token.is_cancelled());
    assert!(matches!(b.keyhook(key(KeyCode::Char('x'))), Selection::Nothing));
    assert!(token.is_cancelled());
    assert!(b.is_busy());
    assert!(b.wake(Err(ProcessError::Cancelled)));
    assert!(matches!(b.outcome(), Some(Err(ProcessError::Cancelled))));
}

#[test]
fn menu_with_quit_row_appends_quit() {
    let menu = Menu::with_quit_row(vec!["A".to_string(), "B".to_string()]);
    assert_eq!(labels(&menu), vec!["A".to_string(), "B".to_string(), "Quit".to_string()]);
    assert_eq!(menu.selected(), 0);
}

#[test]
fn app_finish_mount_moves_focus_only_on_success() {
    let mut app = App::new(vec![Screen::new("A")]);
    app.finish_mount(false);
    assert_eq!(app.focus(), Focus::Menu);
    assert!(!app.quit);
    app.finish_mount(true);
    assert_eq!(app.focus(), Focus::Component);
    assert_eq!(app.active(), 0);
}

#[test]
fn app_wake_delivers_failure_to_unfocused_submitter() {
    let mut app = App::new(vec![Screen::new("A")]);
    app.keyhook(key(KeyCode::Enter));
    app.keyhook(key(KeyCode::Esc));
    app.wake(0, Err(ProcessError::Io("no such file".to_string())));
    assert!(matches!(app.components()[0].woken.as_slice(), [Err(ProcessError::Io(m))] if m == "no such file"));
    assert_eq!(app.focus(), Focus::Menu);
    assert!(!app.quit);
}
