use rrr::entry::Entry;
use rrr::error::{Error, IoError};
use rrr::path::AbsPath;
use rrr::state::{Buffer, Context, Mode, Rect, Views, PANES};
use rrr::style::{Span, Style};

fn path_of(parts: &[&str]) -> AbsPath {
    AbsPath { components: parts.iter().map(|part| part.to_string()).collect() }
}

fn home_entries(home: &AbsPath) -> Vec<Entry> {
    vec![
        Entry::new(home, "notes.txt", false),
        Entry::new(home, "src", true),
        Entry::new(home, ".git", true),
        Entry::new(home, "docs", true),
        Entry::new(home, "a.txt", false),
        Entry::new(home, ".env", false),
        Entry::new(home, "b.txt", false),
    ]
}

fn src_entries(src: &AbsPath) -> Vec<Entry> {
    vec![Entry::new(src, "main.rs", false), Entry::new(src, "lib.rs", false)]
}

fn home_pane() -> Context {
    let home = path_of(&["home", "user"]);
    let mut pane = Context::new(home.clone());
    pane.terminal_size = Rect { x: 0, y: 0, width: 80, height: 24 };
    assert_eq!(pane.read_directory(Ok(home_entries(&home))), Ok(()));
    pane
}

fn shown(pane: &Context) -> Vec<String> {
    pane.directory.iter().map(|entry| entry.name.clone()).collect()
}

fn texts(row: &[Span]) -> Vec<(String, Style)> {
    row.iter().map(|span| (span.content.clone(), span.style)).collect()
}

#[test]
fn a_new_pane_looks_at_the_start_of_an_empty_listing() {
    let pane = Context::new(path_of(&["home", "user"]));
    assert_eq!((pane.cursor, pane.scroll), (0, 0));
    assert!(pane.directory.is_empty());
    assert_eq!(pane.current_dir(), &path_of(&["home", "user"]));
    assert!(!pane.show_hidden());
    assert!(pane.target().is_none());
    assert_eq!(pane.height(), 0);
    assert!(pane.buffers.contains_key(&path_of(&["home", "user"])));
}

#[test]
fn a_pane_lists_what_was_read() {
    let pane = home_pane();
    assert_eq!(shown(&pane), vec!["docs", "src", "a.txt", "b.txt", "notes.txt"]);
}

#[test]
fn a_failed_reading_leaves_the_listing_alone() {
    let mut pane = home_pane();
    assert_eq!(pane.read_directory(Err(IoError::PermissionDenied)), Err(Error::Io(IoError::PermissionDenied)));
    assert_eq!(shown(&pane), vec!["docs", "src", "a.txt", "b.txt", "notes.txt"]);
}

#[test]
fn entering_a_file_is_refused() {
    let mut pane = home_pane();
    pane.cursor = 3;
    assert_eq!(pane.target_dir(), Err(Error::NotADirectory));
    let src = path_of(&["home", "user", "src"]);
    assert_eq!(pane.enter_child("src", Ok(src_entries(&src))), Err(Error::NotADirectory));
    assert_eq!(pane.current_dir, path_of(&["home", "user"]));
    assert_eq!((pane.cursor, pane.scroll), (3, 0));
    assert_eq!(shown(&pane), vec!["docs", "src", "a.txt", "b.txt", "notes.txt"]);
}

#[test]
fn entering_without_a_target_is_refused() {
    let mut pane = Context::new(path_of(&["home", "user"]));
    assert_eq!(pane.target_dir(), Err(Error::NotADirectory));
    assert_eq!(pane.enter_child("src", Ok(Vec::new())), Err(Error::NotADirectory));
    assert_eq!(pane.enter_child("src", Err(IoError::NotFound)), Err(Error::NotADirectory));
    assert_eq!(pane.current_dir, path_of(&["home", "user"]));
}

#[test]
fn an_unreadable_child_leaves_the_pane_where_it_is() {
    let mut pane = home_pane();
    pane.cursor = 1;
    assert_eq!(pane.target_dir(), Ok("src".to_string()));
    assert_eq!(pane.enter_child("src", Err(IoError::NotFound)), Err(Error::Io(IoError::NotFound)));
    assert_eq!(pane.current_dir, path_of(&["home", "user"]));
    assert_eq!((pane.cursor, pane.scroll), (1, 0));
    assert_eq!(shown(&pane), vec!["docs", "src", "a.txt", "b.txt", "notes.txt"]);
    assert_eq!(pane.enter_child("src", Err(IoError::Other)), Err(Error::Io(IoError::Other)));
}

#[test]
fn entering_a_child_lists_it_from_the_top() {
    let mut pane = home_pane();
    pane.cursor = 1;
    let src = path_of(&["home", "user", "src"]);
    assert_eq!(pane.enter_child("src", Ok(src_entries(&src))), Ok(()));
    assert_eq!(pane.current_dir, src);
    assert_eq!((pane.cursor, pane.scroll), (0, 0));
    assert_eq!(shown(&pane), vec!["lib.rs", "main.rs"]);
    assert!(pane.buffers.contains_key(&src));
    let kept = pane.buffers.get(&path_of(&["home", "user"])).map(|buffer| (buffer.cursor, buffer.scroll));
    assert_eq!(kept, Some((1, 0)));
}

#[test]
fn going_in_and_out_restores_the_place() {
    let home = path_of(&["home", "user"]);
    let mut pane = home_pane();
    pane.clamp_cursor();
    pane.cursor_up(1);
    pane.cursor_down(1);
    assert_eq!((pane.cursor, pane.scroll), (1, 0));
    let src = path_of(&["home", "user", "src"]);
    assert_eq!(pane.enter_child("src", Ok(src_entries(&src))), Ok(()));
    pane.cursor_down(1);
    assert_eq!(pane.leave_to_parent(Ok(home_entries(&home))), Ok(()));
    assert_eq!(pane.current_dir, home);
    assert_eq!((pane.cursor, pane.scroll), (1, 0));
    assert_eq!(pane.enter_child("src", Ok(src_entries(&src))), Ok(()));
    assert_eq!((pane.cursor, pane.scroll), (1, 0));
}

#[test]
fn the_third_row_is_found_again_after_a_visit() {
    let home = path_of(&["home", "user"]);
    let mut pane = home_pane();
    pane.cursor = 3;
    pane.scroll = 0;
    pane.directory[3] = Entry::new(&home, "b", true);
    let inside = path_of(&["home", "user", "b"]);
    assert_eq!(pane.enter_child("b", Ok(vec![Entry::new(&inside, "x", false)])), Ok(()));
    assert_eq!((pane.cursor, pane.scroll), (0, 0));
    assert_eq!(pane.leave_to_parent(Ok(home_entries(&home))), Ok(()));
    assert_eq!((pane.cursor, pane.scroll), (3, 0));
    assert_eq!(pane.current_dir, home);
}

#[test]
fn marks_outlast_a_visit_elsewhere() {
    let home = path_of(&["home", "user"]);
    let notes = path_of(&["home", "user", "notes.txt"]);
    let mut pane = home_pane();
    pane.toggle_mark(notes.clone());
    assert!(pane.is_marked(&notes));
    pane.cursor = 1;
    let src = path_of(&["home", "user", "src"]);
    assert_eq!(pane.enter_child("src", Ok(src_entries(&src))), Ok(()));
    assert!(!pane.is_marked(&notes));
    assert_eq!(pane.leave_to_parent(Ok(home_entries(&home))), Ok(()));
    assert_eq!(pane.current_dir, home);
    assert!(pane.is_marked(&notes));
}

#[test]
fn marking_leaves_the_place_alone() {
    let mut pane = home_pane();
    pane.cursor = 2;
    let notes = path_of(&["home", "user", "notes.txt"]);
    pane.toggle_mark(notes.clone());
    assert_eq!((pane.cursor, pane.scroll), (2, 0));
    assert!(pane.is_marked(&notes));
    assert!(!pane.is_marked(&path_of(&["home", "user", "a.txt"])));
    pane.toggle_mark(notes.clone());
    assert!(!pane.is_marked(&notes));
    assert_eq!((pane.cursor, pane.scroll), (2, 0));
}

#[test]
fn marking_the_selected_entry_moves_on() {
    let mut pane = home_pane();
    pane.mark_selected();
    assert!(pane.is_marked(&path_of(&["home", "user", "docs"])));
    assert_eq!((pane.cursor, pane.scroll), (1, 0));
    pane.mark_selected();
    assert!(pane.is_marked(&path_of(&["home", "user", "src"])));
    assert_eq!((pane.cursor, pane.scroll), (2, 0));
    let mut empty = Context::new(path_of(&["tmp"]));
    empty.mark_selected();
    assert_eq!((empty.cursor, empty.scroll), (0, 0));
}

#[test]
fn leaving_the_root_stays_at_the_root() {
    let root = AbsPath::root();
    let mut pane = Context::new(root.clone());
    let found = vec![Entry::new(&root, "etc", true), Entry::new(&root, "bin", true)];
    assert_eq!(pane.read_directory(Ok(found)), Ok(()));
    pane.terminal_size.height = 24;
    pane.cursor_down(1);
    let again = vec![Entry::new(&root, "usr", true), Entry::new(&root, "bin", true), Entry::new(&root, "etc", true)];
    assert_eq!(pane.leave_to_parent(Ok(again)), Ok(()));
    assert_eq!(pane.current_dir, root);
    assert_eq!(shown(&pane), vec!["bin", "etc", "usr"]);
    assert_eq!((pane.cursor, pane.scroll), (1, 0));
}

#[test]
fn an_unreadable_parent_leaves_the_pane_where_it_is() {
    let mut pane = home_pane();
    pane.cursor = 2;
    assert_eq!(pane.leave_to_parent(Err(IoError::PermissionDenied)), Err(Error::Io(IoError::PermissionDenied)));
    assert_eq!(pane.current_dir, path_of(&["home", "user"]));
    assert_eq!((pane.cursor, pane.scroll), (2, 0));
    assert_eq!(shown(&pane), vec!["docs", "src", "a.txt", "b.txt", "notes.txt"]);
}

#[test]
fn leaving_lists_the_parent() {
    let mut pane = home_pane();
    let parent = path_of(&["home"]);
    assert_eq!(pane.leave_to_parent(Ok(vec![Entry::new(&parent, "user", true)])), Ok(()));
    assert_eq!(pane.current_dir, parent);
    assert_eq!(shown(&pane), vec!["user"]);
    assert_eq!((pane.cursor, pane.scroll), (0, 0));
}

#[test]
fn the_filter_is_flipped_and_remembered() {
    let home = path_of(&["home", "user"]);
    let mut pane = home_pane();
    pane.cursor = 2;
    assert!(!pane.show_hidden());
    assert_eq!(pane.toggle_hidden(Ok(home_entries(&home))), Ok(()));
    assert!(pane.show_hidden());
    assert_eq!(shown(&pane), vec!["docs", "src", ".git", "a.txt", "b.txt", "notes.txt", ".env"]);
    assert_eq!((pane.cursor, pane.scroll), (2, 0));
    pane.cursor = 1;
    let src = path_of(&["home", "user", "src"]);
    let mut inside = src_entries(&src);
    inside.push(Entry::new(&src, ".hidden", false));
    assert_eq!(pane.enter_child("src", Ok(inside)), Ok(()));
    assert!(!pane.show_hidden());
    assert_eq!(shown(&pane), vec!["lib.rs", "main.rs"]);
    assert_eq!(pane.leave_to_parent(Ok(home_entries(&home))), Ok(()));
    assert!(pane.show_hidden());
    assert_eq!(shown(&pane).len(), 7);
    assert_eq!(pane.toggle_hidden(Ok(home_entries(&home))), Ok(()));
    assert!(!pane.show_hidden());
    assert_eq!(shown(&pane), vec!["docs", "src", "a.txt", "b.txt", "notes.txt"]);
}

#[test]
fn a_failed_reading_does_not_flip_the_filter() {
    let mut pane = home_pane();
    assert_eq!(pane.toggle_hidden(Err(IoError::NotFound)), Err(Error::Io(IoError::NotFound)));
    assert!(!pane.show_hidden());
    assert_eq!(shown(&pane), vec!["docs", "src", "a.txt", "b.txt", "notes.txt"]);
}

#[test]
fn a_shorter_listing_is_clamped_after_the_filter_is_flipped() {
    let home = path_of(&["home", "user"]);
    let mut pane = home_pane();
    assert_eq!(pane.toggle_hidden(Ok(home_entries(&home))), Ok(()));
    pane.cursor = 6;
    assert_eq!(pane.target().map(|entry| entry.name.as_str()), Some(".env"));
    assert_eq!(pane.toggle_hidden(Ok(home_entries(&home))), Ok(()));
    assert!(pane.target().is_none());
    pane.clamp_cursor();
    assert_eq!((pane.cursor, pane.scroll), (4, 0));
    assert_eq!(pane.target().map(|entry| entry.name.as_str()), Some("notes.txt"));
}

#[test]
fn saving_and_restoring_the_place() {
    let mut pane = home_pane();
    pane.cursor = 4;
    pane.scroll = 7;
    pane.save_buffer();
    pane.cursor = 0;
    pane.scroll = 0;
    pane.restore_buffer();
    assert_eq!((pane.cursor, pane.scroll), (4, 7));
    pane.current_dir = path_of(&["never", "seen"]);
    pane.restore_buffer();
    assert_eq!((pane.cursor, pane.scroll), (0, 0));
    assert!(pane.buffers.contains_key(&path_of(&["never", "seen"])));
}

#[test]
fn the_memory_of_a_directory_can_be_changed() {
    let mut pane = home_pane();
    match pane.buffer_mut() {
        Some(buffer) => {
            buffer.show_hidden = true;
            buffer.flip(path_of(&["home", "user", "a.txt"]));
        }
        None => panic!("the pane remembers its first directory"),
    }
    assert!(pane.show_hidden());
    assert!(pane.is_marked(&path_of(&["home", "user", "a.txt"])));
    pane.current_dir = path_of(&["elsewhere"]);
    assert!(pane.buffer_mut().is_none());
    assert!(!pane.show_hidden());
    assert!(!pane.is_marked(&path_of(&["home", "user", "a.txt"])));
}

#[test]
fn a_buffer_flips_marks() {
    let mut buffer = Buffer::default();
    assert_eq!((buffer.cursor, buffer.scroll, buffer.show_hidden), (0, 0, false));
    let one = path_of(&["a", "one"]);
    let two = path_of(&["a", "two"]);
    assert!(!buffer.is_marked(&one));
    buffer.flip(one.clone());
    assert!(buffer.is_marked(&one));
    assert!(!buffer.is_marked(&two));
    buffer.flip(two.clone());
    buffer.flip(one.clone());
    assert!(!buffer.is_marked(&one));
    assert!(buffer.is_marked(&two));
    buffer.flip(one.clone());
    assert!(buffer.is_marked(&one));
    assert_eq!((buffer.cursor, buffer.scroll, buffer.show_hidden), (0, 0, false));
}

#[test]
fn rows_are_drawn_with_sign_name_and_slash() {
    let home = path_of(&["home", "user"]);
    let mut pane = Context::new(home.clone());
    pane.terminal_size.height = 24;
    let found = vec![
        Entry::new(&home, ".git", true),
        Entry::new(&home, "README.md", false),
        Entry::new(&home, "src", true),
        Entry::new(&home, ".env", false),
    ];
    assert_eq!(pane.read_directory(Ok(found)), Ok(()));
    let rows = pane.listing();
    assert_eq!(rows.len(), 2);
    assert_eq!(
        texts(&rows[0]),
        vec![
            (" ".to_string(), Style::Plain),
            ("src".to_string(), Style::DirectoryHighlighted),
            ("/".to_string(), Style::Plain),
        ]
    );
    assert_eq!(
        texts(&rows[1]),
        vec![(" ".to_string(), Style::Plain), ("README.md".to_string(), Style::File)]
    );
    let drawn: Vec<String> = rows
        .iter()
        .map(|row| row[1..].iter().map(|span| span.content.as_str()).collect())
        .collect();
    assert_eq!(drawn, vec!["src/", "README.md"]);
}

#[test]
fn rows_show_hidden_entries_on_request() {
    let home = path_of(&["home", "user"]);
    let mut pane = Context::new(home.clone());
    pane.terminal_size.height = 24;
    let found = || {
        vec![
            Entry::new(&home, ".git", true),
            Entry::new(&home, "README.md", false),
            Entry::new(&home, "src", true),
            Entry::new(&home, ".env", false),
        ]
    };
    assert_eq!(pane.toggle_hidden(Ok(found())), Ok(()));
    let drawn: Vec<String> = pane
        .listing()
        .iter()
        .map(|row| row[1..].iter().map(|span| span.content.as_str()).collect())
        .collect();
    assert_eq!(drawn, vec!["src/", ".git/", "README.md", ".env"]);
}

#[test]
fn rows_show_marks_and_the_cursor() {
    let mut pane = home_pane();
    pane.toggle_mark(path_of(&["home", "user", "a.txt"]));
    pane.toggle_mark(path_of(&["home", "user", "docs"]));
    pane.cursor = 2;
    let rows = pane.listing();
    assert_eq!(rows.len(), 5);
    assert_eq!(
        texts(&rows[0]),
        vec![
            ("+".to_string(), Style::Marked),
            ("docs".to_string(), Style::Directory),
            ("/".to_string(), Style::Plain),
        ]
    );
    assert_eq!(
        texts(&rows[2]),
        vec![("+".to_string(), Style::Marked), ("a.txt".to_string(), Style::FileHighlighted)]
    );
    assert_eq!(
        texts(&rows[3]),
        vec![(" ".to_string(), Style::Plain), ("b.txt".to_string(), Style::File)]
    );
}

#[test]
fn rows_are_those_of_the_window() {
    let home = path_of(&["home", "user"]);
    let mut pane = Context::new(home.clone());
    pane.terminal_size.height = 5;
    let found = (0..9).map(|i| Entry::new(&home, &format!("f{}", i), false)).collect();
    assert_eq!(pane.read_directory(Ok(found)), Ok(()));
    pane.scroll = 4;
    pane.cursor = 1;
    let rows = pane.listing();
    assert_eq!(rows.len(), 3);
    assert_eq!(rows[0][1].content, "f4");
    assert_eq!(rows[1][1], Span { content: "f5".to_string(), style: Style::FileHighlighted });
    assert_eq!(rows[2][1], Span { content: "f6".to_string(), style: Style::File });
    pane.scroll = 9;
    assert!(pane.listing().is_empty());
}

#[test]
fn a_session_starts_with_four_panes_in_one_directory() {
    let home = path_of(&["home", "user"]);
    let panes = match Views::new(home.clone(), Ok(home_entries(&home))) {
        Ok(panes) => panes,
        Err(_) => panic!("the reading was good"),
    };
    assert_eq!(PANES, 4);
    assert_eq!(panes.mode, Mode::Normal);
    assert_eq!(panes.index, 0);
    assert_eq!(panes.command, "");
    assert_eq!(panes.contexts.len(), 4);
    assert_eq!(shown(&panes.contexts[0]), vec!["docs", "src", "a.txt", "b.txt", "notes.txt"]);
    for pane in panes.contexts.iter() {
        assert_eq!(pane.current_dir, home);
        assert_eq!((pane.cursor, pane.scroll), (0, 0));
    }
    for pane in panes.contexts[1..].iter() {
        assert!(pane.directory.is_empty());
    }
}

#[test]
fn a_session_does_not_start_in_an_unreadable_directory() {
    let result = Views::new(path_of(&["gone"]), Err(IoError::NotFound));
    assert!(matches!(result, Err(Error::Io(IoError::NotFound))));
}

#[test]
fn switching_panes_reads_the_new_pane() {
    let home = path_of(&["home", "user"]);
    let mut panes = match Views::new(home.clone(), Ok(home_entries(&home))) {
        Ok(panes) => panes,
        Err(_) => panic!("the reading was good"),
    };
    assert_eq!(panes.index(2, Ok(src_entries(&home))), Ok(()));
    assert_eq!(panes.index, 2);
    assert_eq!(shown(&panes.contexts[2]), vec!["lib.rs", "main.rs"]);
    assert_eq!(shown(&panes.contexts[0]).len(), 5);
    assert!(panes.contexts[1].directory.is_empty());
    assert_eq!(panes.index(4, Ok(Vec::new())), Err(Error::NoSuchPane));
    assert_eq!(panes.index(usize::MAX, Err(IoError::Other)), Err(Error::NoSuchPane));
    assert_eq!(panes.index, 2);
    assert_eq!(panes.index(1, Err(IoError::PermissionDenied)), Err(Error::Io(IoError::PermissionDenied)));
    assert_eq!(panes.index, 1);
    assert!(panes.contexts[1].directory.is_empty());
}

#[test]
fn panes_follow_one_another_in_a_circle() {
    let home = path_of(&["home", "user"]);
    let mut panes = match Views::new(home.clone(), Ok(Vec::new())) {
        Ok(panes) => panes,
        Err(_) => panic!("the reading was good"),
    };
    let mut seen = Vec::new();
    for _ in 0..5 {
        panes.next();
        seen.push(panes.index);
    }
    assert_eq!(seen, vec![1, 2, 3, 0, 1]);
    seen.clear();
    for _ in 0..5 {
        panes.previous();
        seen.push(panes.index);
    }
    assert_eq!(seen, vec![0, 3, 2, 1, 0]);
}

#[test]
fn the_active_pane_is_handed_out_only_if_there_is_one() {
    let home = path_of(&["home", "user"]);
    let mut panes = match Views::new(home.clone(), Ok(home_entries(&home))) {
        Ok(panes) => panes,
        Err(_) => panic!("the reading was good"),
    };
    panes.index = 3;
    match panes.current_context() {
        Some(pane) => pane.cursor = 9,
        None => panic!("there is a fourth pane"),
    }
    assert_eq!(panes.contexts[3].cursor, 9);
    panes.index = 4;
    assert!(panes.current_context().is_none());
    assert!(panes.target_path().is_none());
    panes.index = 0;
    assert_eq!(panes.target_path(), Some(path_of(&["home", "user", "docs"])));
}
