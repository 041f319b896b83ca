use todo_tui::args::{Args, Mode, PathArgs};
use todo_tui::ctx::Ctx;
use todo_tui::log::LogType;
use todo_tui::nav::{Navigator, Panels, DEBUG_ROWS, LIST_MIN_ROWS, TEXT_ROWS};
use todo_tui::render::{Color, ListLine, LogLine};
use todo_tui::store::{Effect, Reply};
use todo_tui::term::{Key, TermEvent};
use todo_tui::tree::{Item, ItemStatus, ItemType};
use todo_tui::action::NavMode;
use todo_tui::win::WindowBufferBounds;

const CONTENTS: &str = "text of the file";

fn item(text: &str, kind: ItemType, status: ItemStatus, hidden: bool, sub_items: Vec<Item>) -> Item {
    Item { text: text.to_string(), item_type: kind, status, hidden, sub_items }
}

fn todo(text: &str, sub_items: Vec<Item>) -> Item {
    item(text, ItemType::Todo, ItemStatus::Incomplete, false, sub_items)
}

fn navigator(items: Vec<Item>, display_hidden: bool, debug: bool) -> Navigator {
    let ctx = Ctx::new(Args {
        debug,
        display_hidden,
        mode: Mode::Open(PathArgs { list_path: "list".to_string() }),
    });
    Navigator::new(&ctx, items, CONTENTS)
}

fn press(nav: &mut Navigator, c: char) -> Effect {
    let first = nav.advance(Reply::Event { event: TermEvent::Key(Key::Char(c)), initial: false });
    assert_eq!(first, Effect::ReadContents);
    nav.advance(Reply::Contents(CONTENTS.to_string()))
}

fn line(indent: &str, marker: &str, marker_color: Color, text: &str, text_color: Color) -> ListLine {
    ListLine {
        indent: indent.to_string(),
        marker: marker.to_string(),
        marker_color,
        text: text.to_string(),
        text_color,
    }
}

fn messages(nav: &Navigator) -> Vec<(LogType, String)> {
    nav.log().iter().map(|m| (m.log_type, m.message.clone())).collect()
}

#[test]
fn first_measure_sizes_the_window_and_logs_it() {
    let mut nav = navigator(vec![todo("a", vec![])], false, false);
    nav.set_height(12, true);
    assert_eq!(nav.height, 12);
    let w = nav.window_buffer();
    assert_eq!((w.size, w.min, w.max, w.pos), (10, 0, 9, 0));
    assert_eq!(
        messages(&nav),
        vec![
            (LogType::Log, "Height set to 12".to_string()),
            (LogType::Log, "WinBuf set to height: 10, min: 0, max: 9, pos: 0".to_string()),
        ]
    );
    nav.set_height(12, false);
    assert_eq!(nav.log().len(), 2);
}

#[test]
fn unchanged_window_is_not_logged_again() {
    let mut nav = navigator(vec![todo("a", vec![]), todo("b", vec![])], false, false);
    nav.set_height(12, true);
    let logged = nav.log().len();
    nav.handle_win_buf(false);
    assert_eq!(nav.log().len(), logged);
    press(&mut nav, 'j');
    let w = nav.window_buffer();
    assert_eq!((w.size, w.min, w.max, w.pos), (10, 0, 9, 1));
    assert_eq!(
        messages(&nav).last().unwrap(),
        &(LogType::Log, "WinBuf set to height: 10, min: 0, max: 9, pos: 1".to_string())
    );
}

#[test]
fn window_out_of_range_is_left_alone_with_a_warning() {
    let mut nav = navigator(vec![todo("a", vec![])], false, false);
    nav.handle_win_buf(false);
    let w = nav.window_buffer();
    assert_eq!((w.size, w.min, w.max, w.pos), (0, 0, 0, 0));
    assert_eq!(
        messages(&nav),
        vec![(LogType::Warning, "Window bounds out of range, left unchanged".to_string())]
    );
    nav.set_height(2, true);
    assert_eq!(nav.height, 2);
    assert_eq!(nav.window_buffer(), WindowBufferBounds { size: 0, min: 0, max: 0, pos: 0 });
    assert_eq!(nav.log().len(), 3);
}

#[test]
fn window_follows_the_cursor_down_and_up() {
    let items: Vec<Item> = (0..25).map(|_| todo("n", vec![])).collect();
    let mut nav = navigator(items, false, false);
    nav.set_height(12, true);
    press(&mut nav, 'G');
    assert_eq!(nav.position(), &vec![24]);
    let w = nav.window_buffer();
    assert_eq!((w.size, w.min, w.max, w.pos), (10, 15, 24, 24));
    assert!(w.is_in_view(16));
    assert!(w.is_in_view(25));
    assert!(!w.is_in_view(15));
    assert!(!w.is_in_view(26));
    let drawn = nav.get_list();
    assert_eq!(drawn.len(), 10);
    assert_eq!(drawn[9].text_color, Color::Cyan);
    assert_eq!(drawn[0].text_color, Color::White);
    press(&mut nav, 'g');
    let w = nav.window_buffer();
    assert_eq!((w.size, w.min, w.max, w.pos), (10, 0, 9, 0));
}

#[test]
fn is_in_view_at_the_upper_end_of_the_range() {
    let w = WindowBufferBounds { size: 10, min: 65526, max: 65535, pos: 65535 };
    assert!(w.is_in_view(65535));
    assert!(w.is_in_view(65527));
    assert!(!w.is_in_view(65526));
    let zero = WindowBufferBounds::init();
    assert!(!zero.is_in_view(0));
    assert!(zero.is_in_view(1));
    assert!(!zero.is_in_view(2));
}

#[test]
fn fits_tells_when_set_size_may_be_called() {
    let valid: Vec<Vec<usize>> = (0..5).map(|i| vec![i]).collect();
    let fresh = WindowBufferBounds::init();
    assert!(!fresh.fits(0, &vec![0], &valid, true));
    assert!(!fresh.fits(1, &vec![0], &valid, true));
    assert!(!fresh.fits(2, &vec![0], &valid, true));
    assert!(fresh.fits(3, &vec![0], &valid, true));
    assert!(fresh.fits(12, &vec![4], &valid, false));
    let grown = WindowBufferBounds { size: 3, min: 2, max: 4, pos: 4 };
    assert!(!grown.fits(12, &vec![4], &valid, false));
    assert!(grown.fits(12, &vec![3], &valid, false));
    let high = WindowBufferBounds { size: 10, min: 65000, max: 65009, pos: 65000 };
    assert!(high.fits(12, &vec![0], &valid, false));
    assert!(!high.fits(65535, &vec![4], &valid, false));
}

#[test]
fn set_size_reports_whether_anything_changed() {
    let valid: Vec<Vec<usize>> = (0..5).map(|i| vec![i]).collect();
    let mut w = WindowBufferBounds::init();
    assert!(w.set_size(5, &vec![2], &valid, false));
    assert_eq!((w.size, w.min, w.max, w.pos), (3, 0, 2, 2));
    assert!(!w.set_size(5, &vec![2], &valid, false));
    assert!(w.set_size(5, &vec![4], &valid, false));
    assert_eq!((w.size, w.min, w.max, w.pos), (3, 2, 4, 4));
    assert!(w.set_size(5, &vec![1], &valid, false));
    assert_eq!((w.size, w.min, w.max, w.pos), (3, 1, 3, 1));
    assert!(w.set_size(5, &vec![9], &valid, false));
    assert_eq!((w.size, w.min, w.max, w.pos), (3, 3, 5, 5));
    assert!(w.set_size(5, &vec![9], &valid, true));
    assert_eq!((w.size, w.min, w.max, w.pos), (3, 0, 2, 0));
    assert!(!w.set_size(5, &vec![9], &valid, true));
}

#[test]
fn resize_can_keep_a_window_of_another_length() {
    let valid: Vec<Vec<usize>> = (0..20).map(|i| vec![i]).collect();
    let mut w = WindowBufferBounds { size: 10, min: 5, max: 14, pos: 7 };
    assert!(w.set_size(22, &vec![7], &valid, false));
    assert_eq!((w.size, w.min, w.max, w.pos), (20, 5, 14, 7));
}

#[test]
fn list_lines_show_markers_indent_and_colours() {
    let items = vec![
        item("done", ItemType::Todo, ItemStatus::Complete, false, vec![
            item("open", ItemType::Todo, ItemStatus::Incomplete, false, vec![
                item("off", ItemType::Todo, ItemStatus::Disabled, false, vec![]),
            ]),
            item("note", ItemType::Note, ItemStatus::Incomplete, false, vec![]),
        ]),
        item("secret", ItemType::Todo, ItemStatus::Complete, true, vec![
            item("below", ItemType::Note, ItemStatus::Incomplete, false, vec![]),
        ]),
        item("hidden note", ItemType::Note, ItemStatus::Incomplete, true, vec![]),
    ];
    let mut nav = navigator(items, true, false);
    nav.set_height(12, true);
    assert!(nav.can_list());
    let expected = vec![
        line("", "[x] ", Color::Green, "done", Color::Cyan),
        line("    ", "[ ] ", Color::Red, "open", Color::White),
        line("        ", "[-] ", Color::Yellow, "off", Color::White),
        line("    ", "-   ", Color::Cyan, "note", Color::White),
        line("", "[x] ", Color::DarkGray, "secret", Color::DarkGray),
        line("    ", "-   ", Color::Cyan, "below", Color::White),
        line("", "-   ", Color::DarkGray, "hidden note", Color::DarkGray),
    ];
    assert_eq!(nav.get_list(), expected);
    press(&mut nav, 'j');
    let drawn = nav.get_list();
    assert_eq!(drawn[0].text_color, Color::White);
    assert_eq!(drawn[4], line("", "[x] ", Color::DarkGray, "secret", Color::Cyan));
}

#[test]
fn list_leaves_out_hidden_subtrees_and_lines_outside_the_window() {
    let items = vec![
        todo("a", vec![todo("a0", vec![]), todo("a1", vec![])]),
        item("h", ItemType::Todo, ItemStatus::Incomplete, true, vec![todo("h0", vec![])]),
        todo("b", vec![todo("b0", vec![])]),
        todo("c", vec![]),
    ];
    let mut nav = navigator(items, false, false);
    nav.set_height(5, true);
    let texts = |nav: &Navigator| -> Vec<String> {
        nav.get_list().iter().map(|l| l.text.clone()).collect()
    };
    assert_eq!(texts(&nav), vec!["a", "a0", "a1"]);
    press(&mut nav, 'G');
    assert_eq!(nav.position(), &vec![3]);
    let w = nav.window_buffer();
    assert_eq!((w.size, w.min, w.max, w.pos), (3, 3, 5, 5));
    assert_eq!(texts(&nav), vec!["b", "b0", "c"]);
}

#[test]
fn item_as_widget_and_item_to_list_items() {
    let mut nav = navigator(vec![todo("a", vec![todo("a0", vec![])])], false, false);
    nav.set_height(12, true);
    let single = item("x", ItemType::Note, ItemStatus::Incomplete, true, vec![]);
    let mut out: Vec<ListLine> = Vec::new();
    let mut pos = vec![3, 1, 4];
    nav.item_as_widget(&single, &mut out, &mut pos);
    assert_eq!(pos, vec![3, 1, 4]);
    assert_eq!(out, vec![line("        ", "-   ", Color::DarkGray, "x", Color::DarkGray)]);
    let mut count: u16 = 0;
    let mut at = vec![0];
    nav.item_to_list_items(&single, &mut out, &mut at, &mut count);
    assert_eq!(count, 0);
    assert_eq!(out.len(), 1);
    let tree = todo("a", vec![todo("a0", vec![]), todo("a1", vec![])]);
    nav.item_to_list_items(&tree, &mut out, &mut at, &mut count);
    assert_eq!(count, 3);
    assert_eq!(at, vec![0]);
    assert_eq!(out.len(), 4);
    assert_eq!(out[1], line("", "[ ] ", Color::Red, "a", Color::Cyan));
    assert_eq!(out[3], line("    ", "[ ] ", Color::Red, "a1", Color::White));
}

#[test]
fn log_panel_shows_the_newest_message_first() {
    let mut nav = navigator(Vec::new(), false, true);
    assert!(nav.render_buffer().is_empty());
    nav.push_log("first");
    nav.push_warn("second");
    nav.push_error("third");
    let expected = vec![
        LogLine { prefix: "DANG: ".to_string(), color: Color::Red, message: "third".to_string() },
        LogLine { prefix: "WARN: ".to_string(), color: Color::Yellow, message: "second".to_string() },
        LogLine { prefix: "LOG : ".to_string(), color: Color::Cyan, message: "first".to_string() },
    ];
    assert_eq!(nav.render_buffer(), expected);
    assert_eq!(nav.log().len(), 3);
}

#[test]
fn panels_of_a_frame() {
    assert_eq!((LIST_MIN_ROWS, TEXT_ROWS, DEBUG_ROWS), (3, 3, 6));
    let mut nav = navigator(Vec::new(), false, false);
    assert_eq!(nav.panels(true), Panels { text_box: false, debug_log: false });
    assert_eq!(nav.panels(false), Panels { text_box: false, debug_log: false });
    nav.mode = NavMode::Input;
    assert_eq!(nav.panels(true), Panels { text_box: false, debug_log: false });
    assert_eq!(nav.panels(false), Panels { text_box: true, debug_log: false });
    nav.debug = true;
    assert_eq!(nav.panels(false), Panels { text_box: true, debug_log: true });
    nav.mode = NavMode::Navigate;
    assert_eq!(nav.panels(false), Panels { text_box: false, debug_log: true });
}
