use todo_tui::args::{Args, Mode, PathArgs};
use todo_tui::ctx::{resolve_path, Ctx};
use todo_tui::fingerprint::{fingerprint, hex_text};
use todo_tui::log::{LogMsg, LogType};
use todo_tui::nav::Navigator;
use todo_tui::text::{decimal_text, to_coords};
use todo_tui::tick::{poll_timeout, tick_due, TICK_NANOS};

fn args(path: &str, new: bool) -> Args {
    let path_args = PathArgs { list_path: path.to_string() };
    Args {
        debug: false,
        display_hidden: false,
        mode: if new { Mode::New(path_args) } else { Mode::Open(path_args) },
    }
}

#[test]
fn fingerprint_of_empty_text() {
    assert_eq!(fingerprint(""), "d41d8cd98f00b204e9800998ecf8427e");
}

#[test]
fn fingerprint_of_known_text() {
    assert_eq!(fingerprint("hello world"), "5eb63bbbe01eeed093cb22bb8f5acdc3");
    assert_eq!(Navigator::get_file_hash("hello world"), "5eb63bbbe01eeed093cb22bb8f5acdc3");
    assert_ne!(fingerprint("hello world"), "hello world");
}

#[test]
fn hex_text_writes_two_digits_per_byte() {
    assert_eq!(hex_text(&vec![]), "");
    assert_eq!(hex_text(&vec![0x00, 0x0a, 0x14, 0x1e, 0xff, 0x9c]), "000a141eff9c");
}

#[test]
fn decimal_text_of_numbers() {
    assert_eq!(decimal_text(0), "0");
    assert_eq!(decimal_text(7), "7");
    assert_eq!(decimal_text(10), "10");
    assert_eq!(decimal_text(65535), "65535");
    assert_eq!(decimal_text(1234567890), "1234567890");
}

#[test]
fn coords_join_indices_with_commas() {
    assert_eq!(to_coords(&vec![]), "");
    assert_eq!(to_coords(&vec![4]), "4");
    assert_eq!(to_coords(&vec![1, 0, 12]), "1,0,12");
}

#[test]
fn log_messages_carry_their_severity() {
    let a = LogMsg::log("plain");
    let b = LogMsg::warn("careful");
    let c = LogMsg::error("broken");
    assert_eq!((a.log_type, a.message.as_str()), (LogType::Log, "plain"));
    assert_eq!((b.log_type, b.message.as_str()), (LogType::Warning, "careful"));
    assert_eq!((c.log_type, c.message.as_str()), (LogType::Error, "broken"));
}

#[test]
fn resolve_path_appends_json_without_extension() {
    assert_eq!(resolve_path("list", &None), "list.json");
    assert_eq!(resolve_path("list.json", &Some("json".to_string())), "list.json");
    assert_eq!(resolve_path("dir/list.txt", &Some("txt".to_string())), "dir/list.txt");
}

#[test]
fn new_context_has_no_path() {
    let ctx = Ctx::new(args("list", false));
    assert_eq!(ctx.get_path(), "");
    assert_eq!(ctx.args.mode.list_path(), "list");
}

#[test]
fn construct_path_without_extension() {
    let mut ctx = Ctx::new(args("todo", true));
    ctx.construct_path();
    assert_eq!(ctx.get_path(), "todo.json");
    assert_eq!(ctx.args, args("todo", true));
}

#[test]
fn construct_path_with_json_extension() {
    let mut ctx = Ctx::new(args("some/dir/todo.json", false));
    ctx.construct_path();
    assert_eq!(ctx.get_path(), "some/dir/todo.json");
}

#[test]
fn construct_path_keeps_another_extension() {
    let mut ctx = Ctx::new(args("todo.txt", false));
    ctx.construct_path();
    assert_eq!(ctx.get_path(), "todo.txt");
}

#[test]
fn construct_path_twice_gives_the_same_path() {
    let mut ctx = Ctx::new(args("todo", false));
    ctx.construct_path();
    ctx.construct_path();
    assert_eq!(ctx.get_path(), "todo.json");
}

#[test]
fn tick_timing() {
    assert_eq!(TICK_NANOS, 200_000_000);
    assert_eq!(poll_timeout(0), 200_000_000);
    assert_eq!(poll_timeout(150_000_000), 50_000_000);
    assert_eq!(poll_timeout(200_000_000), 0);
    assert_eq!(poll_timeout(u128::MAX), 0);
    assert!(!tick_due(199_999_999));
    assert!(tick_due(200_000_000));
}
