use emacs_pool::text::{foreground_arg, front_end_args, handshake_line, push_decimal, text_contains};
use emacs_pool::{default_sock_filename, default_sock_path, DEFAULT_POOL_SIZE};

#[test]
fn sock_filename_is_hidden_file() {
    assert_eq!(default_sock_filename(), ".emacs-pool.sock");
}

#[test]
fn sock_path_adds_separator() {
    assert_eq!(default_sock_path("/home/ann"), "/home/ann/.emacs-pool.sock");
}

#[test]
fn sock_path_keeps_trailing_separator() {
    assert_eq!(default_sock_path("/home/ann/"), "/home/ann/.emacs-pool.sock");
}

#[test]
fn sock_path_under_empty_home() {
    assert_eq!(default_sock_path(""), ".emacs-pool.sock");
}

#[test]
fn default_pool_size_is_three() {
    assert_eq!(DEFAULT_POOL_SIZE, 3);
}

#[test]
fn decimal_digits_appended() {
    let mut s = String::from("n=");
    push_decimal(&mut s, 0);
    assert_eq!(s, "n=0");
    let mut t = String::new();
    push_decimal(&mut t, 4294967295);
    assert_eq!(t, "4294967295");
    let mut u = String::new();
    push_decimal(&mut u, 1009);
    assert_eq!(u, "1009");
}

#[test]
fn contains_finds_inner_run() {
    assert!(text_contains("abcdef", "cde"));
    assert!(text_contains("abc", "abc"));
    assert!(text_contains("abc", ""));
    assert!(text_contains("", ""));
}

#[test]
fn contains_rejects_missing_run() {
    assert!(!text_contains("abcdef", "ced"));
    assert!(!text_contains("ab", "abc"));
    assert!(!text_contains("", "a"));
    assert!(!text_contains("aab", "abb"));
}

#[test]
fn contains_handles_multibyte_text() {
    assert!(text_contains("héllo wörld", "ö"));
    assert!(!text_contains("héllo", "e"));
}

#[test]
fn handshake_is_id_and_newline() {
    assert_eq!(handshake_line("pool-42"), "pool-42\n");
    assert_eq!(handshake_line(""), "\n");
}

#[test]
fn foreground_flag_embeds_id() {
    assert_eq!(foreground_arg("pool-7"), "--fg-daemon=pool-7");
}

#[test]
fn front_end_args_wrap_files() {
    let files = vec![String::from("a.txt"), String::from("b.rs")];
    let args = front_end_args("pool-9", &files);
    assert_eq!(args, vec!["-s", "pool-9", "--", "a.txt", "b.rs", "."]);
}

#[test]
fn front_end_args_without_files() {
    let args = front_end_args("pool-1", &Vec::new());
    assert_eq!(args, vec!["-s", "pool-1", "--", "."]);
}
