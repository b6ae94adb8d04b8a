use std::path::Path;

use pulse::daemon::files::{
    actions_log_path, default_state_file, expand_home, learn_json_path, resolve_tilde, watch_dir,
};
use pulse::path::{join, parent};
use pulse::text::{decimal_text, same_text, trim, trim_end, trim_start, white_space};

fn all_strings(alphabet: &[u8], longest: usize) -> Vec<Vec<u8>> {
    let mut all: Vec<Vec<u8>> = vec![Vec::new()];
    let mut from = 0;
    for _ in 0..longest {
        let to = all.len();
        for i in from..to {
            for byte in alphabet {
                let mut longer = all[i].clone();
                longer.push(*byte);
                all.push(longer);
            }
        }
        from = to;
    }
    all
}

fn as_path(bytes: &[u8]) -> &Path {
    Path::new(std::str::from_utf8(bytes).unwrap())
}

#[test]
fn white_space_is_that_of_unicode() {
    for n in 0..=0x10ffffu32 {
        if let Some(c) = char::from_u32(n) {
            assert_eq!(white_space(c), c.is_whitespace(), "U+{:04X}", n);
        }
    }
}

#[test]
fn trimming_takes_the_padding() {
    for s in ["", " ", "\r\n", "DONE", "  DONE\r", "\u{3000}a b\u{85}\u{a0}", "a\u{200b}", "x\n\ny\n"] {
        assert_eq!(trim(s), s.trim());
        assert_eq!(trim_start(s), s.trim_start());
        assert_eq!(trim_end(s), s.trim_end());
    }
    assert_eq!(trim("\t INPUT \n"), "INPUT");
}

#[test]
fn texts_compare_by_characters() {
    assert!(same_text("idle", "idle"));
    assert!(!same_text("idle", "Idle"));
    assert!(!same_text("", "x"));
}

#[test]
fn decimals_have_no_leading_zeros() {
    for n in [0u64, 1, 9, 10, 99, 100, 3456, 65535, 1_700_000_000, u64::MAX] {
        assert_eq!(decimal_text(n), format!("{}", n));
        assert_eq!(decimal_text(n).parse::<u64>(), Ok(n));
    }
}

#[test]
fn parent_is_that_of_the_standard_library() {
    for path in all_strings(b"/.a", 8) {
        let expected = as_path(&path).parent().map(|p| p.to_str().unwrap().as_bytes().to_vec());
        assert_eq!(parent(&path), expected, "{:?}", String::from_utf8_lossy(&path));
    }
}

#[test]
fn join_is_that_of_the_standard_library() {
    let all = all_strings(b"/.a", 4);
    for base in &all {
        for rest in &all {
            let expected = as_path(base).join(as_path(rest));
            assert_eq!(join(base, rest), expected.to_str().unwrap().as_bytes().to_vec());
        }
    }
}

#[test]
fn parent_of_some_paths() {
    assert_eq!(parent(b"/home/u/.pulse/state.json"), Some(b"/home/u/.pulse".to_vec()));
    assert_eq!(parent(b"state.json"), Some(b"".to_vec()));
    assert_eq!(parent(b"/"), None);
    assert_eq!(parent(b""), None);
    assert_eq!(parent(b"a/./b/"), Some(b"a".to_vec()));
}

#[test]
fn joined_names_lie_in_their_directory() {
    for base in all_strings(b"/.a", 5) {
        let path = join(&base, b"n");
        let dir = parent(&path).unwrap();
        assert_eq!(as_path(&dir), as_path(&base));
        assert_ne!(path, join(&base, b"m"));
    }
}

#[test]
fn default_files_lie_in_the_home_directory() {
    assert_eq!(default_state_file(), "~/.pulse/state.json");
    let state_file = resolve_tilde(default_state_file().as_bytes(), Some(b"/home/u"));
    assert_eq!(state_file, b"/home/u/.pulse/state.json".to_vec());
    assert_eq!(actions_log_path(&state_file), b"/home/u/.pulse/actions.log".to_vec());
    assert_eq!(learn_json_path(&state_file), b"/home/u/.pulse/learn.json".to_vec());
}

#[test]
fn tilde_needs_a_slash_and_a_home() {
    assert_eq!(resolve_tilde(b"~/x", None), b"~/x".to_vec());
    assert_eq!(resolve_tilde(b"~", Some(b"/h")), b"~".to_vec());
    assert_eq!(resolve_tilde(b"~u/x", Some(b"/h")), b"~u/x".to_vec());
    assert_eq!(resolve_tilde(b"/tmp/~/x", Some(b"/h")), b"/tmp/~/x".to_vec());
    assert_eq!(resolve_tilde(b"~/", Some(b"/h")), b"/h/".to_vec());
    assert_eq!(resolve_tilde(b"~/x", Some(b"/h/")), b"/h/x".to_vec());
    assert_eq!(resolve_tilde(b"~/x", Some(b"")), b"x".to_vec());
    // What follows the tilde may be absolute, and then replaces the home.
    assert_eq!(resolve_tilde(b"~//x", Some(b"/h")), b"/x".to_vec());
}

#[test]
fn ill_formed_bytes_are_replaced_behind_a_tilde_only() {
    assert_eq!(
        resolve_tilde(b"~/a\xffb", Some(b"/h")),
        "/h/a\u{fffd}b".as_bytes().to_vec()
    );
    assert_eq!(resolve_tilde(b"/a\xffb", Some(b"/h")), b"/a\xffb".to_vec());
    assert_eq!(resolve_tilde(b"~/a\xffb", None), b"~/a\xffb".to_vec());
}

#[test]
fn expansion_takes_the_text_behind_the_tilde() {
    assert_eq!(expand_home(b"~/p", "~/q", Some(b"/h")), b"/h/q".to_vec());
    assert_eq!(expand_home(b"p", "q", Some(b"/h")), b"p".to_vec());
    assert_eq!(expand_home(b"~/p", "~/q", None), b"~/p".to_vec());
}

#[test]
fn resolving_again_changes_nothing() {
    let homes: [Option<&[u8]>; 5] =
        [None, Some(b"/"), Some(b"/h"), Some(b"/~/\xff"), Some(b"//h/")];
    let paths: [&[u8]; 7] =
        [b"", b"~", b"~/", b"~/x", b"~/~/x", b"~/a\xffb", b"\xff~/"];
    for home in homes {
        for path in paths {
            let once = resolve_tilde(path, home);
            assert_eq!(resolve_tilde(&once, home), once);
        }
    }
    // A home that begins with a tilde itself is expanded twice.
    assert_eq!(resolve_tilde(b"~/x", Some(b"~/h")), b"~/h/x".to_vec());
    assert_eq!(resolve_tilde(b"~/h/x", Some(b"~/h")), b"~/h/h/x".to_vec());
}

#[test]
fn the_directory_of_the_state_file_is_watched() {
    assert_eq!(watch_dir(b"/home/u/.pulse/state.json"), b"/home/u/.pulse".to_vec());
    assert_eq!(watch_dir(b"/state.json"), b"/".to_vec());
    assert_eq!(watch_dir(b"state.json"), b"".to_vec());
    assert_eq!(watch_dir(b"/"), b"/".to_vec());
    assert_eq!(watch_dir(b""), b"".to_vec());
    for path in all_strings(b"/.a", 6) {
        let path = as_path(&path);
        let expected = path.parent().unwrap_or(path).to_str().unwrap().as_bytes().to_vec();
        assert_eq!(watch_dir(path.to_str().unwrap().as_bytes()), expected);
    }
}

#[test]
fn files_stand_beside_the_state_file() {
    assert_eq!(actions_log_path(b"/tmp/pulse-state.json"), b"/tmp/actions.log".to_vec());
    assert_eq!(learn_json_path(b"/tmp/pulse-state.json"), b"/tmp/learn.json".to_vec());
    assert_eq!(actions_log_path(b"state.json"), b"actions.log".to_vec());
    assert_eq!(actions_log_path(b"/"), b"./actions.log".to_vec());
    assert_eq!(learn_json_path(b""), b"./learn.json".to_vec());
}
