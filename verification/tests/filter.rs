use ignore::gitignore::{Gitignore, GitignoreBuilder};
use tcr::event::FileChangeEvent;
use tcr::filter::{can_ask, decide, Checker, PathVerdict};
use tcr::paths::is_swap_extension;

const ROOT: &str = "/tmp/test";

fn under_root(name: &str) -> String {
    format!("{}/{}", ROOT, name)
}

fn rules(root: &str, lines: &[&str]) -> Gitignore {
    let mut builder = GitignoreBuilder::new(root);
    for line in lines {
        builder.add_line(None, line).unwrap();
    }
    builder.build().unwrap()
}

fn event_for_path(path: String) -> FileChangeEvent {
    FileChangeEvent {
        paths: vec![path],
        is_dir: false,
    }
}

fn event_for_dir(path: String) -> FileChangeEvent {
    FileChangeEvent {
        paths: vec![path],
        is_dir: true,
    }
}

#[test]
fn test_ignore_no_gitignore() {
    let mut checker = Checker::new(ROOT.to_string(), None);

    let event = event_for_path(under_root("foo"));
    assert_eq!(checker.is_ignored(event), false);
}

#[test]
fn test_gitignore_no_match() {
    let gi = rules(ROOT, &["bar"]);

    let mut checker = Checker::new(ROOT.to_string(), Some(gi));

    let event = event_for_path(under_root("foo"));

    assert_eq!(checker.is_ignored(event), false);
}

#[test]
fn test_gitignore_match() {
    let gi = rules(ROOT, &["bar"]);

    let mut checker = Checker::new(ROOT.to_string(), Some(gi));

    let event = event_for_path(under_root("bar"));

    assert_eq!(checker.is_ignored(event), true);
}

#[test]
fn test_ignores_git_dir() {
    let gi = rules(ROOT, &["bar"]);

    let mut checker = Checker::new(ROOT.to_string(), Some(gi));

    let event = event_for_path(format!("{}/.git/{}", ROOT, "some_file"));

    assert_eq!(checker.is_ignored(event), true);
}

#[test]
fn test_gitignore_match_file_doesnt_exist() {
    let gi = rules(ROOT, &["bar"]);

    let mut checker = Checker::new(ROOT.to_string(), Some(gi));

    let event = event_for_path(under_root("bar"));
    assert_eq!(checker.is_ignored(event), true);
}

#[test]
fn test_gitignore_match_emacs_tmp_file() {
    let mut checker = Checker::new(ROOT.to_string(), None);

    let event = event_for_path(under_root(".#blah"));
    assert_eq!(checker.is_ignored(event), true);
}

#[test]
fn test_gitignore_match_vim_tmp_file() {
    let mut checker = Checker::new(ROOT.to_string(), None);

    let event = event_for_path(under_root(".something.swp"));
    assert_eq!(checker.is_ignored(event), true);
}

#[test]
fn test_gitignore_match_target_directory_glob() {
    let gi = rules(ROOT, &["target/**"]);

    let mut checker = Checker::new(ROOT.to_string(), Some(gi));

    let event = event_for_path(format!("{}/target/debug/tcr.d", ROOT));

    assert_eq!(checker.is_ignored(event), true);
}

#[test]
fn test_gitignore_match_target_directory() {
    let gi = rules(ROOT, &["target"]);

    let mut checker = Checker::new(ROOT.to_string(), Some(gi));

    let event = event_for_path(format!("{}/target/debug/tcr.d", ROOT));

    assert_eq!(checker.is_ignored(event), true);
}

#[test]
fn vcs_directory_itself_is_ignored_as_a_directory() {
    let mut checker = Checker::new("/home/stuff".to_string(), None);
    assert!(checker.is_ignored(event_for_dir("/home/stuff/.git".to_string())));
}

#[test]
fn vcs_paths_are_ignored_whatever_the_rules_say() {
    let whitelist = rules(ROOT, &["*", "!.git", "!.git/**"]);
    let mut checker = Checker::new(ROOT.to_string(), Some(whitelist));
    let event = FileChangeEvent {
        paths: vec![under_root(".git/HEAD"), under_root(".git/objects/ab/cdef")],
        is_dir: false,
    };
    assert!(checker.is_ignored(event));

    let mut no_rules = Checker::new(ROOT.to_string(), None);
    assert!(no_rules.is_ignored(event_for_path(under_root(".git/index.lock"))));
}

#[test]
fn root_is_not_its_own_vcs_directory() {
    let checker = Checker::new(ROOT.to_string(), None);
    assert!(!checker.is_noise(ROOT));
    assert!(!checker.is_noise(&under_root(".gitignore")));
    assert!(!checker.is_noise(&under_root(".github/workflows/ci.yml")));
    assert!(checker.is_noise(&under_root(".git")));
    assert!(checker.is_noise(&under_root(".git/config")));
    assert!(!checker.is_noise("/tmp/other/.git/config"));
}

#[test]
fn editor_files_are_ignored_without_rules() {
    let mut checker = Checker::new(ROOT.to_string(), None);
    let event = FileChangeEvent {
        paths: vec![under_root(".#scratch"), under_root("foo.swp"), under_root("src/.main.rs.swo")],
        is_dir: false,
    };
    assert!(checker.is_ignored(event));
}

#[test]
fn noise_of_both_kinds_in_one_event_is_ignored() {
    let mut checker = Checker::new(ROOT.to_string(), None);
    let event = FileChangeEvent {
        paths: vec![under_root(".git/HEAD"), under_root("foo.swp")],
        is_dir: false,
    };
    assert!(checker.is_ignored(event));
}

#[test]
fn one_interesting_path_keeps_the_event() {
    let gi = rules(ROOT, &["target"]);
    let mut checker = Checker::new(ROOT.to_string(), Some(gi));
    let noise_and_real = FileChangeEvent {
        paths: vec![under_root(".git/HEAD"), under_root("src/main.rs")],
        is_dir: false,
    };
    assert!(!checker.is_ignored(noise_and_real));
    let matched_and_real = FileChangeEvent {
        paths: vec![under_root("target/debug/x"), under_root("src/main.rs")],
        is_dir: false,
    };
    assert!(!checker.is_ignored(matched_and_real));
    let all_matched = FileChangeEvent {
        paths: vec![under_root("target/debug/x"), under_root("target/release/y")],
        is_dir: false,
    };
    assert!(checker.is_ignored(all_matched));
}

#[test]
fn noise_and_matched_paths_together_are_not_enough() {
    let gi = rules(ROOT, &["target"]);
    let mut checker = Checker::new(ROOT.to_string(), Some(gi));
    let event = FileChangeEvent {
        paths: vec![under_root(".git/HEAD"), under_root("target/debug/x")],
        is_dir: false,
    };
    assert!(!checker.is_ignored(event));
}

#[test]
fn event_without_paths_is_ignored() {
    let mut checker = Checker::new(ROOT.to_string(), None);
    let event = FileChangeEvent {
        paths: vec![],
        is_dir: false,
    };
    assert!(checker.is_ignored(event));
}

#[test]
fn editor_file_rules() {
    let checker = Checker::new(ROOT.to_string(), None);
    assert!(checker.is_editor_file("/tmp/test/foo.swp"));
    assert!(checker.is_editor_file("/tmp/test/foo.swx"));
    assert!(checker.is_editor_file("/tmp/test/foo.sw"));
    assert!(checker.is_editor_file("/tmp/test/foo.swift"));
    assert!(checker.is_editor_file("/tmp/test/.#foo.rs"));
    assert!(checker.is_editor_file("/tmp/test/src/.#foo.rs"));
    assert!(checker.is_editor_file("a.#b"));
    assert!(!checker.is_editor_file("/tmp/test/foo.rs"));
    assert!(!checker.is_editor_file("/tmp/test/swing.txt"));
    assert!(!checker.is_editor_file("swing.txt"));
    assert!(!checker.is_editor_file("/tmp/test/.swp"));
    assert!(!checker.is_editor_file("/tmp/test/foo.s"));
    assert!(!checker.is_editor_file("/tmp/test/foo.asw"));
    assert!(!checker.is_editor_file("/tmp/test/issue#12"));
    assert!(!checker.is_editor_file("/tmp/test/#foo#"));
    assert!(!checker.is_editor_file(""));
}

#[test]
fn swap_extension_begins_with_sw() {
    assert!(is_swap_extension("sw"));
    assert!(is_swap_extension("swp"));
    assert!(is_swap_extension("swo"));
    assert!(!is_swap_extension(""));
    assert!(!is_swap_extension("s"));
    assert!(!is_swap_extension("ws"));
    assert!(!is_swap_extension("asw"));
    assert!(!is_swap_extension("Sw"));
}

#[test]
fn directory_only_rule_needs_a_directory() {
    let gi = rules(ROOT, &["build/"]);
    let mut checker = Checker::new(ROOT.to_string(), Some(gi));
    assert!(!checker.is_ignored(event_for_path(under_root("build"))));
    assert!(checker.is_ignored(event_for_dir(under_root("build"))));
    assert!(checker.is_ignored(event_for_path(under_root("build/out.o"))));
}

#[test]
fn whitelisted_path_is_not_matched() {
    let gi = rules(ROOT, &["*.log", "!keep.log"]);
    let checker = Checker::new(ROOT.to_string(), Some(gi));
    assert!(checker.is_matched(&under_root("debug.log"), false));
    assert!(!checker.is_matched(&under_root("keep.log"), false));
}

#[test]
fn relative_paths_are_matched_against_the_root() {
    let gi = rules(ROOT, &["target"]);
    let checker = Checker::new(ROOT.to_string(), Some(gi));
    assert!(checker.is_matched("target/debug/x", false));
    assert!(checker.is_matched("./target/debug/x", false));
    assert!(!checker.is_matched("src/main.rs", false));
}

#[test]
fn path_outside_the_root_is_not_matched() {
    let gi = rules(ROOT, &["bar", "*"]);
    let mut checker = Checker::new(ROOT.to_string(), Some(gi));
    assert!(!checker.is_matched("/elsewhere/bar", false));
    assert!(!checker.is_matched("/tmp/test//bar", false));
    assert!(!checker.is_ignored(event_for_path("/elsewhere/bar".to_string())));
}

#[test]
fn rules_without_patterns_match_nothing() {
    let checker = Checker::new(ROOT.to_string(), Some(Gitignore::empty()));
    assert!(!checker.is_matched(&under_root("bar"), false));
    let no_rules = Checker::new(ROOT.to_string(), None);
    assert!(!no_rules.is_matched(&under_root("bar"), false));
}

#[test]
fn verdict_holds_both_findings() {
    let gi = rules(ROOT, &["*.swp"]);
    let checker = Checker::new(ROOT.to_string(), Some(gi));
    assert_eq!(
        checker.judge(&under_root("a.swp"), false),
        PathVerdict { noise: true, matched: true }
    );
    assert_eq!(
        checker.judge(&under_root("a.rs"), false),
        PathVerdict { noise: false, matched: false }
    );
    assert_eq!(
        checker.judge(&under_root(".git/a.rs"), false),
        PathVerdict { noise: true, matched: false }
    );
    assert!(checker.ignores_paths(&vec![under_root("a.swp"), under_root(".git/x")], false));
}

#[test]
fn rules_can_be_asked_about_paths_under_their_root() {
    assert!(can_ask("/tmp/test", "/tmp/test/bar"));
    assert!(can_ask("/tmp/test", "/tmp/test/"));
    assert!(can_ask("/tmp/test", "/tmp/test"));
    assert!(can_ask("/tmp/test", "bar"));
    assert!(can_ask("/tmp/test", "a/b"));
    assert!(can_ask("/tmp/test", "./a/b"));
    assert!(can_ask("/tmp/test", ""));
    assert!(can_ask("", "/bar"));
    assert!(can_ask("/tmp/test", "/tmp/testing/bar"));
    assert!(!can_ask("/tmp/test", "/elsewhere/bar"));
    assert!(!can_ask("/tmp/test", "/tmp/test//bar"));
    assert!(!can_ask("/tmp/test", "/tmp"));
    assert!(!can_ask("/tmp/test", ".//bar"));
    assert!(!can_ask(".", "/bar"));
    assert!(!can_ask("/tmp/test", "/"));
}

#[test]
fn decision_on_given_verdicts() {
    let noise = PathVerdict { noise: true, matched: false };
    let matched = PathVerdict { noise: false, matched: true };
    let both = PathVerdict { noise: true, matched: true };
    let neither = PathVerdict { noise: false, matched: false };
    assert!(decide(&vec![]));
    assert!(decide(&vec![noise]));
    assert!(decide(&vec![matched]));
    assert!(decide(&vec![noise, both, noise]));
    assert!(decide(&vec![matched, both]));
    assert!(!decide(&vec![neither]));
    assert!(!decide(&vec![noise, matched]));
    assert!(!decide(&vec![both, neither, both]));
}

fn short_paths(alphabet: &[char], longest: usize) -> Vec<String> {
    let mut all = vec![String::new()];
    let mut last = vec![String::new()];
    for _ in 0..longest {
        let mut longer = Vec::new();
        for path in &last {
            for c in alphabet {
                let mut next = path.clone();
                next.push(*c);
                longer.push(next);
            }
        }
        all.extend(longer.iter().cloned());
        last = longer;
    }
    all
}

#[test]
fn rules_are_asked_about_every_short_path_without_failing() {
    let paths = short_paths(&['.', '/', 'a'], 6);
    assert_eq!(paths.len(), 1093);
    for root in ["/a", "a", ".", "", "/", "./a", "a/", "/a/", "..", "a/a", "/a/a", "./."] {
        let gi = rules(root, &["a", "*.a", "/a/", "!a.a"]);
        let rules_root = gi.path().to_str().unwrap().to_string();
        let checker = Checker::new(String::from("/a"), Some(gi.clone()));
        for path in &paths {
            for is_dir in [false, true] {
                let matched = checker.is_matched(path, is_dir);
                if can_ask(&rules_root, path) {
                    assert_eq!(
                        matched,
                        gi.matched_path_or_any_parents(path, is_dir).is_ignore()
                    );
                } else {
                    assert!(!matched);
                }
            }
        }
    }
}

#[test]
fn rules_with_a_longer_root_are_asked_without_failing() {
    let paths = short_paths(&['/', 't', '.'], 5);
    let gi = rules("/t/t", &["t", "t/"]);
    let checker = Checker::new(String::from("/t/t"), Some(gi));
    let mut matched = 0;
    for tail in &paths {
        for head in ["/t/t", "/t/t/", "/t", "./", ""] {
            let path = format!("{}{}", head, tail);
            if checker.is_matched(&path, false) {
                matched += 1;
            }
        }
    }
    assert!(matched > 0);
    assert!(checker.is_matched("/t/t/t", false));
    assert!(!checker.is_matched("/t/t//t", false));
    assert!(!checker.is_matched("/t/t/.", false));
}
