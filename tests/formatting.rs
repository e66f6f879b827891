use prompt_utils::env::command_result::{CommandResult, ExitCode};
use prompt_utils::env::git::{AheadBehind, ChangeSummary, FileStatus, Head, StatusSummary};
use prompt_utils::env::path::Path;
use prompt_utils::env::python::{query_conda_env, query_venv};
use prompt_utils::fmt::command_result::{
    write_command_result, write_command_result_with_defaults, write_exit_code_symbol,
    write_exit_code_symbol_with_defaults, When,
};
use prompt_utils::fmt::duration::{
    write_all, write_nonzero, write_skip_high_and_low_zeros, write_skip_high_zeros,
    write_skip_low_zeros, write_some, HumanDuration,
};
use prompt_utils::fmt::git::{write_ahead_behind, write_change_summary, write_head, write_status_summary};
use prompt_utils::fmt::path::{write_full, write_short, write_with_middle_hidden};
use prompt_utils::styling::{Change, Color, StyleChange, StyledWrite};
use prompt_utils::writers::ansi::ANSIStyledWriter;
use prompt_utils::writers::not_styled::NotStyledWriter;

fn plain<F: FnOnce(&mut NotStyledWriter<String>)>(f: F) -> String {
    let mut writer = NotStyledWriter::new(String::new());
    f(&mut writer);
    writer.into_inner()
}

fn parts(d: &HumanDuration) -> [u128; 7] {
    [
        d.days(),
        d.hours() as u128,
        d.minutes() as u128,
        d.seconds() as u128,
        d.milliseconds() as u128,
        d.microseconds() as u128,
        d.nanoseconds() as u128,
    ]
}

#[test]
fn duration_from_totals() {
    let total: u128 = ((((2 * 24 + 3) * 60 + 4) * 60 + 5) * 1000 + 6) * 1_000_000 + 7 * 1000 + 8;
    assert_eq!(parts(&HumanDuration::from_nanoseconds(total)), [2, 3, 4, 5, 6, 7, 8]);
    assert_eq!(parts(&HumanDuration::from_seconds(90061)), [1, 1, 1, 1, 0, 0, 0]);
    assert_eq!(parts(&HumanDuration::from_milliseconds(1500)), [0, 0, 0, 1, 500, 0, 0]);
    assert_eq!(parts(&HumanDuration::from_microseconds(1_000_001)), [0, 0, 0, 1, 0, 1, 0]);
    assert_eq!(parts(&HumanDuration::from_minutes(1441)), [1, 0, 1, 0, 0, 0, 0]);
    assert_eq!(parts(&HumanDuration::from_hours(49)), [2, 1, 0, 0, 0, 0, 0]);
    assert_eq!(parts(&HumanDuration::from_days(9)), [9, 0, 0, 0, 0, 0, 0]);
    assert_eq!(parts(&HumanDuration::from_duration(3661, 2_003_004)), [0, 1, 1, 1, 2, 3, 4]);
    assert_eq!(parts(&HumanDuration::from_nanoseconds(u128::MAX)), {
        let ns = u128::MAX;
        [
            ns / 86_400_000_000_000,
            ns / 3_600_000_000_000 % 24,
            ns / 60_000_000_000 % 60,
            ns / 1_000_000_000 % 60,
            ns / 1_000_000 % 1000,
            ns / 1000 % 1000,
            ns % 1000,
        ]
    });
}

#[test]
fn duration_constructors_and_truncation() {
    assert!(HumanDuration::try_new(1, 24, 0, 0, 0, 0, 0).is_none());
    assert!(HumanDuration::try_new(1, 0, 0, 60, 0, 0, 0).is_none());
    assert!(HumanDuration::try_new(1, 0, 0, 0, 0, 1000, 0).is_none());
    let d = HumanDuration::try_new(1, 23, 59, 59, 999, 999, 999).unwrap();
    assert_eq!(parts(&d), [1, 23, 59, 59, 999, 999, 999]);
    assert_eq!(d, HumanDuration::new(1, 23, 59, 59, 999, 999, 999));
    assert_eq!(parts(&d.truncated_to_days()), [1, 0, 0, 0, 0, 0, 0]);
    assert_eq!(parts(&d.truncated_to_hours()), [1, 23, 0, 0, 0, 0, 0]);
    assert_eq!(parts(&d.truncated_to_minutes()), [1, 23, 59, 0, 0, 0, 0]);
    assert_eq!(parts(&d.truncated_to_seconds()), [1, 23, 59, 59, 0, 0, 0]);
    assert_eq!(parts(&d.truncated_to_milliseconds()), [1, 23, 59, 59, 999, 0, 0]);
    assert_eq!(parts(&d.truncated_to_microseconds()), [1, 23, 59, 59, 999, 999, 0]);
}

#[test]
fn duration_writers() {
    let d = HumanDuration::new(0, 2, 0, 7, 0, 30, 0);
    assert_eq!(plain(|w| write_all(w, d).unwrap()), "0d 2h 0m 7s 0ms 30\u{b5}s 0ns");
    assert_eq!(plain(|w| write_nonzero(w, d).unwrap()), "2h 7s 30\u{b5}s");
    assert_eq!(
        plain(|w| write_some(w, d, true, false, true, false, false, true, true).unwrap()),
        "0d 0m 30\u{b5}s 0ns"
    );
    assert_eq!(plain(|w| write_skip_high_zeros(w, d).unwrap()), "2h 0m 7s 0ms 30\u{b5}s 0ns");
    assert_eq!(plain(|w| write_skip_low_zeros(w, d).unwrap()), "0d 2h 0m 7s 0ms 30\u{b5}s");
    assert_eq!(plain(|w| write_skip_high_and_low_zeros(w, d).unwrap()), "2h 0m 7s 0ms 30\u{b5}s");
    let zero = HumanDuration::from_days(0);
    assert_eq!(plain(|w| write_nonzero(w, zero).unwrap()), "");
    assert_eq!(plain(|w| write_skip_high_zeros(w, zero).unwrap()), "");
    assert_eq!(plain(|w| write_skip_low_zeros(w, zero).unwrap()), "");
    assert_eq!(plain(|w| write_skip_high_and_low_zeros(w, zero).unwrap()), "");
    let big = HumanDuration::from_days(12345678901234567890);
    assert_eq!(plain(|w| write_skip_low_zeros(w, big).unwrap()), "12345678901234567890d");
}

#[test]
fn exit_code_symbols() {
    assert!(ExitCode(0).is_success() && !ExitCode(0).is_failure());
    assert!(ExitCode(-1).is_failure());
    let out = plain(|w| write_exit_code_symbol_with_defaults(w, ExitCode(0), When::Always).unwrap());
    assert_eq!(out, "\u{2714} 0");
    let out = plain(|w| write_exit_code_symbol_with_defaults(w, ExitCode(0), When::OnError).unwrap());
    assert_eq!(out, "\u{2714}");
    let out = plain(|w| write_exit_code_symbol_with_defaults(w, ExitCode(-13), When::OnError).unwrap());
    assert_eq!(out, "\u{2718} -13");
    let out = plain(|w| write_exit_code_symbol_with_defaults(w, ExitCode(2), When::Never).unwrap());
    assert_eq!(out, "\u{2718}");

    let mut writer = ANSIStyledWriter::new(String::new());
    write_exit_code_symbol_with_defaults(&mut writer, ExitCode(127), When::Always).unwrap();
    assert_eq!(writer.into_inner(), "\x1B[91m\u{2718} 127\x1B[39m");

    let mut writer = ANSIStyledWriter::new(String::new());
    let bold = StyleChange { bold: Change::SetTo(true), ..StyleChange::keep() };
    write_exit_code_symbol(&mut writer, ExitCode(0), "ok", bold, "no", StyleChange::keep(), When::Always).unwrap();
    assert_eq!(writer.into_inner(), "\x1B[22;1mok 0\x1B[22m");
}

#[test]
fn command_results() {
    assert_eq!(CommandResult::from_success(true), CommandResult::Success);
    assert!(CommandResult::from_success(false).is_failure());
    let mut writer = ANSIStyledWriter::new(String::new());
    write_command_result_with_defaults(&mut writer, CommandResult::Success).unwrap();
    assert_eq!(writer.into_inner(), "\x1B[92m\u{2714}\x1B[39m");
    let mut writer = ANSIStyledWriter::new(String::new());
    let blue = StyleChange { background: Change::SetTo(Color::ANSI256(4)), ..StyleChange::keep() };
    write_command_result(&mut writer, CommandResult::Failure, "+", StyleChange::keep(), "-", blue).unwrap();
    assert_eq!(*writer.style(), prompt_utils::styling::Style::default());
    assert_eq!(writer.into_inner(), "\x1B[48;5;4m-\x1B[49m");
}

#[test]
fn git_summaries() {
    let ab = |ahead, behind| AheadBehind { ahead, behind };
    assert_eq!(plain(|w| write_ahead_behind(w, &ab(0, 0)).unwrap()), "\u{2261}");
    assert_eq!(plain(|w| write_ahead_behind(w, &ab(3, 0)).unwrap()), "\u{2191}3");
    assert_eq!(plain(|w| write_ahead_behind(w, &ab(0, 12)).unwrap()), "\u{2193}12");
    assert_eq!(plain(|w| write_ahead_behind(w, &ab(1, 2)).unwrap()), "\u{2191}1 \u{2193}2");

    let changes = |added, modified, deleted| ChangeSummary { added, modified, deleted };
    assert_eq!(plain(|w| write_change_summary(w, &changes(1, 0, 3)).unwrap()), "+1 -3");
    assert_eq!(plain(|w| write_change_summary(w, &changes(0, 2, 0)).unwrap()), "~2");
    let status = StatusSummary { working_tree: changes(0, 2, 0), staging: changes(1, 0, 0), conflicted: 4 };
    assert!(status.any_changes());
    assert_eq!(plain(|w| write_status_summary(w, &status).unwrap()), "+1 | ~2 !4");
    let status = StatusSummary { working_tree: changes(5, 0, 0), staging: changes(0, 0, 0), conflicted: 0 };
    assert_eq!(plain(|w| write_status_summary(w, &status).unwrap()), "| +5");
    let status = StatusSummary { working_tree: changes(0, 0, 0), staging: changes(0, 0, 0), conflicted: 1 };
    assert_eq!(plain(|w| write_status_summary(w, &status).unwrap()), "!1");
    assert!(!StatusSummary::default().any_changes());
    assert!(!ChangeSummary::default().any_changes());
}

#[test]
fn status_summary_counts_files() {
    let file = FileStatus::default();
    let statuses = vec![
        FileStatus { index_new: true, worktree_modified: true, ..file },
        FileStatus { index_new: true, index_deleted: true, ..file },
        FileStatus { index_deleted: true, index_modified: true, worktree_new: true, ..file },
        FileStatus { index_modified: true, worktree_deleted: true, conflicted: true, ..file },
        file,
    ];
    let summary = StatusSummary::from_file_statuses(&statuses);
    assert_eq!(
        summary,
        StatusSummary {
            staging: ChangeSummary { added: 2, modified: 1, deleted: 1 },
            working_tree: ChangeSummary { added: 1, modified: 1, deleted: 1 },
            conflicted: 1,
        }
    );
}

#[test]
fn heads() {
    let head = Head::Unborn { target: "refs/heads/main".to_string() };
    assert_eq!(plain(|w| write_head(w, &head).unwrap()), "\u{25cb}main");
    let head = Head::Unborn { target: "refs/tags/v1".to_string() };
    assert_eq!(plain(|w| write_head(w, &head).unwrap()), "\u{25cb}refs/tags/v1");
    let head = Head::Commit("0123456789abcdef".to_string());
    assert_eq!(plain(|w| write_head(w, &head).unwrap()), "\u{25c9}012345");
    let head = Head::Commit("abc".to_string());
    assert_eq!(plain(|w| write_head(w, &head).unwrap()), "\u{25c9}abc");
    let head = Head::Branch { name: "dev".to_string(), upstream: Ok(Some(AheadBehind { ahead: 2, behind: 0 })) };
    assert_eq!(plain(|w| write_head(w, &head).unwrap()), "\u{e0a0}dev \u{2191}2");
    let head = Head::Branch { name: "dev".to_string(), upstream: Ok(None) };
    assert_eq!(plain(|w| write_head(w, &head).unwrap()), "\u{e0a0}dev");
    let head = Head::Branch { name: "dev".to_string(), upstream: Err("no".to_string()) };
    assert_eq!(plain(|w| write_head(w, &head).unwrap()), "\u{e0a0}dev");
}

#[test]
fn path_forms() {
    let path = Path::new("/Users/Shared/projects/app");
    assert_eq!(plain(|w| write_full(w, &path, "/", "", None).unwrap()), "/Users/Shared/projects/app");
    assert_eq!(plain(|w| write_full(w, &path, "\\", "", Some("C:\\")).unwrap()), "C:\\Users\\Shared\\projects\\app");
    assert_eq!(plain(|w| write_full(w, &Path::new("a/b"), " > ", "", None).unwrap()), "a > b");
    assert_eq!(plain(|w| write_full(w, &Path::new("/"), "/", "", None).unwrap()), "/");
    assert_eq!(plain(|w| write_full(w, &Path::new(""), "/", "", None).unwrap()), "");
    assert_eq!(
        plain(|w| write_with_middle_hidden(w, &path, "/", "", None, "\u{2026}").unwrap()),
        "/\u{2026}/\u{2026}/\u{2026}/app"
    );
    assert_eq!(
        plain(|w| write_with_middle_hidden(w, &Path::new("./a/b/../c"), "/", "", None, "*").unwrap()),
        "./*/*/*/c"
    );
    assert_eq!(plain(|w| write_short(w, &path, "/", "", None, "..").unwrap()), "/../app");
    assert_eq!(plain(|w| write_short(w, &Path::new("a/b"), "/", "", None, "..").unwrap()), "a/b");
    assert_eq!(plain(|w| write_short(w, &Path::new("/"), "/", "", Some("R"), "..").unwrap()), "/");
    assert_eq!(plain(|w| write_short(w, &Path::new("/x"), "/", "", Some("R"), "..").unwrap()), "Rx");
}

#[test]
fn venv_is_the_last_name_of_its_directory() {
    let env = |name: &str| if name == "VIRTUAL_ENV" { Some("/home/u/envs/proj/".to_string()) } else { None };
    assert_eq!(query_venv(env), Some("proj".to_string()));
    let dotdot = |_: &str| Some("/home/u/..".to_string());
    assert_eq!(query_venv(dotdot), None);
    let unset = |_: &str| None::<String>;
    assert_eq!(query_venv(unset), None);
    assert_eq!(Path::new("/").file_name(), None);
    assert_eq!(Path::new("a/b.txt").file_name(), Some("b.txt".to_string()));
}

#[test]
fn conda_env_is_read_from_its_variable() {
    let env = |name: &str| if name == "CONDA_DEFAULT_ENV" { Some("base".to_string()) } else { None };
    assert_eq!(query_conda_env(env), Some("base".to_string()));
    let empty = |_: &str| None::<String>;
    assert_eq!(query_conda_env(empty), None);
}

/// A sink whose every write fails.
struct Broken;

impl prompt_utils::styling::TextSink for Broken {
    fn write_text(&mut self, _s: &str) -> Result<(), std::io::Error> {
        Err(std::io::Error::new(std::io::ErrorKind::BrokenPipe, "closed"))
    }

    fn flush_text(&mut self) -> Result<(), std::io::Error> {
        Err(std::io::Error::new(std::io::ErrorKind::BrokenPipe, "closed"))
    }
}

#[test]
fn writer_errors_propagate() {
    let mut writer = NotStyledWriter::new(Broken);
    let err = write_status_summary(&mut writer, &StatusSummary { conflicted: 1, ..StatusSummary::default() }).unwrap_err();
    assert_eq!(err.kind(), std::io::ErrorKind::BrokenPipe);
    assert!(writer.flush().is_err());
    let mut writer = ANSIStyledWriter::new(Broken);
    let red = StyleChange { foreground: Change::SetTo(Color::ANSI256(1)), ..StyleChange::keep() };
    assert!(writer.change_style(red).is_err());
    assert_eq!(*writer.style(), prompt_utils::styling::Style::default());
    assert!(writer.reset_style().is_err());
}
