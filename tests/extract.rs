use unitypackage_extractor::entry::{
    classify_entry, is_asset_entry, is_contained, plan_entry, EntryOutcome,
};
use unitypackage_extractor::error::ExtractError;
use unitypackage_extractor::path::{declared_pathname, is_within, join_path, split_segments};
use unitypackage_extractor::report::ExtractionReport;
use unitypackage_extractor::sanitize::{forbidden_char, sanitize_pathname, Target};
use unitypackage_extractor::transfer::{
    first_move_step, move_finished, move_result, next_move_step, MoveStep,
};

fn segs(p: &str) -> Vec<String> {
    split_segments(p).into_iter().map(|s| s.into_iter().collect()).collect()
}

#[test]
fn sanitize_replaces_forbidden_on_windows() {
    assert_eq!(sanitize_pathname("a>b:c\"d|e?f*g", Target::Windows), "a_b_c_d_e_f_g");
    assert_eq!(sanitize_pathname("Assets/x.png", Target::Windows), "Assets/x.png");
}

#[test]
fn sanitize_keeps_everything_on_posix() {
    assert_eq!(sanitize_pathname("a>b:c?*", Target::Posix), "a>b:c?*");
}

#[test]
fn sanitize_twice_equals_once() {
    for s in ["", "a?b", "??::", "plain/name.txt", "ü*ñ|"] {
        let once = sanitize_pathname(s, Target::Windows);
        assert_eq!(sanitize_pathname(&once, Target::Windows), once);
    }
}

#[test]
fn forbidden_set_is_exact() {
    for c in ['>', ':', '"', '|', '?', '*'] {
        assert!(forbidden_char(c));
    }
    for c in ['<', '/', '\\', 'a', '_', ' '] {
        assert!(!forbidden_char(c));
    }
}

#[test]
fn declared_pathname_strips_line_endings() {
    assert_eq!(declared_pathname("Assets/a.txt\n"), "Assets/a.txt");
    assert_eq!(declared_pathname("Assets/a.txt\r\n"), "Assets/a.txt");
    assert_eq!(declared_pathname("Assets/a.txt"), "Assets/a.txt");
    assert_eq!(declared_pathname("\n"), "");
    assert_eq!(declared_pathname("a b \n"), "a b ");
}

#[test]
fn join_follows_platform_rules() {
    assert_eq!(join_path("/d", "x/y"), "/d/x/y");
    assert_eq!(join_path("/d/", "x"), "/d/x");
    assert_eq!(join_path("", "x"), "x");
    assert_eq!(join_path("/d", "/etc/passwd"), "/etc/passwd");
    assert_eq!(join_path("/d", ""), "/d/");
}

#[test]
fn segments_skip_empty_and_dot() {
    assert_eq!(segs("/a//b/./c/"), vec!["a", "b", "c"]);
    assert_eq!(segs("a/../b"), vec!["a", "..", "b"]);
    assert!(segs("/").is_empty());
    assert!(segs("").is_empty());
}

#[test]
fn within_compares_whole_segments() {
    assert!(is_within("/d", "/d"));
    assert!(is_within("/d", "/d/x/y"));
    assert!(is_within("/d/", "/d/x"));
    assert!(!is_within("/d", "/dx"));
    assert!(!is_within("/d/x", "/d"));
    assert!(!is_within("/d", "d/x"));
    assert!(!is_within("/d", "/etc/passwd"));
}

#[test]
fn containment_rejects_traversal() {
    assert!(!is_contained("/dest", "../../etc/passwd"));
    assert!(!is_contained("/dest", "a/../../x"));
    assert!(!is_contained("/dest", ".."));
    assert!(!is_contained("/dest", "../dest2/x"));
}

#[test]
fn containment_accepts_inside_paths() {
    assert!(is_contained("/dest", "models/robot.fbx"));
    assert!(is_contained("/dest", "a/../b.txt"));
    assert!(is_contained("/dest", "./x"));
}

#[test]
fn absolute_pathname_is_checked_against_root() {
    assert!(!is_contained("/dest", "/etc/passwd"));
    assert!(is_contained("/dest", "/dest/inner.txt"));
}

#[test]
fn plan_for_safe_entry() {
    let p = plan_entry("/dest", "models/robot.fbx\n", Target::Posix);
    assert!(p.safe);
    assert_eq!(p.pathname, "models/robot.fbx");
    assert_eq!(p.out_path, "/dest/models/robot.fbx");
}

#[test]
fn plan_for_normalizing_entry() {
    let p = plan_entry("/dest", "a/../b.txt\r\n", Target::Posix);
    assert!(p.safe);
    assert_eq!(p.out_path, "/dest/a/../b.txt");
}

#[test]
fn plan_for_unsafe_entry() {
    let p = plan_entry("/dest", "../../etc/passwd\n", Target::Posix);
    assert!(!p.safe);
    assert_eq!(p.pathname, "../../etc/passwd");
    assert_eq!(p.out_path, "/dest/../../etc/passwd");
}

#[test]
fn plan_sanitizes_for_windows() {
    let p = plan_entry("/dest", "Assets/what?.txt\n", Target::Windows);
    assert!(p.safe);
    assert_eq!(p.pathname, "Assets/what_.txt");
    assert_eq!(p.out_path, "/dest/Assets/what_.txt");
}

#[test]
fn malformed_entries_are_skipped() {
    assert!(is_asset_entry(true, true, true));
    assert!(!is_asset_entry(true, false, true));
    assert!(!is_asset_entry(true, true, false));
    assert!(!is_asset_entry(false, true, true));
    assert_eq!(classify_entry(false, true), EntryOutcome::SkippedMalformed);
    assert_eq!(classify_entry(true, false), EntryOutcome::SkippedUnsafe);
    assert_eq!(classify_entry(true, true), EntryOutcome::Extracted);
}

#[test]
fn move_renames_when_it_can() {
    let s = first_move_step();
    assert_eq!(s, MoveStep::Rename);
    let s = next_move_step(s, true);
    assert_eq!(s, MoveStep::Done);
    assert!(move_finished(s));
    assert_eq!(move_result(s), Ok(()));
}

#[test]
fn move_falls_back_to_copy_then_remove() {
    let s = next_move_step(first_move_step(), false);
    assert_eq!(s, MoveStep::Copy);
    assert!(!move_finished(s));
    let s = next_move_step(s, true);
    assert_eq!(s, MoveStep::RemoveSource);
    let s = next_move_step(s, true);
    assert_eq!(s, MoveStep::Done);
    assert_eq!(move_result(s), Ok(()));
}

#[test]
fn move_fails_when_copy_fails() {
    let s = next_move_step(first_move_step(), false);
    let s = next_move_step(s, false);
    assert_eq!(s, MoveStep::Failed);
    assert!(move_finished(s));
    assert_eq!(move_result(s), Err(ExtractError::Write));
}

#[test]
fn move_fails_when_remove_fails() {
    let s = next_move_step(MoveStep::RemoveSource, false);
    assert_eq!(move_result(s), Err(ExtractError::Write));
}

#[test]
fn report_counts_outcomes() {
    let mut r = ExtractionReport::new();
    assert_eq!(r.len(), 0);
    r.record(EntryOutcome::Extracted);
    r.record(EntryOutcome::SkippedMalformed);
    r.record(EntryOutcome::Extracted);
    r.record(EntryOutcome::SkippedUnsafe);
    assert_eq!(r.len(), 4);
    assert_eq!(r.count(EntryOutcome::Extracted), 2);
    assert_eq!(r.count(EntryOutcome::SkippedMalformed), 1);
    assert_eq!(r.count(EntryOutcome::SkippedUnsafe), 1);
}

#[test]
fn distinct_pathnames_land_on_distinct_paths() {
    let names = ["Assets/a.txt", "Assets/b.txt", "Assets/sub/a.txt", "a.txt"];
    let mut outs: Vec<String> = Vec::new();
    for n in names {
        let p = plan_entry("/dest", &format!("{}\n", n), Target::Posix);
        assert!(p.safe);
        assert_eq!(p.out_path, format!("/dest/{}", n));
        assert!(!outs.contains(&p.out_path));
        outs.push(p.out_path);
    }
}
