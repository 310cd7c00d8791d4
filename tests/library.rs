use gf::dispatch::{assemble_args, dump_command, engine_args, exit_code, files_argument, render_dump};
use gf::error::GfError;
use gf::record::PatternRecord;
use gf::request::{new_record, plan_save, plan_use, select_mode, Mode};
use gf::resolve::{alternation_group, resolve, resolve_engine, resolve_flags, resolve_pattern};
use gf::store::{pattern_dir_under_home, pattern_file_name, pattern_name_of, pattern_names};

fn strings(items: &[&str]) -> Vec<String> {
    items.iter().map(|s| s.to_string()).collect()
}

fn record(
    flags: Option<&str>,
    pattern: Option<&str>,
    patterns: Option<&[&str]>,
    engine: Option<&str>,
) -> PatternRecord {
    PatternRecord {
        flags: flags.map(|s| s.to_string()),
        pattern: pattern.map(|s| s.to_string()),
        patterns: patterns.map(strings),
        engine: engine.map(|s| s.to_string()),
    }
}

fn dump_of(rec: &PatternRecord, args: &[&str]) -> String {
    let r = resolve(rec, "/home/u/.config/gf/p.json").unwrap();
    let files = files_argument(&strings(args));
    dump_command(&r.engine, &r.flags, &r.pattern, &files)
}

#[test]
fn test_list_patterns_empty() {
    assert!(pattern_names(false, &Vec::new()).is_empty());
    assert!(pattern_names(true, &Vec::new()).is_empty());
}

#[test]
fn test_save_pattern_and_list() {
    let rec = plan_save(
        &Some("testpattern".to_string()),
        &strings(&["-Hnri", "search-pattern"]),
        None,
    )
    .unwrap();
    assert_eq!(rec.pattern.as_deref(), Some("search-pattern"));
    let entries = vec![pattern_file_name("testpattern")];
    let names = pattern_names(true, &entries);
    assert!(names.contains(&"testpattern".to_string()));
}

#[test]
fn test_save_pattern_without_name() {
    let err = plan_save(&None, &Vec::new(), None).unwrap_err();
    assert!(err.message().contains("Name cannot be empty"));
}

#[test]
fn test_save_pattern_without_pattern() {
    let err = plan_save(&Some("test pattern".to_string()), &Vec::new(), None).unwrap_err();
    assert!(err.message().contains("Pattern cannot be empty"));
}

#[test]
fn test_use_nonexistent_pattern() {
    let (name, _) = plan_use(&Some("nonexistentpattern".to_string()), &Vec::new()).unwrap();
    let err = GfError::NotFound(name);
    assert!(err.message().contains("No such pattern 'nonexistentpattern'"));
}

#[test]
fn test_dump_pattern() {
    let rec = plan_save(
        &Some("testpattern".to_string()),
        &strings(&["-Hnri", "search-pattern"]),
        Some("rg".to_string()),
    )
    .unwrap();
    let line = dump_of(&rec, &["/path/to/files"]);
    assert!(line.contains("rg -Hnri \"search-pattern\" /path/to/files"));
}

#[test]
fn test_execute_pattern_with_piped_input() {
    let rec = plan_save(&Some("testpattern".to_string()), &strings(&["-nri", "test"]), None)
        .unwrap();
    let r = resolve(&rec, "/home/u/.config/gf/testpattern.json").unwrap();
    assert_eq!(r.engine, "grep");
    let files = files_argument(&Vec::new());
    assert_eq!(engine_args(&r.flags, &r.pattern, &files, true), strings(&["-nri", "test"]));
}

#[test]
fn test_pattern_file_malformed() {
    let err = GfError::Malformed("/home/u/.config/gf/malformedpattern.json".to_string());
    let msg = err.message();
    assert!(msg.contains("Pattern file"));
    assert!(msg.contains("is malformed"));
}

#[test]
fn test_pattern_with_no_patterns() {
    let rec = record(Some("-Hnri"), None, None, None);
    let err = resolve(&rec, "/home/u/.config/gf/emptypattern.json").unwrap_err();
    assert!(err.message().contains("contains no pattern(s)"));
}

#[test]
fn test_save_pattern_with_existing_name() {
    let err = GfError::AlreadyExists("/home/u/.config/gf/testpattern.json".to_string());
    assert!(err.message().contains("Failed to create pattern file"));
}

#[test]
fn test_dump_pattern_with_no_flags() {
    let rec = plan_save(
        &Some("noflagpattern".to_string()),
        &strings(&["", "search-pattern"]),
        None,
    )
    .unwrap();
    assert!(rec.flags.is_none());
    let line = dump_of(&rec, &["/path/to/files"]);
    assert!(line.contains("grep \"search-pattern\" /path/to/files"));
}

#[test]
fn test_list_patterns_with_multiple_patterns() {
    let entries = vec![pattern_file_name("pattern1"), pattern_file_name("pattern2")];
    let names = pattern_names(true, &entries);
    assert!(names.contains(&"pattern1".to_string()));
    assert!(names.contains(&"pattern2".to_string()));
}

#[test]
fn alternation_of_three_patterns() {
    let rec = record(None, None, Some(&["a", "b", "c"]), None);
    assert_eq!(resolve_pattern(&rec).unwrap(), "(a|b|c)");
    assert_eq!(alternation_group(&strings(&["only"])), "(only)");
}

#[test]
fn single_pattern_wins_over_list() {
    let rec = record(None, Some("x"), Some(&["a", "b"]), None);
    assert_eq!(resolve_pattern(&rec).unwrap(), "x");
}

#[test]
fn empty_pattern_list_has_no_content() {
    let rec = record(None, None, Some(&[]), None);
    assert!(resolve_pattern(&rec).is_none());
    match resolve(&rec, "/p/e.json") {
        Err(GfError::NoPatternContent(p)) => assert_eq!(p, "/p/e.json"),
        other => panic!("unexpected {:?}", other),
    }
    assert_eq!(
        GfError::NoPatternContent("/p/e.json".to_string()).message(),
        "Pattern file '/p/e.json' contains no pattern(s)"
    );
}

#[test]
fn dump_of_record_with_engine_and_flags() {
    let rec = record(Some("-Hnri"), Some("search-pattern"), None, Some("rg"));
    assert_eq!(
        dump_of(&rec, &["/path/to/files"]),
        "rg -Hnri \"search-pattern\" /path/to/files"
    );
}

#[test]
fn dump_with_empty_flags_has_single_spaces() {
    let rec = record(Some(""), Some("search-pattern"), None, None);
    assert_eq!(dump_of(&rec, &["/path/to/files"]), "grep \"search-pattern\" /path/to/files");
    let rec = record(None, Some("search-pattern"), None, None);
    assert_eq!(dump_of(&rec, &[]), "grep \"search-pattern\" .");
}

#[test]
fn dump_quotes_and_escapes_the_pattern() {
    let line = dump_command("grep", &None, "a\"b\\c", "f");
    assert_eq!(line, "grep \"a\\\"b\\\\c\" f");
}

#[test]
fn unknown_pattern_message_is_exact() {
    assert_eq!(GfError::NotFound("zz".to_string()).message(), "No such pattern 'zz'");
    assert_eq!(
        GfError::Malformed("/d/m.json".to_string()).message(),
        "Pattern file '/d/m.json' is malformed"
    );
    assert_eq!(
        GfError::AlreadyExists("/d/t.json".to_string()).message(),
        "Failed to create pattern file '/d/t.json': file may already exist"
    );
    assert_eq!(GfError::NameRequired.message(), "Pattern name is required");
    assert_eq!(GfError::SpawnFailure.message(), "Failed to execute command");
}

#[test]
fn engine_args_with_and_without_pipe() {
    let flags = Some("  -H   -n\t-r ".to_string());
    assert_eq!(
        engine_args(&flags, "pat", "dir", false),
        strings(&["-H", "-n", "-r", "pat", "dir"])
    );
    assert_eq!(engine_args(&flags, "pat", "dir", true), strings(&["-H", "-n", "-r", "pat"]));
    assert_eq!(engine_args(&None, "pat", ".", false), strings(&["pat", "."]));
    assert_eq!(engine_args(&Some(String::new()), "pat", ".", true), strings(&["pat"]));
}

#[test]
fn files_argument_defaults_to_current_directory() {
    assert_eq!(files_argument(&Vec::new()), ".");
    assert_eq!(files_argument(&strings(&["src", "extra"])), "src");
}

#[test]
fn engine_and_flags_resolution() {
    let rec = record(Some(""), Some("p"), None, None);
    assert_eq!(resolve_engine(&rec), "grep");
    assert!(resolve_flags(&rec).is_none());
    let rec = record(Some("-i"), Some("p"), None, Some("ag"));
    assert_eq!(resolve_engine(&rec), "ag");
    assert_eq!(resolve_flags(&rec).as_deref(), Some("-i"));
}

#[test]
fn entry_names_follow_the_extension() {
    assert_eq!(pattern_name_of("urls.json").as_deref(), Some("urls"));
    assert_eq!(pattern_name_of("a.b.json").as_deref(), Some("a.b"));
    assert_eq!(pattern_name_of("..json").as_deref(), Some("."));
    assert_eq!(pattern_name_of(".json"), None);
    assert_eq!(pattern_name_of("notes.txt"), None);
    assert_eq!(pattern_name_of("x.json.bak"), None);
    assert_eq!(pattern_name_of("json"), None);
    let entries = strings(&["b.json", "readme.md", "a.json", ".json"]);
    assert_eq!(pattern_names(true, &entries), strings(&["b", "a"]));
    assert!(pattern_names(false, &entries).is_empty());
}

#[test]
fn pattern_file_names_and_directory() {
    assert_eq!(pattern_file_name("ips"), "ips.json");
    assert_eq!(pattern_dir_under_home(true), ".config/gf");
    assert_eq!(pattern_dir_under_home(false), ".gf");
}

#[test]
fn new_record_checks_and_builds() {
    assert!(matches!(new_record("", "-i", "p", None), Err(GfError::EmptyName)));
    assert!(matches!(new_record("n", "-i", "", None), Err(GfError::EmptyPattern)));
    let rec = new_record("n", "", "p", Some("rg".to_string())).unwrap();
    assert!(rec.flags.is_none());
    assert_eq!(rec.pattern.as_deref(), Some("p"));
    assert!(rec.patterns.is_none());
    assert_eq!(rec.engine.as_deref(), Some("rg"));
    let rec = new_record("n", "-i", "p", None).unwrap();
    assert_eq!(rec.flags.as_deref(), Some("-i"));
}

#[test]
fn save_plan_error_order() {
    let empty = Some(String::new());
    assert!(matches!(plan_save(&empty, &Vec::new(), None), Err(GfError::EmptyPattern)));
    assert!(matches!(plan_save(&empty, &strings(&["-i", "p"]), None), Err(GfError::EmptyName)));
    let name = Some("n".to_string());
    assert!(matches!(plan_save(&name, &strings(&["-i"]), None), Err(GfError::EmptyPattern)));
    assert!(matches!(plan_save(&name, &strings(&["-i", ""]), None), Err(GfError::EmptyPattern)));
}

#[test]
fn use_plan_needs_a_name() {
    assert!(matches!(plan_use(&None, &Vec::new()), Err(GfError::NameRequired)));
    let (n, files) = plan_use(&Some("p".to_string()), &strings(&["/x"])).unwrap();
    assert_eq!(n, "p");
    assert_eq!(files, "/x");
}

#[test]
fn mode_and_exit_code() {
    assert_eq!(select_mode(true, true), Mode::List);
    assert_eq!(select_mode(false, true), Mode::Save);
    assert_eq!(select_mode(false, false), Mode::Use);
    assert_eq!(exit_code(true, Some(3)), 0);
    assert_eq!(exit_code(false, Some(2)), 2);
    assert_eq!(exit_code(false, None), 1);
}

#[test]
fn args_assembled_from_words() {
    let words = strings(&["-n", "-i"]);
    assert_eq!(assemble_args(words.clone(), "p", "f", false), strings(&["-n", "-i", "p", "f"]));
    assert_eq!(assemble_args(words, "p", "f", true), strings(&["-n", "-i", "p"]));
    assert_eq!(assemble_args(Vec::new(), "p", "f", true), strings(&["p"]));
}

#[test]
fn dump_laid_out_from_quoted_pattern() {
    let flags = Some("-Hnri".to_string());
    assert_eq!(render_dump("rg", &flags, "'q'", "/x"), "rg -Hnri 'q' /x");
    assert_eq!(render_dump("grep", &None, "'q'", "/x"), "grep 'q' /x");
}
