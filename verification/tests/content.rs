use aichemistforge_mcp_server::error::ServiceError;
use aichemistforge_mcp_server::fs_service::utils::format_bytes;
use aichemistforge_mcp_server::fs_service::{
    DirectoryEnvironment, FileSystemService, MatcherKind, PathEnvironment, SearchCandidate,
    TreeEntry,
};
use aichemistforge_mcp_server::strings::{
    chars_of, contains, decimal, find, first_chars, join, lines, longest_run, pad_left, pad_right,
    signed_decimal, str_eq, string_of, trim, white_space,
};
use aichemistforge_mcp_server::tools::EditOperation;

fn made_of(allowed: &[String], blocked: &[String]) -> FileSystemService {
    let environment = DirectoryEnvironment {
        home_dir: None,
        current_dir: String::from("/"),
        canonical_allowed: vec![],
        canonical_blocked: vec![],
    };
    FileSystemService::try_new(allowed, blocked, &environment).unwrap()
}

fn service() -> FileSystemService {
    made_of(&[], &[])
}

fn edit(old: &str, new: &str) -> EditOperation {
    EditOperation { old_text: old.to_string(), new_text: new.to_string() }
}

/// The size as floating point arithmetic shows it.
fn reference_bytes(bytes: u64) -> String {
    const UNITS: &[&str] = &["B", "KB", "MB", "GB", "TB", "PB"];
    if bytes == 0 {
        return "0 B".to_string();
    }
    let mut size = bytes as f64;
    let mut unit_index = 0;
    while size >= 1024.0 && unit_index < UNITS.len() - 1 {
        size /= 1024.0;
        unit_index += 1;
    }
    if unit_index == 0 {
        format!("{} {}", bytes, UNITS[unit_index])
    } else {
        format!("{:.1} {}", size, UNITS[unit_index])
    }
}

#[test]
fn sizes_are_shown_in_units() {
    assert_eq!(format_bytes(0), "0 B");
    assert_eq!(format_bytes(1), "1 B");
    assert_eq!(format_bytes(1023), "1023 B");
    assert_eq!(format_bytes(1024), "1.0 KB");
    assert_eq!(format_bytes(1536), "1.5 KB");
    assert_eq!(format_bytes(1048576), "1.0 MB");
    assert_eq!(format_bytes(5 * 1024 * 1024 * 1024), "5.0 GB");
    assert_eq!(format_bytes(1099511627776), "1.0 TB");
    assert_eq!(format_bytes(1125899906842624), "1.0 PB");
    assert_eq!(format_bytes(u64::MAX), "16384.0 PB");
}

#[test]
fn sizes_agree_with_floating_point_formatting() {
    let mut samples: Vec<u64> = Vec::new();
    for exponent in 0..64u32 {
        let power = 1u64 << exponent;
        for delta in [0u64, 1, 2, 3, 51, 52, 102, 103, 255, 256, 257, 511, 512, 513] {
            samples.push(power.wrapping_add(delta));
            samples.push(power.wrapping_sub(delta));
            samples.push(power.wrapping_add(power / 4).wrapping_add(delta));
            samples.push(power.wrapping_add(power / 8).wrapping_sub(delta));
            samples.push(power.wrapping_add(power / 20).wrapping_add(delta));
        }
    }
    // every size whose tenth of a kilobyte is a tie, and its neighbours
    for tenth in 0..200u64 {
        let tie = 1024 + (tenth * 1024) / 10 + 51;
        for delta in 0..4 {
            samples.push(tie + delta);
            samples.push(tie - delta);
        }
    }
    // sizes that a binary fraction of 53 digits does not hold
    for base in [1u64 << 53, 1u64 << 54, 1u64 << 60, 1u64 << 63, u64::MAX - 5000] {
        for delta in 0..4100u64 {
            samples.push(base.wrapping_add(delta));
        }
    }
    let mut state: u64 = 0x9E37_79B9_7F4A_7C15;
    for _ in 0..20_000 {
        state ^= state << 13;
        state ^= state >> 7;
        state ^= state << 17;
        samples.push(state);
        samples.push(state >> (state % 64));
    }
    for bytes in samples {
        assert_eq!(format_bytes(bytes), reference_bytes(bytes), "for {} bytes", bytes);
    }
}

#[test]
fn line_ending_is_detected() {
    let service = service();
    assert_eq!(service.detect_line_ending("a\r\nb"), "\r\n");
    assert_eq!(service.detect_line_ending("a\rb\n"), "\r");
    assert_eq!(service.detect_line_ending("a\nb"), "\n");
    assert_eq!(service.detect_line_ending(""), "\n");
    assert_eq!(service.detect_line_ending("a\n\rb\r\n"), "\r\n");
}

#[test]
fn unified_diff_has_index_rule_and_patch() {
    let service = service();
    let original = "one\ntwo\nthree\n";
    let modified = "one\n2\nthree\n";
    let patch = similar::TextDiff::from_lines(original, modified)
        .unified_diff()
        .header("notes.txt\toriginal", "notes.txt\tmodified")
        .context_radius(4)
        .to_string();
    let expected = format!("Index: notes.txt\n{}\n{}", "=".repeat(68), patch);
    assert_eq!(
        service.create_unified_diff("one\r\ntwo\r\nthree\r\n", modified, Some(String::from("notes.txt"))),
        expected
    );
    assert!(expected.contains("-two\n+2\n"));
    let unnamed = service.create_unified_diff(original, modified, None);
    assert!(unnamed.starts_with("Index: file\n====="));
    assert!(unnamed.contains("--- file\toriginal\n+++ file\tmodified\n"));
}

#[test]
fn edits_replace_the_first_passage_only() {
    let service = service();
    let content = "alpha\r\nbeta\r\nalpha\r\n";
    let result = service.apply_file_edits(
        "/tmp/f.txt",
        content,
        vec![edit("alpha", "ALPHA"), edit("missing", "x"), edit("beta\r\n", "b\n")],
    );
    assert_eq!(result.content, "ALPHA\r\nb\r\nalpha\r\n");
    let diff = service.create_unified_diff(
        "alpha\nbeta\nalpha\n",
        "ALPHA\nb\nalpha\n",
        Some(String::from("/tmp/f.txt")),
    );
    assert_eq!(result.diff, format!("```diff\n{}```\n\n", diff));

    // an empty old text stands at the start
    let result = service.apply_file_edits("f", "body", vec![edit("", ">> ")]);
    assert_eq!(result.content, ">> body");
    // nothing to do
    let result = service.apply_file_edits("f", "body\n", vec![]);
    assert_eq!(result.content, "body\n");
    // bare carriage returns are restored as such
    let result = service.apply_file_edits("f", "a\rb\r", vec![edit("b", "c")]);
    assert_eq!(result.content, "a\rc\r");
}

#[test]
fn fence_is_longer_than_any_run_of_backticks() {
    let service = service();
    let result = service.apply_file_edits("f", "text\n", vec![edit("text", "````code````")]);
    assert!(result.diff.starts_with("`````diff\n"));
    assert!(result.diff.ends_with("`````\n\n"));
    assert!(!result.diff.starts_with("``````"));
    let result = service.apply_file_edits("f", "text\n", vec![edit("text", "``code``")]);
    assert!(result.diff.starts_with("```diff\n"));
    let result = service.apply_file_edits("f", "text\n", vec![edit("text", "```")]);
    assert!(result.diff.starts_with("````diff\n"));
}

#[test]
fn lines_are_taken_from_both_ends() {
    let service = service();
    let content = "1\n2\r\n3\n4\n";
    assert_eq!(service.head_file(content, 2), "1\n2");
    assert_eq!(service.head_file(content, 0), "");
    assert_eq!(service.head_file(content, 10), "1\n2\n3\n4");
    assert_eq!(service.tail_file(content, 2), "3\n4");
    assert_eq!(service.tail_file(content, 0), "");
    assert_eq!(service.tail_file(content, 10), "1\n2\n3\n4");
    assert_eq!(service.read_file_lines(content, 1, Some(2)), "2\n3");
    assert_eq!(service.read_file_lines(content, 1, None), "2\n3\n4");
    assert_eq!(service.read_file_lines(content, 3, Some(5)), "4");
    assert_eq!(service.read_file_lines(content, 4, Some(5)), "");
    assert_eq!(service.read_file_lines(content, 9, None), "");
    assert_eq!(service.read_file_lines(content, 0, Some(0)), "");
    assert_eq!(service.read_file_lines(content, usize::MAX, Some(usize::MAX)), "");
    assert_eq!(service.head_file("", 3), "");
}

#[test]
fn media_are_told_from_their_bytes() {
    let service = service();
    let png: Vec<u8> = vec![0x89, b'P', b'N', b'G', 0x0D, 0x0A, 0x1A, 0x0A, 0, 0, 0, 13];
    let (kind, text) = service.read_media_file(&png, None).unwrap();
    assert_eq!(kind.mime_type, "image/png");
    assert_eq!(kind.matcher_type, MatcherKind::Image);
    assert_eq!(text, base64::Engine::encode(&base64::engine::general_purpose::STANDARD, &png));
    assert_eq!(text, "iVBORw0KGgoAAAAN");

    let mp3: Vec<u8> = vec![0x49, 0x44, 0x33, 4, 0, 0, 0, 0, 0, 0];
    let (kind, _) = service.read_media_file(&mp3, Some(10)).unwrap();
    assert_eq!(kind.mime_type, "audio/mpeg");
    assert_eq!(kind.matcher_type, MatcherKind::Audio);

    match service.read_media_file(b"plain text", None) {
        Err(ServiceError::InvalidMediaFile(mime)) => assert_eq!(mime, "unknown"),
        other => panic!("unexpected: {:?}", other),
    }

    let files = vec![Some(png.clone()), None, Some(b"plain".to_vec()), Some(mp3.clone())];
    let found = service.read_media_files(&files, None).unwrap();
    assert_eq!(found.len(), 2);
    assert_eq!(found[0].0.mime_type, "image/png");
    assert_eq!(found[1].0.mime_type, "audio/mpeg");
}

#[test]
fn files_are_found_by_name_and_content() {
    let service = service();
    let candidates = vec![
        SearchCandidate {
            path: String::from("/d/Report.TXT"),
            file_name: String::from("Report.TXT"),
            content: None,
        },
        SearchCandidate {
            path: String::from("/d/notes.md"),
            file_name: String::from("notes.md"),
            content: Some(String::from("the REPORT is due")),
        },
        SearchCandidate {
            path: String::from("/d/other.md"),
            file_name: String::from("other.md"),
            content: Some(String::from("nothing")),
        },
    ];
    assert_eq!(service.search_files(&candidates, "report"), vec!["/d/Report.TXT", "/d/notes.md"]);
    assert_eq!(service.search_files(&candidates, "RePoRt"), vec!["/d/Report.TXT", "/d/notes.md"]);
    assert_eq!(service.search_files(&candidates, ".md"), vec!["/d/notes.md", "/d/other.md"]);
    assert!(service.search_files(&candidates, "absent").is_empty());
    assert_eq!(service.search_files(&candidates, "").len(), 3);
}

#[test]
fn tree_is_drawn() {
    let service = service();
    let entries = vec![
        TreeEntry { file_name: String::from("src"), depth: 1, is_dir: true },
        TreeEntry { file_name: String::from("main.rs"), depth: 2, is_dir: false },
        TreeEntry { file_name: String::from(".git"), depth: 1, is_dir: true },
        TreeEntry { file_name: String::from("README.md"), depth: 1, is_dir: false },
    ];
    assert_eq!(
        service.generate_directory_tree("project", &entries, false),
        "project/\n  ├── src/\n    ├── main.rs\n  ├── README.md"
    );
    assert_eq!(
        service.generate_directory_tree("project", &entries, true),
        "project/\n  ├── src/\n    ├── main.rs\n  ├── .git/\n  ├── README.md"
    );
    assert_eq!(service.generate_directory_tree("", &vec![], false), "/");
}

#[test]
fn sizes_are_added_up() {
    let service = service();
    assert_eq!(service.calculate_directory_size(&vec![]), 0);
    assert_eq!(service.calculate_directory_size(&vec![1, 2, 3]), 6);
    assert_eq!(service.calculate_directory_size(&vec![u64::MAX, 1]), u64::MAX);
    assert_eq!(service.calculate_directory_size(&vec![u64::MAX - 1, 1]), u64::MAX);
}

#[test]
fn searches_that_do_not_exist_find_nothing() {
    let service = service();
    assert!(service.find_duplicate_files("/", None, None, Some(1), None).unwrap().is_empty());
    assert!(service.find_empty_directories("/", None).unwrap().is_empty());
    assert!(service.search_files_content("/", "*", "q", false, None, None, None).unwrap().is_empty());
}

#[test]
fn directories_and_transfers_are_decided() {
    let service = made_of(&[], &[String::from("/etc")]);
    let mut env = PathEnvironment {
        home_dir: None,
        current_dir: String::from("/"),
        canonical: None,
        canonical_blocked: vec![None],
        canonical_allowed: vec![],
        exists: false,
    };
    assert_eq!(service.create_directory("/tmp/new", &env, false).unwrap(), "/tmp/new");
    assert!(matches!(service.create_directory("/etc/new", &env, false), Err(ServiceError::PathNotAllowed)));
    env.exists = true;
    assert!(matches!(
        service.create_directory("/tmp/new", &env, true),
        Err(ServiceError::DirectoryAlreadyExists)
    ));
    assert_eq!(service.create_directory("/tmp/file", &env, false).unwrap(), "/tmp/file");

    assert_eq!(service.read_file("/tmp/a", &env).unwrap(), "/tmp/a");
    assert_eq!(service.get_file_stats("/tmp/a", &env).unwrap(), "/tmp/a");
    assert_eq!(service.list_directory("/tmp", &env).unwrap(), "/tmp");
    assert_eq!(service.delete_file("/tmp/a", &env).unwrap(), "/tmp/a");
    assert_eq!(service.write_file("/tmp/a", &env).unwrap(), "/tmp/a");
    assert!(matches!(service.write_file("/etc/a", &env), Err(ServiceError::PathNotAllowed)));
    assert!(matches!(service.read_file("/etc/a", &env), Err(ServiceError::PathNotAllowed)));

    let (from, to) = service.move_file("/tmp/a", &env, "/tmp/b", &env).unwrap();
    assert_eq!((from.as_str(), to.as_str()), ("/tmp/a", "/tmp/b"));
    assert!(matches!(service.copy_file("/tmp/a", &env, "/etc/b", &env), Err(ServiceError::PathNotAllowed)));
    assert!(matches!(service.copy_file("/etc/a", &env, "/tmp/b", &env), Err(ServiceError::PathNotAllowed)));
    env.exists = false;
    assert!(matches!(service.move_file("/tmp/a", &env, "/tmp/b", &env), Err(ServiceError::FileNotFound(_))));
    assert!(matches!(service.read_file("/tmp/a", &env), Err(ServiceError::FileNotFound(_))));
    assert!(matches!(service.delete_file("/tmp/a", &env), Err(ServiceError::FileNotFound(_))));
    assert!(matches!(service.list_directory("/tmp/a", &env), Err(ServiceError::FileNotFound(_))));
    assert!(matches!(service.get_file_stats("/etc/a", &env), Err(ServiceError::PathNotAllowed)));
    assert_eq!(service.write_file("/tmp/new", &env).unwrap(), "/tmp/new");
}

#[test]
fn texts_are_searched_and_built() {
    assert!(contains("hello world", "o w"));
    assert!(contains("hello", ""));
    assert!(contains("", ""));
    assert!(!contains("hello", "hellos"));
    assert!(!contains("", "a"));
    assert_eq!(find(&chars_of("abcabc"), &chars_of("bc")), Some(1));
    assert_eq!(find(&chars_of("abcabc"), &chars_of("cb")), None);
    assert_eq!(find(&chars_of("aaa"), &chars_of("")), Some(0));
    assert_eq!(string_of(&chars_of("héllo ✓")), "héllo ✓");
    assert_eq!(chars_of("é✓").len(), 2);
    assert!(str_eq("same", "same"));
    assert!(!str_eq("same", "Same"));
    assert_eq!(decimal(0), "0");
    assert_eq!(decimal(907), "907");
    assert_eq!(decimal(u64::MAX), "18446744073709551615");
    assert_eq!(signed_decimal(-45), "-45");
    assert_eq!(signed_decimal(0), "0");
    assert_eq!(signed_decimal(i64::MIN), "-9223372036854775808");
    assert_eq!(signed_decimal(i64::MAX), "9223372036854775807");
    assert_eq!(join(&vec![], ", "), "");
    assert_eq!(join(&vec![String::from("a")], ", "), "a");
    assert_eq!(join(&vec![String::from("a"), String::new(), String::from("c")], ", "), "a, , c");
    assert_eq!(first_chars("héllo", 2), "hé");
    assert_eq!(first_chars("héllo", 5), "héllo");
    assert_eq!(first_chars("héllo", 50), "héllo");
    assert_eq!(first_chars("héllo", 0), "");
    assert_eq!(longest_run(&chars_of("a``b```c`"), '`'), 3);
    assert_eq!(longest_run(&chars_of("abc"), '`'), 0);
    assert_eq!(longest_run(&chars_of(""), '`'), 0);
    assert_eq!(longest_run(&chars_of("````"), '`'), 4);
    assert_eq!(pad_right("ab", 5), "ab   ");
    assert_eq!(pad_right("abcdef", 5), "abcdef");
    assert_eq!(pad_left("ab", 5), "   ab");
    assert_eq!(pad_left("é", 3), "  é");
}

#[test]
fn white_space_is_what_the_standard_library_calls_so() {
    for code in 0..=0x10FFFFu32 {
        if let Some(c) = char::from_u32(code) {
            assert_eq!(white_space(c), c.is_whitespace(), "U+{:04X}", code);
        }
    }
}

#[test]
fn trimming_agrees_with_the_standard_library() {
    for text in [
        "",
        " ",
        "a",
        "  a b  ",
        "\t\r\n x \u{a0}\u{3000}",
        "\u{2028}line\u{2029}",
        " \u{85}\u{1680}\u{2000}\u{200a}\u{202f}\u{205f} ",
        "x\u{200b}",
        "\u{feff}x ",
        " inner \t space ",
    ] {
        assert_eq!(trim(text), text.trim(), "{:?}", text);
    }
    assert_eq!(trim("  {\"id\":1}\r\n"), "{\"id\":1}");
}

#[test]
fn lines_agree_with_the_standard_library() {
    for text in [
        "",
        "\n",
        "\r\n",
        "\r",
        "a",
        "a\n",
        "a\r\n",
        "a\r",
        "a\nb",
        "a\r\nb\r\n",
        "a\n\nb\n",
        "\n\na",
        "a\r\r\nb",
        "foo\nbar\n\r\nbaz\r",
        "one\rtwo\nthree",
        "é✓\n✓é\r\n",
    ] {
        let expected: Vec<String> = text.lines().map(|line| line.to_string()).collect();
        assert_eq!(lines(text), expected, "{:?}", text);
    }
}
