use rfind::{execute, get_args, Entry, EntryType, TraversalError};

struct Output {
    stdout: String,
    stderr: String,
    success: bool,
}

/// The tree that the scenarios search: path, class, size in bytes.
fn tree() -> Vec<(&'static str, EntryType, u64)> {
    vec![
        ("tests", EntryType::Dir, 4096),
        ("tests/cli.rs", EntryType::File, 5215),
        ("tests/dir1", EntryType::Dir, 4096),
        ("tests/dir1/file1.txt", EntryType::File, 6),
        ("tests/dir2", EntryType::Dir, 4096),
        ("tests/dir2/file.csv", EntryType::File, 12),
        ("tests/dir2/file2.txt", EntryType::File, 6),
        ("tests/dir2/subdir", EntryType::Dir, 4096),
        ("tests/dir2/subdir/file3.txt", EntryType::File, 6),
        ("tests/dir2/subdir/symlink1.txt", EntryType::Link, 9),
    ]
}

/// The walk of one root over the tree, parents before children.
fn walk(root: &str) -> Vec<Result<Entry, TraversalError>> {
    let mut items = Vec::new();
    for (path, kind, size) in tree() {
        let below = if path == root {
            Some("")
        } else {
            path.strip_prefix(root).and_then(|rest| rest.strip_prefix('/'))
        };
        if let Some(rest) = below {
            let depth = if rest.is_empty() { 0 } else { rest.split('/').count() };
            items.push(Ok(Entry {
                path: path.to_string(),
                name: path.rsplit('/').next().unwrap().to_string(),
                depth,
                kind: Some(kind),
                size,
            }));
        }
    }
    if items.is_empty() {
        items.push(Err(TraversalError {
            path: root.to_string(),
            cause: "No such file or directory (os error 2)".to_string(),
        }));
    }
    items
}

fn run_rfind_with_args(args: &[&str]) -> Output {
    let mut paths = Vec::new();
    let mut types = Vec::new();
    let mut names = Vec::new();
    let mut max_depth = None;
    let mut min_depth = None;
    let mut size = None;
    let mut rest = args.iter();
    while let Some(arg) = rest.next() {
        match *arg {
            "-t" | "--type" => types.push(rest.next().unwrap().to_string()),
            "-n" | "--name" => names.push(rest.next().unwrap().to_string()),
            "--max-depth" => max_depth = Some(rest.next().unwrap().parse::<usize>().unwrap()),
            "--min-depth" => min_depth = Some(rest.next().unwrap().parse::<usize>().unwrap()),
            "--size" => size = Some(rest.next().unwrap().parse::<i64>().unwrap()),
            path => paths.push(path.to_string()),
        }
    }
    let input = match get_args(paths, &types, &names, max_depth, min_depth, size) {
        Ok(input) => input,
        Err(error) => {
            return Output { stdout: String::new(), stderr: format!("{:?}", error), success: false }
        }
    };
    let mut out = Vec::new();
    let mut diag = Vec::new();
    for path in &input.paths {
        execute(&walk(path), &input, &mut out, &mut diag);
    }
    let lines = |sink: &Vec<String>| sink.iter().map(|line| format!("{}\n", line)).collect();
    Output { stdout: lines(&out), stderr: lines(&diag), success: true }
}

#[test]
fn test_find_files_only() {
    let args = ["tests", "-t", "f"];

    let output = run_rfind_with_args(&args);
    let stdout = output.stdout;

    assert!(output.success);
    assert!(stdout.contains("tests/dir1/file1.txt"));
    assert!(stdout.contains("tests/dir2/file2.txt"));
    assert!(stdout.contains("tests/dir2/subdir/file3.txt"));
}

#[test]
fn test_find_directories_only() {
    let args = ["tests", "-t", "d"];

    let output = run_rfind_with_args(&args);
    let stdout = output.stdout;

    assert!(output.success);
    assert!(!stdout.contains("tests/dir1/file1.txt"));
    assert!(stdout.contains("tests/dir1"));
    assert!(stdout.contains("tests/dir2"));
    assert!(stdout.contains("tests/dir2/subdir"));
}

#[test]
fn test_find_files_with_name_pattern() {
    let args = ["tests", "-t", "f", "-n", "file?.txt"];

    let output = run_rfind_with_args(&args);
    let stdout = output.stdout;

    assert!(output.success);
    assert!(!stdout.contains("tests/cli.rs"));
    assert!(stdout.contains("tests/dir1/file1.txt"));
    assert!(stdout.contains("tests/dir2/file2.txt"));
    assert!(stdout.contains("tests/dir2/subdir/file3.txt"));
}

#[test]
fn test_find_symlinks_only() {
    let args = ["tests", "-t", "l"];

    let output = run_rfind_with_args(&args);
    let stdout = output.stdout;

    assert!(output.success);
    assert!(!stdout.contains("tests/dir1/file1.txt"));
    assert!(stdout.contains("tests/dir2/subdir/symlink1.txt"));
}

#[test]
fn test_find_csv_files_only() {
    let args = ["tests", "-n", "*.csv"];

    let output = run_rfind_with_args(&args);
    let stdout = output.stdout;

    assert!(output.success);
    assert!(!stdout.contains("tests/dir1/file1.txt"));
    assert!(stdout.contains("tests/dir2/file.csv"));
}

#[test]
fn test_find_files_in_specific_directory() {
    let args = ["tests/dir2"];

    let output = run_rfind_with_args(&args);
    let stdout = output.stdout;

    assert!(output.success);
    assert!(!stdout.contains("tests/dir1/file1.txt"));
    assert!(stdout.contains("tests/dir2/file.csv"));
    assert!(stdout.contains("tests/dir2/file2.txt"));
    assert!(stdout.contains("tests/dir2/subdir/file3.txt"));
}

#[test]
#[should_panic]
fn test_find_files_with_complex_regex_pattern_should_fail() {
    let args = ["tests", "-n", "file[12]\\.txt"];

    let output = run_rfind_with_args(&args);
    let stdout = output.stdout;

    assert!(output.success);
    assert!(stdout.contains("tests/dir1/file1.txt"));
    assert!(stdout.contains("tests/dir2/file2.txt"));
    assert!(!stdout.contains("tests/dir2/subdir/file3.txt"));
    assert!(!stdout.contains("tests/cli.rs"));
}

#[test]
fn test_max_depth_limit() {
    let args = ["tests", "--max-depth", "1"];

    let output = run_rfind_with_args(&args);
    let stdout = output.stdout;

    assert!(output.success);
    assert!(stdout.contains("tests/dir1"));
    assert!(stdout.contains("tests/dir2"));
    assert!(!stdout.contains("tests/dir1/file1.txt"));
    assert!(!stdout.contains("tests/dir2/file2.txt"));
}

#[test]
fn test_min_depth_limit() {
    let args = ["tests", "--min-depth", "3"];

    let output = run_rfind_with_args(&args);
    let stdout = output.stdout;

    assert!(output.success);
    assert!(stdout.contains("tests/dir2/subdir/symlink1.txt"));
    assert!(stdout.contains("tests/dir2/subdir/file3.txt"));
    assert!(!stdout.contains("tests/dir1"));
    assert!(!stdout.contains("tests/cli.rs"));
}

#[test]
fn test_find_files_larger_than_size() {
    let args = ["tests", "--size", "4"];

    let output = run_rfind_with_args(&args);
    let stdout = output.stdout;

    assert!(output.success);
    assert!(stdout.contains("tests/cli.rs"));
    assert!(!stdout.contains("tests/dir1/file1.txt"));
}

#[test]
fn test_find_files_smaller_than_size() {
    let args = ["tests", "--size", "-1"];

    let output = run_rfind_with_args(&args);
    let stdout = output.stdout;

    assert!(output.success);
    assert!(!stdout.contains("tests/cli.rs"));
    assert!(stdout.contains("tests/dir2/file2.txt"));
    assert!(stdout.contains("tests/dir2/subdir/symlink1.txt"));
    assert!(stdout.contains("tests/dir2/subdir/file3.txt"));
    assert!(stdout.contains("tests/dir2/file.csv"));
    assert!(stdout.contains("tests/dir1/file1.txt"));
}

#[test]
fn symlink_filter_reports_the_one_link() {
    let output = run_rfind_with_args(&["tests", "-t", "l"]);
    assert_eq!(output.stdout, "tests/dir2/subdir/symlink1.txt\n");
    assert_eq!(output.stderr, "");
}

#[test]
fn file_filter_reports_files_and_nothing_else() {
    let output = run_rfind_with_args(&["tests", "-t", "f"]);
    assert_eq!(
        output.stdout,
        "tests/cli.rs\ntests/dir1/file1.txt\ntests/dir2/file.csv\ntests/dir2/file2.txt\n\
         tests/dir2/subdir/file3.txt\n"
    );
}

#[test]
fn max_depth_one_reports_the_root_and_its_children() {
    let output = run_rfind_with_args(&["tests", "--max-depth", "1"]);
    assert_eq!(output.stdout, "tests\ntests/cli.rs\ntests/dir1\ntests/dir2\n");
}

#[test]
fn min_depth_three_reports_the_deepest_entries() {
    let output = run_rfind_with_args(&["tests", "--min-depth", "3"]);
    assert_eq!(output.stdout, "tests/dir2/subdir/file3.txt\ntests/dir2/subdir/symlink1.txt\n");
}

#[test]
fn csv_glob_reports_names_that_end_in_csv() {
    let output = run_rfind_with_args(&["tests", "-n", "*.csv"]);
    assert_eq!(output.stdout, "tests/dir2/file.csv\n");
}

#[test]
fn no_filter_reports_the_whole_tree_root_first() {
    let output = run_rfind_with_args(&["tests"]);
    let expected: String = tree().iter().map(|(path, _, _)| format!("{}\n", path)).collect();
    assert_eq!(output.stdout, expected);
    assert!(output.stdout.starts_with("tests\n"));
}

#[test]
fn roots_are_searched_in_the_order_given() {
    let output = run_rfind_with_args(&["tests/dir2/subdir", "tests/dir1", "-t", "f"]);
    assert_eq!(output.stdout, "tests/dir2/subdir/file3.txt\ntests/dir1/file1.txt\n");
}

#[test]
fn depth_counts_from_each_root() {
    let output = run_rfind_with_args(&["tests/dir2", "--min-depth", "2"]);
    assert_eq!(output.stdout, "tests/dir2/subdir/file3.txt\ntests/dir2/subdir/symlink1.txt\n");
}

#[test]
fn missing_root_is_reported_and_the_next_root_searched() {
    let output = run_rfind_with_args(&["nowhere", "tests/dir1"]);
    assert!(output.success);
    assert_eq!(output.stdout, "tests/dir1\ntests/dir1/file1.txt\n");
    assert_eq!(output.stderr, "rfind: nowhere: No such file or directory (os error 2)\n");
}

#[test]
fn unknown_type_flag_stops_before_any_output() {
    let output = run_rfind_with_args(&["tests", "-t", "x"]);
    assert!(!output.success);
    assert_eq!(output.stdout, "");
}
