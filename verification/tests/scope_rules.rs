use plugins_core::scope::{
    allow_path, detect_scope_type, directory_of, fix_directory, fix_pattern, forbid_path,
    pattern_automaton, restore, scope_change, Scope, ScopeChange, TargetType,
    DIRECTORY_SUFFIX, RECURSIVE_DIRECTORY_SUFFIX, SCOPE_STATE_FILENAME,
};

#[test]
fn names_of_the_scope_file_and_suffixes() {
    assert_eq!(SCOPE_STATE_FILENAME, ".persisted-scope");
    assert_eq!(DIRECTORY_SUFFIX, "*");
    assert_eq!(RECURSIVE_DIRECTORY_SUFFIX, "**");
    assert_eq!(TargetType::default(), TargetType::File);
    assert_eq!(
        Scope::default(),
        Scope {
            allowed_paths: Vec::new(),
            forbidden_patterns: Vec::new(),
        }
    );
}

#[test]
fn scope_type_follows_the_suffix() {
    assert_eq!(detect_scope_type("/a/b/**"), TargetType::RecursiveDirectory);
    assert_eq!(detect_scope_type("/a/b/*"), TargetType::Directory);
    assert_eq!(detect_scope_type("/a/b/c.txt"), TargetType::File);
    assert_eq!(detect_scope_type("**"), TargetType::RecursiveDirectory);
    assert_eq!(detect_scope_type("*"), TargetType::Directory);
    assert_eq!(detect_scope_type(""), TargetType::File);
    assert_eq!(detect_scope_type("/a/***"), TargetType::RecursiveDirectory);
    assert_eq!(detect_scope_type("/a/*b"), TargetType::File);
    assert_eq!(detect_scope_type("/a/b*"), TargetType::Directory);
}

#[test]
fn directory_pattern_loses_its_wildcard() {
    assert_eq!(fix_directory("/a/b/*"), "/a/b");
    assert_eq!(fix_directory("/a/b/**"), "/a/b");
    assert_eq!(fix_directory("/a/b/c.txt"), "/a/b/c.txt");
    assert_eq!(fix_directory("/a/b*"), "/a/b*");
    assert_eq!(fix_directory("*"), "");
    assert_eq!(fix_directory(""), "");
}

#[test]
fn directory_is_the_parent_of_a_wildcard() {
    assert_eq!(directory_of("/a/*", true, Some("/a")), "/a");
    assert_eq!(directory_of("/a/*", true, None), "/a/*");
    assert_eq!(directory_of("/a/b", false, Some("/a")), "/a/b");
    assert_eq!(directory_of("/a/b", false, None), "/a/b");
}

#[test]
fn broken_escapes_are_repaired() {
    let ac = pattern_automaton().unwrap();
    assert_eq!(fix_pattern(&ac, "/a/b.txt"), "/a/b.txt");
    assert_eq!(fix_pattern(&ac, "/a/[[]x[]]"), "/a/[x]");
    assert_eq!(fix_pattern(&ac, "/a/[?][*]"), "/a/?*");
    assert_eq!(fix_pattern(&ac, r"\?\?"), r"\?");
    assert_eq!(fix_pattern(&ac, r"\\?\\?\C:\x"), r"\\?\C:\x");
    assert_eq!(fix_pattern(&ac, r"\\?\\\?\C:\x"), r"\\?\C:\x");
}

#[test]
fn repair_goes_on_until_nothing_is_broken() {
    let ac = pattern_automaton().unwrap();
    assert_eq!(fix_pattern(&ac, "[[[]]"), "[");
    assert_eq!(fix_pattern(&ac, "[[[[]]]"), "[");
    assert_eq!(fix_pattern(&ac, "[[[*]]"), "[*");
    assert_eq!(fix_pattern(&ac, "[[[?]]/**"), "[?/**");
}

#[test]
fn change_for_each_kind_of_pattern() {
    assert_eq!(
        allow_path("/a/b.txt"),
        ScopeChange::AllowFile("/a/b.txt".to_string())
    );
    assert_eq!(
        allow_path("/a/*"),
        ScopeChange::AllowDirectory {
            path: "/a".to_string(),
            recursive: false
        }
    );
    assert_eq!(
        allow_path("/a/**"),
        ScopeChange::AllowDirectory {
            path: "/a".to_string(),
            recursive: true
        }
    );
    assert_eq!(
        forbid_path("/a/b.txt"),
        ScopeChange::ForbidFile("/a/b.txt".to_string())
    );
    assert_eq!(
        forbid_path("/a/*"),
        ScopeChange::ForbidDirectory {
            path: "/a".to_string(),
            recursive: false
        }
    );
    assert_eq!(
        forbid_path("/a/**"),
        ScopeChange::ForbidDirectory {
            path: "/a".to_string(),
            recursive: true
        }
    );
    assert_eq!(
        allow_path("/a/b*"),
        ScopeChange::AllowDirectory {
            path: "/a/b*".to_string(),
            recursive: false
        }
    );
}

#[test]
fn change_from_its_parts() {
    assert_eq!(
        scope_change(false, TargetType::File, "/a/*", "/a"),
        ScopeChange::AllowFile("/a/*".to_string())
    );
    assert_eq!(
        scope_change(true, TargetType::Directory, "/a/*", "/a"),
        ScopeChange::ForbidDirectory {
            path: "/a".to_string(),
            recursive: false
        }
    );
    assert_eq!(
        scope_change(false, TargetType::RecursiveDirectory, "/a/**", "/a"),
        ScopeChange::AllowDirectory {
            path: "/a".to_string(),
            recursive: true
        }
    );
}

#[test]
fn saved_scope_is_restored_in_order() {
    let ac = pattern_automaton().unwrap();
    let scope = Scope {
        allowed_paths: vec!["/data/[[]x[]]/**".to_string(), "/etc/app.conf".to_string()],
        forbidden_patterns: vec!["/data/secret/*".to_string()],
    };
    assert_eq!(
        restore(&ac, &scope),
        vec![
            ScopeChange::AllowDirectory {
                path: "/data/[x]".to_string(),
                recursive: true
            },
            ScopeChange::AllowFile("/etc/app.conf".to_string()),
            ScopeChange::ForbidDirectory {
                path: "/data/secret".to_string(),
                recursive: false
            },
        ]
    );
    assert_eq!(restore(&ac, &Scope::default()), Vec::new());
}

#[test]
fn repairing_what_was_repaired_changes_nothing() {
    let ac = pattern_automaton().unwrap();
    let inputs = [
        "",
        "/a/b.txt",
        "/a/[[]x[]]/**",
        "[[[[]]]",
        r"\\?\\\?\C:\Users\[?]",
        r"\?\?\?\?",
        "[[[*]]",
    ];
    for input in inputs {
        let once = fix_pattern(&ac, input);
        assert_eq!(fix_pattern(&ac, &once), once, "second repair of {:?}", input);
        assert!(once.len() <= input.len(), "length after repair of {:?}", input);
    }
}

#[test]
fn unbroken_pattern_comes_back_as_it_is_and_broken_one_shorter() {
    let ac = pattern_automaton().unwrap();
    assert_eq!(fix_pattern(&ac, "/plain/[x]/?*"), "/plain/[x]/?*");
    assert_eq!(fix_pattern(&ac, r"\\?\C:\x"), r"\\?\C:\x");
    let broken = "/a/[*]";
    let fixed = fix_pattern(&ac, broken);
    assert_eq!(fixed, "/a/*");
    assert!(fixed.len() < broken.len());
}
