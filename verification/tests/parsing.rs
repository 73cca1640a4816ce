//! Frontmatter framing, identifier derivation, project detection and git
//! status parsing.

use claudio::agents::{
    agent_id_from_filename, build_agent_definition, default_mode, default_model,
    parse_frontmatter, resolve_frontmatter,
};
use claudio::discovery::{detect_project_type, get_project_icon, ProjectMarkers, ProjectType};
use claudio::projects::{build_git_status, i32_from_chars, parse_ahead_behind};
use claudio::text::lowercase_key;

fn markers(
    package_json: bool,
    cargo_toml: bool,
    pyproject: bool,
    setup_py: bool,
    requirements: bool,
    go_mod: bool,
) -> ProjectMarkers {
    ProjectMarkers {
        has_package_json: package_json,
        has_cargo_toml: cargo_toml,
        has_pyproject_toml: pyproject,
        has_setup_py: setup_py,
        has_requirements_txt: requirements,
        has_go_mod: go_mod,
    }
}

#[test]
fn test_parse_frontmatter() {
    let content = r#"---
name: Software Architect
description: Designs system architecture
model: opus
mode: autonomous
---

You are a software architect agent.
"#;
    let (yaml, body) = parse_frontmatter(content).unwrap();
    let value: serde_yaml::Value = serde_yaml::from_str(&yaml).unwrap();
    assert_eq!(value["name"].as_str(), Some("Software Architect"));
    assert_eq!(value["description"].as_str(), Some("Designs system architecture"));
    assert_eq!(value["model"].as_str(), Some("opus"));
    assert_eq!(value["mode"].as_str(), Some("autonomous"));
    assert!(body.contains("software architect agent"));
}

#[test]
fn test_parse_frontmatter_defaults() {
    let content = "---\nname: Simple Agent\n---\n\nBasic agent.\n";
    let (yaml, _) = parse_frontmatter(content).unwrap();
    let value: serde_yaml::Value = serde_yaml::from_str(&yaml).unwrap();
    let name = value["name"].as_str().unwrap().to_string();
    assert_eq!(name, "Simple Agent");
    let fm = resolve_frontmatter(name, None, None, None);
    assert_eq!(fm.name, "Simple Agent");
    assert_eq!(fm.model, "sonnet");
    assert_eq!(fm.mode, "normal");
    assert_eq!(fm.description, "");
    assert_eq!(default_model(), "sonnet");
    assert_eq!(default_mode(), "normal");
}

#[test]
fn test_parse_frontmatter_errors() {
    let err = parse_frontmatter("name: no delimiters\n").unwrap_err();
    assert_eq!(err, "No frontmatter found (must start with ---)");
    let err = parse_frontmatter("---\nname: never closed\n").unwrap_err();
    assert_eq!(err, "No closing frontmatter delimiter found");
}

#[test]
fn test_agent_id_from_filename() {
    assert_eq!(agent_id_from_filename("My Agent.md"), "my-agent");
    assert_eq!(agent_id_from_filename("Architect.md.md"), "architect");
    assert_eq!(agent_id_from_filename("plain"), "plain");
    assert_eq!(agent_id_from_filename("Two Words Here.md"), "two-words-here");
}

#[test]
fn test_lowercase_key_orders_names() {
    assert_eq!(lowercase_key("My AGENT"), "my agent");
    assert_eq!(lowercase_key("zeta"), "zeta");
    assert_eq!(lowercase_key(""), "");
    let mut names = vec![String::from("beta"), String::from("Alpha"), String::from("GAMMA")];
    names.sort_by_key(|n| lowercase_key(n));
    assert_eq!(
        names,
        vec![String::from("Alpha"), String::from("beta"), String::from("GAMMA")]
    );
}

#[test]
fn test_build_agent_definition() {
    let fm = resolve_frontmatter(
        String::from("Planner"),
        Some(String::from("Plans work")),
        Some(String::from("opus")),
        None,
    );
    let def = build_agent_definition("Task Planner.md", &fm, "\n  Plan carefully.\n", 99);
    assert_eq!(def.id, "task-planner");
    assert_eq!(def.filename, "Task Planner.md");
    assert_eq!(def.name, "Planner");
    assert_eq!(def.description, "Plans work");
    assert_eq!(def.model, "opus");
    assert_eq!(def.mode, "normal");
    assert_eq!(def.system_prompt, "Plan carefully.");
    assert_eq!(def.parsed_at, 99);
    assert_eq!(def.repo_commit, None);
}

#[test]
fn test_detect_node_project() {
    let t = detect_project_type(&markers(true, false, false, false, false, false));
    assert_eq!(t, ProjectType::Node);
    // A package.json marker wins even when other markers are present.
    let t = detect_project_type(&markers(true, true, true, true, true, true));
    assert_eq!(t, ProjectType::Node);
}

#[test]
fn test_detect_rust_project() {
    let t = detect_project_type(&markers(false, true, false, false, false, false));
    assert_eq!(t, ProjectType::Rust);
}

#[test]
fn test_detect_other_projects() {
    assert_eq!(
        detect_project_type(&markers(false, false, true, false, false, false)),
        ProjectType::Python
    );
    assert_eq!(
        detect_project_type(&markers(false, false, false, true, false, false)),
        ProjectType::Python
    );
    assert_eq!(
        detect_project_type(&markers(false, false, false, false, true, false)),
        ProjectType::Python
    );
    assert_eq!(
        detect_project_type(&markers(false, false, false, false, false, true)),
        ProjectType::Go
    );
    assert_eq!(
        detect_project_type(&markers(false, false, false, false, false, false)),
        ProjectType::Unknown
    );
}

#[test]
fn test_get_project_icon_names() {
    assert_eq!(get_project_icon(&ProjectType::Node), "js");
    assert_eq!(get_project_icon(&ProjectType::Rust), "rust");
    assert_eq!(get_project_icon(&ProjectType::Python), "python");
    assert_eq!(get_project_icon(&ProjectType::Go), "go");
    assert_eq!(get_project_icon(&ProjectType::Unknown), "folder");
}

#[test]
fn test_git_status_porcelain() {
    let status = "M  src/a.rs\n M src/b.rs\n?? new.txt\nMM both.rs\n";
    let g = build_git_status(String::from("main"), status, "1\t2\n");
    assert_eq!(g.branch, "main");
    assert_eq!(g.staged, vec![String::from("src/a.rs"), String::from("both.rs")]);
    assert_eq!(g.modified, vec![String::from("src/b.rs"), String::from("both.rs")]);
    assert_eq!(g.untracked, vec![String::from("new.txt")]);
    assert_eq!((g.ahead, g.behind), (1, 2));
}

#[test]
fn test_git_status_short_lines_skipped() {
    let g = build_git_status(String::from("dev"), "x\n\nD  gone.rs\n", "");
    assert_eq!(g.staged, vec![String::from("gone.rs")]);
    assert!(g.modified.is_empty());
    assert!(g.untracked.is_empty());
    assert_eq!((g.ahead, g.behind), (0, 0));
}

#[test]
fn test_ahead_behind_counts() {
    assert_eq!(parse_ahead_behind("3\t7\n"), (3, 7));
    assert_eq!(parse_ahead_behind("  4\t0  "), (4, 0));
    assert_eq!(parse_ahead_behind("nonsense"), (0, 0));
    assert_eq!(parse_ahead_behind("1\t2\t3"), (0, 0));
    assert_eq!(parse_ahead_behind("abc\t5"), (0, 5));
}

#[test]
fn test_i32_parsing_edges() {
    let chars = |s: &str| -> Vec<char> { s.chars().collect() };
    assert_eq!(i32_from_chars(&chars("42")), 42);
    assert_eq!(i32_from_chars(&chars("+7")), 7);
    assert_eq!(i32_from_chars(&chars("-9")), -9);
    assert_eq!(i32_from_chars(&chars("2147483647")), 2147483647);
    assert_eq!(i32_from_chars(&chars("2147483648")), 0);
    assert_eq!(i32_from_chars(&chars("-2147483648")), -2147483648);
    assert_eq!(i32_from_chars(&chars("-2147483649")), 0);
    assert_eq!(i32_from_chars(&chars("")), 0);
    assert_eq!(i32_from_chars(&chars("-")), 0);
    assert_eq!(i32_from_chars(&chars("12a")), 0);
    assert_eq!(i32_from_chars(&chars("007")), 7);
}
