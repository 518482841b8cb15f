use robo::pyproject::{
    dependency_name, dependency_names, document_dependency_names, document_name,
    document_python_requirement, exact_python_requirement, has_dependency_name, normalize_name,
    parse_exact_python_requirement, project_name, python_requirement, TomlValue,
};
use robo::python::{check_python_version_files, quoted_value, robo_python_version};

#[test]
fn reads_structured_dependencies() {
    let text = r#"
[project]
name = "demo"
requires-python = "==3.11.*"
dependencies = ["torch>=2", "opencv_python[headless]"]

[project.optional-dependencies]
dev = ["PyQt6"]

[dependency-groups]
train = ["flash-attn"]

[tool.poetry.dependencies]
python = "^3.11"
dm-control = "*"
"#;

    let names = dependency_names(text);
    assert!(has_dependency_name(&names, &["torch"]));
    assert!(has_dependency_name(&names, &["opencv-python"]));
    assert!(has_dependency_name(&names, &["pyqt6"]));
    assert!(has_dependency_name(&names, &["flash-attn"]));
    assert!(has_dependency_name(&names, &["dm_control"]));
    assert_eq!(project_name(text), Some("demo".to_string()));
    assert_eq!(exact_python_requirement(text), Some("3.11".to_string()));
}

#[test]
fn python_is_not_a_poetry_dependency() {
    let names = dependency_names("[tool.poetry.dependencies]\npython = \"^3.11\"\n");
    assert!(names.is_empty());
}

#[test]
fn invalid_toml_has_no_name_or_dependencies() {
    assert_eq!(project_name("[project"), None);
    assert!(dependency_names("[project").is_empty());
    assert_eq!(python_requirement("[project]\nrequires-python = \">=3.10\"\n"), Some(">=3.10".into()));
    assert_eq!(exact_python_requirement("[project]\nrequires-python = \">=3.10\"\n"), None);
}

#[test]
fn exact_requirements_need_two_or_three_numeric_parts() {
    assert_eq!(parse_exact_python_requirement("==3.11.*").as_deref(), Some("3.11"));
    assert_eq!(parse_exact_python_requirement("=== 3.11.4").as_deref(), Some("3.11.4"));
    assert_eq!(parse_exact_python_requirement("==3"), None);
    assert_eq!(parse_exact_python_requirement("~=3.11"), None);
    assert_eq!(parse_exact_python_requirement("==3..1"), None);
}

#[test]
fn names_are_normalized_like_pep_503() {
    assert_eq!(normalize_name("Foo__Bar.baz"), "foo-bar-baz");
    assert_eq!(normalize_name("-x-"), "x");
    assert_eq!(dependency_name("  opencv_python[headless]>=4 "), Some("opencv-python".into()));
    assert_eq!(dependency_name(">=4"), None);
}

#[test]
fn quoted_values_accept_either_quote() {
    assert_eq!(quoted_value("name = \"cmake\""), Some("cmake".into()));
    assert_eq!(quoted_value("name = 'cmake'"), Some("cmake".into()));
    assert_eq!(quoted_value("name = cmake"), None);
    assert_eq!(quoted_value("name = \"open"), None);
}

#[test]
fn robo_nix_python_version_is_read() {
    let nix = "{\n  envName = \"demo\";\n  pythonVersion = \"3.12\";\n}\n";
    assert_eq!(robo_python_version(nix), Some("3.12".into()));
    assert_eq!(robo_python_version("{}"), None);
}

#[test]
fn version_files_must_agree_with_pyproject() {
    assert!(check_python_version_files(None, None, None).is_ok());
    let missing = check_python_version_files(Some("3.11"), None, None).unwrap_err();
    assert_eq!(missing.error, "pyproject.toml requires Python 3.11, but .python-version is missing.");
    let wrong = check_python_version_files(Some("3.11"), Some("3.10\n"), None).unwrap_err();
    assert_eq!(wrong.error, ".python-version is 3.10, but pyproject.toml requires Python 3.11.");
    assert_eq!(wrong.hints.len(), 2);
    let nix = check_python_version_files(Some("3.11"), Some("3.11\n"), Some("pythonVersion = \"3.10\";"))
        .unwrap_err();
    assert_eq!(nix.error, "robo.nix declares Python 3.10, but pyproject.toml requires Python 3.11.");
    assert!(check_python_version_files(Some("3.11"), Some("3.11\n"), Some("pythonVersion = \"3.11\";")).is_ok());
}

fn toml_table(entries: Vec<(&str, TomlValue)>) -> TomlValue {
    TomlValue::Table(entries.into_iter().map(|(k, v)| (k.to_string(), v)).collect())
}

#[test]
fn parsed_documents_are_walked_by_key() {
    let doc = toml_table(vec![
        (
            "project",
            toml_table(vec![
                ("name", TomlValue::Str("demo".to_string())),
                ("requires-python", TomlValue::Str("==3.11.*".to_string())),
                (
                    "dependencies",
                    TomlValue::Array(vec![
                        TomlValue::Str("Opencv_Python>=4".to_string()),
                        TomlValue::Other,
                    ]),
                ),
            ]),
        ),
        (
            "tool",
            toml_table(vec![(
                "poetry",
                toml_table(vec![(
                    "dependencies",
                    toml_table(vec![("torch", TomlValue::Str("*".to_string()))]),
                )]),
            )]),
        ),
    ]);
    assert_eq!(document_name(Some(&doc)), Some("demo".to_string()));
    assert_eq!(document_python_requirement(Some(&doc)), Some("==3.11.*".to_string()));
    let mut names = document_dependency_names(Some(&doc));
    names.sort();
    assert_eq!(names, vec!["opencv-python".to_string(), "torch".to_string()]);
    assert_eq!(document_name(None), None);
    assert_eq!(document_name(Some(&TomlValue::Other)), None);
    assert!(document_dependency_names(None).is_empty());
}
