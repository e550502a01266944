use cortex_rust::lexer::Lexer;
use cortex_rust::parser::Parser;
use cortex_rust::project::{
    choose_entry, project_config, project_readme, template_directories, template_program, Entry,
    IGNORED_FILES,
};

#[test]
fn each_template_has_its_directories() {
    assert_eq!(template_directories("basic"), vec!["src", "tests", "docs"]);
    assert_eq!(template_directories("ml"), vec!["src", "tests", "docs", "data", "models"]);
    assert_eq!(template_directories("web"), vec!["src", "tests", "docs", "static", "templates"]);
    assert_eq!(template_directories("library"), vec!["src", "tests", "docs", "examples"]);
    assert_eq!(template_directories("other"), vec!["src", "tests", "docs"]);
    assert_eq!(template_directories(""), vec!["src", "tests", "docs"]);
}

#[test]
fn each_template_has_its_first_program() {
    assert_eq!(
        template_program("basic"),
        r#"// Main entry point for Cortex program

func main[] |
  print["Hello, Cortex!"]
  let message := "Welcome to Cortex programming"
  print[message]
^

main[]"#
    );
    assert_eq!(
        template_program("anything"),
        r#"// Cortex program

func main[] |
  print["Hello, Cortex!"]
^

main[]"#
    );
    assert!(template_program("ml").starts_with("// Machine Learning example with Cortex\n\nfunc main[] |\n  print[\"Cortex ML Example\"]\n  \n  // Simple linear regression example\n"));
    assert!(template_program("ml").ends_with("func sum_squares[arr] |\n  let total := 0\n  for [i] |\n    let total := total + arr@i * arr@i\n  ^\n  return[total]\n^\n\nmain[]"));
    assert!(template_program("web").contains("\nfunc create_routes[] |\n  return[\"/\", \"/api\", \"/docs\", \"/health\"]\n^\n"));
    assert!(template_program("library").contains("\n  let result := arr@0\n  for [i in range[1, len[arr]]] |\n"));
    assert_eq!(template_program("ml").lines().count(), 63);
    assert_eq!(template_program("ml").len(), 1161);
    assert_eq!(template_program("web").lines().count(), 25);
    assert_eq!(template_program("web").len(), 455);
    assert_eq!(template_program("library").lines().count(), 54);
    assert_eq!(template_program("library").len(), 866);

    for template in ["basic", "plain"] {
        let mut lexer = Lexer::new(template_program(template));
        let mut parser = Parser::new(lexer.tokenize().unwrap());
        assert_eq!(parser.parse().unwrap().statements.len(), 2);
    }
}

#[test]
fn the_files_of_a_project_carry_its_name() {
    assert_eq!(
        project_config("demo"),
        r#"[package]
name = "demo"
version = "0.1.0"
description = "A Cortex project"
authors = ["Cortex Developer"]
license = "MIT"

[dependencies]
# Add your dependencies here

[dev-dependencies]
# Add your development dependencies here

[build]
target = "native"
optimization = "balanced"

[format]
indent_size = 2
max_line_length = 100

[lint]
strict = false
warnings_as_errors = false
"#
    );
    let readme = project_readme("demo");
    assert!(readme.starts_with("# demo\n\nA Cortex programming language project.\n\n## Getting Started\n\n1. Run the program:\n   ```bash\n   cortex run src/main.ctx\n   ```\n"));
    assert!(readme.ends_with("## Development\n\n- Format code: `cortex fmt`\n- Lint code: `cortex lint`\n- Debug: `cortex debug src/main.ctx`\n"));
    assert_eq!(readme.lines().count(), 33);
    assert_eq!(readme.len(), 481 - 2 + 4);
    assert!(IGNORED_FILES.starts_with("# Cortex build artifacts\ntarget/\n*.exe\n"));
    assert!(IGNORED_FILES.ends_with("# Dependencies\nnode_modules/\n"));
    assert_eq!(IGNORED_FILES.lines().count(), 22);
    assert_eq!(IGNORED_FILES.len(), 175);
}

#[test]
fn a_path_stands_for_a_file_to_run() {
    assert_eq!(choose_entry(true, false, false, false), Entry::Given);
    assert_eq!(choose_entry(true, true, true, true), Entry::Given);
    assert_eq!(choose_entry(false, true, true, true), Entry::Main);
    assert_eq!(choose_entry(false, true, true, false), Entry::Main);
    assert_eq!(choose_entry(false, true, false, true), Entry::Index);
    assert_eq!(choose_entry(false, true, false, false), Entry::NoProgram);
    assert_eq!(choose_entry(false, false, true, true), Entry::NoPath);
    assert_eq!(choose_entry(false, false, false, false), Entry::NoPath);
}
