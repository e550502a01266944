//! What a new project consists of: its directories and the text of its first
//! files, by template. Also the choice of the file that a command runs.

use vstd::prelude::*;
use vstd::string::*;
use crate::text::{push_str, same_text, string_of, texts_of};

verus! {

/// The first program of a project from the `basic` template.
pub const BASIC_PROGRAM: &'static str = "// Main entry point for Cortex program\n\
\n\
func main[] |\n\
\x20 print[\"Hello, Cortex!\"]\n\
\x20 let message := \"Welcome to Cortex programming\"\n\
\x20 print[message]\n\
^\n\
\n\
main[]";

/// The first program of a project from the `ml` template.
pub const ML_PROGRAM: &'static str = "// Machine Learning example with Cortex\n\
\n\
func main[] |\n\
\x20 print[\"Cortex ML Example\"]\n\
\x20 \n\
\x20 // Simple linear regression example\n\
\x20 let x := [1, 2, 3, 4, 5]\n\
\x20 let y := [2, 4, 6, 8, 10]\n\
\x20 \n\
\x20 let slope := calculate_slope[x, y]\n\
\x20 let intercept := calculate_intercept[x, y, slope]\n\
\x20 \n\
\x20 print[\"Linear regression results:\"]\n\
\x20 print[\"Slope: \" + str[slope]]\n\
\x20 print[\"Intercept: \" + str[intercept]]\n\
^\n\
\n\
func calculate_slope[x, y] |\n\
\x20 let n := len[x]\n\
\x20 let sum_x := sum[x]\n\
\x20 let sum_y := sum[y]\n\
\x20 let sum_xy := sum_products[x, y]\n\
\x20 let sum_x2 := sum_squares[x]\n\
\x20 \n\
\x20 let numerator := n * sum_xy - sum_x * sum_y\n\
\x20 let denominator := n * sum_x2 - sum_x * sum_x\n\
\x20 \n\
\x20 return[numerator / denominator]\n\
^\n\
\n\
func calculate_intercept[x, y, slope] |\n\
\x20 let n := len[x]\n\
\x20 let sum_x := sum[x]\n\
\x20 let sum_y := sum[y]\n\
\x20 \n\
\x20 return[(sum_y - slope * sum_x) / n]\n\
^\n\
\n\
func sum[arr] |\n\
\x20 let total := 0\n\
\x20 for [i] |\n\
\x20   let total := total + arr@i\n\
\x20 ^\n\
\x20 return[total]\n\
^\n\
\n\
func sum_products[x, y] |\n\
\x20 let total := 0\n\
\x20 for [i] |\n\
\x20   let total := total + x@i * y@i\n\
\x20 ^\n\
\x20 return[total]\n\
^\n\
\n\
func sum_squares[arr] |\n\
\x20 let total := 0\n\
\x20 for [i] |\n\
\x20   let total := total + arr@i * arr@i\n\
\x20 ^\n\
\x20 return[total]\n\
^\n\
\n\
main[]";

/// The first program of a project from the `web` template.
pub const WEB_PROGRAM: &'static str = "// Web application example with Cortex\n\
\n\
func main[] |\n\
\x20 print[\"Cortex Web Example\"]\n\
\x20 \n\
\x20 // Simple web server simulation\n\
\x20 let server := create_server[]\n\
\x20 let routes := create_routes[]\n\
\x20 \n\
\x20 print[\"Server started on http://localhost:3000\"]\n\
\x20 print[\"Available routes:\"]\n\
\x20 for [route in routes] |\n\
\x20   print[\"  \" + route]\n\
\x20 ^\n\
^\n\
\n\
func create_server[] |\n\
\x20 return[\"Cortex Web Server\"]\n\
^\n\
\n\
func create_routes[] |\n\
\x20 return[\"/\", \"/api\", \"/docs\", \"/health\"]\n\
^\n\
\n\
main[]";

/// The first program of a project from the `library` template.
pub const LIBRARY_PROGRAM: &'static str = "// Library example with Cortex\n\
\n\
func main[] |\n\
\x20 print[\"Cortex Library Example\"]\n\
\x20 \n\
\x20 // Demonstrate library functions\n\
\x20 let numbers := [1, 2, 3, 4, 5]\n\
\x20 let doubled := map[numbers, double]\n\
\x20 let sum := reduce[doubled, add]\n\
\x20 \n\
\x20 print[\"Original: \" + str[numbers]]\n\
\x20 print[\"Doubled: \" + str[doubled]]\n\
\x20 print[\"Sum: \" + str[sum]]\n\
^\n\
\n\
func double[x] |\n\
\x20 return[x * 2]\n\
^\n\
\n\
func add[a, b] |\n\
\x20 return[a + b]\n\
^\n\
\n\
func map[arr, func] |\n\
\x20 let result := []\n\
\x20 for [i] |\n\
\x20   let result := result + [func[arr@i]]\n\
\x20 ^\n\
\x20 return[result]\n\
^\n\
\n\
func reduce[arr, func] |\n\
\x20 if len[arr] == 0 |\n\
\x20   return[0]\n\
\x20 ^\n\
\x20 \n\
\x20 let result := arr@0\n\
\x20 for [i in range[1, len[arr]]] |\n\
\x20   let result := func[result, arr@i]\n\
\x20 ^\n\
\x20 return[result]\n\
^\n\
\n\
func range[start, end] |\n\
\x20 let result := []\n\
\x20 let i := start\n\
\x20 while [i < end] |\n\
\x20   let result := result + [i]\n\
\x20   let i := i + 1\n\
\x20 ^\n\
\x20 return[result]\n\
^\n\
\n\
main[]";

/// The first program of a project from any other template.
pub const PLAIN_PROGRAM: &'static str = "// Cortex program\n\
\n\
func main[] |\n\
\x20 print[\"Hello, Cortex!\"]\n\
^\n\
\n\
main[]";

/// The configuration of a project up to its name.
pub const CONFIG_HEAD: &'static str = "[package]\n\
name = \"";

/// The configuration of a project after its name.
pub const CONFIG_TAIL: &'static str = "\"\n\
version = \"0.1.0\"\n\
description = \"A Cortex project\"\n\
authors = [\"Cortex Developer\"]\n\
license = \"MIT\"\n\
\n\
[dependencies]\n\
# Add your dependencies here\n\
\n\
[dev-dependencies]\n\
# Add your development dependencies here\n\
\n\
[build]\n\
target = \"native\"\n\
optimization = \"balanced\"\n\
\n\
[format]\n\
indent_size = 2\n\
max_line_length = 100\n\
\n\
[lint]\n\
strict = false\n\
warnings_as_errors = false\n\
";

/// The introduction of a project up to its name.
pub const README_HEAD: &'static str = "# ";

/// The introduction of a project after its name.
pub const README_TAIL: &'static str = "\n\
\n\
A Cortex programming language project.\n\
\n\
## Getting Started\n\
\n\
1. Run the program:\n\
\x20  ```bash\n\
\x20  cortex run src/main.ctx\n\
\x20  ```\n\
\n\
2. Run tests:\n\
\x20  ```bash\n\
\x20  cortex test\n\
\x20  ```\n\
\n\
3. Build the project:\n\
\x20  ```bash\n\
\x20  cortex build\n\
\x20  ```\n\
\n\
## Project Structure\n\
\n\
- `src/` - Source code\n\
- `tests/` - Test files\n\
- `docs/` - Documentation\n\
- `cortex.toml` - Project configuration\n\
\n\
## Development\n\
\n\
- Format code: `cortex fmt`\n\
- Lint code: `cortex lint`\n\
- Debug: `cortex debug src/main.ctx`\n\
";

/// The files that version control leaves out.
pub const IGNORED_FILES: &'static str = "# Cortex build artifacts\n\
target/\n\
*.exe\n\
*.dll\n\
*.so\n\
*.dylib\n\
\n\
# IDE files\n\
.vscode/\n\
.idea/\n\
*.swp\n\
*.swo\n\
\n\
# OS files\n\
.DS_Store\n\
Thumbs.db\n\
\n\
# Logs\n\
*.log\n\
\n\
# Dependencies\n\
node_modules/\n\
";

/// The directories of a project from the given template; a template that is
/// not known gives those of `basic`.
pub open spec fn directories_of(template: Seq<char>) -> Seq<Seq<char>> {
    if template == "ml"@ {
        seq!["src"@, "tests"@, "docs"@, "data"@, "models"@]
    } else if template == "web"@ {
        seq!["src"@, "tests"@, "docs"@, "static"@, "templates"@]
    } else if template == "library"@ {
        seq!["src"@, "tests"@, "docs"@, "examples"@]
    } else {
        seq!["src"@, "tests"@, "docs"@]
    }
}

/// The first program of a project from the given template.
pub open spec fn program_of(template: Seq<char>) -> Seq<char> {
    if template == "basic"@ {
        BASIC_PROGRAM@
    } else if template == "ml"@ {
        ML_PROGRAM@
    } else if template == "web"@ {
        WEB_PROGRAM@
    } else if template == "library"@ {
        LIBRARY_PROGRAM@
    } else {
        PLAIN_PROGRAM@
    }
}

/// The directories of a project from the given template.
pub fn template_directories(template: &str) -> (directories: Vec<String>)
    ensures
        texts_of(directories@) == directories_of(template@),
{
    let mut directories: Vec<String> = Vec::new();
    directories.push(String::from_str("src"));
    directories.push(String::from_str("tests"));
    directories.push(String::from_str("docs"));
    if same_text(template, "ml") {
        directories.push(String::from_str("data"));
        directories.push(String::from_str("models"));
    } else if same_text(template, "web") {
        directories.push(String::from_str("static"));
        directories.push(String::from_str("templates"));
    } else if same_text(template, "library") {
        directories.push(String::from_str("examples"));
    }
    assert(texts_of(directories@) =~= directories_of(template@));
    directories
}

/// The first program of a project from the given template.
pub fn template_program(template: &str) -> (program: &'static str)
    ensures
        program@ == program_of(template@),
{
    if same_text(template, "basic") {
        BASIC_PROGRAM
    } else if same_text(template, "ml") {
        ML_PROGRAM
    } else if same_text(template, "web") {
        WEB_PROGRAM
    } else if same_text(template, "library") {
        LIBRARY_PROGRAM
    } else {
        PLAIN_PROGRAM
    }
}

/// `head`, then `name`, then `tail`.
fn around(head: &str, name: &str, tail: &str) -> (text: String)
    ensures
        text@ == head@ + name@ + tail@,
{
    let mut out: Vec<char> = Vec::new();
    push_str(head, &mut out);
    push_str(name, &mut out);
    push_str(tail, &mut out);
    assert(out@ =~= head@ + name@ + tail@);
    string_of(&out)
}

/// The configuration file of the project named `name`.
pub fn project_config(name: &str) -> (text: String)
    ensures
        text@ == CONFIG_HEAD@ + name@ + CONFIG_TAIL@,
{
    around(CONFIG_HEAD, name, CONFIG_TAIL)
}

/// The introduction of the project named `name`.
pub fn project_readme(name: &str) -> (text: String)
    ensures
        text@ == README_HEAD@ + name@ + README_TAIL@,
{
    around(README_HEAD, name, README_TAIL)
}

/// What a command runs when it is given a path.
#[derive(Debug, Clone, Copy, PartialEq, Eq, Structural)]
pub enum Entry {
    /// The path itself, which is a file.
    Given,
    /// `main.ctx` in the directory.
    Main,
    /// `index.ctx` in the directory.
    Index,
    /// Nothing: the directory holds neither.
    NoProgram,
    /// Nothing: the path does not exist.
    NoPath,
}

/// What a path stands for, by what is found at it: a file stands for itself,
/// a directory for its `main.ctx` or else its `index.ctx`.
pub open spec fn entry_for(
    is_file: bool,
    is_directory: bool,
    has_main: bool,
    has_index: bool,
) -> Entry {
    if is_file {
        Entry::Given
    } else if !is_directory {
        Entry::NoPath
    } else if has_main {
        Entry::Main
    } else if has_index {
        Entry::Index
    } else {
        Entry::NoProgram
    }
}

/// Chooses what a command runs when it is given a path.
pub fn choose_entry(
    is_file: bool,
    is_directory: bool,
    has_main: bool,
    has_index: bool,
) -> (entry: Entry)
    ensures
        entry == entry_for(is_file, is_directory, has_main, has_index),
{
    if is_file {
        Entry::Given
    } else if is_directory {
        if has_main {
            Entry::Main
        } else if has_index {
            Entry::Index
        } else {
            Entry::NoProgram
        }
    } else {
        Entry::NoPath
    }
}

} // verus!
