//! Classifier tables: fixed, pure lookups from file extensions and file
//! names to categories (binary, text, source code, config), to language
//! labels, and to project ecosystems.

use vstd::prelude::*;
use crate::text::{str_eq, starts_with_str, ends_with_str, has_prefix, has_suffix};

verus! {

pub open spec fn spec_is_binary(e: Seq<char>) -> bool {
    ||| e == "exe"@
    ||| e == "dll"@
    ||| e == "so"@
    ||| e == "dylib"@
    ||| e == "bin"@
    ||| e == "dat"@
    ||| e == "zip"@
    ||| e == "tar"@
    ||| e == "gz"@
    ||| e == "7z"@
    ||| e == "rar"@
    ||| e == "jpg"@
    ||| e == "jpeg"@
    ||| e == "png"@
    ||| e == "gif"@
    ||| e == "bmp"@
    ||| e == "ico"@
    ||| e == "mp3"@
    ||| e == "mp4"@
    ||| e == "avi"@
    ||| e == "mov"@
    ||| e == "wmv"@
    ||| e == "pdf"@
    ||| e == "doc"@
    ||| e == "docx"@
    ||| e == "xls"@
    ||| e == "xlsx"@
    ||| e == "ppt"@
    ||| e == "pptx"@
}

/// Whether the extension names a known binary format.
pub fn is_binary_file(extension: &str) -> (r: bool)
    ensures
        r == spec_is_binary(extension@),
{
    str_eq(extension, "exe") || str_eq(extension, "dll") || str_eq(extension, "so") || str_eq(
        extension,
        "dylib",
    ) || str_eq(extension, "bin") || str_eq(extension, "dat") || str_eq(extension, "zip")
        || str_eq(extension, "tar") || str_eq(extension, "gz") || str_eq(extension, "7z")
        || str_eq(extension, "rar") || str_eq(extension, "jpg") || str_eq(extension, "jpeg")
        || str_eq(extension, "png") || str_eq(extension, "gif") || str_eq(extension, "bmp")
        || str_eq(extension, "ico") || str_eq(extension, "mp3") || str_eq(extension, "mp4")
        || str_eq(extension, "avi") || str_eq(extension, "mov") || str_eq(extension, "wmv")
        || str_eq(extension, "pdf") || str_eq(extension, "doc") || str_eq(extension, "docx")
        || str_eq(extension, "xls") || str_eq(extension, "xlsx") || str_eq(extension, "ppt")
        || str_eq(extension, "pptx")
}

pub open spec fn spec_is_text(e: Seq<char>) -> bool {
    ||| e == "txt"@
    ||| e == "md"@
    ||| e == "markdown"@
    ||| e == "js"@
    ||| e == "ts"@
    ||| e == "jsx"@
    ||| e == "tsx"@
    ||| e == "rs"@
    ||| e == "dart"@
    ||| e == "py"@
    ||| e == "java"@
    ||| e == "go"@
    ||| e == "rb"@
    ||| e == "php"@
    ||| e == "c"@
    ||| e == "cpp"@
    ||| e == "h"@
    ||| e == "hpp"@
    ||| e == "cs"@
    ||| e == "html"@
    ||| e == "htm"@
    ||| e == "css"@
    ||| e == "scss"@
    ||| e == "sass"@
    ||| e == "less"@
    ||| e == "json"@
    ||| e == "yaml"@
    ||| e == "yml"@
    ||| e == "xml"@
    ||| e == "toml"@
    ||| e == "ini"@
    ||| e == "conf"@
    ||| e == "sh"@
    ||| e == "bash"@
    ||| e == "zsh"@
    ||| e == "fish"@
    ||| e == "ps1"@
    ||| e == "bat"@
    ||| e == "cmd"@
}

/// Whether the extension names a known plain-text format.
pub fn is_text_file(extension: &str) -> (r: bool)
    ensures
        r == spec_is_text(extension@),
{
    str_eq(extension, "txt") || str_eq(extension, "md") || str_eq(extension, "markdown")
        || str_eq(extension, "js") || str_eq(extension, "ts") || str_eq(extension, "jsx")
        || str_eq(extension, "tsx") || str_eq(extension, "rs") || str_eq(extension, "dart")
        || str_eq(extension, "py") || str_eq(extension, "java") || str_eq(extension, "go")
        || str_eq(extension, "rb") || str_eq(extension, "php") || str_eq(extension, "c")
        || str_eq(extension, "cpp") || str_eq(extension, "h") || str_eq(extension, "hpp")
        || str_eq(extension, "cs") || str_eq(extension, "html") || str_eq(extension, "htm")
        || str_eq(extension, "css") || str_eq(extension, "scss") || str_eq(extension, "sass")
        || str_eq(extension, "less") || str_eq(extension, "json") || str_eq(extension, "yaml")
        || str_eq(extension, "yml") || str_eq(extension, "xml") || str_eq(extension, "toml")
        || str_eq(extension, "ini") || str_eq(extension, "conf") || str_eq(extension, "sh")
        || str_eq(extension, "bash") || str_eq(extension, "zsh") || str_eq(extension, "fish")
        || str_eq(extension, "ps1") || str_eq(extension, "bat") || str_eq(extension, "cmd")
}

pub open spec fn spec_is_source(e: Seq<char>) -> bool {
    ||| e == "js"@
    ||| e == "ts"@
    ||| e == "jsx"@
    ||| e == "tsx"@
    ||| e == "rs"@
    ||| e == "dart"@
    ||| e == "py"@
    ||| e == "java"@
    ||| e == "go"@
    ||| e == "rb"@
    ||| e == "php"@
    ||| e == "c"@
    ||| e == "cpp"@
    ||| e == "cc"@
    ||| e == "cxx"@
    ||| e == "h"@
    ||| e == "hpp"@
    ||| e == "cs"@
    ||| e == "swift"@
    ||| e == "kt"@
    ||| e == "scala"@
    ||| e == "clj"@
    ||| e == "ex"@
    ||| e == "exs"@
    ||| e == "hs"@
    ||| e == "ml"@
    ||| e == "elm"@
    ||| e == "erl"@
    ||| e == "lua"@
    ||| e == "r"@
}

/// Whether the extension names a source-code language. This is the one
/// canonical source-code table; the line-count estimate uses it too.
pub fn is_source_code(extension: &str) -> (r: bool)
    ensures
        r == spec_is_source(extension@),
{
    str_eq(extension, "js") || str_eq(extension, "ts") || str_eq(extension, "jsx") || str_eq(
        extension,
        "tsx",
    ) || str_eq(extension, "rs") || str_eq(extension, "dart") || str_eq(extension, "py")
        || str_eq(extension, "java") || str_eq(extension, "go") || str_eq(extension, "rb")
        || str_eq(extension, "php") || str_eq(extension, "c") || str_eq(extension, "cpp")
        || str_eq(extension, "cc") || str_eq(extension, "cxx") || str_eq(extension, "h")
        || str_eq(extension, "hpp") || str_eq(extension, "cs") || str_eq(extension, "swift")
        || str_eq(extension, "kt") || str_eq(extension, "scala") || str_eq(extension, "clj")
        || str_eq(extension, "ex") || str_eq(extension, "exs") || str_eq(extension, "hs")
        || str_eq(extension, "ml") || str_eq(extension, "elm") || str_eq(extension, "erl")
        || str_eq(extension, "lua") || str_eq(extension, "r")
}

pub open spec fn spec_is_config_file(name: Seq<char>) -> bool {
    ||| has_prefix(name, "."@)
    ||| name == "package.json"@
    ||| name == "tsconfig.json"@
    ||| name == "webpack.config.js"@
    ||| name == "vite.config.js"@
    ||| name == "rollup.config.js"@
    ||| name == "babel.config.js"@
    ||| name == "Cargo.toml"@
    ||| name == "pubspec.yaml"@
    ||| name == "go.mod"@
    ||| name == "Dockerfile"@
    ||| name == "docker-compose.yml"@
    ||| name == "nginx.conf"@
    ||| name == ".gitignore"@
    ||| name == ".env"@
    ||| has_suffix(name, ".config.js"@)
    ||| has_suffix(name, ".config.ts"@)
    ||| has_suffix(name, ".conf"@)
}

/// Whether the file name is a known configuration file: a dotfile, a
/// fixed literal name, or a `.config.js` / `.config.ts` / `.conf` suffix.
pub fn is_config_file(filename: &str) -> (r: bool)
    ensures
        r == spec_is_config_file(filename@),
{
    starts_with_str(filename, ".") || str_eq(filename, "package.json") || str_eq(
        filename,
        "tsconfig.json",
    ) || str_eq(filename, "webpack.config.js") || str_eq(filename, "vite.config.js") || str_eq(
        filename,
        "rollup.config.js",
    ) || str_eq(filename, "babel.config.js") || str_eq(filename, "Cargo.toml") || str_eq(
        filename,
        "pubspec.yaml",
    ) || str_eq(filename, "go.mod") || str_eq(filename, "Dockerfile") || str_eq(
        filename,
        "docker-compose.yml",
    ) || str_eq(filename, "nginx.conf") || str_eq(filename, ".gitignore") || str_eq(
        filename,
        ".env",
    ) || ends_with_str(filename, ".config.js") || ends_with_str(filename, ".config.ts")
        || ends_with_str(filename, ".conf")
}

/// The language label for an extension in the fixed registry, if any.
pub open spec fn spec_language_of(e: Seq<char>) -> Option<Seq<char>> {
    if e == "js"@ {
        Some("JavaScript"@)
    } else if e == "ts"@ {
        Some("TypeScript"@)
    } else if e == "jsx"@ {
        Some("JavaScript (JSX)"@)
    } else if e == "tsx"@ {
        Some("TypeScript (TSX)"@)
    } else if e == "rs"@ {
        Some("Rust"@)
    } else if e == "dart"@ {
        Some("Dart"@)
    } else if e == "py"@ {
        Some("Python"@)
    } else if e == "java"@ {
        Some("Java"@)
    } else if e == "go"@ {
        Some("Go"@)
    } else if e == "rb"@ {
        Some("Ruby"@)
    } else if e == "php"@ {
        Some("PHP"@)
    } else if e == "c"@ {
        Some("C"@)
    } else if e == "cpp"@ || e == "cc"@ || e == "cxx"@ {
        Some("C++"@)
    } else if e == "h"@ {
        Some("C/C++ Header"@)
    } else if e == "cs"@ {
        Some("C#"@)
    } else if e == "html"@ {
        Some("HTML"@)
    } else if e == "css"@ {
        Some("CSS"@)
    } else if e == "scss"@ {
        Some("SCSS"@)
    } else if e == "json"@ {
        Some("JSON"@)
    } else if e == "yaml"@ || e == "yml"@ {
        Some("YAML"@)
    } else if e == "xml"@ {
        Some("XML"@)
    } else if e == "md"@ {
        Some("Markdown"@)
    } else {
        None
    }
}

/// Look an extension up in the language registry.
pub fn language_of_ext(e: &str) -> (r: Option<&'static str>)
    ensures
        match r {
            Some(l) => spec_language_of(e@) == Some(l@),
            None => spec_language_of(e@) is None,
        },
{
    if str_eq(e, "js") {
        Some("JavaScript")
    } else if str_eq(e, "ts") {
        Some("TypeScript")
    } else if str_eq(e, "jsx") {
        Some("JavaScript (JSX)")
    } else if str_eq(e, "tsx") {
        Some("TypeScript (TSX)")
    } else if str_eq(e, "rs") {
        Some("Rust")
    } else if str_eq(e, "dart") {
        Some("Dart")
    } else if str_eq(e, "py") {
        Some("Python")
    } else if str_eq(e, "java") {
        Some("Java")
    } else if str_eq(e, "go") {
        Some("Go")
    } else if str_eq(e, "rb") {
        Some("Ruby")
    } else if str_eq(e, "php") {
        Some("PHP")
    } else if str_eq(e, "c") {
        Some("C")
    } else if str_eq(e, "cpp") || str_eq(e, "cc") || str_eq(e, "cxx") {
        Some("C++")
    } else if str_eq(e, "h") {
        Some("C/C++ Header")
    } else if str_eq(e, "cs") {
        Some("C#")
    } else if str_eq(e, "html") {
        Some("HTML")
    } else if str_eq(e, "css") {
        Some("CSS")
    } else if str_eq(e, "scss") {
        Some("SCSS")
    } else if str_eq(e, "json") {
        Some("JSON")
    } else if str_eq(e, "yaml") || str_eq(e, "yml") {
        Some("YAML")
    } else if str_eq(e, "xml") {
        Some("XML")
    } else if str_eq(e, "md") {
        Some("Markdown")
    } else {
        None
    }
}

/// How many distinct language labels the registry holds.
pub const N_LANGUAGES: usize = 22;

/// The language labels of the registry, in registry order. That order is
/// the documented tie-break for equally sized languages in a breakdown.
#[verifier::opaque]
pub open spec fn language_at(k: int) -> Seq<char> {
    if k == 0 {
        "JavaScript"@
    } else if k == 1 {
        "TypeScript"@
    } else if k == 2 {
        "JavaScript (JSX)"@
    } else if k == 3 {
        "TypeScript (TSX)"@
    } else if k == 4 {
        "Rust"@
    } else if k == 5 {
        "Dart"@
    } else if k == 6 {
        "Python"@
    } else if k == 7 {
        "Java"@
    } else if k == 8 {
        "Go"@
    } else if k == 9 {
        "Ruby"@
    } else if k == 10 {
        "PHP"@
    } else if k == 11 {
        "C"@
    } else if k == 12 {
        "C++"@
    } else if k == 13 {
        "C/C++ Header"@
    } else if k == 14 {
        "C#"@
    } else if k == 15 {
        "HTML"@
    } else if k == 16 {
        "CSS"@
    } else if k == 17 {
        "SCSS"@
    } else if k == 18 {
        "JSON"@
    } else if k == 19 {
        "YAML"@
    } else if k == 20 {
        "XML"@
    } else {
        "Markdown"@
    }
}

/// The language label at an index of the registry.
pub fn language_name_at(k: usize) -> (r: &'static str)
    requires
        k < N_LANGUAGES,
    ensures
        r@ == language_at(k as int),
{
    proof {
        reveal(language_at);
    }
    if k == 0 {
        "JavaScript"
    } else if k == 1 {
        "TypeScript"
    } else if k == 2 {
        "JavaScript (JSX)"
    } else if k == 3 {
        "TypeScript (TSX)"
    } else if k == 4 {
        "Rust"
    } else if k == 5 {
        "Dart"
    } else if k == 6 {
        "Python"
    } else if k == 7 {
        "Java"
    } else if k == 8 {
        "Go"
    } else if k == 9 {
        "Ruby"
    } else if k == 10 {
        "PHP"
    } else if k == 11 {
        "C"
    } else if k == 12 {
        "C++"
    } else if k == 13 {
        "C/C++ Header"
    } else if k == 14 {
        "C#"
    } else if k == 15 {
        "HTML"
    } else if k == 16 {
        "CSS"
    } else if k == 17 {
        "SCSS"
    } else if k == 18 {
        "JSON"
    } else if k == 19 {
        "YAML"
    } else if k == 20 {
        "XML"
    } else {
        "Markdown"
    }
}

/// The registry's labels are pairwise distinct.
pub proof fn lemma_languages_distinct()
    ensures
        forall|k1: int, k2: int|
            0 <= k1 < k2 < N_LANGUAGES ==> language_at(k1) != language_at(k2),
{
    reveal(language_at);
    reveal_strlit("JavaScript");
    reveal_strlit("TypeScript");
    reveal_strlit("JavaScript (JSX)");
    reveal_strlit("TypeScript (TSX)");
    reveal_strlit("Rust");
    reveal_strlit("Dart");
    reveal_strlit("Python");
    reveal_strlit("Java");
    reveal_strlit("Go");
    reveal_strlit("Ruby");
    reveal_strlit("PHP");
    reveal_strlit("C");
    reveal_strlit("C++");
    reveal_strlit("C/C++ Header");
    reveal_strlit("C#");
    reveal_strlit("HTML");
    reveal_strlit("CSS");
    reveal_strlit("SCSS");
    reveal_strlit("JSON");
    reveal_strlit("YAML");
    reveal_strlit("XML");
    reveal_strlit("Markdown");
    assert forall|k1: int, k2: int|
        0 <= k1 < k2 < N_LANGUAGES implies language_at(k1) != language_at(k2) by {
        assert(language_at(k1).len() != language_at(k2).len() || language_at(k1)[0] != language_at(
            k2,
        )[0] || language_at(k1)[1] != language_at(k2)[1] || language_at(k1)[2] != language_at(k2)[2]
            || language_at(k1)[3] != language_at(k2)[3]);
    }
}

/// The project ecosystem that a marker file name indicates, if any.
pub open spec fn spec_marker_type(name: Seq<char>) -> Option<Seq<char>> {
    if name == "package.json"@ {
        Some("Node.js"@)
    } else if name == "Cargo.toml"@ {
        Some("Rust"@)
    } else if name == "pubspec.yaml"@ {
        Some("Flutter/Dart"@)
    } else if name == "pom.xml"@ || name == "build.gradle"@ {
        Some("Java"@)
    } else if name == "requirements.txt"@ || name == "setup.py"@ {
        Some("Python"@)
    } else if name == "go.mod"@ {
        Some("Go"@)
    } else if name == "Gemfile"@ {
        Some("Ruby"@)
    } else if name == "composer.json"@ {
        Some("PHP"@)
    } else {
        None
    }
}

/// Look a file name up in the marker table.
pub fn marker_project_type(name: &str) -> (r: Option<&'static str>)
    ensures
        match r {
            Some(t) => spec_marker_type(name@) == Some(t@),
            None => spec_marker_type(name@) is None,
        },
{
    if str_eq(name, "package.json") {
        Some("Node.js")
    } else if str_eq(name, "Cargo.toml") {
        Some("Rust")
    } else if str_eq(name, "pubspec.yaml") {
        Some("Flutter/Dart")
    } else if str_eq(name, "pom.xml") || str_eq(name, "build.gradle") {
        Some("Java")
    } else if str_eq(name, "requirements.txt") || str_eq(name, "setup.py") {
        Some("Python")
    } else if str_eq(name, "go.mod") {
        Some("Go")
    } else if str_eq(name, "Gemfile") {
        Some("Ruby")
    } else if str_eq(name, "composer.json") {
        Some("PHP")
    } else {
        None
    }
}

/// How many extensions the fallback ecosystem table holds.
pub const N_FALLBACK_EXTS: usize = 16;

/// The extensions of the fallback ecosystem table, in its canonical
/// order. The earliest extension wins ties on equal counts.
pub open spec fn fallback_ext_at(k: int) -> Seq<char> {
    if k == 0 {
        "js"@
    } else if k == 1 {
        "ts"@
    } else if k == 2 {
        "jsx"@
    } else if k == 3 {
        "tsx"@
    } else if k == 4 {
        "rs"@
    } else if k == 5 {
        "dart"@
    } else if k == 6 {
        "py"@
    } else if k == 7 {
        "java"@
    } else if k == 8 {
        "go"@
    } else if k == 9 {
        "rb"@
    } else if k == 10 {
        "php"@
    } else if k == 11 {
        "c"@
    } else if k == 12 {
        "cpp"@
    } else if k == 13 {
        "cc"@
    } else if k == 14 {
        "cxx"@
    } else {
        "cs"@
    }
}

/// The ecosystem label the fallback table assigns to each extension.
pub open spec fn fallback_label_at(k: int) -> Seq<char> {
    if k <= 3 {
        "JavaScript/TypeScript"@
    } else if k == 4 {
        "Rust"@
    } else if k == 5 {
        "Dart"@
    } else if k == 6 {
        "Python"@
    } else if k == 7 {
        "Java"@
    } else if k == 8 {
        "Go"@
    } else if k == 9 {
        "Ruby"@
    } else if k == 10 {
        "PHP"@
    } else if k <= 14 {
        "C/C++"@
    } else {
        "C#"@
    }
}

/// The extension at an index of the fallback table.
pub fn fallback_ext_name(k: usize) -> (r: &'static str)
    requires
        k < N_FALLBACK_EXTS,
    ensures
        r@ == fallback_ext_at(k as int),
{
    if k == 0 {
        "js"
    } else if k == 1 {
        "ts"
    } else if k == 2 {
        "jsx"
    } else if k == 3 {
        "tsx"
    } else if k == 4 {
        "rs"
    } else if k == 5 {
        "dart"
    } else if k == 6 {
        "py"
    } else if k == 7 {
        "java"
    } else if k == 8 {
        "go"
    } else if k == 9 {
        "rb"
    } else if k == 10 {
        "php"
    } else if k == 11 {
        "c"
    } else if k == 12 {
        "cpp"
    } else if k == 13 {
        "cc"
    } else if k == 14 {
        "cxx"
    } else {
        "cs"
    }
}

/// The ecosystem label at an index of the fallback table.
pub fn fallback_label_name(k: usize) -> (r: &'static str)
    requires
        k < N_FALLBACK_EXTS,
    ensures
        r@ == fallback_label_at(k as int),
{
    if k <= 3 {
        "JavaScript/TypeScript"
    } else if k == 4 {
        "Rust"
    } else if k == 5 {
        "Dart"
    } else if k == 6 {
        "Python"
    } else if k == 7 {
        "Java"
    } else if k == 8 {
        "Go"
    } else if k == 9 {
        "Ruby"
    } else if k == 10 {
        "PHP"
    } else if k <= 14 {
        "C/C++"
    } else {
        "C#"
    }
}

} // verus!
