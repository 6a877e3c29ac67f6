use language_detection::labels::magika_label_to_extension;

#[test]
fn test_maps_python() {
    assert_eq!(magika_label_to_extension("python"), Some("py"));
}

#[test]
fn test_maps_rust() {
    assert_eq!(magika_label_to_extension("rust"), Some("rs"));
}

#[test]
fn test_maps_javascript() {
    assert_eq!(magika_label_to_extension("javascript"), Some("js"));
}

#[test]
fn test_maps_typescript() {
    assert_eq!(magika_label_to_extension("typescript"), Some("ts"));
}

#[test]
fn test_maps_go() {
    assert_eq!(magika_label_to_extension("go"), Some("go"));
}

#[test]
fn test_maps_ruby() {
    assert_eq!(magika_label_to_extension("ruby"), Some("rb"));
}

#[test]
fn test_maps_shell() {
    assert_eq!(magika_label_to_extension("shell"), Some("sh"));
}

#[test]
fn test_maps_dockerfile() {
    assert_eq!(magika_label_to_extension("dockerfile"), Some("Dockerfile"));
}

#[test]
fn test_maps_makefile() {
    assert_eq!(magika_label_to_extension("makefile"), Some("Makefile"));
}

#[test]
fn test_maps_objectivec_not_matlab() {
    assert_eq!(magika_label_to_extension("objectivec"), Some("m"));
}

#[test]
fn test_maps_perl_not_prolog() {
    assert_eq!(magika_label_to_extension("perl"), Some("pl"));
}

#[test]
fn test_rejects_txt() {
    assert_eq!(magika_label_to_extension("txt"), None);
}

#[test]
fn test_rejects_unknown() {
    assert_eq!(magika_label_to_extension("unknown"), None);
}

#[test]
fn test_rejects_empty() {
    assert_eq!(magika_label_to_extension("empty"), None);
}

#[test]
fn test_rejects_csv() {
    assert_eq!(magika_label_to_extension("csv"), None);
}

const TABLE: [(&str, &str); 77] = [
    ("dockerfile", "Dockerfile"),
    ("makefile", "Makefile"),
    ("objectivec", "m"),
    ("perl", "pl"),
    ("aidl", "aidl"),
    ("asm", "asm"),
    ("asp", "asp"),
    ("autohotkey", "ahk"),
    ("autoit", "au3"),
    ("awk", "awk"),
    ("batch", "bat"),
    ("bazel", "bzl"),
    ("c", "c"),
    ("clojure", "clj"),
    ("cmake", "cmake"),
    ("cobol", "cob"),
    ("coffeescript", "coffee"),
    ("cpp", "cpp"),
    ("cs", "cs"),
    ("css", "css"),
    ("dart", "dart"),
    ("diff", "diff"),
    ("dm", "dm"),
    ("elixir", "ex"),
    ("erb", "erb"),
    ("erlang", "erl"),
    ("fortran", "f90"),
    ("gemfile", "Gemfile"),
    ("go", "go"),
    ("gradle", "gradle"),
    ("groovy", "groovy"),
    ("handlebars", "hbs"),
    ("haskell", "hs"),
    ("hcl", "hcl"),
    ("html", "html"),
    ("ini", "ini"),
    ("java", "java"),
    ("javascript", "js"),
    ("jinja", "j2"),
    ("json", "json"),
    ("jsonl", "jsonl"),
    ("julia", "jl"),
    ("kotlin", "kt"),
    ("latex", "tex"),
    ("lisp", "lisp"),
    ("lua", "lua"),
    ("m4", "m4"),
    ("markdown", "md"),
    ("matlab", "matlab"),
    ("ocaml", "ml"),
    ("pascal", "pas"),
    ("php", "php"),
    ("powershell", "ps1"),
    ("prolog", "pro"),
    ("proto", "proto"),
    ("python", "py"),
    ("r", "r"),
    ("rst", "rst"),
    ("ruby", "rb"),
    ("rust", "rs"),
    ("scala", "scala"),
    ("scss", "scss"),
    ("shell", "sh"),
    ("smali", "smali"),
    ("solidity", "sol"),
    ("sql", "sql"),
    ("swift", "swift"),
    ("tcl", "tcl"),
    ("toml", "toml"),
    ("typescript", "ts"),
    ("vba", "vba"),
    ("verilog", "v"),
    ("vhdl", "vhd"),
    ("vue", "vue"),
    ("xml", "xml"),
    ("yaml", "yaml"),
    ("zig", "zig"),
];

#[test]
fn maps_every_row_of_the_table() {
    for (label, extension) in TABLE {
        assert_eq!(magika_label_to_extension(label), Some(extension), "{label}");
    }
}

#[test]
fn no_two_labels_share_an_extension() {
    for (i, (a, _)) in TABLE.iter().enumerate() {
        for (b, _) in &TABLE[..i] {
            assert_ne!(magika_label_to_extension(a), magika_label_to_extension(b));
        }
    }
}

#[test]
fn labels_are_matched_exactly() {
    for label in ["", "Python", "python ", " python", "pytho", "pythonn", "pythön", "py"] {
        assert_eq!(magika_label_to_extension(label), None, "{label}");
    }
}
