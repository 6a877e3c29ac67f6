use vstd::prelude::*;

use crate::text::str_eq;

verus! {

/// The content type labels that stand for code, each with the file extension
/// under which a language registry knows that kind of code.
///
/// The first four entries are chosen by hand: types without an extension of
/// their own, and types whose usual extension would be ambiguous.
pub open spec fn extension_table() -> Seq<(Seq<char>, Seq<char>)> {
    seq![
        ("dockerfile"@, "Dockerfile"@),
        ("makefile"@, "Makefile"@),
        ("objectivec"@, "m"@),
        ("perl"@, "pl"@),
        ("aidl"@, "aidl"@),
        ("asm"@, "asm"@),
        ("asp"@, "asp"@),
        ("autohotkey"@, "ahk"@),
        ("autoit"@, "au3"@),
        ("awk"@, "awk"@),
        ("batch"@, "bat"@),
        ("bazel"@, "bzl"@),
        ("c"@, "c"@),
        ("clojure"@, "clj"@),
        ("cmake"@, "cmake"@),
        ("cobol"@, "cob"@),
        ("coffeescript"@, "coffee"@),
        ("cpp"@, "cpp"@),
        ("cs"@, "cs"@),
        ("css"@, "css"@),
        ("dart"@, "dart"@),
        ("diff"@, "diff"@),
        ("dm"@, "dm"@),
        ("elixir"@, "ex"@),
        ("erb"@, "erb"@),
        ("erlang"@, "erl"@),
        ("fortran"@, "f90"@),
        ("gemfile"@, "Gemfile"@),
        ("go"@, "go"@),
        ("gradle"@, "gradle"@),
        ("groovy"@, "groovy"@),
        ("handlebars"@, "hbs"@),
        ("haskell"@, "hs"@),
        ("hcl"@, "hcl"@),
        ("html"@, "html"@),
        ("ini"@, "ini"@),
        ("java"@, "java"@),
        ("javascript"@, "js"@),
        ("jinja"@, "j2"@),
        ("json"@, "json"@),
        ("jsonl"@, "jsonl"@),
        ("julia"@, "jl"@),
        ("kotlin"@, "kt"@),
        ("latex"@, "tex"@),
        ("lisp"@, "lisp"@),
        ("lua"@, "lua"@),
        ("m4"@, "m4"@),
        ("markdown"@, "md"@),
        ("matlab"@, "matlab"@),
        ("ocaml"@, "ml"@),
        ("pascal"@, "pas"@),
        ("php"@, "php"@),
        ("powershell"@, "ps1"@),
        ("prolog"@, "pro"@),
        ("proto"@, "proto"@),
        ("python"@, "py"@),
        ("r"@, "r"@),
        ("rst"@, "rst"@),
        ("ruby"@, "rb"@),
        ("rust"@, "rs"@),
        ("scala"@, "scala"@),
        ("scss"@, "scss"@),
        ("shell"@, "sh"@),
        ("smali"@, "smali"@),
        ("solidity"@, "sol"@),
        ("sql"@, "sql"@),
        ("swift"@, "swift"@),
        ("tcl"@, "tcl"@),
        ("toml"@, "toml"@),
        ("typescript"@, "ts"@),
        ("vba"@, "vba"@),
        ("verilog"@, "v"@),
        ("vhdl"@, "vhd"@),
        ("vue"@, "vue"@),
        ("xml"@, "xml"@),
        ("yaml"@, "yaml"@),
        ("zig"@, "zig"@),
    ]
}

/// The extension that belongs to `label`: the one that stands beside it in
/// `extension_table`, or `None` for a label that the table does not hold.
pub open spec fn extension_for(label: Seq<char>) -> Option<Seq<char>> {
    if exists|ext: Seq<char>| extension_table().contains((label, ext)) {
        Some(choose|ext: Seq<char>| extension_table().contains((label, ext)))
    } else {
        None
    }
}

/// A number made of the length and the first, middle and last characters of
/// `s`. It tells the labels of the table apart, and its extensions.
spec fn fingerprint(s: Seq<char>) -> int {
    ((s.len() * 128 + s[0] as int) * 128 + s[s.len() as int / 2] as int) * 128
        + s[s.len() - 1] as int
}

/// The fingerprints of the labels of the table, row by row.
spec fn label_fingerprints() -> Seq<int> {
    seq![
        22624613, 18576229, 22805091, 10238316, 9990764, 7895533, 7895536, 22575097, 14186484,
        7896043, 12106344, 12107116, 3731939, 16315749, 12120293, 12120428, 26802676, 7927920,
        5831155, 7928307, 10041716, 10040166, 5846765, 14253170, 7960930, 14250215, 16366190,
        16380773, 5896175, 14283365, 14284793, 22688499, 16397804, 8008172, 10106604, 8025961,
        10140513, 22721012, 12236641, 10139630, 12236780, 12236385, 14349934, 12270200,
        10172912, 8076001, 5986868, 18575982, 14382690, 12316908, 14430700, 8139888, 22821356,
        14431847, 12335087, 14431342, 3979634, 8174068, 10269049, 10271220, 12382433, 10287603,
        12382956, 12382441, 18674297, 8190188, 12383476, 8204780, 10303212, 22884852, 8237409,
        16626919, 10334828, 8239845, 8271596, 10385132, 8303847,
    ]
}

/// The fingerprints of the extensions of the table, row by row.
spec fn extension_fingerprints() -> Seq<int> {
    seq![
        22100325, 18051941, 3897069, 6043244, 9990764, 7895533, 7895536, 7894123, 7895731,
        7896043, 7909620, 7912812, 3731939, 7927402, 12120293, 7927778, 14218085, 7927920,
        5831155, 7928307, 10041716, 10040166, 5846765, 5864568, 7960930, 7960940, 7969968,
        15856485, 5896175, 14283365, 14284793, 8008051, 5913075, 8008172, 10106604, 8025961,
        10140513, 5945843, 5937458, 10139630, 12236780, 5944940, 5962356, 8205048, 10172912,
        8076001, 5986868, 5993060, 14382690, 5994092, 8138995, 8139888, 8141233, 8141167,
        12335087, 6044921, 3979634, 8174068, 6074722, 6076915, 12382433, 10287603, 6091880,
        12382441, 8189932, 8190188, 12383476, 8204780, 10303212, 6109683, 8237409, 4045686,
        8238180, 8239845, 8271596, 10385132, 8303847,
    ]
}

proof fn lemma_label_fingerprint(i: int)
    requires
        0 <= i < extension_table().len(),
    ensures
        fingerprint(extension_table()[i].0) == label_fingerprints()[i],
{
    reveal_strlit("dockerfile");
    reveal_strlit("makefile");
    reveal_strlit("objectivec");
    reveal_strlit("perl");
    reveal_strlit("aidl");
    reveal_strlit("asm");
    reveal_strlit("asp");
    reveal_strlit("autohotkey");
    reveal_strlit("autoit");
    reveal_strlit("awk");
    reveal_strlit("batch");
    reveal_strlit("bazel");
    reveal_strlit("c");
    reveal_strlit("clojure");
    reveal_strlit("cmake");
    reveal_strlit("cobol");
    reveal_strlit("coffeescript");
    reveal_strlit("cpp");
    reveal_strlit("cs");
    reveal_strlit("css");
    reveal_strlit("dart");
    reveal_strlit("diff");
    reveal_strlit("dm");
    reveal_strlit("elixir");
    reveal_strlit("erb");
    reveal_strlit("erlang");
    reveal_strlit("fortran");
    reveal_strlit("gemfile");
    reveal_strlit("go");
    reveal_strlit("gradle");
    reveal_strlit("groovy");
    reveal_strlit("handlebars");
    reveal_strlit("haskell");
    reveal_strlit("hcl");
    reveal_strlit("html");
    reveal_strlit("ini");
    reveal_strlit("java");
    reveal_strlit("javascript");
    reveal_strlit("jinja");
    reveal_strlit("json");
    reveal_strlit("jsonl");
    reveal_strlit("julia");
    reveal_strlit("kotlin");
    reveal_strlit("latex");
    reveal_strlit("lisp");
    reveal_strlit("lua");
    reveal_strlit("m4");
    reveal_strlit("markdown");
    reveal_strlit("matlab");
    reveal_strlit("ocaml");
    reveal_strlit("pascal");
    reveal_strlit("php");
    reveal_strlit("powershell");
    reveal_strlit("prolog");
    reveal_strlit("proto");
    reveal_strlit("python");
    reveal_strlit("r");
    reveal_strlit("rst");
    reveal_strlit("ruby");
    reveal_strlit("rust");
    reveal_strlit("scala");
    reveal_strlit("scss");
    reveal_strlit("shell");
    reveal_strlit("smali");
    reveal_strlit("solidity");
    reveal_strlit("sql");
    reveal_strlit("swift");
    reveal_strlit("tcl");
    reveal_strlit("toml");
    reveal_strlit("typescript");
    reveal_strlit("vba");
    reveal_strlit("verilog");
    reveal_strlit("vhdl");
    reveal_strlit("vue");
    reveal_strlit("xml");
    reveal_strlit("yaml");
    reveal_strlit("zig");
}

proof fn lemma_extension_fingerprint(i: int)
    requires
        0 <= i < extension_table().len(),
    ensures
        fingerprint(extension_table()[i].1) == extension_fingerprints()[i],
{
    reveal_strlit("Dockerfile");
    reveal_strlit("Makefile");
    reveal_strlit("m");
    reveal_strlit("pl");
    reveal_strlit("aidl");
    reveal_strlit("asm");
    reveal_strlit("asp");
    reveal_strlit("ahk");
    reveal_strlit("au3");
    reveal_strlit("awk");
    reveal_strlit("bat");
    reveal_strlit("bzl");
    reveal_strlit("c");
    reveal_strlit("clj");
    reveal_strlit("cmake");
    reveal_strlit("cob");
    reveal_strlit("coffee");
    reveal_strlit("cpp");
    reveal_strlit("cs");
    reveal_strlit("css");
    reveal_strlit("dart");
    reveal_strlit("diff");
    reveal_strlit("dm");
    reveal_strlit("ex");
    reveal_strlit("erb");
    reveal_strlit("erl");
    reveal_strlit("f90");
    reveal_strlit("Gemfile");
    reveal_strlit("go");
    reveal_strlit("gradle");
    reveal_strlit("groovy");
    reveal_strlit("hbs");
    reveal_strlit("hs");
    reveal_strlit("hcl");
    reveal_strlit("html");
    reveal_strlit("ini");
    reveal_strlit("java");
    reveal_strlit("js");
    reveal_strlit("j2");
    reveal_strlit("json");
    reveal_strlit("jsonl");
    reveal_strlit("jl");
    reveal_strlit("kt");
    reveal_strlit("tex");
    reveal_strlit("lisp");
    reveal_strlit("lua");
    reveal_strlit("m4");
    reveal_strlit("md");
    reveal_strlit("matlab");
    reveal_strlit("ml");
    reveal_strlit("pas");
    reveal_strlit("php");
    reveal_strlit("ps1");
    reveal_strlit("pro");
    reveal_strlit("proto");
    reveal_strlit("py");
    reveal_strlit("r");
    reveal_strlit("rst");
    reveal_strlit("rb");
    reveal_strlit("rs");
    reveal_strlit("scala");
    reveal_strlit("scss");
    reveal_strlit("sh");
    reveal_strlit("smali");
    reveal_strlit("sol");
    reveal_strlit("sql");
    reveal_strlit("swift");
    reveal_strlit("tcl");
    reveal_strlit("toml");
    reveal_strlit("ts");
    reveal_strlit("vba");
    reveal_strlit("v");
    reveal_strlit("vhd");
    reveal_strlit("vue");
    reveal_strlit("xml");
    reveal_strlit("yaml");
    reveal_strlit("zig");
}

/// Each label stands in the table once, and so does each extension: two rows
/// that agree in either are the same row.
pub proof fn law_table_rows_distinct(i: int, j: int)
    requires
        0 <= i < extension_table().len(),
        0 <= j < extension_table().len(),
        extension_table()[i].0 == extension_table()[j].0 || extension_table()[i].1
            == extension_table()[j].1,
    ensures
        i == j,
{
    if extension_table()[i].0 == extension_table()[j].0 {
        lemma_label_fingerprint(i);
        lemma_label_fingerprint(j);
    } else {
        lemma_extension_fingerprint(i);
        lemma_extension_fingerprint(j);
    }
}

/// Every row of the table is in force: its label has its extension.
pub proof fn law_table_row_in_force(i: int)
    requires
        0 <= i < extension_table().len(),
    ensures
        extension_for(extension_table()[i].0) == Some(extension_table()[i].1),
{
    let table = extension_table();
    let (label, ext) = table[i];
    assert(table.contains((label, ext)));
    let chosen = choose|e: Seq<char>| table.contains((label, e));
    let j = choose|j: int| 0 <= j < table.len() && table[j] == (label, chosen);
    law_table_rows_distinct(i, j);
}

/// No two labels share an extension.
pub proof fn law_extension_determines_label(a: Seq<char>, b: Seq<char>)
    requires
        extension_for(a) is Some,
        extension_for(a) == extension_for(b),
    ensures
        a == b,
{
    let table = extension_table();
    let ext = extension_for(a)->0;
    assert(table.contains((a, ext)));
    assert(table.contains((b, ext)));
    let i = choose|i: int| 0 <= i < table.len() && table[i] == (a, ext);
    let j = choose|j: int| 0 <= j < table.len() && table[j] == (b, ext);
    law_table_rows_distinct(i, j);
}

/// The labels with an extension are these and no others, and each has the
/// extension that stands with it here.
pub proof fn law_labels_and_their_extensions(label: Seq<char>)
    ensures
        extension_for(label) == (
        if label == "dockerfile"@ {
            Some("Dockerfile"@)
        } else if label == "makefile"@ {
            Some("Makefile"@)
        } else if label == "objectivec"@ {
            Some("m"@)
        } else if label == "perl"@ {
            Some("pl"@)
        } else if label == "aidl"@ {
            Some("aidl"@)
        } else if label == "asm"@ {
            Some("asm"@)
        } else if label == "asp"@ {
            Some("asp"@)
        } else if label == "autohotkey"@ {
            Some("ahk"@)
        } else if label == "autoit"@ {
            Some("au3"@)
        } else if label == "awk"@ {
            Some("awk"@)
        } else if label == "batch"@ {
            Some("bat"@)
        } else if label == "bazel"@ {
            Some("bzl"@)
        } else if label == "c"@ {
            Some("c"@)
        } else if label == "clojure"@ {
            Some("clj"@)
        } else if label == "cmake"@ {
            Some("cmake"@)
        } else if label == "cobol"@ {
            Some("cob"@)
        } else if label == "coffeescript"@ {
            Some("coffee"@)
        } else if label == "cpp"@ {
            Some("cpp"@)
        } else if label == "cs"@ {
            Some("cs"@)
        } else if label == "css"@ {
            Some("css"@)
        } else if label == "dart"@ {
            Some("dart"@)
        } else if label == "diff"@ {
            Some("diff"@)
        } else if label == "dm"@ {
            Some("dm"@)
        } else if label == "elixir"@ {
            Some("ex"@)
        } else if label == "erb"@ {
            Some("erb"@)
        } else if label == "erlang"@ {
            Some("erl"@)
        } else if label == "fortran"@ {
            Some("f90"@)
        } else if label == "gemfile"@ {
            Some("Gemfile"@)
        } else if label == "go"@ {
            Some("go"@)
        } else if label == "gradle"@ {
            Some("gradle"@)
        } else if label == "groovy"@ {
            Some("groovy"@)
        } else if label == "handlebars"@ {
            Some("hbs"@)
        } else if label == "haskell"@ {
            Some("hs"@)
        } else if label == "hcl"@ {
            Some("hcl"@)
        } else if label == "html"@ {
            Some("html"@)
        } else if label == "ini"@ {
            Some("ini"@)
        } else if label == "java"@ {
            Some("java"@)
        } else if label == "javascript"@ {
            Some("js"@)
        } else if label == "jinja"@ {
            Some("j2"@)
        } else if label == "json"@ {
            Some("json"@)
        } else if label == "jsonl"@ {
            Some("jsonl"@)
        } else if label == "julia"@ {
            Some("jl"@)
        } else if label == "kotlin"@ {
            Some("kt"@)
        } else if label == "latex"@ {
            Some("tex"@)
        } else if label == "lisp"@ {
            Some("lisp"@)
        } else if label == "lua"@ {
            Some("lua"@)
        } else if label == "m4"@ {
            Some("m4"@)
        } else if label == "markdown"@ {
            Some("md"@)
        } else if label == "matlab"@ {
            Some("matlab"@)
        } else if label == "ocaml"@ {
            Some("ml"@)
        } else if label == "pascal"@ {
            Some("pas"@)
        } else if label == "php"@ {
            Some("php"@)
        } else if label == "powershell"@ {
            Some("ps1"@)
        } else if label == "prolog"@ {
            Some("pro"@)
        } else if label == "proto"@ {
            Some("proto"@)
        } else if label == "python"@ {
            Some("py"@)
        } else if label == "r"@ {
            Some("r"@)
        } else if label == "rst"@ {
            Some("rst"@)
        } else if label == "ruby"@ {
            Some("rb"@)
        } else if label == "rust"@ {
            Some("rs"@)
        } else if label == "scala"@ {
            Some("scala"@)
        } else if label == "scss"@ {
            Some("scss"@)
        } else if label == "shell"@ {
            Some("sh"@)
        } else if label == "smali"@ {
            Some("smali"@)
        } else if label == "solidity"@ {
            Some("sol"@)
        } else if label == "sql"@ {
            Some("sql"@)
        } else if label == "swift"@ {
            Some("swift"@)
        } else if label == "tcl"@ {
            Some("tcl"@)
        } else if label == "toml"@ {
            Some("toml"@)
        } else if label == "typescript"@ {
            Some("ts"@)
        } else if label == "vba"@ {
            Some("vba"@)
        } else if label == "verilog"@ {
            Some("v"@)
        } else if label == "vhdl"@ {
            Some("vhd"@)
        } else if label == "vue"@ {
            Some("vue"@)
        } else if label == "xml"@ {
            Some("xml"@)
        } else if label == "yaml"@ {
            Some("yaml"@)
        } else if label == "zig"@ {
            Some("zig"@)
        } else {
            None
        }),
{
    let table = extension_table();
    if label == "dockerfile"@ {
        law_table_row_in_force(0);
    } else if label == "makefile"@ {
        law_table_row_in_force(1);
    } else if label == "objectivec"@ {
        law_table_row_in_force(2);
    } else if label == "perl"@ {
        law_table_row_in_force(3);
    } else if label == "aidl"@ {
        law_table_row_in_force(4);
    } else if label == "asm"@ {
        law_table_row_in_force(5);
    } else if label == "asp"@ {
        law_table_row_in_force(6);
    } else if label == "autohotkey"@ {
        law_table_row_in_force(7);
    } else if label == "autoit"@ {
        law_table_row_in_force(8);
    } else if label == "awk"@ {
        law_table_row_in_force(9);
    } else if label == "batch"@ {
        law_table_row_in_force(10);
    } else if label == "bazel"@ {
        law_table_row_in_force(11);
    } else if label == "c"@ {
        law_table_row_in_force(12);
    } else if label == "clojure"@ {
        law_table_row_in_force(13);
    } else if label == "cmake"@ {
        law_table_row_in_force(14);
    } else if label == "cobol"@ {
        law_table_row_in_force(15);
    } else if label == "coffeescript"@ {
        law_table_row_in_force(16);
    } else if label == "cpp"@ {
        law_table_row_in_force(17);
    } else if label == "cs"@ {
        law_table_row_in_force(18);
    } else if label == "css"@ {
        law_table_row_in_force(19);
    } else if label == "dart"@ {
        law_table_row_in_force(20);
    } else if label == "diff"@ {
        law_table_row_in_force(21);
    } else if label == "dm"@ {
        law_table_row_in_force(22);
    } else if label == "elixir"@ {
        law_table_row_in_force(23);
    } else if label == "erb"@ {
        law_table_row_in_force(24);
    } else if label == "erlang"@ {
        law_table_row_in_force(25);
    } else if label == "fortran"@ {
        law_table_row_in_force(26);
    } else if label == "gemfile"@ {
        law_table_row_in_force(27);
    } else if label == "go"@ {
        law_table_row_in_force(28);
    } else if label == "gradle"@ {
        law_table_row_in_force(29);
    } else if label == "groovy"@ {
        law_table_row_in_force(30);
    } else if label == "handlebars"@ {
        law_table_row_in_force(31);
    } else if label == "haskell"@ {
        law_table_row_in_force(32);
    } else if label == "hcl"@ {
        law_table_row_in_force(33);
    } else if label == "html"@ {
        law_table_row_in_force(34);
    } else if label == "ini"@ {
        law_table_row_in_force(35);
    } else if label == "java"@ {
        law_table_row_in_force(36);
    } else if label == "javascript"@ {
        law_table_row_in_force(37);
    } else if label == "jinja"@ {
        law_table_row_in_force(38);
    } else if label == "json"@ {
        law_table_row_in_force(39);
    } else if label == "jsonl"@ {
        law_table_row_in_force(40);
    } else if label == "julia"@ {
        law_table_row_in_force(41);
    } else if label == "kotlin"@ {
        law_table_row_in_force(42);
    } else if label == "latex"@ {
        law_table_row_in_force(43);
    } else if label == "lisp"@ {
        law_table_row_in_force(44);
    } else if label == "lua"@ {
        law_table_row_in_force(45);
    } else if label == "m4"@ {
        law_table_row_in_force(46);
    } else if label == "markdown"@ {
        law_table_row_in_force(47);
    } else if label == "matlab"@ {
        law_table_row_in_force(48);
    } else if label == "ocaml"@ {
        law_table_row_in_force(49);
    } else if label == "pascal"@ {
        law_table_row_in_force(50);
    } else if label == "php"@ {
        law_table_row_in_force(51);
    } else if label == "powershell"@ {
        law_table_row_in_force(52);
    } else if label == "prolog"@ {
        law_table_row_in_force(53);
    } else if label == "proto"@ {
        law_table_row_in_force(54);
    } else if label == "python"@ {
        law_table_row_in_force(55);
    } else if label == "r"@ {
        law_table_row_in_force(56);
    } else if label == "rst"@ {
        law_table_row_in_force(57);
    } else if label == "ruby"@ {
        law_table_row_in_force(58);
    } else if label == "rust"@ {
        law_table_row_in_force(59);
    } else if label == "scala"@ {
        law_table_row_in_force(60);
    } else if label == "scss"@ {
        law_table_row_in_force(61);
    } else if label == "shell"@ {
        law_table_row_in_force(62);
    } else if label == "smali"@ {
        law_table_row_in_force(63);
    } else if label == "solidity"@ {
        law_table_row_in_force(64);
    } else if label == "sql"@ {
        law_table_row_in_force(65);
    } else if label == "swift"@ {
        law_table_row_in_force(66);
    } else if label == "tcl"@ {
        law_table_row_in_force(67);
    } else if label == "toml"@ {
        law_table_row_in_force(68);
    } else if label == "typescript"@ {
        law_table_row_in_force(69);
    } else if label == "vba"@ {
        law_table_row_in_force(70);
    } else if label == "verilog"@ {
        law_table_row_in_force(71);
    } else if label == "vhdl"@ {
        law_table_row_in_force(72);
    } else if label == "vue"@ {
        law_table_row_in_force(73);
    } else if label == "xml"@ {
        law_table_row_in_force(74);
    } else if label == "yaml"@ {
        law_table_row_in_force(75);
    } else if label == "zig"@ {
        law_table_row_in_force(76);
    } else {
        assert forall|ext: Seq<char>| !#[trigger] table.contains((label, ext)) by {
        }
    }
}

/// The labels of contents without a kind of their own have no extension.
pub proof fn lemma_untyped_labels_have_no_extension()
    ensures
        extension_for("empty"@) is None,
        extension_for("txt"@) is None,
        extension_for("unknown"@) is None,
{
    reveal_strlit("empty");
    reveal_strlit("txt");
    reveal_strlit("unknown");
    assert forall|label: Seq<char>, ext: Seq<char>| #[trigger]
        extension_table().contains((label, ext)) implies label != "empty"@ && label != "txt"@
        && label != "unknown"@ by {
        let i = choose|i: int|
            0 <= i < extension_table().len() && extension_table()[i] == (label, ext);
        lemma_label_fingerprint(i);
    }
}

/// Maps a content type label to a file extension that a language registry can
/// resolve. Returns `None` for types that are not code, ambiguous types and
/// unknown labels.
pub fn magika_label_to_extension(label: &str) -> (res: Option<&'static str>)
    ensures
        match res {
            Some(ext) => extension_for(label@) == Some(ext@),
            None => extension_for(label@) is None,
        },
{
    // Manual overrides: extensionless types and disambiguation cases.
    if str_eq(label, "dockerfile") {
        proof { law_table_row_in_force(0); }
        return Some("Dockerfile");
    }
    if str_eq(label, "makefile") {
        proof { law_table_row_in_force(1); }
        return Some("Makefile");
    }
    if str_eq(label, "objectivec") {
        proof { law_table_row_in_force(2); }
        return Some("m");
    }
    if str_eq(label, "perl") {
        proof { law_table_row_in_force(3); }
        return Some("pl");
    }
    // Standard code types.
    if str_eq(label, "aidl") {
        proof { law_table_row_in_force(4); }
        return Some("aidl");
    }
    if str_eq(label, "asm") {
        proof { law_table_row_in_force(5); }
        return Some("asm");
    }
    if str_eq(label, "asp") {
        proof { law_table_row_in_force(6); }
        return Some("asp");
    }
    if str_eq(label, "autohotkey") {
        proof { law_table_row_in_force(7); }
        return Some("ahk");
    }
    if str_eq(label, "autoit") {
        proof { law_table_row_in_force(8); }
        return Some("au3");
    }
    if str_eq(label, "awk") {
        proof { law_table_row_in_force(9); }
        return Some("awk");
    }
    if str_eq(label, "batch") {
        proof { law_table_row_in_force(10); }
        return Some("bat");
    }
    if str_eq(label, "bazel") {
        proof { law_table_row_in_force(11); }
        return Some("bzl");
    }
    if str_eq(label, "c") {
        proof { law_table_row_in_force(12); }
        return Some("c");
    }
    if str_eq(label, "clojure") {
        proof { law_table_row_in_force(13); }
        return Some("clj");
    }
    if str_eq(label, "cmake") {
        proof { law_table_row_in_force(14); }
        return Some("cmake");
    }
    if str_eq(label, "cobol") {
        proof { law_table_row_in_force(15); }
        return Some("cob");
    }
    if str_eq(label, "coffeescript") {
        proof { law_table_row_in_force(16); }
        return Some("coffee");
    }
    if str_eq(label, "cpp") {
        proof { law_table_row_in_force(17); }
        return Some("cpp");
    }
    if str_eq(label, "cs") {
        proof { law_table_row_in_force(18); }
        return Some("cs");
    }
    if str_eq(label, "css") {
        proof { law_table_row_in_force(19); }
        return Some("css");
    }
    if str_eq(label, "dart") {
        proof { law_table_row_in_force(20); }
        return Some("dart");
    }
    if str_eq(label, "diff") {
        proof { law_table_row_in_force(21); }
        return Some("diff");
    }
    if str_eq(label, "dm") {
        proof { law_table_row_in_force(22); }
        return Some("dm");
    }
    if str_eq(label, "elixir") {
        proof { law_table_row_in_force(23); }
        return Some("ex");
    }
    if str_eq(label, "erb") {
        proof { law_table_row_in_force(24); }
        return Some("erb");
    }
    if str_eq(label, "erlang") {
        proof { law_table_row_in_force(25); }
        return Some("erl");
    }
    if str_eq(label, "fortran") {
        proof { law_table_row_in_force(26); }
        return Some("f90");
    }
    if str_eq(label, "gemfile") {
        proof { law_table_row_in_force(27); }
        return Some("Gemfile");
    }
    if str_eq(label, "go") {
        proof { law_table_row_in_force(28); }
        return Some("go");
    }
    if str_eq(label, "gradle") {
        proof { law_table_row_in_force(29); }
        return Some("gradle");
    }
    if str_eq(label, "groovy") {
        proof { law_table_row_in_force(30); }
        return Some("groovy");
    }
    if str_eq(label, "handlebars") {
        proof { law_table_row_in_force(31); }
        return Some("hbs");
    }
    if str_eq(label, "haskell") {
        proof { law_table_row_in_force(32); }
        return Some("hs");
    }
    if str_eq(label, "hcl") {
        proof { law_table_row_in_force(33); }
        return Some("hcl");
    }
    if str_eq(label, "html") {
        proof { law_table_row_in_force(34); }
        return Some("html");
    }
    if str_eq(label, "ini") {
        proof { law_table_row_in_force(35); }
        return Some("ini");
    }
    if str_eq(label, "java") {
        proof { law_table_row_in_force(36); }
        return Some("java");
    }
    if str_eq(label, "javascript") {
        proof { law_table_row_in_force(37); }
        return Some("js");
    }
    if str_eq(label, "jinja") {
        proof { law_table_row_in_force(38); }
        return Some("j2");
    }
    if str_eq(label, "json") {
        proof { law_table_row_in_force(39); }
        return Some("json");
    }
    if str_eq(label, "jsonl") {
        proof { law_table_row_in_force(40); }
        return Some("jsonl");
    }
    if str_eq(label, "julia") {
        proof { law_table_row_in_force(41); }
        return Some("jl");
    }
    if str_eq(label, "kotlin") {
        proof { law_table_row_in_force(42); }
        return Some("kt");
    }
    if str_eq(label, "latex") {
        proof { law_table_row_in_force(43); }
        return Some("tex");
    }
    if str_eq(label, "lisp") {
        proof { law_table_row_in_force(44); }
        return Some("lisp");
    }
    if str_eq(label, "lua") {
        proof { law_table_row_in_force(45); }
        return Some("lua");
    }
    if str_eq(label, "m4") {
        proof { law_table_row_in_force(46); }
        return Some("m4");
    }
    if str_eq(label, "markdown") {
        proof { law_table_row_in_force(47); }
        return Some("md");
    }
    if str_eq(label, "matlab") {
        proof { law_table_row_in_force(48); }
        return Some("matlab");
    }
    if str_eq(label, "ocaml") {
        proof { law_table_row_in_force(49); }
        return Some("ml");
    }
    if str_eq(label, "pascal") {
        proof { law_table_row_in_force(50); }
        return Some("pas");
    }
    if str_eq(label, "php") {
        proof { law_table_row_in_force(51); }
        return Some("php");
    }
    if str_eq(label, "powershell") {
        proof { law_table_row_in_force(52); }
        return Some("ps1");
    }
    if str_eq(label, "prolog") {
        proof { law_table_row_in_force(53); }
        return Some("pro");
    }
    if str_eq(label, "proto") {
        proof { law_table_row_in_force(54); }
        return Some("proto");
    }
    if str_eq(label, "python") {
        proof { law_table_row_in_force(55); }
        return Some("py");
    }
    if str_eq(label, "r") {
        proof { law_table_row_in_force(56); }
        return Some("r");
    }
    if str_eq(label, "rst") {
        proof { law_table_row_in_force(57); }
        return Some("rst");
    }
    if str_eq(label, "ruby") {
        proof { law_table_row_in_force(58); }
        return Some("rb");
    }
    if str_eq(label, "rust") {
        proof { law_table_row_in_force(59); }
        return Some("rs");
    }
    if str_eq(label, "scala") {
        proof { law_table_row_in_force(60); }
        return Some("scala");
    }
    if str_eq(label, "scss") {
        proof { law_table_row_in_force(61); }
        return Some("scss");
    }
    if str_eq(label, "shell") {
        proof { law_table_row_in_force(62); }
        return Some("sh");
    }
    if str_eq(label, "smali") {
        proof { law_table_row_in_force(63); }
        return Some("smali");
    }
    if str_eq(label, "solidity") {
        proof { law_table_row_in_force(64); }
        return Some("sol");
    }
    if str_eq(label, "sql") {
        proof { law_table_row_in_force(65); }
        return Some("sql");
    }
    if str_eq(label, "swift") {
        proof { law_table_row_in_force(66); }
        return Some("swift");
    }
    if str_eq(label, "tcl") {
        proof { law_table_row_in_force(67); }
        return Some("tcl");
    }
    if str_eq(label, "toml") {
        proof { law_table_row_in_force(68); }
        return Some("toml");
    }
    if str_eq(label, "typescript") {
        proof { law_table_row_in_force(69); }
        return Some("ts");
    }
    if str_eq(label, "vba") {
        proof { law_table_row_in_force(70); }
        return Some("vba");
    }
    if str_eq(label, "verilog") {
        proof { law_table_row_in_force(71); }
        return Some("v");
    }
    if str_eq(label, "vhdl") {
        proof { law_table_row_in_force(72); }
        return Some("vhd");
    }
    if str_eq(label, "vue") {
        proof { law_table_row_in_force(73); }
        return Some("vue");
    }
    if str_eq(label, "xml") {
        proof { law_table_row_in_force(74); }
        return Some("xml");
    }
    if str_eq(label, "yaml") {
        proof { law_table_row_in_force(75); }
        return Some("yaml");
    }
    if str_eq(label, "zig") {
        proof { law_table_row_in_force(76); }
        return Some("zig");
    }
    // Types that are not code, and anything unrecognised.
    None
}

} // verus!
