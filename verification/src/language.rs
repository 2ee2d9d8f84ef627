//! The language dispatch table: a read-only mapping from language
//! key to the record that says how to probe, compile and run that
//! language.  Built once at startup, never mutated.

use vstd::prelude::*;
use crate::types::Platform;
use crate::text::str_eq;

verus! {

/// How one language is probed, compiled and run.
#[derive(Debug)]
pub struct LanguageConfig {
    pub display_name: String,
    pub file_name: String,
    pub version_command: String,
    pub compile_command: Option<String>,
    pub compile_args: Vec<String>,
    pub run_command: String,
    pub run_args: Vec<String>,
    pub file_extension: String,
}

/// One installed language, as the prober reports it.
#[derive(Debug, Clone)]
pub struct LanguageInfo {
    pub name: String,
    pub display_name: String,
    pub version: String,
}

/// The mathematical content of a [`LanguageConfig`].
pub ghost struct ConfigModel {
    pub display_name: Seq<char>,
    pub file_name: Seq<char>,
    pub version_command: Seq<char>,
    pub compile_command: Option<Seq<char>>,
    pub compile_args: Seq<Seq<char>>,
    pub run_command: Seq<char>,
    pub run_args: Seq<Seq<char>>,
    pub file_extension: Seq<char>,
}

/// A dispatch table row: a key and its configuration.
pub ghost struct LanguageModel {
    pub key: Seq<char>,
    pub cfg: ConfigModel,
}

/// The views of the strings in a vector.
pub open spec fn string_views(v: Seq<String>) -> Seq<Seq<char>> {
    v.map_values(|s: String| s@)
}

/// The model of a configuration value.
pub open spec fn config_model(c: LanguageConfig) -> ConfigModel {
    ConfigModel {
        display_name: c.display_name@,
        file_name: c.file_name@,
        version_command: c.version_command@,
        compile_command: match c.compile_command {
            Some(s) => Some(s@),
            None => None,
        },
        compile_args: string_views(c.compile_args@),
        run_command: c.run_command@,
        run_args: string_views(c.run_args@),
        file_extension: c.file_extension@,
    }
}

/// One keyed entry of the table.
#[derive(Debug)]
pub struct LanguageEntry {
    pub key: String,
    pub config: LanguageConfig,
}

/// The dispatch table itself.
#[derive(Debug)]
pub struct LanguageTable {
    pub entries: Vec<LanguageEntry>,
}

/// First-match lookup in a table model.
pub open spec fn table_lookup(s: Seq<LanguageModel>, key: Seq<char>) -> Option<ConfigModel>
    decreases s.len(),
{
    if s.len() == 0 {
        None
    } else if s[0].key == key {
        Some(s[0].cfg)
    } else {
        table_lookup(s.drop_first(), key)
    }
}

proof fn lemma_table_lookup_skip(s: Seq<LanguageModel>, key: Seq<char>, i: int)
    requires
        0 <= i <= s.len(),
        forall|k: int| 0 <= k < i ==> (#[trigger] s[k]).key != key,
    ensures
        table_lookup(s, key) == table_lookup(s.skip(i), key),
    decreases i,
{
    if i > 0 {
        assert(s.len() > 0);
        assert(s[0].key != key);
        lemma_table_lookup_skip(s.drop_first(), key, i - 1);
        assert(s.drop_first().skip(i - 1) =~= s.skip(i));
    } else {
        assert(s.skip(0) =~= s);
    }
}

impl LanguageTable {
    /// The rows of the table, in order.
    pub open spec fn model(&self) -> Seq<LanguageModel> {
        self.entries@.map_values(
            |e: LanguageEntry| LanguageModel { key: e.key@, cfg: config_model(e.config) },
        )
    }

    /// All keys are distinct.
    pub open spec fn wf(&self) -> bool {
        forall|i: int, j: int|
            0 <= i < j < self.model().len() ==> (#[trigger] self.model()[i]).key != (
            #[trigger] self.model()[j]).key
    }

    /// Look a language key up.
    pub fn get(&self, key: &str) -> (r: Option<&LanguageConfig>)
        ensures
            match r {
                Some(c) => table_lookup(self.model(), key@) == Some(config_model(*c)),
                None => table_lookup(self.model(), key@) is None,
            },
    {
        let mut i: usize = 0;
        while i < self.entries.len()
            invariant
                i <= self.entries.len(),
                forall|k: int| 0 <= k < i ==> (#[trigger] self.model()[k]).key != key@,
            decreases self.entries.len() - i,
        {
            if str_eq(self.entries[i].key.as_str(), key) {
                proof {
                    lemma_table_lookup_skip(self.model(), key@, i as int);
                    assert(self.model().skip(i as int)[0] == self.model()[i as int]);
                }
                return Some(&self.entries[i].config);
            }
            i = i + 1;
        }
        proof {
            lemma_table_lookup_skip(self.model(), key@, i as int);
            assert(self.model().skip(i as int).len() == 0);
        }
        None
    }

    /// Whether a language key is in the table.
    pub fn contains_key(&self, key: &str) -> (r: bool)
        ensures
            r == (table_lookup(self.model(), key@) is Some),
    {
        match self.get(key) {
            Some(_) => true,
            None => false,
        }
    }

    /// How many languages the table holds.
    pub fn len(&self) -> (r: usize)
        ensures
            r == self.model().len(),
    {
        self.entries.len()
    }

    /// Whether the table is empty.
    pub fn is_empty(&self) -> (r: bool)
        ensures
            r == (self.model().len() == 0),
    {
        self.entries.len() == 0
    }
}

/// The `python3` row.
pub open spec fn python3_model(w: bool) -> LanguageModel {
    LanguageModel {
        key: "python3"@,
        cfg: ConfigModel {
            display_name: "Python 3"@,
            file_name: "main.py"@,
            version_command: "python3 --version"@,
            compile_command: None,
            compile_args: Seq::empty(),
            run_command: if w {
                "python"@
            } else {
                "python3"@
            },
            run_args: seq!["main.py"@],
            file_extension: "py"@,
        },
    }
}

/// The `python` row.
pub open spec fn python_model() -> LanguageModel {
    LanguageModel {
        key: "python"@,
        cfg: ConfigModel {
            display_name: "Python"@,
            file_name: "main.py"@,
            version_command: "python --version"@,
            compile_command: None,
            compile_args: Seq::empty(),
            run_command: "python"@,
            run_args: seq!["main.py"@],
            file_extension: "py"@,
        },
    }
}

/// The `java` row.
pub open spec fn java_model() -> LanguageModel {
    LanguageModel {
        key: "java"@,
        cfg: ConfigModel {
            display_name: "Java"@,
            file_name: "Main.java"@,
            version_command: "java -version"@,
            compile_command: Some("javac"@),
            compile_args: seq!["Main.java"@],
            run_command: "java"@,
            run_args: seq!["Main"@],
            file_extension: "java"@,
        },
    }
}

/// The arguments every C-family compile shares: source, `-o`, and
/// the platform's artifact name.
pub open spec fn c_like_compile_args(source: Seq<char>, w: bool) -> Seq<Seq<char>> {
    seq![source, "-o"@, if w { "main.exe"@ } else { "main"@ }]
}

/// The platform's compiled-artifact invocation.
pub open spec fn artifact_run_command(w: bool) -> Seq<char> {
    if w {
        "main.exe"@
    } else {
        "./main"@
    }
}

/// The `gcc` row.
pub open spec fn gcc_model(w: bool) -> LanguageModel {
    LanguageModel {
        key: "gcc"@,
        cfg: ConfigModel {
            display_name: "GNU C"@,
            file_name: "main.c"@,
            version_command: "gcc --version"@,
            compile_command: Some("gcc"@),
            compile_args: c_like_compile_args("main.c"@, w),
            run_command: artifact_run_command(w),
            run_args: Seq::empty(),
            file_extension: "c"@,
        },
    }
}

/// The `clang` row.
pub open spec fn clang_model(w: bool) -> LanguageModel {
    LanguageModel {
        key: "clang"@,
        cfg: ConfigModel {
            display_name: "Clang C"@,
            file_name: "main.c"@,
            version_command: "clang --version"@,
            compile_command: Some("clang"@),
            compile_args: c_like_compile_args("main.c"@, w),
            run_command: artifact_run_command(w),
            run_args: Seq::empty(),
            file_extension: "c"@,
        },
    }
}

/// The `gpp` row.
pub open spec fn gpp_model(w: bool) -> LanguageModel {
    LanguageModel {
        key: "gpp"@,
        cfg: ConfigModel {
            display_name: "GNU C++"@,
            file_name: "main.cpp"@,
            version_command: "g++ --version"@,
            compile_command: Some("g++"@),
            compile_args: c_like_compile_args("main.cpp"@, w),
            run_command: artifact_run_command(w),
            run_args: Seq::empty(),
            file_extension: "cpp"@,
        },
    }
}

/// The `clangpp` row.
pub open spec fn clangpp_model(w: bool) -> LanguageModel {
    LanguageModel {
        key: "clangpp"@,
        cfg: ConfigModel {
            display_name: "Clang C++"@,
            file_name: "main.cpp"@,
            version_command: "clang++ --version"@,
            compile_command: Some("clang++"@),
            compile_args: c_like_compile_args("main.cpp"@, w),
            run_command: artifact_run_command(w),
            run_args: Seq::empty(),
            file_extension: "cpp"@,
        },
    }
}

/// The `rust` row.
pub open spec fn rust_model(w: bool) -> LanguageModel {
    LanguageModel {
        key: "rust"@,
        cfg: ConfigModel {
            display_name: "Rust"@,
            file_name: "main.rs"@,
            version_command: "rustc --version"@,
            compile_command: Some("rustc"@),
            compile_args: c_like_compile_args("main.rs"@, w),
            run_command: artifact_run_command(w),
            run_args: Seq::empty(),
            file_extension: "rs"@,
        },
    }
}

/// The `javascript` row.
pub open spec fn javascript_model() -> LanguageModel {
    LanguageModel {
        key: "javascript"@,
        cfg: ConfigModel {
            display_name: "JavaScript"@,
            file_name: "main.js"@,
            version_command: "node --version"@,
            compile_command: None,
            compile_args: Seq::empty(),
            run_command: "node"@,
            run_args: seq!["main.js"@],
            file_extension: "js"@,
        },
    }
}

/// The `go` row.
pub open spec fn go_model(w: bool) -> LanguageModel {
    LanguageModel {
        key: "go"@,
        cfg: ConfigModel {
            display_name: "Go"@,
            file_name: "main.go"@,
            version_command: "go version"@,
            compile_command: Some("go"@),
            compile_args: seq![
                "build"@,
                "-o"@,
                if w { "main.exe"@ } else { "main"@ },
                "main.go"@,
            ],
            run_command: artifact_run_command(w),
            run_args: Seq::empty(),
            file_extension: "go"@,
        },
    }
}

/// The `csharp` row.
pub open spec fn csharp_model() -> LanguageModel {
    LanguageModel {
        key: "csharp"@,
        cfg: ConfigModel {
            display_name: "C# (.NET)"@,
            file_name: "Program.cs"@,
            version_command: "dotnet --version"@,
            compile_command: Some("dotnet"@),
            compile_args: seq!["build"@],
            run_command: "dotnet"@,
            run_args: seq!["run"@],
            file_extension: "cs"@,
        },
    }
}

/// The `psql` row.
pub open spec fn psql_model() -> LanguageModel {
    LanguageModel {
        key: "psql"@,
        cfg: ConfigModel {
            display_name: "PostgreSQL (psql)"@,
            file_name: ""@,
            version_command: "psql --version"@,
            compile_command: None,
            compile_args: Seq::empty(),
            run_command: "psql"@,
            run_args: Seq::empty(),
            file_extension: ""@,
        },
    }
}

/// The `kotlin` row.
pub open spec fn kotlin_model() -> LanguageModel {
    LanguageModel {
        key: "kotlin"@,
        cfg: ConfigModel {
            display_name: "Kotlin"@,
            file_name: "Main.kt"@,
            version_command: "kotlinc -version"@,
            compile_command: Some("kotlinc"@),
            compile_args: seq!["Main.kt"@, "-include-runtime"@, "-d"@, "Main.jar"@],
            run_command: "java"@,
            run_args: seq!["-jar"@, "Main.jar"@],
            file_extension: "kt"@,
        },
    }
}

/// The whole table for a platform, in its fixed order.
pub open spec fn language_table_model(platform: Platform) -> Seq<LanguageModel> {
    let w = platform is Windows;
    seq![
        python3_model(w),
        python_model(),
        java_model(),
        gcc_model(w),
        clang_model(w),
        gpp_model(w),
        clangpp_model(w),
        rust_model(w),
        javascript_model(),
        go_model(w),
        csharp_model(),
        psql_model(),
        kotlin_model(),
    ]
}

fn no_args() -> (v: Vec<String>)
    ensures
        string_views(v@) == Seq::<Seq<char>>::empty(),
{
    let v: Vec<String> = Vec::new();
    proof {
        assert(string_views(v@) =~= Seq::<Seq<char>>::empty());
    }
    v
}

fn args1(a: &str) -> (v: Vec<String>)
    ensures
        string_views(v@) == seq![a@],
{
    let mut v: Vec<String> = Vec::new();
    v.push(a.to_owned());
    proof {
        assert(string_views(v@) =~= seq![a@]);
    }
    v
}

fn args2(a: &str, b: &str) -> (v: Vec<String>)
    ensures
        string_views(v@) == seq![a@, b@],
{
    let mut v: Vec<String> = Vec::new();
    v.push(a.to_owned());
    v.push(b.to_owned());
    proof {
        assert(string_views(v@) =~= seq![a@, b@]);
    }
    v
}

fn args3(a: &str, b: &str, c: &str) -> (v: Vec<String>)
    ensures
        string_views(v@) == seq![a@, b@, c@],
{
    let mut v: Vec<String> = Vec::new();
    v.push(a.to_owned());
    v.push(b.to_owned());
    v.push(c.to_owned());
    proof {
        assert(string_views(v@) =~= seq![a@, b@, c@]);
    }
    v
}

fn args4(a: &str, b: &str, c: &str, d: &str) -> (v: Vec<String>)
    ensures
        string_views(v@) == seq![a@, b@, c@, d@],
{
    let mut v: Vec<String> = Vec::new();
    v.push(a.to_owned());
    v.push(b.to_owned());
    v.push(c.to_owned());
    v.push(d.to_owned());
    proof {
        assert(string_views(v@) =~= seq![a@, b@, c@, d@]);
    }
    v
}

/// Build the dispatch table for a platform.  The table holds exactly
/// the rows of [`language_table_model`], in order, and its keys are
/// pairwise distinct.
pub fn generate_language_configs(platform: Platform) -> (r: LanguageTable)
    ensures
        r.model() == language_table_model(platform),
        r.wf(),
{
    let is_windows = matches!(platform, Platform::Windows);
    let mut entries: Vec<LanguageEntry> = Vec::new();

    entries.push(LanguageEntry {
        key: "python3".to_owned(),
        config: LanguageConfig {
            display_name: "Python 3".to_owned(),
            file_name: "main.py".to_owned(),
            version_command: "python3 --version".to_owned(),
            compile_command: None,
            compile_args: no_args(),
            run_command: if is_windows { "python" } else { "python3" }.to_owned(),
            run_args: args1("main.py"),
            file_extension: "py".to_owned(),
        },
    });
    entries.push(LanguageEntry {
        key: "python".to_owned(),
        config: LanguageConfig {
            display_name: "Python".to_owned(),
            file_name: "main.py".to_owned(),
            version_command: "python --version".to_owned(),
            compile_command: None,
            compile_args: no_args(),
            run_command: "python".to_owned(),
            run_args: args1("main.py"),
            file_extension: "py".to_owned(),
        },
    });
    entries.push(LanguageEntry {
        key: "java".to_owned(),
        config: LanguageConfig {
            display_name: "Java".to_owned(),
            file_name: "Main.java".to_owned(),
            version_command: "java -version".to_owned(),
            compile_command: Some("javac".to_owned()),
            compile_args: args1("Main.java"),
            run_command: "java".to_owned(),
            run_args: args1("Main"),
            file_extension: "java".to_owned(),
        },
    });
    entries.push(LanguageEntry {
        key: "gcc".to_owned(),
        config: LanguageConfig {
            display_name: "GNU C".to_owned(),
            file_name: "main.c".to_owned(),
            version_command: "gcc --version".to_owned(),
            compile_command: Some("gcc".to_owned()),
            compile_args: args3("main.c", "-o", if is_windows { "main.exe" } else { "main" }),
            run_command: if is_windows { "main.exe" } else { "./main" }.to_owned(),
            run_args: no_args(),
            file_extension: "c".to_owned(),
        },
    });
    entries.push(LanguageEntry {
        key: "clang".to_owned(),
        config: LanguageConfig {
            display_name: "Clang C".to_owned(),
            file_name: "main.c".to_owned(),
            version_command: "clang --version".to_owned(),
            compile_command: Some("clang".to_owned()),
            compile_args: args3("main.c", "-o", if is_windows { "main.exe" } else { "main" }),
            run_command: if is_windows { "main.exe" } else { "./main" }.to_owned(),
            run_args: no_args(),
            file_extension: "c".to_owned(),
        },
    });
    entries.push(LanguageEntry {
        key: "gpp".to_owned(),
        config: LanguageConfig {
            display_name: "GNU C++".to_owned(),
            file_name: "main.cpp".to_owned(),
            version_command: "g++ --version".to_owned(),
            compile_command: Some("g++".to_owned()),
            compile_args: args3("main.cpp", "-o", if is_windows { "main.exe" } else { "main" }),
            run_command: if is_windows { "main.exe" } else { "./main" }.to_owned(),
            run_args: no_args(),
            file_extension: "cpp".to_owned(),
        },
    });
    entries.push(LanguageEntry {
        key: "clangpp".to_owned(),
        config: LanguageConfig {
            display_name: "Clang C++".to_owned(),
            file_name: "main.cpp".to_owned(),
            version_command: "clang++ --version".to_owned(),
            compile_command: Some("clang++".to_owned()),
            compile_args: args3("main.cpp", "-o", if is_windows { "main.exe" } else { "main" }),
            run_command: if is_windows { "main.exe" } else { "./main" }.to_owned(),
            run_args: no_args(),
            file_extension: "cpp".to_owned(),
        },
    });
    entries.push(LanguageEntry {
        key: "rust".to_owned(),
        config: LanguageConfig {
            display_name: "Rust".to_owned(),
            file_name: "main.rs".to_owned(),
            version_command: "rustc --version".to_owned(),
            compile_command: Some("rustc".to_owned()),
            compile_args: args3("main.rs", "-o", if is_windows { "main.exe" } else { "main" }),
            run_command: if is_windows { "main.exe" } else { "./main" }.to_owned(),
            run_args: no_args(),
            file_extension: "rs".to_owned(),
        },
    });
    entries.push(LanguageEntry {
        key: "javascript".to_owned(),
        config: LanguageConfig {
            display_name: "JavaScript".to_owned(),
            file_name: "main.js".to_owned(),
            version_command: "node --version".to_owned(),
            compile_command: None,
            compile_args: no_args(),
            run_command: "node".to_owned(),
            run_args: args1("main.js"),
            file_extension: "js".to_owned(),
        },
    });
    entries.push(LanguageEntry {
        key: "go".to_owned(),
        config: LanguageConfig {
            display_name: "Go".to_owned(),
            file_name: "main.go".to_owned(),
            version_command: "go version".to_owned(),
            compile_command: Some("go".to_owned()),
            compile_args: args4(
                "build",
                "-o",
                if is_windows { "main.exe" } else { "main" },
                "main.go",
            ),
            run_command: if is_windows { "main.exe" } else { "./main" }.to_owned(),
            run_args: no_args(),
            file_extension: "go".to_owned(),
        },
    });
    entries.push(LanguageEntry {
        key: "csharp".to_owned(),
        config: LanguageConfig {
            display_name: "C# (.NET)".to_owned(),
            file_name: "Program.cs".to_owned(),
            version_command: "dotnet --version".to_owned(),
            compile_command: Some("dotnet".to_owned()),
            compile_args: args1("build"),
            run_command: "dotnet".to_owned(),
            run_args: args1("run"),
            file_extension: "cs".to_owned(),
        },
    });
    entries.push(LanguageEntry {
        key: "psql".to_owned(),
        config: LanguageConfig {
            display_name: "PostgreSQL (psql)".to_owned(),
            file_name: "".to_owned(),
            version_command: "psql --version".to_owned(),
            compile_command: None,
            compile_args: no_args(),
            run_command: "psql".to_owned(),
            run_args: no_args(),
            file_extension: "".to_owned(),
        },
    });
    entries.push(LanguageEntry {
        key: "kotlin".to_owned(),
        config: LanguageConfig {
            display_name: "Kotlin".to_owned(),
            file_name: "Main.kt".to_owned(),
            version_command: "kotlinc -version".to_owned(),
            compile_command: Some("kotlinc".to_owned()),
            compile_args: args4("Main.kt", "-include-runtime", "-d", "Main.jar"),
            run_command: "java".to_owned(),
            run_args: args2("-jar", "Main.jar"),
            file_extension: "kt".to_owned(),
        },
    });

    let table = LanguageTable { entries };
    proof {
        assert(table.model() =~= language_table_model(platform));
        lemma_language_keys_unique(platform);
    }
    table
}

/// The thirteen language keys are pairwise distinct.
pub proof fn lemma_language_keys_unique(platform: Platform)
    ensures
        forall|i: int, j: int|
            0 <= i < j < language_table_model(platform).len() ==> (
            #[trigger] language_table_model(platform)[i]).key != (
            #[trigger] language_table_model(platform)[j]).key,
{
    reveal_strlit("python3");
    reveal_strlit("python");
    reveal_strlit("java");
    reveal_strlit("gcc");
    reveal_strlit("clang");
    reveal_strlit("gpp");
    reveal_strlit("clangpp");
    reveal_strlit("rust");
    reveal_strlit("javascript");
    reveal_strlit("go");
    reveal_strlit("csharp");
    reveal_strlit("psql");
    reveal_strlit("kotlin");
    assert("python3"@.len() == 7);
    assert("python"@.len() == 6);
    assert("java"@.len() == 4);
    assert("gcc"@.len() == 3);
    assert("clang"@.len() == 5);
    assert("gpp"@.len() == 3);
    assert("clangpp"@.len() == 7);
    assert("rust"@.len() == 4);
    assert("javascript"@.len() == 10);
    assert("go"@.len() == 2);
    assert("csharp"@.len() == 6);
    assert("psql"@.len() == 4);
    assert("kotlin"@.len() == 6);
    assert("python3"@[0] != "clangpp"@[0]);
    assert("python"@[0] != "csharp"@[0]);
    assert("python"@[0] != "kotlin"@[0]);
    assert("csharp"@[0] != "kotlin"@[0]);
    assert("java"@[0] != "rust"@[0]);
    assert("java"@[0] != "psql"@[0]);
    assert("rust"@[0] != "psql"@[0]);
    assert("gcc"@[1] != "gpp"@[1]);
}

} // verus!
