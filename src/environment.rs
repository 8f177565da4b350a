//! The supported target environments and what each one reads and runs.
//!
//! Paths are relative to the sandbox root.

use vstd::prelude::*;

verus! {

/// A supported target environment.
#[derive(Clone, Copy, Debug, PartialEq, Eq)]
pub enum Lang {
    Rust,
    Java,
    Scala,
    Swift,
    Kotlin,
    Python,
    JavaScript,
    TypeScript,
    Php,
}

impl Lang {
    /// The dependency manifest.
    pub open spec fn manifest_path(self) -> Seq<char> {
        match self {
            Lang::Rust => "Cargo.toml"@,
            Lang::Java => "pom.xml"@,
            Lang::Scala => "build.sbt"@,
            Lang::Swift => "Package.swift"@,
            Lang::Kotlin => "build.gradle"@,
            Lang::Python => "requirements.txt"@,
            Lang::JavaScript => "package.json"@,
            Lang::TypeScript => "package.json"@,
            Lang::Php => "composer.json"@,
        }
    }

    /// The extra configuration file, for the environments that have one.
    pub open spec fn config_path(self) -> Option<Seq<char>> {
        match self {
            Lang::TypeScript => Some("tsconfig.json"@),
            _ => None,
        }
    }

    /// The file that holds the candidate solution.
    pub open spec fn solution_path(self) -> Seq<char> {
        match self {
            Lang::Rust => "src/lib.rs"@,
            Lang::Java => "src/main/java/com/example/solution/Solution.java"@,
            Lang::Scala => "src/main/scala/Solution.scala"@,
            Lang::Swift => "Sources/Solution/Solution.swift"@,
            Lang::Kotlin => "src/main/kotlin/Solution.kt"@,
            Lang::Python => "solution.py"@,
            Lang::JavaScript => "src/solution.js"@,
            Lang::TypeScript => "src/solution.ts"@,
            Lang::Php => "src/Solution.php"@,
        }
    }

    /// The file that holds the test suite, for the environments that keep
    /// it apart from the solution.
    pub open spec fn test_path(self) -> Option<Seq<char>> {
        match self {
            Lang::Rust => None,
            Lang::Java => Some("src/test/java/com/example/solution/SolutionTest.java"@),
            Lang::Scala => Some("src/test/scala/SolutionTest.scala"@),
            Lang::Swift => Some("Tests/SolutionTests/SolutionTests.swift"@),
            Lang::Kotlin => Some("src/test/kotlin/SolutionTest.kt"@),
            Lang::Python => Some("test.py"@),
            Lang::JavaScript => Some("src/solution.test.js"@),
            Lang::TypeScript => Some("src/solution.test.ts"@),
            Lang::Php => Some("tests/SolutionTest.php"@),
        }
    }

    /// The source-defining files in the order their contents enter the
    /// cache key: manifest, configuration, solution, test.
    pub open spec fn source_paths(self) -> Seq<Seq<char>> {
        seq![self.manifest_path()] + optional_path(self.config_path()) + seq![self.solution_path()]
            + optional_path(self.test_path())
    }

    /// What is appended to the program name on Windows, where the tool is
    /// started through a script.
    pub open spec fn windows_suffix(self) -> Seq<char> {
        match self {
            Lang::Java | Lang::Scala | Lang::JavaScript | Lang::TypeScript | Lang::Php => ".cmd"@,
            Lang::Kotlin => ".bat"@,
            Lang::Rust | Lang::Swift | Lang::Python => Seq::empty(),
        }
    }

    /// Whether an empty command means that there is nothing to run.
    pub open spec fn empty_command_is_noop(self) -> bool {
        self == Lang::Python
    }

    /// The program name to start for the first word of a command.
    pub open spec fn spec_program_name(self, word: Seq<char>, on_windows: bool) -> Seq<char> {
        if on_windows {
            word + self.windows_suffix()
        } else {
            word
        }
    }

    /// The dependency manifest's path.
    pub fn manifest_file(self) -> (r: &'static str)
        ensures
            r@ == self.manifest_path(),
    {
        match self {
            Lang::Rust => "Cargo.toml",
            Lang::Java => "pom.xml",
            Lang::Scala => "build.sbt",
            Lang::Swift => "Package.swift",
            Lang::Kotlin => "build.gradle",
            Lang::Python => "requirements.txt",
            Lang::JavaScript => "package.json",
            Lang::TypeScript => "package.json",
            Lang::Php => "composer.json",
        }
    }

    /// The extra configuration file's path, if the environment has one.
    pub fn config_file(self) -> (r: Option<&'static str>)
        ensures
            r is Some <==> self.config_path() is Some,
            r matches Some(p) ==> self.config_path() == Some(p@),
    {
        match self {
            Lang::TypeScript => Some("tsconfig.json"),
            _ => None,
        }
    }

    /// The solution file's path.
    pub fn solution_file(self) -> (r: &'static str)
        ensures
            r@ == self.solution_path(),
    {
        match self {
            Lang::Rust => "src/lib.rs",
            Lang::Java => "src/main/java/com/example/solution/Solution.java",
            Lang::Scala => "src/main/scala/Solution.scala",
            Lang::Swift => "Sources/Solution/Solution.swift",
            Lang::Kotlin => "src/main/kotlin/Solution.kt",
            Lang::Python => "solution.py",
            Lang::JavaScript => "src/solution.js",
            Lang::TypeScript => "src/solution.ts",
            Lang::Php => "src/Solution.php",
        }
    }

    /// The test file's path, if the environment keeps one.
    pub fn test_file(self) -> (r: Option<&'static str>)
        ensures
            r is Some <==> self.test_path() is Some,
            r matches Some(p) ==> self.test_path() == Some(p@),
    {
        match self {
            Lang::Rust => None,
            Lang::Java => Some("src/test/java/com/example/solution/SolutionTest.java"),
            Lang::Scala => Some("src/test/scala/SolutionTest.scala"),
            Lang::Swift => Some("Tests/SolutionTests/SolutionTests.swift"),
            Lang::Kotlin => Some("src/test/kotlin/SolutionTest.kt"),
            Lang::Python => Some("test.py"),
            Lang::JavaScript => Some("src/solution.test.js"),
            Lang::TypeScript => Some("src/solution.test.ts"),
            Lang::Php => Some("tests/SolutionTest.php"),
        }
    }

    /// The source-defining files, in cache-key order.
    pub fn source_files(self) -> (r: Vec<&'static str>)
        ensures
            r@.map_values(|p: &'static str| p@) == self.source_paths(),
    {
        let mut r: Vec<&'static str> = Vec::new();
        r.push(self.manifest_file());
        if let Some(c) = self.config_file() {
            r.push(c);
        }
        r.push(self.solution_file());
        if let Some(t) = self.test_file() {
            r.push(t);
        }
        assert(r@.map_values(|p: &'static str| p@) =~= self.source_paths());
        r
    }

    /// Whether an empty command means that there is nothing to run.
    pub fn empty_command_runs_nothing(self) -> (r: bool)
        ensures
            r == self.empty_command_is_noop(),
    {
        matches!(self, Lang::Python)
    }

    /// The program to start for `word`, the first word of a command.
    pub fn program_name(self, word: &str, on_windows: bool) -> (r: String)
        ensures
            r@ == self.spec_program_name(word@, on_windows),
    {
        let name = word.to_owned();
        if on_windows {
            match self {
                Lang::Java | Lang::Scala | Lang::JavaScript | Lang::TypeScript | Lang::Php => {
                    name.concat(".cmd")
                },
                Lang::Kotlin => name.concat(".bat"),
                Lang::Rust | Lang::Swift | Lang::Python => {
                    assert(name@ + Seq::<char>::empty() =~= name@);
                    name
                },
            }
        } else {
            name
        }
    }
}

/// A path that may be absent, as a sequence of zero or one paths.
pub open spec fn optional_path(p: Option<Seq<char>>) -> Seq<Seq<char>> {
    match p {
        Some(path) => seq![path],
        None => Seq::empty(),
    }
}

} // verus!
