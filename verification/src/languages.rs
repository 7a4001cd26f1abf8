//! The supported languages and their static profiles: where the source is
//! placed, whether a compiler runs, and the argument vectors to compile and run.

use vstd::prelude::*;

verus! {

/// A program with its arguments; the working directory is always the workspace.
#[derive(Debug, PartialEq, Eq)]
pub struct CommandLine {
    pub program: String,
    pub args: Vec<String>,
}

/// The mathematical value of a [`CommandLine`].
pub struct CommandLineView {
    pub program: Seq<char>,
    pub args: Seq<Seq<char>>,
}

/// The texts held by a vector of strings.
pub open spec fn texts(v: Seq<String>) -> Seq<Seq<char>> {
    Seq::new(v.len(), |i: int| v[i]@)
}

impl View for CommandLine {
    type V = CommandLineView;

    open spec fn view(&self) -> CommandLineView {
        CommandLineView { program: self.program@, args: texts(self.args@) }
    }
}

impl Clone for CommandLine {
    fn clone(&self) -> (r: Self)
        ensures
            r@ == self@,
    {
        let mut args: Vec<String> = Vec::new();
        let mut i: usize = 0;
        while i < self.args.len()
            invariant
                i <= self.args.len(),
                args.len() == i,
                forall|j: int| 0 <= j < i ==> args[j]@ == self.args[j]@,
            decreases self.args.len() - i,
        {
            args.push(self.args[i].clone());
            i += 1;
        }
        let r = CommandLine { program: self.program.clone(), args };
        assert(r@.args =~= self@.args);
        r
    }
}

/// The languages a program can be written in.
#[non_exhaustive]
#[derive(Clone, Copy, Debug, PartialEq, Eq, Structural)]
pub enum Language {
    Rust,
    JavaScript,
    Cpp,
    Python,
    Java,
}

impl Language {
    /// The name of the file that holds the submitted source.
    pub open spec fn spec_file_name(self) -> Seq<char> {
        match self {
            Language::Rust => "main.rs"@,
            Language::JavaScript => "main.js"@,
            Language::Cpp => "main.cpp"@,
            Language::Python => "main.py"@,
            Language::Java => "Main.java"@,
        }
    }

    /// Interpreted languages have no compile step.
    pub open spec fn spec_is_interpreted(self) -> bool {
        self == Language::JavaScript || self == Language::Python
    }

    /// The name of the file that holds the submitted source.
    pub fn file_name(&self) -> (r: &'static str)
        ensures
            r@ == self.spec_file_name(),
    {
        match self {
            Language::Rust => "main.rs",
            Language::JavaScript => "main.js",
            Language::Cpp => "main.cpp",
            Language::Python => "main.py",
            Language::Java => "Main.java",
        }
    }

    /// Whether the language has no compile step.
    pub fn is_interpreted(&self) -> (r: bool)
        ensures
            r == self.spec_is_interpreted(),
    {
        matches!(self, Language::JavaScript | Language::Python)
    }

    /// The file that must exist in the workspace before the program can run:
    /// the compiler's output, or the staged script itself.
    pub open spec fn spec_artifact_name(self) -> Seq<char> {
        match self {
            Language::Rust | Language::Cpp => "main"@,
            Language::Java => "Main.class"@,
            Language::JavaScript => "main.js"@,
            Language::Python => "main.py"@,
        }
    }

    /// The file that must exist before the program can run.
    pub fn artifact_name(&self) -> (r: &'static str)
        ensures
            r@ == self.spec_artifact_name(),
            self.spec_is_interpreted() ==> r@ == self.spec_file_name(),
    {
        match self {
            Language::Rust | Language::Cpp => "main",
            Language::Java => "Main.class",
            Language::JavaScript => "main.js",
            Language::Python => "main.py",
        }
    }

    /// The lower-case tag under which the language travels and is stored.
    pub open spec fn spec_tag(self) -> Seq<char> {
        match self {
            Language::Rust => "rust"@,
            Language::JavaScript => "javascript"@,
            Language::Cpp => "cpp"@,
            Language::Python => "python"@,
            Language::Java => "java"@,
        }
    }

    /// The lower-case tag of the language.
    pub fn tag(&self) -> (r: &'static str)
        ensures
            r@ == self.spec_tag(),
    {
        match self {
            Language::Rust => "rust",
            Language::JavaScript => "javascript",
            Language::Cpp => "cpp",
            Language::Python => "python",
            Language::Java => "java",
        }
    }

    /// The compiler invocation of a compiled language, run inside the workspace.
    pub open spec fn spec_compile_command(self) -> CommandLineView
        recommends
            !self.spec_is_interpreted(),
    {
        match self {
            Language::Cpp => CommandLineView {
                program: "clang++"@,
                args: seq!["main.cpp"@, "-o"@, "main"@],
            },
            Language::Java => CommandLineView { program: "javac"@, args: seq!["Main.java"@] },
            _ => CommandLineView { program: "rustc"@, args: seq!["main.rs"@] },
        }
    }

    /// The compiler and its arguments. Interpreted languages have none.
    pub fn compile_command(&self) -> (r: CommandLine)
        requires
            !self.spec_is_interpreted(),
        ensures
            r@ == self.spec_compile_command(),
            r@.args[0] == self.spec_file_name(),
    {
        let mut args: Vec<String> = Vec::new();
        args.push(self.file_name().to_owned());
        let program = match self {
            Language::Cpp => {
                args.push("-o".to_owned());
                args.push("main".to_owned());
                "clang++"
            },
            Language::Java => "javac",
            _ => "rustc",
        };
        let r = CommandLine { program: program.to_owned(), args };
        assert(r@.args =~= self.spec_compile_command().args);
        r
    }

    /// The invocation that runs the prepared program inside the workspace.
    pub open spec fn spec_run_command(self) -> CommandLineView {
        match self {
            Language::Rust | Language::Cpp => CommandLineView {
                program: "./main"@,
                args: Seq::empty(),
            },
            Language::JavaScript => CommandLineView {
                program: "deno"@,
                args: seq!["run"@, "main.js"@],
            },
            Language::Python => CommandLineView { program: "python3"@, args: seq!["main.py"@] },
            Language::Java => CommandLineView { program: "java"@, args: seq!["Main"@] },
        }
    }

    /// The invocation that runs the prepared program.
    pub fn run_command(&self) -> (r: CommandLine)
        ensures
            r@ == self.spec_run_command(),
    {
        let mut args: Vec<String> = Vec::new();
        let program = match self {
            Language::Rust | Language::Cpp => "./main",
            Language::JavaScript => {
                args.push("run".to_owned());
                args.push("main.js".to_owned());
                "deno"
            },
            Language::Python => {
                args.push("main.py".to_owned());
                "python3"
            },
            Language::Java => {
                args.push("Main".to_owned());
                "java"
            },
        };
        let r = CommandLine { program: program.to_owned(), args };
        assert(r@.args =~= self.spec_run_command().args);
        r
    }
}

/// What has to be done to prepare a program: in a fresh workspace, `code` is
/// written to `file_name` as it is, and then `command`, if there is one, is
/// run there with no input.
#[derive(Debug, PartialEq, Eq)]
pub struct CompileRequest {
    pub file_name: String,
    pub code: String,
    pub command: Option<CommandLine>,
}

/// The mathematical value of a [`CompileRequest`].
pub struct CompileRequestView {
    pub file_name: Seq<char>,
    pub code: Seq<char>,
    pub command: Option<CommandLineView>,
}

impl View for CompileRequest {
    type V = CompileRequestView;

    open spec fn view(&self) -> CompileRequestView {
        CompileRequestView {
            file_name: self.file_name@,
            code: self.code@,
            command: match self.command {
                Some(command) => Some(command@),
                None => None,
            },
        }
    }
}

impl Language {
    /// The preparation of `program`: a compiler runs exactly for the
    /// languages that are not interpreted.
    pub open spec fn spec_compile(self, program: Seq<char>) -> CompileRequestView {
        CompileRequestView {
            file_name: self.spec_file_name(),
            code: program,
            command: if self.spec_is_interpreted() {
                None
            } else {
                Some(self.spec_compile_command())
            },
        }
    }

    /// What has to be done to prepare `program`.
    pub fn compile(&self, program: &str) -> (r: CompileRequest)
        ensures
            r@ == self.spec_compile(program@),
    {
        CompileRequest {
            file_name: self.file_name().to_owned(),
            code: program.to_owned(),
            command: if self.is_interpreted() {
                None
            } else {
                Some(self.compile_command())
            },
        }
    }
}

/// Every profile is of one of two kinds. An interpreted language has no
/// compile step, and what runs is the very file the source was written to. A
/// compiled language has a compiler that is given the source file, and leaves
/// an artifact of a fixed name: `main`, or `Main.class` for Java.
pub proof fn lemma_profile(language: Language, program: Seq<char>)
    ensures
        language.spec_is_interpreted() ==> {
            &&& language.spec_compile(program).command is None
            &&& language.spec_artifact_name() == language.spec_file_name()
            &&& language.spec_run_command().args.last() == language.spec_file_name()
        },
        !language.spec_is_interpreted() ==> {
            &&& language.spec_compile(program).command is Some
            &&& language.spec_compile_command().args[0] == language.spec_file_name()
            &&& language.spec_artifact_name() == if language == Language::Java {
                "Main.class"@
            } else {
                "main"@
            }
        },
        language.spec_compile(program).code == program,
{
}

} // verus!
