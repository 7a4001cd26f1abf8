//! Test cases, the bundle of tests that makes a problem, and the jail under
//! which a test is run.

use crate::languages::{texts, CommandLine, CommandLineView, Language};
use vstd::prelude::*;

verus! {

/// One test: what the program reads and what it must print.
#[derive(Debug, PartialEq, Eq)]
pub struct TestCase {
    pub input: String,
    pub output: String,
}

/// The mathematical value of a [`TestCase`].
pub struct TestCaseView {
    pub input: Seq<char>,
    pub output: Seq<char>,
}

impl View for TestCase {
    type V = TestCaseView;

    open spec fn view(&self) -> TestCaseView {
        TestCaseView { input: self.input@, output: self.output@ }
    }
}

impl Clone for TestCase {
    fn clone(&self) -> (r: Self)
        ensures
            r@ == self@,
    {
        TestCase { input: self.input.clone(), output: self.output.clone() }
    }
}

/// The tests of one problem: the public ones in their order, and the hidden one.
#[derive(Debug, PartialEq, Eq)]
pub struct TestCases {
    pub public: Vec<TestCase>,
    pub hidden: TestCase,
}

/// The mathematical value of a [`TestCases`].
pub struct TestCasesView {
    pub public: Seq<TestCaseView>,
    pub hidden: TestCaseView,
}

impl TestCasesView {
    /// The number of tests, the hidden one included.
    pub open spec fn count(self) -> int {
        self.public.len() as int + 1
    }

    /// The test at position `k` of the run: the public ones first, then the
    /// hidden one.
    pub open spec fn at(self, k: int) -> TestCaseView
        recommends
            0 <= k < self.count(),
    {
        if 0 <= k < self.public.len() {
            self.public[k]
        } else {
            self.hidden
        }
    }
}

/// The values of a vector of tests.
pub open spec fn test_views(v: Seq<TestCase>) -> Seq<TestCaseView> {
    Seq::new(v.len(), |i: int| v[i]@)
}

impl View for TestCases {
    type V = TestCasesView;

    open spec fn view(&self) -> TestCasesView {
        TestCasesView { public: test_views(self.public@), hidden: self.hidden@ }
    }
}

impl Clone for TestCases {
    fn clone(&self) -> (r: Self)
        ensures
            r@ == self@,
    {
        let mut public: Vec<TestCase> = Vec::new();
        let mut i: usize = 0;
        while i < self.public.len()
            invariant
                i <= self.public.len(),
                public.len() == i,
                forall|j: int| 0 <= j < i ==> public[j]@ == self.public[j]@,
            decreases self.public.len() - i,
        {
            public.push(self.public[i].clone());
            i += 1;
        }
        let r = TestCases { public, hidden: self.hidden.clone() };
        assert(r@.public =~= self@.public);
        r
    }
}

impl TestCases {
    /// The test at position `k` of the run.
    pub fn at(&self, k: usize) -> (r: &TestCase)
        requires
            k <= self.public.len(),
        ensures
            r@ == self@.at(k as int),
    {
        if k < self.public.len() {
            &self.public[k]
        } else {
            &self.hidden
        }
    }
}

/// The seconds of wall-clock time that one run may take before it is killed.
pub const RUN_TIMEOUT_SECS: u64 = 5;

/// The jail's options before the working directory: mode and verbosity, the
/// address-space limit in MiB, the jail's own timer, no procfs, no loopback.
pub open spec fn jail_head() -> Seq<Seq<char>> {
    seq![
        "-Mo"@,
        "-q"@,
        "--rlimit_as"@,
        "512"@,
        "-t"@,
        "6"@,
        "--disable_proc"@,
        "--iface_no_lo"@,
        "-c"@,
    ]
}

/// The jail's options after the working directory: the directory entered
/// inside the jail, the user and group the program runs as, and the separator.
pub open spec fn jail_tail() -> Seq<Seq<char>> {
    seq!["-D"@, "/"@, "--user"@, "99999"@, "--group"@, "99999"@, "--"@]
}

/// The jailed invocation of a program: only `dir` is visible to it, as its
/// root; its memory is capped; it has no procfs and no network; it runs as a
/// user and group of its own. The jail's own timer lies one second past
/// [`RUN_TIMEOUT_SECS`], so that the limit enforced from outside decides.
pub open spec fn jailed(run: CommandLineView, dir: Seq<char>) -> CommandLineView {
    CommandLineView {
        program: "nsjail"@,
        args: jail_head() + seq![dir] + jail_tail() + seq![run.program] + run.args,
    }
}

/// What has to be done to run one test.
#[derive(Debug, PartialEq, Eq)]
pub struct RunRequest {
    /// The jailed invocation.
    pub command: CommandLine,
    /// What is written to the program's standard input before it is closed.
    pub input: String,
    /// After how many seconds of wall-clock time the program is killed.
    pub timeout_secs: u64,
}

/// The mathematical value of a [`RunRequest`].
pub struct RunRequestView {
    pub command: CommandLineView,
    pub input: Seq<char>,
    pub timeout_secs: u64,
}

impl View for RunRequest {
    type V = RunRequestView;

    open spec fn view(&self) -> RunRequestView {
        RunRequestView {
            command: self.command@,
            input: self.input@,
            timeout_secs: self.timeout_secs,
        }
    }
}

impl TestCaseView {
    /// The run of this test for a program in `language` prepared in `dir`.
    pub open spec fn sandbox(self, dir: Seq<char>, language: Language) -> RunRequestView {
        RunRequestView {
            command: jailed(language.spec_run_command(), dir),
            input: self.input,
            timeout_secs: RUN_TIMEOUT_SECS,
        }
    }
}

fn push_all(args: &mut Vec<String>, more: &Vec<String>)
    ensures
        texts(final(args)@) == texts(old(args)@) + texts(more@),
{
    let mut i: usize = 0;
    proof {
        assert(texts(args@) + texts(more@.take(0)) =~= texts(args@));
    }
    while i < more.len()
        invariant
            i <= more.len(),
            texts(args@) == texts(old(args)@) + texts(more@.take(i as int)),
        decreases more.len() - i,
    {
        let ghost before = args@;
        let s = more[i].clone();
        args.push(s);
        proof {
            assert(texts(args@) =~= texts(before) + seq![more@[i as int]@]);
            assert(texts(more@.take(i + 1)) =~= texts(more@.take(i as int)) + seq![
                more@[i as int]@,
            ]);
        }
        i += 1;
    }
    proof {
        assert(more@.take(more.len() as int) =~= more@);
    }
}

impl TestCase {
    /// The jailed invocation that runs a program in `lang` prepared in `dir`.
    pub fn command(lang: &Language, dir: &str) -> (r: CommandLine)
        ensures
            r@ == jailed(lang.spec_run_command(), dir@),
    {
        let run = lang.run_command();
        let mut args: Vec<String> = Vec::new();
        args.push("-Mo".to_owned());
        args.push("-q".to_owned());
        args.push("--rlimit_as".to_owned());
        args.push("512".to_owned());
        args.push("-t".to_owned());
        args.push("6".to_owned());
        args.push("--disable_proc".to_owned());
        args.push("--iface_no_lo".to_owned());
        args.push("-c".to_owned());
        args.push(dir.to_owned());
        args.push("-D".to_owned());
        args.push("/".to_owned());
        args.push("--user".to_owned());
        args.push("99999".to_owned());
        args.push("--group".to_owned());
        args.push("99999".to_owned());
        args.push("--".to_owned());
        args.push(run.program.clone());
        proof {
            assert(texts(args@) =~= jail_head() + seq![dir@] + jail_tail() + seq![run@.program]);
        }
        push_all(&mut args, &run.args);
        CommandLine { program: "nsjail".to_owned(), args }
    }

    /// What has to be done to run this test on a program in `lang` prepared in `dir`.
    pub fn sandbox(&self, dir: &str, lang: &Language) -> (r: RunRequest)
        ensures
            r@ == self@.sandbox(dir@, *lang),
    {
        RunRequest {
            command: Self::command(lang, dir),
            input: self.input.clone(),
            timeout_secs: RUN_TIMEOUT_SECS,
        }
    }
}

} // verus!
