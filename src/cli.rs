use vstd::prelude::*;
use vstd::string::*;

verus! {

/// The ecosystems a local package can be published to.
pub enum PublishRegistry {
    Npm { path: String },
    Crates { path: String },
    Pypi { path: String },
}

/// What the command line asks for.
pub enum Commands {
    Tui,
    Serve { port: u16, open: bool },
    Check { name: String, json: bool },
    Domain { name: String, tlds: String, json: bool },
    Publish { registry: PublishRegistry },
}

/// A parsed command line; no command means the interactive session.
pub struct Cli {
    pub command: Option<Commands>,
}

/// One program a publish runs, in the package directory.
pub struct PublishStep {
    pub program: String,
    pub args: Vec<String>,
    /// What is reported when the program does not succeed.
    pub failure: String,
}

/// Mathematical form of a publish step: program, arguments, failure text.
pub open spec fn step_view(s: PublishStep) -> (Seq<char>, Seq<Seq<char>>, Seq<char>) {
    (s.program@, s.args@.map_values(|a: String| a@), s.failure@)
}

/// The programs that publish to each ecosystem, in the order they run.
pub open spec fn publish_plan(r: PublishRegistry) -> Seq<(Seq<char>, Seq<Seq<char>>, Seq<char>)> {
    match r {
        PublishRegistry::Npm { .. } => seq![("npm"@, seq!["publish"@], "npm publish failed"@)],
        PublishRegistry::Crates { .. } => seq![("cargo"@, seq!["publish"@], "cargo publish failed"@)],
        PublishRegistry::Pypi { .. } => seq![
            ("python"@, seq!["-m"@, "build"@], "python build failed"@),
            ("python"@, seq!["-m"@, "twine"@, "upload"@, "dist/*"@], "twine upload failed"@),
        ],
    }
}

/// The arguments `a` in order.
fn args_of(a: &[&str]) -> (r: Vec<String>)
    ensures
        r@.len() == a@.len(),
        forall|k: int| 0 <= k < a@.len() ==> #[trigger] r@[k]@ == a@[k]@,
{
    let mut out: Vec<String> = Vec::new();
    let mut i: usize = 0;
    while i < a.len()
        invariant
            i <= a@.len(),
            out@.len() == i,
            forall|k: int| 0 <= k < i ==> #[trigger] out@[k]@ == a@[k]@,
        decreases a@.len() - i,
    {
        out.push(String::from_str(a[i]));
        i = i + 1;
    }
    out
}

fn step(program: &str, args: Vec<String>, failure: &str) -> (r: PublishStep)
    ensures
        r.program@ == program@,
        r.args@ == args@,
        r.failure@ == failure@,
{
    PublishStep { program: String::from_str(program), args, failure: String::from_str(failure) }
}

impl PublishRegistry {
    /// The package directory.
    pub fn path(&self) -> (r: &str)
        ensures
            r@ == match self {
                PublishRegistry::Npm { path } => path@,
                PublishRegistry::Crates { path } => path@,
                PublishRegistry::Pypi { path } => path@,
            },
    {
        match self {
            PublishRegistry::Npm { path } => path.as_str(),
            PublishRegistry::Crates { path } => path.as_str(),
            PublishRegistry::Pypi { path } => path.as_str(),
        }
    }

    /// The name of the ecosystem as announced before publishing.
    pub fn label(&self) -> (r: &'static str)
        ensures
            r@ == match self {
                PublishRegistry::Npm { .. } => "npm"@,
                PublishRegistry::Crates { .. } => "crates.io"@,
                PublishRegistry::Pypi { .. } => "PyPI"@,
            },
    {
        match self {
            PublishRegistry::Npm { .. } => "npm",
            PublishRegistry::Crates { .. } => "crates.io",
            PublishRegistry::Pypi { .. } => "PyPI",
        }
    }

    /// The programs to run, in order; a publish stops at the first that fails.
    pub fn steps(&self) -> (r: Vec<PublishStep>)
        ensures
            r@.map_values(|s: PublishStep| step_view(s)) == publish_plan(*self),
    {
        let mut out: Vec<PublishStep> = Vec::new();
        match self {
            PublishRegistry::Npm { .. } => {
                let a = args_of(&["publish"]);
                out.push(step("npm", a, "npm publish failed"));
                assert(out@[0].args@.map_values(|x: String| x@) =~= seq!["publish"@]);
            },
            PublishRegistry::Crates { .. } => {
                let a = args_of(&["publish"]);
                out.push(step("cargo", a, "cargo publish failed"));
                assert(out@[0].args@.map_values(|x: String| x@) =~= seq!["publish"@]);
            },
            PublishRegistry::Pypi { .. } => {
                let a = args_of(&["-m", "build"]);
                out.push(step("python", a, "python build failed"));
                let b = args_of(&["-m", "twine", "upload", "dist/*"]);
                out.push(step("python", b, "twine upload failed"));
                assert(out@[0].args@.map_values(|x: String| x@) =~= seq!["-m"@, "build"@]);
                assert(out@[1].args@.map_values(|x: String| x@) =~= seq!["-m"@, "twine"@, "upload"@, "dist/*"@]);
            },
        }
        assert(out@.map_values(|s: PublishStep| step_view(s)) =~= publish_plan(*self));
        out
    }
}

} // verus!
