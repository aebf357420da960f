//! The `generate-ci` command: from a resolved project and the command's
//! options to the text of a CI configuration.
use vstd::prelude::*;
use vstd::string::*;

use crate::bridge::BridgeModel;
use crate::pipeline::{build_pipeline, pipeline_model, Options};
use crate::platform::{default_platforms, Platform};
use crate::render::{github_text, header_text, render_github, ContextView, RenderContext};
use crate::text;

verus! {

/// A CI service to generate a configuration for.
#[derive(Clone, Copy, Debug, PartialEq, Eq, Structural)]
pub enum Provider {
    /// GitHub Actions.
    GitHub,
    /// GitLab CI.
    GitLab,
}

pub open spec fn provider_name(p: Provider) -> Seq<char> {
    match p {
        Provider::GitHub => "github"@,
        Provider::GitLab => "gitlab"@,
    }
}

impl Provider {
    pub fn name(&self) -> (r: &'static str)
        ensures
            r@ == provider_name(*self),
    {
        match self {
            Provider::GitHub => "github",
            Provider::GitLab => "gitlab",
        }
    }
}

/// The name of the tool, as the regeneration hint spells it.
pub const TOOL_NAME: &'static str = "maturin";

/// The subcommand that regenerates a CI configuration, with its space.
pub const GENERATE_CI: &'static str = " generate-ci ";

pub const NEW_COMMAND: &'static str = "maturin new";

pub const INIT_COMMAND: &'static str = "maturin init";

pub const DEFAULT_MANIFEST: &'static str = "Cargo.toml";

/// Where the tool was run from: its version, and the command line it was
/// invoked with, program name first.
pub struct Invocation {
    pub version: String,
    pub args: Vec<String>,
}

impl Default for Invocation {
    fn default() -> (r: Invocation)
        ensures
            r.version@ == Seq::<char>::empty(),
            r.args@ == Seq::<String>::empty(),
    {
        Invocation { version: String::new(), args: Vec::new() }
    }
}

/// The words of the command line, the program's own name replaced by the
/// tool's.
pub open spec fn command_words(args: Seq<String>) -> Seq<Seq<char>> {
    Seq::new(args.len(), |i: int| if i == 0 { TOOL_NAME@ } else { args[i]@ })
}

/// Words separated by single spaces.
pub open spec fn spaced(words: Seq<Seq<char>>) -> Seq<char>
    decreases words.len(),
{
    if words.len() == 0 {
        seq![]
    } else if words.len() == 1 {
        words[0]
    } else {
        spaced(words.drop_last()) + " "@ + words.last()
    }
}

pub open spec fn has_prefix(s: Seq<char>, p: Seq<char>) -> bool {
    p.len() <= s.len() && s.subrange(0, p.len() as int) == p
}

/// The command to put in the header: the one that was run, but where that
/// created a project, the plain command that generates this configuration.
pub open spec fn regen_command(args: Seq<String>, provider: Provider) -> Seq<char> {
    let c = spaced(command_words(args));
    if has_prefix(c, NEW_COMMAND@) || has_prefix(c, INIT_COMMAND@) {
        TOOL_NAME@ + GENERATE_CI@ + provider_name(provider)
    } else {
        c
    }
}

proof fn lemma_spaced_step(w: Seq<Seq<char>>, i: int)
    requires
        0 <= i < w.len(),
    ensures
        spaced(w.take(i + 1)) == if i == 0 {
            w[0]
        } else {
            spaced(w.take(i)) + " "@ + w[i]
        },
{
    assert(w.take(i + 1).drop_last() =~= w.take(i));
    if i == 0 {
        assert(w.take(1)[0] == w[0]);
    }
}

fn starts_with(s: &String, p: &str) -> (r: bool)
    ensures
        r == has_prefix(s@, p@),
{
    let n = p.unicode_len();
    if n > s.as_str().unicode_len() {
        return false;
    }
    let mut i: usize = 0;
    while i < n
        invariant
            n == p@.len(),
            n <= s@.len(),
            i <= n,
            s@.subrange(0, i as int) == p@.subrange(0, i as int),
        decreases n - i,
    {
        if s.as_str().get_char(i) != p.get_char(i) {
            assert(s@.subrange(0, n as int)[i as int] != p@[i as int]);
            return false;
        }
        assert(s@.subrange(0, i as int + 1) =~= s@.subrange(0, i as int).push(s@[i as int]));
        assert(p@.subrange(0, i as int + 1) =~= p@.subrange(0, i as int).push(p@[i as int]));
        i = i + 1;
    }
    assert(p@.subrange(0, n as int) =~= p@);
    true
}

/// The command line the tool was run with, under the tool's own name.
fn command_line(args: &Vec<String>) -> (r: String)
    ensures
        r@ == spaced(command_words(args@)),
{
    let mut out = String::new();
    let ghost w = command_words(args@);
    let mut i: usize = 0;
    while i < args.len()
        invariant
            i <= args@.len(),
            w == command_words(args@),
            out@ == spaced(w.take(i as int)),
        decreases args@.len() - i,
    {
        if i > 0 {
            out.append(" ");
            out.append(args[i].as_str());
        } else {
            out.append(TOOL_NAME);
        }
        proof {
            lemma_spaced_step(w, i as int);
        }
        i = i + 1;
        assert(out@ =~= spaced(w.take(i as int)));
    }
    assert(w.take(i as int) =~= w);
    out
}

/// The command that regenerates the configuration, for its header.
pub fn regeneration_command(args: &Vec<String>, provider: Provider) -> (r: String)
    ensures
        r@ == regen_command(args@, provider),
{
    let c = command_line(args);
    if starts_with(&c, NEW_COMMAND) || starts_with(&c, INIT_COMMAND) {
        let mut r = String::from_str(TOOL_NAME);
        r.append(GENERATE_CI);
        r.append(provider.name());
        r
    } else {
        c
    }
}

/// Whether two paths are the same path, compared component by component.
pub uninterp spec fn same_path_as(a: Seq<char>, b: Seq<char>) -> bool;

/// Whether a path names `Cargo.toml` in the working directory.
pub open spec fn is_default_manifest(p: Seq<char>) -> bool {
    same_path_as(p, DEFAULT_MANIFEST@)
}

/// The parent directory of a path, if it has one.
pub uninterp spec fn path_parent(p: Seq<char>) -> Option<Seq<char>>;

/// Relies on `Path`'s `PartialEq`: whether `a` and `b` are the same path,
/// comparing their components; equal strings are the same path.
#[verifier::external_body]
fn same_path(a: &str, b: &str) -> (r: bool)
    ensures
        r == same_path_as(a@, b@),
        a@ == b@ ==> r,
{
    std::path::Path::new(a) == std::path::Path::new(b)
}

/// Relies on `Path::parent`: the path without its last component, or `None`
/// for a root or an empty path.
#[verifier::external_body]
fn parent_dir(p: &str) -> (r: Option<String>)
    ensures
        match r {
            Some(d) => path_parent(p@) == Some(d@),
            None => path_parent(p@) is None,
        },
{
    match std::path::Path::new(p).parent() {
        Some(d) => Some(d.display().to_string()),
        None => None,
    }
}

/// The options of the `generate-ci` command.
#[derive(Clone, Debug)]
pub struct GenerateCI {
    /// The CI service.
    pub ci: Provider,
    /// The path to `Cargo.toml`.
    pub manifest_path: Option<String>,
    /// Where to write the configuration; `-` is standard output.
    pub output: String,
    /// The platforms to build for.
    pub platforms: Vec<Platform>,
    /// Run the tests with pytest.
    pub pytest: bool,
    /// Cross-compile with zig.
    pub zig: bool,
}

impl Default for GenerateCI {
    fn default() -> (r: GenerateCI)
        ensures
            r.ci == Provider::GitHub,
            r.manifest_path is None,
            r.output@ == "-"@,
            r.platforms@ == default_platforms(),
            !r.pytest,
            !r.zig,
    {
        GenerateCI {
            ci: Provider::GitHub,
            manifest_path: None,
            output: String::from_str("-"),
            platforms: Platform::defaults(),
            pytest: false,
            zig: false,
        }
    }
}

impl GenerateCI {
    /// Whether a manifest other than `Cargo.toml` in the working directory was
    /// named.
    pub open spec fn custom_manifest(&self) -> bool {
        match self.manifest_path {
            Some(p) => !is_default_manifest(p@),
            None => false,
        }
    }

    pub open spec fn options(&self) -> Options {
        Options { pytest: self.pytest, zig: self.zig, custom_manifest: self.custom_manifest() }
    }

    /// The rendering context: a named manifest's tests run from its directory.
    pub open spec fn context(&self, project_name: Seq<char>) -> ContextView {
        ContextView {
            project_name,
            manifest_path: match self.manifest_path {
                Some(p) => p@,
                None => seq![],
            },
            chdir: match self.manifest_path {
                Some(p) => if !is_default_manifest(p@) && path_parent(p@) is Some {
                    text::CD@ + path_parent(p@)->0 + text::AND_THEN@
                } else {
                    seq![]
                },
                None => seq![],
            },
        }
    }

    /// The GitHub workflow for this configuration.
    pub open spec fn github_config(
        &self,
        project_name: Seq<char>,
        bridge: BridgeModel,
        sdist: bool,
        version: Seq<char>,
        args: Seq<String>,
    ) -> Seq<char> {
        header_text(version, regen_command(args, Provider::GitHub)) + github_text(
            pipeline_model(self.platforms@, bridge, self.options(), sdist),
            self.context(project_name),
        )
    }

    /// The GitLab pipeline, which does not depend on the project yet.
    pub open spec fn gitlab_config(&self, version: Seq<char>, args: Seq<String>) -> Seq<char> {
        header_text(version, regen_command(args, Provider::GitLab)) + text::GITLAB_PIPELINE@
    }

    fn header(&self, provider: Provider, invocation: &Invocation) -> (r: String)
        ensures
            r@ == header_text(invocation.version@, regen_command(invocation.args@, provider)),
    {
        let mut out = String::from_str(text::HEADER_TOOL);
        out.append(invocation.version.as_str());
        out.append(text::HEADER_UPDATE);
        let cmd = regeneration_command(&invocation.args, provider);
        out.append(cmd.as_str());
        out.append(text::HEADER_END);
        out
    }

    /// Generate the CI configuration for the chosen provider.
    pub fn generate(
        &self,
        project_name: &str,
        bridge_model: &BridgeModel,
        sdist: bool,
        invocation: &Invocation,
    ) -> (r: String)
        ensures
            r@ == match self.ci {
                Provider::GitHub => self.github_config(
                    project_name@,
                    *bridge_model,
                    sdist,
                    invocation.version@,
                    invocation.args@,
                ),
                Provider::GitLab => self.gitlab_config(invocation.version@, invocation.args@),
            },
    {
        match self.ci {
            Provider::GitHub => self.generate_github(project_name, bridge_model, sdist, invocation),
            Provider::GitLab => self.generate_gitlab(project_name, bridge_model, sdist, invocation),
        }
    }

    /// The GitLab CI configuration: a fixed pipeline that tests, builds for
    /// Linux, macOS and Windows, and publishes.
    pub fn generate_gitlab(
        &self,
        _project_name: &str,
        _bridge_model: &BridgeModel,
        _sdist: bool,
        invocation: &Invocation,
    ) -> (r: String)
        ensures
            r@ == self.gitlab_config(invocation.version@, invocation.args@),
    {
        let mut out = self.header(Provider::GitLab, invocation);
        out.append(text::GITLAB_PIPELINE);
        out
    }

    /// The GitHub Actions workflow: a job per platform, an sdist job where
    /// `sdist` holds, and a release job.
    pub fn generate_github(
        &self,
        project_name: &str,
        bridge_model: &BridgeModel,
        sdist: bool,
        invocation: &Invocation,
    ) -> (r: String)
        ensures
            r@ == self.github_config(
                project_name@,
                *bridge_model,
                sdist,
                invocation.version@,
                invocation.args@,
            ),
            self.manifest_path matches Some(p) && p@ == DEFAULT_MANIFEST@ ==> !self.custom_manifest(),
    {
        let (custom_manifest, manifest_path, test_dir) = match &self.manifest_path {
            Some(p) => {
                let custom = !same_path(p.as_str(), DEFAULT_MANIFEST);
                let dir = if custom {
                    parent_dir(p.as_str())
                } else {
                    None
                };
                (custom, p.clone(), dir)
            },
            None => (false, String::new(), None),
        };
        let opts = Options { pytest: self.pytest, zig: self.zig, custom_manifest };
        let ctx = RenderContext {
            project_name: String::from_str(project_name),
            manifest_path,
            test_dir,
        };
        assert(ctx@ == self.context(project_name@));
        let pipeline = build_pipeline(&self.platforms, bridge_model, opts, sdist);
        let mut out = self.header(Provider::GitHub, invocation);
        let body = render_github(&pipeline, &ctx);
        out.append(body.as_str());
        out
    }
}

/// Whether two sets of options are the same configuration.
pub open spec fn same_options(a: GenerateCI, b: GenerateCI) -> bool {
    &&& a.ci == b.ci
    &&& a.platforms@ == b.platforms@
    &&& a.pytest == b.pytest
    &&& a.zig == b.zig
    &&& match (a.manifest_path, b.manifest_path) {
        (Some(x), Some(y)) => x@ == y@,
        (None, None) => true,
        _ => false,
    }
}

/// The same configuration always gives the same text: the output depends on
/// the options, the project and the invocation alone.
pub proof fn generation_is_deterministic(
    a: GenerateCI,
    b: GenerateCI,
    project_name: Seq<char>,
    bridge: BridgeModel,
    sdist: bool,
    version: Seq<char>,
    args: Seq<String>,
)
    requires
        same_options(a, b),
    ensures
        a.github_config(project_name, bridge, sdist, version, args) == b.github_config(
            project_name,
            bridge,
            sdist,
            version,
            args,
        ),
        a.gitlab_config(version, args) == b.gitlab_config(version, args),
{
    assert(a.options() == b.options());
    assert(a.context(project_name) == b.context(project_name));
}

} // verus!
