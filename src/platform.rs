//! Target platforms and the build matrix of each.
use vstd::prelude::*;

verus! {

/// A platform family that wheels are built for. `All` is a wildcard that is
/// expanded before any job is made.
#[derive(Clone, Copy, Debug, PartialEq, Eq, Structural, PartialOrd, Ord, Hash)]
pub enum Platform {
    /// Every platform that suits the bridge model.
    All,
    /// Linux with glibc (manylinux).
    ManyLinux,
    /// Linux with musl (musllinux).
    Musllinux,
    /// Windows.
    Windows,
    /// macOS.
    Macos,
    /// WebAssembly through Emscripten (Pyodide).
    Emscripten,
}

/// The platforms that `All` stands for when the artifact is a binary.
pub open spec fn default_platforms() -> Seq<Platform> {
    seq![Platform::ManyLinux, Platform::Musllinux, Platform::Windows, Platform::Macos]
}

/// Every concrete platform, in declaration order.
pub open spec fn all_platforms() -> Seq<Platform> {
    default_platforms().push(Platform::Emscripten)
}

/// The name a platform goes by in job names and on the command line.
pub open spec fn platform_name(p: Platform) -> Seq<char> {
    match p {
        Platform::All => "all"@,
        Platform::ManyLinux => "linux"@,
        Platform::Musllinux => "musllinux"@,
        Platform::Windows => "windows"@,
        Platform::Macos => "macos"@,
        Platform::Emscripten => "emscripten"@,
    }
}

impl Platform {
    /// The concrete platforms that `All` expands to for a binary.
    pub fn defaults() -> (r: Vec<Platform>)
        ensures
            r@ == default_platforms(),
    {
        let r = vec![Platform::ManyLinux, Platform::Musllinux, Platform::Windows, Platform::Macos];
        assert(r@ =~= default_platforms());
        r
    }

    /// Every concrete platform.
    pub fn all() -> (r: Vec<Platform>)
        ensures
            r@ == all_platforms(),
    {
        let r = vec![
            Platform::ManyLinux,
            Platform::Musllinux,
            Platform::Windows,
            Platform::Macos,
            Platform::Emscripten,
        ];
        assert(r@ =~= all_platforms());
        r
    }

    /// The platform's name, as used for job names.
    pub fn name(&self) -> (r: &'static str)
        ensures
            r@ == platform_name(*self),
    {
        match self {
            Platform::All => "all",
            Platform::ManyLinux => "linux",
            Platform::Musllinux => "musllinux",
            Platform::Windows => "windows",
            Platform::Macos => "macos",
            Platform::Emscripten => "emscripten",
        }
    }
}

/// The host a job of the matrix runs on.
#[derive(Clone, Copy, Debug, PartialEq, Eq, Structural, Hash)]
pub enum Runner {
    UbuntuLatest,
    WindowsLatest,
    /// The older macOS host, on Intel.
    Macos12,
    /// The newer macOS host, on Apple silicon.
    Macos14,
}

/// The architecture a job of the matrix builds for.
#[derive(Clone, Copy, Debug, PartialEq, Eq, Structural, Hash)]
pub enum Target {
    X86_64,
    X86,
    Aarch64,
    Armv7,
    S390x,
    Ppc64le,
    /// 64-bit x86 as Windows' Python installers name it.
    X64,
    Wasm32Emscripten,
}

/// One row of a job's build matrix.
#[derive(Clone, Copy, Debug, PartialEq, Eq, Structural, Hash)]
pub struct MatrixEntry {
    pub runner: Runner,
    pub target: Target,
}

pub open spec fn runner_label(r: Runner) -> Seq<char> {
    match r {
        Runner::UbuntuLatest => "ubuntu-latest"@,
        Runner::WindowsLatest => "windows-latest"@,
        Runner::Macos12 => "macos-12"@,
        Runner::Macos14 => "macos-14"@,
    }
}

pub open spec fn target_label(t: Target) -> Seq<char> {
    match t {
        Target::X86_64 => "x86_64"@,
        Target::X86 => "x86"@,
        Target::Aarch64 => "aarch64"@,
        Target::Armv7 => "armv7"@,
        Target::S390x => "s390x"@,
        Target::Ppc64le => "ppc64le"@,
        Target::X64 => "x64"@,
        Target::Wasm32Emscripten => "wasm32-unknown-emscripten"@,
    }
}

/// The entries of a matrix whose rows all run on one host.
pub open spec fn on_runner(r: Runner, targets: Seq<Target>) -> Seq<MatrixEntry> {
    targets.map_values(|t: Target| MatrixEntry { runner: r, target: t })
}

/// The fixed build matrix of each platform; the wildcard has none.
pub open spec fn platform_matrix(p: Platform) -> Seq<MatrixEntry> {
    match p {
        Platform::All => seq![],
        Platform::ManyLinux => on_runner(
            Runner::UbuntuLatest,
            seq![Target::X86_64, Target::X86, Target::Aarch64, Target::Armv7, Target::S390x, Target::Ppc64le],
        ),
        Platform::Musllinux => on_runner(
            Runner::UbuntuLatest,
            seq![Target::X86_64, Target::Aarch64, Target::Armv7],
        ),
        Platform::Windows => on_runner(Runner::WindowsLatest, seq![Target::X64, Target::X86]),
        Platform::Macos => seq![
            MatrixEntry { runner: Runner::Macos12, target: Target::X86_64 },
            MatrixEntry { runner: Runner::Macos14, target: Target::Aarch64 },
        ],
        Platform::Emscripten => seq![
            MatrixEntry { runner: Runner::UbuntuLatest, target: Target::Wasm32Emscripten },
        ],
    }
}

impl Runner {
    pub fn label(&self) -> (r: &'static str)
        ensures
            r@ == runner_label(*self),
    {
        match self {
            Runner::UbuntuLatest => "ubuntu-latest",
            Runner::WindowsLatest => "windows-latest",
            Runner::Macos12 => "macos-12",
            Runner::Macos14 => "macos-14",
        }
    }
}

impl Target {
    pub fn label(&self) -> (r: &'static str)
        ensures
            r@ == target_label(*self),
    {
        match self {
            Target::X86_64 => "x86_64",
            Target::X86 => "x86",
            Target::Aarch64 => "aarch64",
            Target::Armv7 => "armv7",
            Target::S390x => "s390x",
            Target::Ppc64le => "ppc64le",
            Target::X64 => "x64",
            Target::Wasm32Emscripten => "wasm32-unknown-emscripten",
        }
    }
}

/// Every row on one host, one per target, in the order given.
fn entries_on(runner: Runner, targets: &[Target]) -> (r: Vec<MatrixEntry>)
    ensures
        r@ == on_runner(runner, targets@),
{
    let mut r: Vec<MatrixEntry> = Vec::new();
    let mut i: usize = 0;
    while i < targets.len()
        invariant
            i <= targets@.len(),
            r@ == on_runner(runner, targets@.take(i as int)),
        decreases targets@.len() - i,
    {
        r.push(MatrixEntry { runner, target: targets[i] });
        i = i + 1;
        assert(on_runner(runner, targets@.take(i as int)) =~= r@);
    }
    assert(targets@.take(i as int) =~= targets@);
    r
}

/// The build matrix of a platform: the hosts and architectures its job runs on.
pub fn matrix(platform: Platform) -> (r: Vec<MatrixEntry>)
    ensures
        r@ == platform_matrix(platform),
{
    match platform {
        Platform::All => Vec::new(),
        Platform::ManyLinux => {
            let t = [Target::X86_64, Target::X86, Target::Aarch64, Target::Armv7, Target::S390x, Target::Ppc64le];
            let r = entries_on(Runner::UbuntuLatest, &t);
            assert(t@ =~= seq![Target::X86_64, Target::X86, Target::Aarch64, Target::Armv7, Target::S390x, Target::Ppc64le]);
            r
        },
        Platform::Musllinux => {
            let t = [Target::X86_64, Target::Aarch64, Target::Armv7];
            let r = entries_on(Runner::UbuntuLatest, &t);
            assert(t@ =~= seq![Target::X86_64, Target::Aarch64, Target::Armv7]);
            r
        },
        Platform::Windows => {
            let t = [Target::X64, Target::X86];
            let r = entries_on(Runner::WindowsLatest, &t);
            assert(t@ =~= seq![Target::X64, Target::X86]);
            r
        },
        Platform::Macos => {
            let r = vec![
                MatrixEntry { runner: Runner::Macos12, target: Target::X86_64 },
                MatrixEntry { runner: Runner::Macos14, target: Target::Aarch64 },
            ];
            assert(r@ =~= platform_matrix(platform));
            r
        },
        Platform::Emscripten => {
            let r = vec![MatrixEntry { runner: Runner::UbuntuLatest, target: Target::Wasm32Emscripten }];
            assert(r@ =~= platform_matrix(platform));
            r
        },
    }
}

} // verus!
