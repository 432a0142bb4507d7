use vstd::prelude::*;

use crate::layout::{
    HostOs, LldbConfig, LocalPath, PathModel, path_join, strings_model,
};
use crate::ctext::{output_text, utf8_lossy};
use crate::registry::{parse_reg_value, spec_parse_reg_value};
use crate::text::{chars_of, string_of, trim, trim_bounds};

verus! {

/// One place where an LLVM installation may be found, in the order `find_lldb` tries them.
pub enum Source {
    /// An environment variable whose value is the prefix.
    EnvPrefix(String),
    /// The `llvm-config` binary named by the `LLVM_CONFIG` environment variable.
    LlvmConfigEnv,
    /// The `InstallDir` value under `HKLM\SOFTWARE\LLVM\LLVM` in the Windows registry.
    Registry,
    /// A fixed directory (Chocolatey's install directory, well-known install paths).
    Fixed(LocalPath),
    /// `%USERPROFILE%\scoop\apps\llvm\current`.
    Scoop,
    /// An `llvm-config` binary looked up in `PATH`.
    LlvmConfigInPath(String),
}

/// The model of a `Source`.
pub enum SourceModel {
    EnvPrefix(Seq<char>),
    LlvmConfigEnv,
    Registry,
    Fixed(PathModel),
    Scoop,
    LlvmConfigInPath(Seq<char>),
}

impl View for Source {
    type V = SourceModel;

    open spec fn view(&self) -> SourceModel {
        match self {
            Source::EnvPrefix(v) => SourceModel::EnvPrefix(v@),
            Source::LlvmConfigEnv => SourceModel::LlvmConfigEnv,
            Source::Registry => SourceModel::Registry,
            Source::Fixed(p) => SourceModel::Fixed(p@),
            Source::Scoop => SourceModel::Scoop,
            Source::LlvmConfigInPath(n) => SourceModel::LlvmConfigInPath(n@),
        }
    }
}

/// The models of the sources of `v`.
pub open spec fn sources_model(v: Seq<Source>) -> Seq<SourceModel> {
    v.map_values(|s: Source| s@)
}

/// A directory given by its root alone.
pub open spec fn fixed(root: Seq<char>) -> SourceModel {
    SourceModel::Fixed((root, Seq::empty()))
}

/// The well-known install directories for `os`.
pub open spec fn known_paths(os: HostOs) -> Seq<SourceModel> {
    match os {
        HostOs::Windows => seq![
            fixed("C:\\lldb-dev"@),
            fixed("C:\\Program Files\\LLVM"@),
            fixed("C:\\LLVM"@),
        ],
        HostOs::MacOs => seq![
            fixed("/opt/homebrew/opt/llvm@19"@),
            fixed("/opt/homebrew/opt/llvm"@),
            fixed("/usr/local/opt/llvm@19"@),
            fixed("/usr/local/opt/llvm"@),
        ],
        HostOs::Linux => seq![
            fixed("/usr/lib/llvm-19"@),
            fixed("/usr/local/lib/llvm-19"@),
            fixed("/usr/lib/llvm"@),
        ],
    }
}

/// The sources `find_lldb` tries, first match wins: `LLDB_SYS_PREFIX`, `LLVM_SYS_PREFIX`,
/// `LLVM_CONFIG`, then on Windows the registry, Chocolatey and Scoop, then the well-known
/// install paths, then `llvm-config-19`, `llvm-config19` and `llvm-config` in `PATH`.
pub open spec fn discovery_sources(os: HostOs) -> Seq<SourceModel> {
    seq![
        SourceModel::EnvPrefix("LLDB_SYS_PREFIX"@),
        SourceModel::EnvPrefix("LLVM_SYS_PREFIX"@),
        SourceModel::LlvmConfigEnv,
    ] + (if os == HostOs::Windows {
        seq![
            SourceModel::Registry,
            fixed("C:\\ProgramData\\chocolatey\\lib\\llvm\\tools\\llvm"@),
            SourceModel::Scoop,
        ]
    } else {
        Seq::empty()
    }) + known_paths(os) + seq![
        SourceModel::LlvmConfigInPath("llvm-config-19"@),
        SourceModel::LlvmConfigInPath("llvm-config19"@),
        SourceModel::LlvmConfigInPath("llvm-config"@),
    ]
}

/// The order of the search on each system, source by source: `LLDB_SYS_PREFIX`,
/// `LLVM_SYS_PREFIX`, `LLVM_CONFIG`; on Windows the registry, Chocolatey's directory and
/// Scoop; the well-known directories (Windows: `C:\lldb-dev`, `C:\Program Files\LLVM`,
/// `C:\LLVM`; macOS: `/opt/homebrew/opt/llvm@19`, `/opt/homebrew/opt/llvm`,
/// `/usr/local/opt/llvm@19`, `/usr/local/opt/llvm`; Linux: `/usr/lib/llvm-19`,
/// `/usr/local/lib/llvm-19`, `/usr/lib/llvm`); then `llvm-config-19`, `llvm-config19` and
/// `llvm-config` in `PATH`.
pub proof fn lemma_discovery_order()
    ensures
        discovery_sources(HostOs::Windows) == seq![
            SourceModel::EnvPrefix("LLDB_SYS_PREFIX"@),
            SourceModel::EnvPrefix("LLVM_SYS_PREFIX"@),
            SourceModel::LlvmConfigEnv,
            SourceModel::Registry,
            SourceModel::Fixed(
                ("C:\\ProgramData\\chocolatey\\lib\\llvm\\tools\\llvm"@, Seq::<Seq<char>>::empty()),
            ),
            SourceModel::Scoop,
            SourceModel::Fixed(("C:\\lldb-dev"@, Seq::<Seq<char>>::empty())),
            SourceModel::Fixed(("C:\\Program Files\\LLVM"@, Seq::<Seq<char>>::empty())),
            SourceModel::Fixed(("C:\\LLVM"@, Seq::<Seq<char>>::empty())),
            SourceModel::LlvmConfigInPath("llvm-config-19"@),
            SourceModel::LlvmConfigInPath("llvm-config19"@),
            SourceModel::LlvmConfigInPath("llvm-config"@),
        ],
        discovery_sources(HostOs::MacOs) == seq![
            SourceModel::EnvPrefix("LLDB_SYS_PREFIX"@),
            SourceModel::EnvPrefix("LLVM_SYS_PREFIX"@),
            SourceModel::LlvmConfigEnv,
            SourceModel::Fixed(("/opt/homebrew/opt/llvm@19"@, Seq::<Seq<char>>::empty())),
            SourceModel::Fixed(("/opt/homebrew/opt/llvm"@, Seq::<Seq<char>>::empty())),
            SourceModel::Fixed(("/usr/local/opt/llvm@19"@, Seq::<Seq<char>>::empty())),
            SourceModel::Fixed(("/usr/local/opt/llvm"@, Seq::<Seq<char>>::empty())),
            SourceModel::LlvmConfigInPath("llvm-config-19"@),
            SourceModel::LlvmConfigInPath("llvm-config19"@),
            SourceModel::LlvmConfigInPath("llvm-config"@),
        ],
        discovery_sources(HostOs::Linux) == seq![
            SourceModel::EnvPrefix("LLDB_SYS_PREFIX"@),
            SourceModel::EnvPrefix("LLVM_SYS_PREFIX"@),
            SourceModel::LlvmConfigEnv,
            SourceModel::Fixed(("/usr/lib/llvm-19"@, Seq::<Seq<char>>::empty())),
            SourceModel::Fixed(("/usr/local/lib/llvm-19"@, Seq::<Seq<char>>::empty())),
            SourceModel::Fixed(("/usr/lib/llvm"@, Seq::<Seq<char>>::empty())),
            SourceModel::LlvmConfigInPath("llvm-config-19"@),
            SourceModel::LlvmConfigInPath("llvm-config19"@),
            SourceModel::LlvmConfigInPath("llvm-config"@),
        ],
{
    assert(discovery_sources(HostOs::Windows) =~= seq![
        SourceModel::EnvPrefix("LLDB_SYS_PREFIX"@),
        SourceModel::EnvPrefix("LLVM_SYS_PREFIX"@),
        SourceModel::LlvmConfigEnv,
        SourceModel::Registry,
        SourceModel::Fixed(
            ("C:\\ProgramData\\chocolatey\\lib\\llvm\\tools\\llvm"@, Seq::<Seq<char>>::empty()),
        ),
        SourceModel::Scoop,
        SourceModel::Fixed(("C:\\lldb-dev"@, Seq::<Seq<char>>::empty())),
        SourceModel::Fixed(("C:\\Program Files\\LLVM"@, Seq::<Seq<char>>::empty())),
        SourceModel::Fixed(("C:\\LLVM"@, Seq::<Seq<char>>::empty())),
        SourceModel::LlvmConfigInPath("llvm-config-19"@),
        SourceModel::LlvmConfigInPath("llvm-config19"@),
        SourceModel::LlvmConfigInPath("llvm-config"@),
    ]);
    assert(discovery_sources(HostOs::MacOs) =~= seq![
        SourceModel::EnvPrefix("LLDB_SYS_PREFIX"@),
        SourceModel::EnvPrefix("LLVM_SYS_PREFIX"@),
        SourceModel::LlvmConfigEnv,
        SourceModel::Fixed(("/opt/homebrew/opt/llvm@19"@, Seq::<Seq<char>>::empty())),
        SourceModel::Fixed(("/opt/homebrew/opt/llvm"@, Seq::<Seq<char>>::empty())),
        SourceModel::Fixed(("/usr/local/opt/llvm@19"@, Seq::<Seq<char>>::empty())),
        SourceModel::Fixed(("/usr/local/opt/llvm"@, Seq::<Seq<char>>::empty())),
        SourceModel::LlvmConfigInPath("llvm-config-19"@),
        SourceModel::LlvmConfigInPath("llvm-config19"@),
        SourceModel::LlvmConfigInPath("llvm-config"@),
    ]);
    assert(discovery_sources(HostOs::Linux) =~= seq![
        SourceModel::EnvPrefix("LLDB_SYS_PREFIX"@),
        SourceModel::EnvPrefix("LLVM_SYS_PREFIX"@),
        SourceModel::LlvmConfigEnv,
        SourceModel::Fixed(("/usr/lib/llvm-19"@, Seq::<Seq<char>>::empty())),
        SourceModel::Fixed(("/usr/local/lib/llvm-19"@, Seq::<Seq<char>>::empty())),
        SourceModel::Fixed(("/usr/lib/llvm"@, Seq::<Seq<char>>::empty())),
        SourceModel::LlvmConfigInPath("llvm-config-19"@),
        SourceModel::LlvmConfigInPath("llvm-config19"@),
        SourceModel::LlvmConfigInPath("llvm-config"@),
    ]);
}

/// The message of the error when no source gives a usable installation.
pub open spec fn not_found_message() -> Seq<char> {
    "LLDB not found. Set LLDB_SYS_PREFIX to your LLVM installation directory (e.g. C:\\Program Files\\LLVM on Windows, /usr/lib/llvm-19 on Linux, /opt/homebrew/opt/llvm@19 on macOS)."@
}

/// Appends the fixed directory `root` to `v`.
fn push_fixed(v: &mut Vec<Source>, root: &str)
    ensures
        sources_model(final(v)@) == sources_model(old(v)@).push(fixed(root@)),
{
    let p = LocalPath::new(root);
    v.push(Source::Fixed(p));
    assert(sources_model(final(v)@) =~= sources_model(old(v)@).push(fixed(root@)));
}

/// Appends `s` to `v`.
fn push_source(v: &mut Vec<Source>, s: Source)
    ensures
        sources_model(final(v)@) == sources_model(old(v)@).push(s@),
{
    v.push(s);
    assert(sources_model(final(v)@) =~= sources_model(old(v)@).push(s@));
}

/// The sources to try on `os`, in order.
pub fn sources_for(os: HostOs) -> (v: Vec<Source>)
    ensures
        sources_model(v@) == discovery_sources(os),
{
    let mut v: Vec<Source> = Vec::new();
    push_source(&mut v, Source::EnvPrefix(String::from_str("LLDB_SYS_PREFIX")));
    push_source(&mut v, Source::EnvPrefix(String::from_str("LLVM_SYS_PREFIX")));
    push_source(&mut v, Source::LlvmConfigEnv);
    if os == HostOs::Windows {
        push_source(&mut v, Source::Registry);
        push_fixed(&mut v, "C:\\ProgramData\\chocolatey\\lib\\llvm\\tools\\llvm");
        push_source(&mut v, Source::Scoop);
    }
    let ghost with_windows = sources_model(v@);
    match os {
        HostOs::Windows => {
            push_fixed(&mut v, "C:\\lldb-dev");
            push_fixed(&mut v, "C:\\Program Files\\LLVM");
            push_fixed(&mut v, "C:\\LLVM");
        },
        HostOs::MacOs => {
            push_fixed(&mut v, "/opt/homebrew/opt/llvm@19");
            push_fixed(&mut v, "/opt/homebrew/opt/llvm");
            push_fixed(&mut v, "/usr/local/opt/llvm@19");
            push_fixed(&mut v, "/usr/local/opt/llvm");
        },
        HostOs::Linux => {
            push_fixed(&mut v, "/usr/lib/llvm-19");
            push_fixed(&mut v, "/usr/local/lib/llvm-19");
            push_fixed(&mut v, "/usr/lib/llvm");
        },
    }
    let ghost with_known = sources_model(v@);
    assert(with_known =~= with_windows + known_paths(os));
    push_source(&mut v, Source::LlvmConfigInPath(String::from_str("llvm-config-19")));
    push_source(&mut v, Source::LlvmConfigInPath(String::from_str("llvm-config19")));
    push_source(&mut v, Source::LlvmConfigInPath(String::from_str("llvm-config")));
    assert(sources_model(v@) =~= discovery_sources(os));
    v
}

/// What the search waits for.
#[derive(Debug, Clone, Copy, PartialEq, Eq, Structural)]
pub enum DiscoveryStage {
    /// The value of an environment variable that names the prefix.
    PrefixVariable,
    /// The value of `LLVM_CONFIG`.
    ConfigVariable,
    /// The value of `USERPROFILE`.
    ProfileVariable,
    /// The output of `reg query`.
    RegistryOutput,
    /// The output of `llvm-config --prefix`.
    ConfigOutput,
    /// The result of checking a prefix (see `PrefixProbe`).
    PrefixCheck,
}

/// What the search needs from its environment to go on.
pub enum Request {
    /// The value of this environment variable (`None` if it is unset or not Unicode).
    ReadEnv(String),
    /// Run this program with these arguments and report its exit status and standard output.
    Run(String, Vec<String>),
    /// Whether this prefix holds a usable LLDB, and its configuration if so.
    CheckPrefix(LocalPath),
}

/// What a finished command reported.
pub struct CommandOutput {
    /// The command exited successfully.
    pub success: bool,
    /// Its standard output, decoded as UTF-8 with invalid sequences replaced.
    pub stdout: String,
}

impl CommandOutput {
    /// What a command reported: whether it succeeded, and its standard output bytes, decoded
    /// as UTF-8 with invalid sequences replaced.
    pub fn from_bytes(success: bool, stdout: &[u8]) -> (o: CommandOutput)
        ensures
            o.success == success,
            o.stdout@ == utf8_lossy(stdout@),
    {
        CommandOutput { success, stdout: output_text(stdout) }
    }
}

/// The search for an LLDB installation through the sources of `sources_for`.
pub struct Discovery {
    pub os: HostOs,
    pub sources: Vec<Source>,
    /// The source being tried.
    pub index: usize,
    pub stage: DiscoveryStage,
}

/// The result of one step of the search.
pub enum DiscoveryStep {
    /// Answer the request, then continue with the search.
    Ask(Discovery, Request),
    /// A source gave a usable installation.
    Found(LldbConfig),
    /// No source did; the error message.
    NotFound(String),
}

impl Discovery {
    /// The search is at one of its sources.
    pub open spec fn wf(&self) -> bool {
        self.index < self.sources@.len()
    }
}

/// `req` asks whether the prefix `p` holds a usable LLDB.
pub open spec fn asks_check(req: Request, p: PathModel) -> bool {
    req matches Request::CheckPrefix(q) && q@ == p
}

/// `req` runs `program` with `args`.
pub open spec fn asks_run(req: Request, program: Seq<char>, args: Seq<Seq<char>>) -> bool {
    req matches Request::Run(prog, a) && prog@ == program && strings_model(a@) == args
}

/// `req` reads the environment variable `name`.
pub open spec fn asks_env(req: Request, name: Seq<char>) -> bool {
    req matches Request::ReadEnv(n) && n@ == name
}

/// The first request made for `src`, and the stage that waits for its answer.
pub open spec fn opens(src: SourceModel, stage: DiscoveryStage, req: Request) -> bool {
    match src {
        SourceModel::EnvPrefix(v) => stage == DiscoveryStage::PrefixVariable && asks_env(req, v),
        SourceModel::LlvmConfigEnv => stage == DiscoveryStage::ConfigVariable && asks_env(
            req,
            "LLVM_CONFIG"@,
        ),
        SourceModel::Registry => stage == DiscoveryStage::RegistryOutput && asks_run(
            req,
            "reg"@,
            seq!["query"@, "HKLM\\SOFTWARE\\LLVM\\LLVM"@, "/v"@, "InstallDir"@],
        ),
        SourceModel::Fixed(p) => stage == DiscoveryStage::PrefixCheck && asks_check(req, p),
        SourceModel::Scoop => stage == DiscoveryStage::ProfileVariable && asks_env(
            req,
            "USERPROFILE"@,
        ),
        SourceModel::LlvmConfigInPath(n) => stage == DiscoveryStage::ConfigOutput && asks_run(
            req,
            n,
            seq!["--prefix"@],
        ),
    }
}

/// `r` goes on with the same source of `d`, waiting at `stage`.
pub open spec fn stays(r: DiscoveryStep, d: Discovery, stage: DiscoveryStage) -> bool {
    &&& r is Ask
    &&& r->Ask_0.os == d.os
    &&& sources_model(r->Ask_0.sources@) == sources_model(d.sources@)
    &&& r->Ask_0.sources@.len() == d.sources@.len()
    &&& r->Ask_0.index == d.index
    &&& r->Ask_0.wf()
    &&& r->Ask_0.stage == stage
}

/// `r` is what follows when the current source of `d` gave nothing: the next source is
/// opened, or, after the last one, the search ends with the not-found message.
pub open spec fn moves_on(r: DiscoveryStep, d: Discovery) -> bool {
    if d.index + 1 >= d.sources@.len() {
        r matches DiscoveryStep::NotFound(m) && m@ == not_found_message()
    } else {
        &&& r is Ask
        &&& r->Ask_0.os == d.os
        &&& sources_model(r->Ask_0.sources@) == sources_model(d.sources@)
        &&& r->Ask_0.sources@.len() == d.sources@.len()
        &&& r->Ask_0.index == d.index + 1
        &&& r->Ask_0.wf()
        &&& opens(sources_model(d.sources@)[d.index + 1], r->Ask_0.stage, r->Ask_1)
    }
}

/// Giving up the source before a fixed directory asks next to check exactly that directory,
/// so no directory of the list is skipped or replaced by another.
pub proof fn lemma_moves_on_to_fixed(r: DiscoveryStep, d: Discovery, p: PathModel)
    requires
        d.wf(),
        d.index + 1 < d.sources@.len(),
        sources_model(d.sources@)[d.index + 1] == SourceModel::Fixed(p),
        moves_on(r, d),
    ensures
        r is Ask,
        r->Ask_0.index == d.index + 1,
        r->Ask_0.stage == DiscoveryStage::PrefixCheck,
        r->Ask_1 matches Request::CheckPrefix(q) && q@ == p,
{
}

/// The prefix `%USERPROFILE%\scoop\apps\llvm\current` for the profile directory `home`.
pub open spec fn scoop_prefix(home: Seq<char>) -> PathModel {
    path_join((home, Seq::empty()), seq!["scoop"@, "apps"@, "llvm"@, "current"@])
}

/// The arguments of `program --prefix`.
fn prefix_args() -> (r: Vec<String>)
    ensures
        strings_model(r@) == seq!["--prefix"@],
{
    let r = vec![String::from_str("--prefix")];
    assert(strings_model(r@) =~= seq!["--prefix"@]);
    r
}

/// `text` with white space trimmed from both ends.
fn trimmed(text: &str) -> (r: String)
    ensures
        r@ == trim(text@),
{
    let v = chars_of(text);
    let (a, b) = trim_bounds(&v, 0, v.len());
    assert(v@.subrange(0, v@.len() as int) =~= v@);
    string_of(&v, a, b)
}

impl Discovery {
    /// Opens the current source: its first request.
    fn open_source(self) -> (r: DiscoveryStep)
        requires
            self.wf(),
        ensures
            r is Ask,
            r->Ask_0.os == self.os,
            sources_model(r->Ask_0.sources@) == sources_model(self.sources@),
            r->Ask_0.sources@.len() == self.sources@.len(),
            r->Ask_0.index == self.index,
            opens(sources_model(self.sources@)[self.index as int], r->Ask_0.stage, r->Ask_1),
    {
        let (stage, req) = match &self.sources[self.index] {
            Source::EnvPrefix(v) => (DiscoveryStage::PrefixVariable, Request::ReadEnv(v.clone())),
            Source::LlvmConfigEnv => (
                DiscoveryStage::ConfigVariable,
                Request::ReadEnv(String::from_str("LLVM_CONFIG")),
            ),
            Source::Registry => {
                let args = vec![
                    String::from_str("query"),
                    String::from_str("HKLM\\SOFTWARE\\LLVM\\LLVM"),
                    String::from_str("/v"),
                    String::from_str("InstallDir"),
                ];
                assert(strings_model(args@) =~= seq![
                    "query"@,
                    "HKLM\\SOFTWARE\\LLVM\\LLVM"@,
                    "/v"@,
                    "InstallDir"@,
                ]);
                (DiscoveryStage::RegistryOutput, Request::Run(String::from_str("reg"), args))
            },
            Source::Fixed(p) => (DiscoveryStage::PrefixCheck, Request::CheckPrefix(p.duplicate())),
            Source::Scoop => (
                DiscoveryStage::ProfileVariable,
                Request::ReadEnv(String::from_str("USERPROFILE")),
            ),
            Source::LlvmConfigInPath(n) => (
                DiscoveryStage::ConfigOutput,
                Request::Run(n.clone(), prefix_args()),
            ),
        };
        DiscoveryStep::Ask(
            Discovery { os: self.os, sources: self.sources, index: self.index, stage },
            req,
        )
    }

    /// Gives up the current source: opens the next one, or ends the search unsuccessfully.
    fn next_source(self) -> (r: DiscoveryStep)
        requires
            self.wf(),
        ensures
            moves_on(r, self),
    {
        if self.index >= self.sources.len() - 1 {
            return DiscoveryStep::NotFound(
                String::from_str(
                    "LLDB not found. Set LLDB_SYS_PREFIX to your LLVM installation directory (e.g. C:\\Program Files\\LLVM on Windows, /usr/lib/llvm-19 on Linux, /opt/homebrew/opt/llvm@19 on macOS).",
                ),
            );
        }
        let next = Discovery {
            os: self.os,
            sources: self.sources,
            index: self.index + 1,
            stage: self.stage,
        };
        next.open_source()
    }

    /// Starts the search on `os` with its first source, `LLDB_SYS_PREFIX`.
    pub fn start(os: HostOs) -> (r: DiscoveryStep)
        ensures
            r is Ask,
            r->Ask_0.os == os,
            sources_model(r->Ask_0.sources@) == discovery_sources(os),
            r->Ask_0.sources@.len() == discovery_sources(os).len(),
            r->Ask_0.index == 0,
            r->Ask_0.wf(),
            opens(discovery_sources(os)[0], r->Ask_0.stage, r->Ask_1),
    {
        let sources = sources_for(os);
        assert(sources_model(sources@).len() == sources@.len());
        let d = Discovery { os, sources, index: 0, stage: DiscoveryStage::PrefixVariable };
        d.open_source()
    }

    /// Takes the value of the environment variable asked for.
    ///
    /// A prefix variable names the prefix to check; `LLVM_CONFIG` names the binary to run with
    /// `--prefix`; `USERPROFILE` gives the prefix `scoop\apps\llvm\current` under it. An unset
    /// variable moves on to the next source.
    pub fn on_env(self, value: Option<String>) -> (r: DiscoveryStep)
        requires
            self.wf(),
            self.stage == DiscoveryStage::PrefixVariable || self.stage
                == DiscoveryStage::ConfigVariable || self.stage == DiscoveryStage::ProfileVariable,
        ensures
            value is None ==> moves_on(r, self),
            self.stage == DiscoveryStage::PrefixVariable ==> (value matches Some(v) ==> stays(
                r,
                self,
                DiscoveryStage::PrefixCheck,
            ) && asks_check(r->Ask_1, (v@, Seq::empty()))),
            self.stage == DiscoveryStage::ConfigVariable ==> (value matches Some(v) ==> stays(
                r,
                self,
                DiscoveryStage::ConfigOutput,
            ) && asks_run(r->Ask_1, v@, seq!["--prefix"@])),
            self.stage == DiscoveryStage::ProfileVariable ==> (value matches Some(v) ==> stays(
                r,
                self,
                DiscoveryStage::PrefixCheck,
            ) && asks_check(r->Ask_1, scoop_prefix(v@))),
    {
        match value {
            None => self.next_source(),
            Some(v) => {
                let Discovery { os, sources, index, stage } = self;
                match stage {
                    DiscoveryStage::PrefixVariable => {
                        let p = LocalPath::new(v.as_str());
                        DiscoveryStep::Ask(
                            Discovery { os, sources, index, stage: DiscoveryStage::PrefixCheck },
                            Request::CheckPrefix(p),
                        )
                    },
                    DiscoveryStage::ConfigVariable => DiscoveryStep::Ask(
                        Discovery { os, sources, index, stage: DiscoveryStage::ConfigOutput },
                        Request::Run(v, prefix_args()),
                    ),
                    _ => {
                        let p = LocalPath::new(v.as_str()).join("scoop").join("apps").join(
                            "llvm",
                        ).join("current");
                        assert(p@ =~= scoop_prefix(v@));
                        DiscoveryStep::Ask(
                            Discovery { os, sources, index, stage: DiscoveryStage::PrefixCheck },
                            Request::CheckPrefix(p),
                        )
                    },
                }
            },
        }
    }

    /// Takes what the command asked for reported (`None` if it could not be started).
    ///
    /// A failed or unstartable command moves on to the next source. The output of
    /// `llvm-config --prefix`, trimmed, is the prefix to check; the output of `reg query` gives
    /// the prefix through `parse_reg_value`, and moves on when it names none.
    pub fn on_output(self, output: Option<CommandOutput>) -> (r: DiscoveryStep)
        requires
            self.wf(),
            self.stage == DiscoveryStage::RegistryOutput || self.stage
                == DiscoveryStage::ConfigOutput,
        ensures
            output is None ==> moves_on(r, self),
            output matches Some(o) && !o.success ==> moves_on(r, self),
            self.stage == DiscoveryStage::ConfigOutput ==> (output matches Some(o) ==> (o.success
                ==> stays(r, self, DiscoveryStage::PrefixCheck) && asks_check(
                r->Ask_1,
                (trim(o.stdout@), Seq::empty()),
            ))),
            self.stage == DiscoveryStage::RegistryOutput ==> (output matches Some(o) ==> (o.success
                ==> match spec_parse_reg_value(o.stdout@) {
                Some(p) => stays(r, self, DiscoveryStage::PrefixCheck) && asks_check(
                    r->Ask_1,
                    (p, Seq::empty()),
                ),
                None => moves_on(r, self),
            })),
    {
        match output {
            None => self.next_source(),
            Some(o) => {
                if !o.success {
                    return self.next_source();
                }
                let found = match self.stage {
                    DiscoveryStage::ConfigOutput => Some(trimmed(o.stdout.as_str())),
                    _ => parse_reg_value(o.stdout.as_str()),
                };
                match found {
                    None => self.next_source(),
                    Some(root) => {
                        let p = LocalPath::new(root.as_str());
                        DiscoveryStep::Ask(
                            Discovery {
                                os: self.os,
                                sources: self.sources,
                                index: self.index,
                                stage: DiscoveryStage::PrefixCheck,
                            },
                            Request::CheckPrefix(p),
                        )
                    },
                }
            },
        }
    }

    /// Takes the result of checking a prefix: a configuration ends the search with it (first
    /// match wins); none moves on to the next source.
    pub fn on_prefix_checked(self, config: Option<LldbConfig>) -> (r: DiscoveryStep)
        requires
            self.wf(),
            self.stage == DiscoveryStage::PrefixCheck,
        ensures
            config matches Some(c) ==> r == DiscoveryStep::Found(c),
            config is None ==> moves_on(r, self),
    {
        match config {
            Some(c) => DiscoveryStep::Found(c),
            None => self.next_source(),
        }
    }
}

} // verus!
