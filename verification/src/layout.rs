use vstd::prelude::*;

use crate::ctext::{output_text, utf8_lossy};
use crate::version::{spec_version_word, version_from_output};

verus! {

/// The operating system that a build targets; it decides file names and where LLVM is looked
/// for.
#[derive(Debug, Clone, Copy, PartialEq, Eq, Structural)]
pub enum HostOs {
    Windows,
    MacOs,
    /// Every other target (Linux and the rest of the Unix family).
    Linux,
}

/// A path given as a root followed by the components joined onto it in order, as
/// `Path::join` would join them.
pub struct LocalPath {
    pub root: String,
    pub parts: Vec<String>,
}

/// The model of a path: its root and its components.
pub type PathModel = (Seq<char>, Seq<Seq<char>>);

impl View for LocalPath {
    type V = PathModel;

    open spec fn view(&self) -> PathModel {
        (self.root@, strings_model(self.parts@))
    }
}

/// The characters of each string of `v`.
pub open spec fn strings_model(v: Seq<String>) -> Seq<Seq<char>> {
    v.map_values(|p: String| p@)
}

/// `p` with the components `more` joined onto it.
pub open spec fn path_join(p: PathModel, more: Seq<Seq<char>>) -> PathModel {
    (p.0, p.1 + more)
}

impl LocalPath {
    /// The path `root`, with no components joined.
    pub fn new(root: &str) -> (p: LocalPath)
        ensures
            p@ == (root@, Seq::<Seq<char>>::empty()),
    {
        let p = LocalPath { root: String::from_str(root), parts: Vec::new() };
        assert(p@.1 =~= Seq::<Seq<char>>::empty());
        p
    }

    /// A copy of this path.
    pub fn duplicate(&self) -> (p: LocalPath)
        ensures
            p@ == self@,
    {
        LocalPath { root: self.root.clone(), parts: copy_strings(&self.parts) }
    }

    /// This path with `part` joined onto it.
    pub fn join(&self, part: &str) -> (p: LocalPath)
        ensures
            p@ == path_join(self@, seq![part@]),
    {
        let mut p = self.duplicate();
        let ghost before = p.parts@;
        p.parts.push(String::from_str(part));
        assert(p@.1 =~= self@.1 + seq![part@]) by {
            assert(p.parts@ == before.push(p.parts@.last()));
        }
        p
    }
}

/// A copy of `v`.
pub fn copy_strings(v: &Vec<String>) -> (r: Vec<String>)
    ensures
        strings_model(r@) == strings_model(v@),
{
    let mut r: Vec<String> = Vec::new();
    let mut i: usize = 0;
    while i < v.len()
        invariant
            i <= v@.len(),
            r@.len() == i,
            strings_model(r@) == strings_model(v@).take(i as int),
        decreases v@.len() - i,
    {
        let ghost before = r@;
        r.push(v[i].clone());
        i = i + 1;
        assert forall|k: int| 0 <= k < i implies strings_model(r@)[k] == strings_model(v@)[k] by {
            if k < i - 1 {
                assert(strings_model(before)[k] == strings_model(v@).take(i - 1)[k]);
            }
        }
        assert(strings_model(r@) =~= strings_model(v@).take(i as int));
    }
    assert(strings_model(v@).take(v@.len() as int) =~= strings_model(v@));
    r
}

/// A usable LLDB installation: where its headers, library and binaries are, the name to link
/// it by, and its version.
pub struct LldbConfig {
    /// Root prefix (e.g. `C:\Program Files\LLVM` or `/usr/lib/llvm-19`).
    pub prefix: LocalPath,
    /// Directory of the LLDB/LLVM headers (contains `lldb/API/LLDB.h`).
    pub include_dir: LocalPath,
    /// Directory of the import or shared library.
    pub lib_dir: LocalPath,
    /// Directory of the `lldb` binary.
    pub bin_dir: LocalPath,
    /// Library name to link (`liblldb` on Windows, `lldb` or `lldb-19` elsewhere).
    pub lib_name: String,
    /// LLDB version, or `unknown`.
    pub version: String,
}

pub open spec fn include_dir_of(prefix: PathModel) -> PathModel {
    path_join(prefix, seq!["include"@])
}

pub open spec fn lib_dir_of(prefix: PathModel) -> PathModel {
    path_join(prefix, seq!["lib"@])
}

pub open spec fn bin_dir_of(prefix: PathModel) -> PathModel {
    path_join(prefix, seq!["bin"@])
}

/// The LLDB API header that must exist under the prefix.
pub open spec fn header_of(prefix: PathModel) -> PathModel {
    path_join(include_dir_of(prefix), seq!["lldb"@, "API"@, "LLDB.h"@])
}

/// The versioned shared library looked for first on Linux.
pub open spec fn versioned_library_of(prefix: PathModel) -> PathModel {
    path_join(lib_dir_of(prefix), seq!["liblldb-19.so"@])
}

/// The library file for `os` when no versioned one is used.
pub open spec fn library_of(prefix: PathModel, os: HostOs) -> PathModel {
    path_join(
        lib_dir_of(prefix),
        seq![
            match os {
                HostOs::Windows => "liblldb.lib"@,
                HostOs::MacOs => "liblldb.dylib"@,
                HostOs::Linux => "liblldb.so"@,
            },
        ],
    )
}

/// The link name for `os` when no versioned library is used.
pub open spec fn library_name_of(os: HostOs) -> Seq<char> {
    match os {
        HostOs::Windows => "liblldb"@,
        _ => "lldb"@,
    }
}

/// The `lldb` binary whose `--version` output gives the version.
pub open spec fn lldb_binary_of(prefix: PathModel, os: HostOs) -> PathModel {
    path_join(
        bin_dir_of(prefix),
        seq![
            match os {
                HostOs::Windows => "lldb.exe"@,
                _ => "lldb"@,
            },
        ],
    )
}

/// The files looked for under a prefix, component by component: the header
/// `include/lldb/API/LLDB.h`; the library `lib/liblldb.lib` (Windows), `lib/liblldb.dylib`
/// (macOS) or `lib/liblldb.so` (Linux), linked as `liblldb` on Windows and `lldb` elsewhere;
/// the versioned `lib/liblldb-19.so`; and the binary run for the version, `bin/lldb.exe` on
/// Windows and `bin/lldb` on every other system.
pub proof fn lemma_prefix_layout(prefix: PathModel)
    ensures
        header_of(prefix) == (prefix.0, prefix.1 + seq!["include"@, "lldb"@, "API"@, "LLDB.h"@]),
        versioned_library_of(prefix) == (prefix.0, prefix.1 + seq!["lib"@, "liblldb-19.so"@]),
        library_of(prefix, HostOs::Windows) == (prefix.0, prefix.1 + seq!["lib"@, "liblldb.lib"@]),
        library_of(prefix, HostOs::MacOs) == (prefix.0, prefix.1 + seq![
            "lib"@,
            "liblldb.dylib"@,
        ]),
        library_of(prefix, HostOs::Linux) == (prefix.0, prefix.1 + seq!["lib"@, "liblldb.so"@]),
        library_name_of(HostOs::Windows) == "liblldb"@,
        library_name_of(HostOs::MacOs) == "lldb"@,
        library_name_of(HostOs::Linux) == "lldb"@,
        lldb_binary_of(prefix, HostOs::Windows) == (prefix.0, prefix.1 + seq!["bin"@, "lldb.exe"@]),
        lldb_binary_of(prefix, HostOs::MacOs) == (prefix.0, prefix.1 + seq!["bin"@, "lldb"@]),
        lldb_binary_of(prefix, HostOs::Linux) == (prefix.0, prefix.1 + seq!["bin"@, "lldb"@]),
{
    assert(header_of(prefix).1 =~= prefix.1 + seq!["include"@, "lldb"@, "API"@, "LLDB.h"@]);
    assert(versioned_library_of(prefix).1 =~= prefix.1 + seq!["lib"@, "liblldb-19.so"@]);
    assert(library_of(prefix, HostOs::Windows).1 =~= prefix.1 + seq!["lib"@, "liblldb.lib"@]);
    assert(library_of(prefix, HostOs::MacOs).1 =~= prefix.1 + seq!["lib"@, "liblldb.dylib"@]);
    assert(library_of(prefix, HostOs::Linux).1 =~= prefix.1 + seq!["lib"@, "liblldb.so"@]);
    assert(lldb_binary_of(prefix, HostOs::Windows).1 =~= prefix.1 + seq!["bin"@, "lldb.exe"@]);
    assert(lldb_binary_of(prefix, HostOs::MacOs).1 =~= prefix.1 + seq!["bin"@, "lldb"@]);
    assert(lldb_binary_of(prefix, HostOs::Linux).1 =~= prefix.1 + seq!["bin"@, "lldb"@]);
}

/// The version recorded from `lldb --version` output (`None` when it could not be run).
pub open spec fn version_of_output(output: Option<Seq<char>>) -> Seq<char> {
    match output {
        Some(text) => match spec_version_word(text) {
            Some(w) => w,
            None => "unknown"@,
        },
        None => "unknown"@,
    }
}

/// The version recorded is the first word of the output that begins with an ASCII digit, and
/// the text `unknown` when `lldb` could not be run or printed no such word.
pub proof fn lemma_version_of_output(output: Option<Seq<char>>)
    ensures
        output is None ==> version_of_output(output) == "unknown"@,
        output matches Some(t) ==> (spec_version_word(t) is None ==> version_of_output(output)
            == "unknown"@),
        output matches Some(t) ==> (spec_version_word(t) matches Some(w) ==> version_of_output(
            output,
        ) == w),
{
}

/// The next check while deciding whether a prefix holds a usable LLDB.
#[derive(Debug, Clone, Copy, PartialEq, Eq, Structural)]
pub enum PrefixStage {
    /// Does the LLDB API header exist?
    Header,
    /// Does the versioned library (`liblldb-19.so`, Linux only) exist?
    VersionedLibrary,
    /// Does the chosen library file exist?
    Library,
    /// What does `lldb --version` print?
    Version,
}

/// What a check of a prefix needs to learn from the file system or a process.
pub enum PrefixQuery {
    /// Whether this path exists.
    PathExists(LocalPath),
    /// The standard output of this binary run with `--version` (`None` if it cannot be run).
    LldbVersion(LocalPath),
}

/// The state of the check of one candidate prefix.
pub struct PrefixProbe {
    pub os: HostOs,
    pub prefix: LocalPath,
    pub stage: PrefixStage,
    /// The library name chosen so far (meaningful from `Library` on).
    pub lib_name: String,
    /// The library file chosen so far (meaningful from `Library` on).
    pub lib_file: LocalPath,
}

/// The result of one step of the check of a prefix.
pub enum PrefixStep {
    /// Answer the query, then continue with the probe.
    Ask(PrefixProbe, PrefixQuery),
    /// The check is over: the configuration, or `None` if the prefix holds no usable LLDB.
    Done(Option<LldbConfig>),
}

/// `r` goes on checking the prefix of `from` at `stage`.
pub open spec fn goes_on(r: PrefixStep, from: PrefixProbe, stage: PrefixStage) -> bool {
    &&& r is Ask
    &&& r->Ask_0.os == from.os
    &&& r->Ask_0.prefix@ == from.prefix@
    &&& r->Ask_0.stage == stage
}

/// `r` goes on with the library `name` in `file`.
pub open spec fn chose(r: PrefixStep, name: Seq<char>, file: PathModel) -> bool {
    &&& r is Ask
    &&& r->Ask_0.lib_name@ == name
    &&& r->Ask_0.lib_file@ == file
}

/// `r` asks whether `path` exists.
pub open spec fn asks_exists(r: PrefixStep, path: PathModel) -> bool {
    &&& r is Ask
    &&& r->Ask_1 matches PrefixQuery::PathExists(f)
    &&& f@ == path
}

impl PrefixProbe {
    /// Starts checking `prefix`: the first question is whether the LLDB API header exists.
    pub fn new(prefix: LocalPath, os: HostOs) -> (r: (PrefixProbe, PrefixQuery))
        ensures
            r.0.os == os,
            r.0.prefix@ == prefix@,
            r.0.stage == PrefixStage::Header,
            r.1 matches PrefixQuery::PathExists(p) && p@ == header_of(prefix@),
    {
        let header = prefix.join("include").join("lldb").join("API").join("LLDB.h");
        assert(header@ =~= header_of(prefix@));
        let lib_file = LocalPath::new("");
        (
            PrefixProbe {
                os,
                prefix,
                stage: PrefixStage::Header,
                lib_name: String::new(),
                lib_file,
            },
            PrefixQuery::PathExists(header),
        )
    }

    /// Takes the answer to a `PathExists` query.
    ///
    /// A missing header or library file ends the check with `None`. On Linux the versioned
    /// `liblldb-19.so` (linked as `lldb-19`) is preferred when it exists; otherwise the
    /// library is `liblldb.lib` (Windows, `liblldb`), `liblldb.dylib` (macOS, `lldb`) or
    /// `liblldb.so` (`lldb`). Once the library file is known to exist, the version is asked.
    pub fn on_exists(self, exists: bool) -> (r: PrefixStep)
        requires
            self.stage != PrefixStage::Version,
        ensures
            self.stage == PrefixStage::Header && !exists ==> r matches PrefixStep::Done(None),
            self.stage == PrefixStage::Header && exists && self.os == HostOs::Linux ==> {
                &&& goes_on(r, self, PrefixStage::VersionedLibrary)
                &&& asks_exists(r, versioned_library_of(self.prefix@))
            },
            self.stage == PrefixStage::Header && exists && self.os != HostOs::Linux ==> {
                &&& goes_on(r, self, PrefixStage::Library)
                &&& chose(r, library_name_of(self.os), library_of(self.prefix@, self.os))
                &&& asks_exists(r, library_of(self.prefix@, self.os))
            },
            self.stage == PrefixStage::VersionedLibrary && exists ==> {
                &&& goes_on(r, self, PrefixStage::Library)
                &&& chose(r, "lldb-19"@, versioned_library_of(self.prefix@))
                &&& asks_exists(r, versioned_library_of(self.prefix@))
            },
            self.stage == PrefixStage::VersionedLibrary && !exists ==> {
                &&& goes_on(r, self, PrefixStage::Library)
                &&& chose(r, library_name_of(self.os), library_of(self.prefix@, self.os))
                &&& asks_exists(r, library_of(self.prefix@, self.os))
            },
            self.stage == PrefixStage::Library && !exists ==> r matches PrefixStep::Done(None),
            self.stage == PrefixStage::Library && exists ==> {
                &&& goes_on(r, self, PrefixStage::Version)
                &&& chose(r, self.lib_name@, self.lib_file@)
                &&& r->Ask_1 matches PrefixQuery::LldbVersion(b)
                &&& b@ == lldb_binary_of(self.prefix@, self.os)
                &&& b@ == (self.prefix@.0, self.prefix@.1 + seq![
                    "bin"@,
                    if self.os == HostOs::Windows { "lldb.exe"@ } else { "lldb"@ },
                ])
            },
    {
        let PrefixProbe { os, prefix, stage, lib_name, lib_file } = self;
        match stage {
            PrefixStage::Header => {
                if !exists {
                    return PrefixStep::Done(None);
                }
                let lib_dir = prefix.join("lib");
                match os {
                    HostOs::Linux => {
                        let versioned = lib_dir.join("liblldb-19.so");
                        assert(versioned@ =~= versioned_library_of(prefix@));
                        PrefixStep::Ask(
                            PrefixProbe {
                                os,
                                prefix,
                                stage: PrefixStage::VersionedLibrary,
                                lib_name,
                                lib_file,
                            },
                            PrefixQuery::PathExists(versioned),
                        )
                    },
                    _ => {
                        let (name, file) = Self::plain_library(&prefix, os);
                        let query = PrefixQuery::PathExists(file.duplicate());
                        PrefixStep::Ask(
                            PrefixProbe {
                                os,
                                prefix,
                                stage: PrefixStage::Library,
                                lib_name: name,
                                lib_file: file,
                            },
                            query,
                        )
                    },
                }
            },
            PrefixStage::VersionedLibrary => {
                let (name, file) = if exists {
                    let versioned = prefix.join("lib").join("liblldb-19.so");
                    assert(versioned@ =~= versioned_library_of(prefix@));
                    (String::from_str("lldb-19"), versioned)
                } else {
                    Self::plain_library(&prefix, os)
                };
                let query = PrefixQuery::PathExists(file.duplicate());
                PrefixStep::Ask(
                    PrefixProbe { os, prefix, stage: PrefixStage::Library, lib_name: name, lib_file: file },
                    query,
                )
            },
            _ => {
                if !exists {
                    return PrefixStep::Done(None);
                }
                let binary = match os {
                    HostOs::Windows => prefix.join("bin").join("lldb.exe"),
                    _ => prefix.join("bin").join("lldb"),
                };
                assert(binary@ =~= lldb_binary_of(prefix@, os));
                proof {
                    lemma_prefix_layout(prefix@);
                }
                PrefixStep::Ask(
                    PrefixProbe { os, prefix, stage: PrefixStage::Version, lib_name, lib_file },
                    PrefixQuery::LldbVersion(binary),
                )
            },
        }
    }

    /// The library name and file for `os` when no versioned library is used.
    fn plain_library(prefix: &LocalPath, os: HostOs) -> (r: (String, LocalPath))
        ensures
            r.0@ == library_name_of(os),
            r.1@ == library_of(prefix@, os),
    {
        let lib_dir = prefix.join("lib");
        let r = match os {
            HostOs::Windows => (String::from_str("liblldb"), lib_dir.join("liblldb.lib")),
            HostOs::MacOs => (String::from_str("lldb"), lib_dir.join("liblldb.dylib")),
            HostOs::Linux => (String::from_str("lldb"), lib_dir.join("liblldb.so")),
        };
        assert(r.1@ =~= library_of(prefix@, os));
        r
    }

    /// Takes the standard output bytes of `lldb --version` (`None` if it could not be run),
    /// decodes them as UTF-8 with invalid sequences replaced, and ends the check as
    /// `on_version_output` does.
    pub fn on_version_bytes(self, output: Option<&[u8]>) -> (r: LldbConfig)
        requires
            self.stage == PrefixStage::Version,
        ensures
            r.prefix@ == self.prefix@,
            r.include_dir@ == include_dir_of(self.prefix@),
            r.lib_dir@ == lib_dir_of(self.prefix@),
            r.bin_dir@ == bin_dir_of(self.prefix@),
            r.lib_name@ == self.lib_name@,
            r.version@ == version_of_output(
                match output {
                    Some(b) => Some(utf8_lossy(b@)),
                    None => None,
                },
            ),
    {
        let text = match output {
            Some(b) => Some(output_text(b)),
            None => None,
        };
        self.on_version_output(text)
    }

    /// Takes the output of `lldb --version` (`None` if it could not be run) and ends the check
    /// with the configuration: the directories `include`, `lib` and `bin` under the prefix,
    /// the chosen library name, and the version found in the output, or `unknown`.
    pub fn on_version_output(self, output: Option<String>) -> (r: LldbConfig)
        requires
            self.stage == PrefixStage::Version,
        ensures
            r.prefix@ == self.prefix@,
            r.include_dir@ == include_dir_of(self.prefix@),
            r.lib_dir@ == lib_dir_of(self.prefix@),
            r.bin_dir@ == bin_dir_of(self.prefix@),
            r.lib_name@ == self.lib_name@,
            r.version@ == version_of_output(
                match output {
                    Some(t) => Some(t@),
                    None => None,
                },
            ),
    {
        let version = match output {
            Some(text) => match version_from_output(text.as_str()) {
                Some(w) => w,
                None => String::from_str("unknown"),
            },
            None => String::from_str("unknown"),
        };
        LldbConfig {
            include_dir: self.prefix.join("include"),
            lib_dir: self.prefix.join("lib"),
            bin_dir: self.prefix.join("bin"),
            prefix: self.prefix,
            lib_name: self.lib_name,
            version,
        }
    }
}

} // verus!
