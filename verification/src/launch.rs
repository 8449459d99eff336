//! Launching: the arguments of the game and of its runtime, and where a
//! runtime is downloaded from for a system and a processor.

use vstd::prelude::*;
use vstd::string::StringExecFns;
use crate::errors::LaunchErrors;
use crate::text::{decimal, joined, push_decimal, same_text};

verus! {

/// A Java runtime that the game can run on.
#[derive(Debug, Clone, Copy, PartialEq, Eq, Structural)]
pub enum JRE {
    /// Eclipse Temurin, of the Eclipse Foundation.
    Adoptium,
    /// Zulu, of Azul Systems. Not on offer yet.
    Zulu,
    /// GraalVM, of Oracle.
    GraalVM,
}

/// An address for downloads, with the processor and the system that it is
/// for; an address without a processor is for every processor.
#[derive(Debug)]
pub struct ArchUrl {
    pub arch: Option<String>,
    pub os: Option<String>,
    pub url: String,
}

/// An `ArchUrl` as plain values.
pub struct ArchUrlView {
    pub arch: Option<Seq<char>>,
    pub os: Option<Seq<char>>,
    pub url: Seq<char>,
}

impl View for ArchUrl {
    type V = ArchUrlView;

    open spec fn view(&self) -> ArchUrlView {
        ArchUrlView { arch: self.arch.deep_view(), os: self.os.deep_view(), url: self.url@ }
    }
}

impl DeepView for ArchUrl {
    type V = ArchUrlView;

    open spec fn deep_view(&self) -> ArchUrlView {
        self@
    }
}

/// Whether an address is for a processor.
pub open spec fn fits(entry: ArchUrlView, arch: Seq<char>) -> bool {
    entry.arch matches Some(a) ==> a == arch
}

/// The first address at or after `from` that is for the processor.
pub open spec fn first_fit(entries: Seq<ArchUrlView>, arch: Seq<char>, from: int) -> Option<
    Seq<char>,
>
    decreases entries.len() - from,
{
    if from < 0 || from >= entries.len() {
        None
    } else if fits(entries[from], arch) {
        Some(entries[from].url)
    } else {
        first_fit(entries, arch, from + 1)
    }
}

/// The address to download from: the first one that is for the processor,
/// and none where a system is asked for that is not the one at hand.
pub open spec fn arch_url_of(
    entries: Seq<ArchUrlView>,
    wanted_os: Option<Seq<char>>,
    os: Seq<char>,
    arch: Seq<char>,
) -> Option<Seq<char>> {
    if wanted_os matches Some(w) && w != os {
        None
    } else {
        first_fit(entries, arch, 0)
    }
}

/// The address to download from, among `entries`, on the system `os` with
/// the processor `arch`.
pub fn arch_url(entries: &Vec<ArchUrl>, wanted_os: Option<&str>, os: &str, arch: &str) -> (url:
    Option<String>)
    ensures
        url.deep_view() == arch_url_of(
            entries.deep_view(),
            match wanted_os {
                Some(w) => Some(w@),
                None => None,
            },
            os@,
            arch@,
        ),
{
    match wanted_os {
        Some(w) => {
            if !same_text(w, os) {
                return None;
            }
        },
        None => {},
    }
    let mut i: usize = 0;
    while i < entries.len()
        invariant
            i <= entries.len(),
            wanted_os matches Some(w) ==> w@ == os@,
            first_fit(entries.deep_view(), arch@, 0) == first_fit(
                entries.deep_view(),
                arch@,
                i as int,
            ),
        decreases entries.len() - i,
    {
        assert(entries.deep_view()[i as int] == entries@[i as int]@);
        let hit = match &entries[i].arch {
            Some(a) => same_text(a.as_str(), arch),
            None => true,
        };
        if hit {
            return Some(entries[i].url.clone());
        }
        i += 1;
    }
    None
}

/// Whether `arch` is among the processors that are supported.
pub open spec fn supported(supports: Seq<Seq<char>>, arch: Seq<char>) -> bool {
    exists|i: int| 0 <= i < supports.len() && supports[i] == arch
}

/// Checks that a runtime is built for the processor: an error with the
/// processor's name where it is not.
pub fn arch_support(supports: &Vec<&str>, arch: &str) -> (result: Result<(), LaunchErrors>)
    ensures
        result is Ok <==> supported(supports@.map_values(|s: &str| s@), arch@),
        result matches Err(e) ==> e matches LaunchErrors::UnsupportedArchitecture(m) && m@
            == arch@,
{
    let ghost names = supports@.map_values(|s: &str| s@);
    let mut i: usize = 0;
    while i < supports.len()
        invariant
            i <= supports.len(),
            names == supports@.map_values(|s: &str| s@),
            forall|j: int| 0 <= j < i ==> names[j] != arch@,
        decreases supports.len() - i,
    {
        if same_text(supports[i], arch) {
            assert(names[i as int] == arch@);
            return Ok(());
        }
        i += 1;
    }
    Err(LaunchErrors::UnsupportedArchitecture(String::from_str(arch)))
}

/// Where Temurin is downloaded from.
pub open spec fn adoptium_url(version: Seq<char>, os: Seq<char>, arch: Seq<char>) -> Seq<char> {
    "https://api.adoptium.net/v3/binary/latest/"@ + version + "/ga/"@ + os + "/"@ + arch
        + "/jre/hotspot/normal/eclipse"@
}

/// Where GraalVM is downloaded from, as an archive for Windows.
pub open spec fn graalvm_windows_url(version: Seq<char>) -> Seq<char> {
    "https://download.oracle.com/graalvm/"@ + version + "/latest/graalvm-jdk-"@ + version
        + "_windows-x64_bin.zip"@
}

/// Where GraalVM is downloaded from, as an archive for a system and a
/// processor.
pub open spec fn graalvm_url(version: Seq<char>, os: Seq<char>, arch: Seq<char>) -> Seq<char> {
    "https://download.oracle.com/graalvm/"@ + version + "/latest/graalvm-jdk-"@ + version + "_"@
        + os + "-"@ + arch + "_bin.tar.gz"@
}

/// Where a runtime is downloaded from. Temurin names the processor
/// `x86_64` as `x64`; GraalVM has its archive for Windows on `x86`.
pub open spec fn java_url_of(jre: JRE, version: Seq<char>, os: Seq<char>, arch: Seq<char>)
    -> Option<Seq<char>> {
    match jre {
        JRE::Adoptium => Some(
            if arch == "x86_64"@ {
                adoptium_url(version, os, "x64"@)
            } else {
                adoptium_url(version, os, arch)
            },
        ),
        JRE::Zulu => None,
        JRE::GraalVM => Some(
            if arch == "x86"@ {
                graalvm_windows_url(version)
            } else {
                graalvm_url(version, os, arch)
            },
        ),
    }
}

fn adoptium(version: &str, os: &str, arch: &str) -> (url: String)
    ensures
        url@ == adoptium_url(version@, os@, arch@),
{
    let mut url = joined("https://api.adoptium.net/v3/binary/latest/", version);
    url.append("/ga/");
    url.append(os);
    url.append("/");
    url.append(arch);
    url.append("/jre/hotspot/normal/eclipse");
    url
}

fn graalvm_windows(version: &str) -> (url: String)
    ensures
        url@ == graalvm_windows_url(version@),
{
    let mut url = joined("https://download.oracle.com/graalvm/", version);
    url.append("/latest/graalvm-jdk-");
    url.append(version);
    url.append("_windows-x64_bin.zip");
    url
}

fn graalvm(version: &str, os: &str, arch: &str) -> (url: String)
    ensures
        url@ == graalvm_url(version@, os@, arch@),
{
    let mut url = joined("https://download.oracle.com/graalvm/", version);
    url.append("/latest/graalvm-jdk-");
    url.append(version);
    url.append("_");
    url.append(os);
    url.append("-");
    url.append(arch);
    url.append("_bin.tar.gz");
    url
}

/// Where the runtime `jre` of `version` is downloaded from, on the system
/// `os` with the processor `arch`; an error for a runtime that is not on
/// offer.
pub fn java_url(jre: JRE, version: &str, os: &str, arch: &str) -> (result: Result<
    String,
    LaunchErrors,
>)
    ensures
        match result {
            Ok(url) => java_url_of(jre, version@, os@, arch@) == Some(url@),
            Err(e) => e matches LaunchErrors::Requirements(m) && m@ == "Zulu is not supported yet"@
                && java_url_of(jre, version@, os@, arch@) is None,
        },
{
    let mut entries: Vec<ArchUrl> = Vec::new();
    match jre {
        JRE::Adoptium => {
            entries.push(
                ArchUrl {
                    arch: Some(String::from_str("x86_64")),
                    os: None,
                    url: adoptium(version, os, "x64"),
                },
            );
            entries.push(ArchUrl { arch: None, os: None, url: adoptium(version, os, arch) });
        },
        JRE::Zulu => {
            return Err(LaunchErrors::Requirements(String::from_str("Zulu is not supported yet")));
        },
        JRE::GraalVM => {
            entries.push(
                ArchUrl {
                    arch: Some(String::from_str("x86")),
                    os: Some(String::from_str("windows")),
                    url: graalvm_windows(version),
                },
            );
            entries.push(ArchUrl { arch: None, os: None, url: graalvm(version, os, arch) });
        },
    }
    proof {
        let e = entries.deep_view();
        assert(e.len() == 2);
        assert(e[0] == entries@[0]@);
        assert(e[1] == entries@[1]@);
        reveal_with_fuel(first_fit, 3);
    }
    match arch_url(&entries, None, os, arch) {
        Some(url) => Ok(url),
        None => Ok(String::new()),
    }
}

/// The name under which a downloaded runtime is stored.
pub fn jre_archive(windows: bool) -> (name: &'static str)
    ensures
        name@ == (if windows {
            "jre.zip"@
        } else {
            "jre.tar.gz"@
        }),
{
    if windows {
        "jre.zip"
    } else {
        "jre.tar.gz"
    }
}

/// Puts one argument behind the others.
pub fn push_arg(args: &mut Vec<String>, arg: String)
    ensures
        final(args).deep_view() == old(args).deep_view().push(arg@),
{
    args.push(arg);
    assert(final(args).deep_view() =~= old(args).deep_view().push(arg@)) by {
        assert forall|i: int| 0 <= i < old(args)@.len() implies final(args).deep_view()[i] == old(
            args,
        ).deep_view()[i] by {
            assert(final(args)@[i] == old(args)@[i]);
        }
    }
}

/// What is launched, and with what.
#[derive(Debug)]
pub struct LaunchBuilder {
    args: Vec<String>,
    java_path: Option<String>,
    client: Option<String>,
    mods: Option<Vec<String>>,
}

/// A `LaunchBuilder` as plain values.
pub struct LaunchPlan {
    pub args: Seq<Seq<char>>,
    pub java_path: Option<Seq<char>>,
    pub client: Option<Seq<char>>,
    pub mods: Option<Seq<Seq<char>>>,
}

impl View for LaunchBuilder {
    type V = LaunchPlan;

    closed spec fn view(&self) -> LaunchPlan {
        LaunchPlan {
            args: self.args.deep_view(),
            java_path: self.java_path.deep_view(),
            client: self.client.deep_view(),
            mods: self.mods.deep_view(),
        }
    }
}

/// The argument that the runtime needs on macOS.
pub const FIRST_THREAD: &'static str = "-XstartOnFirstThread";

impl LaunchBuilder {
    /// A plan without arguments, for the game itself on the runtime that is
    /// found.
    pub fn init() -> (b: LaunchBuilder)
        ensures
            b@ == (LaunchPlan { args: Seq::empty(), java_path: None, client: None, mods: None }),
    {
        let args: Vec<String> = Vec::new();
        assert(args.deep_view() =~= Seq::empty());
        LaunchBuilder { args, java_path: None, client: None, mods: None }
    }

    /// Sets the arguments of the runtime.
    pub fn args(&mut self, args: Vec<String>) -> (b: &mut LaunchBuilder)
        ensures
            b@ == (LaunchPlan { args: args.deep_view(), ..old(self)@ }),
            final(self)@ == final(b)@,
    {
        self.args = args;
        self
    }

    /// Sets the place of a runtime of the caller's own.
    pub fn java(&mut self, path: Option<String>) -> (b: &mut LaunchBuilder)
        ensures
            b@ == (LaunchPlan { java_path: path.deep_view(), ..old(self)@ }),
            final(self)@ == final(b)@,
    {
        self.java_path = path;
        self
    }

    /// Sets the place of a client of the caller's own.
    pub fn client(&mut self, client: Option<String>) -> (b: &mut LaunchBuilder)
        ensures
            b@ == (LaunchPlan { client: client.deep_view(), ..old(self)@ }),
            final(self)@ == final(b)@,
    {
        self.client = client;
        self
    }

    /// Sets the places of the mods that are launched along.
    pub fn mods(&mut self, mods: Option<Vec<String>>) -> (b: &mut LaunchBuilder)
        ensures
            b@ == (LaunchPlan { mods: mods.deep_view(), ..old(self)@ }),
            final(self)@ == final(b)@,
    {
        self.mods = mods;
        self
    }

    /// Makes the plan ready for a system: on macOS the runtime is told to
    /// start on the first thread.
    pub fn prepare(&mut self, macos: bool)
        ensures
            final(self)@ == (LaunchPlan {
                args: if macos {
                    old(self)@.args.push(FIRST_THREAD@)
                } else {
                    old(self)@.args
                },
                ..old(self)@
            }),
    {
        if macos {
            let mut args: Vec<String> = Vec::new();
            core::mem::swap(&mut self.args, &mut args);
            push_arg(&mut args, String::from_str(FIRST_THREAD));
            self.args = args;
        }
    }

    /// The arguments of the runtime.
    pub fn arguments(&self) -> (args: &Vec<String>)
        ensures
            args.deep_view() == self@.args,
    {
        &self.args
    }
}

/// The directories that a launch works in.
#[derive(Debug)]
pub struct LauncherDirs {
    /// Where the game keeps its files.
    pub game_dir: String,
    /// Where the assets lie.
    pub assets_dir: String,
    /// Where the libraries lie.
    pub libraries_dir: String,
    /// Where the native libraries lie.
    pub natives_dir: String,
    /// Where the runtime lies.
    pub java_dir: String,
}

/// A `LauncherDirs` as plain values.
pub struct LauncherDirsView {
    pub game_dir: Seq<char>,
    pub assets_dir: Seq<char>,
    pub libraries_dir: Seq<char>,
    pub natives_dir: Seq<char>,
    pub java_dir: Seq<char>,
}

impl View for LauncherDirs {
    type V = LauncherDirsView;

    open spec fn view(&self) -> LauncherDirsView {
        LauncherDirsView {
            game_dir: self.game_dir@,
            assets_dir: self.assets_dir@,
            libraries_dir: self.libraries_dir@,
            natives_dir: self.natives_dir@,
            java_dir: self.java_dir@,
        }
    }
}

/// Two texts that may be left out, as plain values.
pub open spec fn pair_view(pair: Option<(String, String)>) -> Option<(Seq<char>, Seq<char>)> {
    match pair {
        Some(p) => Some((p.0@, p.1@)),
        None => None,
    }
}

/// The arguments for the launcher's name and version.
pub open spec fn branding_args(branding: Option<(Seq<char>, Seq<char>)>) -> Seq<Seq<char>> {
    match branding {
        Some(b) => seq![
            "-Dminecraft.launcher.brand="@ + b.0,
            "--Dminecraft.launcher.version="@ + b.1,
        ],
        None => Seq::empty(),
    }
}

/// The arguments for the game's version and its kind.
pub open spec fn version_args(version: Option<(Seq<char>, Seq<char>)>) -> Seq<Seq<char>> {
    match version {
        Some(v) => seq!["--version "@ + v.0, "--versionType "@ + v.1],
        None => Seq::empty(),
    }
}

/// The arguments for the size of the window.
pub open spec fn window_args(window_size: Option<(u32, u32)>) -> Seq<Seq<char>> {
    match window_size {
        Some(w) => seq![
            "--width "@ + decimal(w.0 as nat),
            "--height "@ + decimal(w.1 as nat),
        ],
        None => Seq::empty(),
    }
}

/// The argument for the most memory, in megabytes.
pub open spec fn max_memory_args(max: Option<u16>) -> Seq<Seq<char>> {
    match max {
        Some(m) => seq!["--Xmx"@ + decimal(m as nat) + "M"@],
        None => Seq::empty(),
    }
}

/// The arguments for the directories; the index of the assets lies in
/// their directory.
pub open spec fn dir_args(dirs: LauncherDirsView) -> Seq<Seq<char>> {
    seq![
        "--gameDir "@ + dirs.game_dir,
        "--assetsDir "@ + dirs.assets_dir,
        "--assetsIndex "@ + dirs.assets_dir + "/index.json"@,
        "--librariesDir "@ + dirs.libraries_dir,
        "--nativesDir "@ + dirs.natives_dir,
        "--javaDir "@ + dirs.java_dir,
    ]
}

/// The arguments of the general settings, in their order: the least
/// memory, the launcher, the version, the window, the most memory, the
/// directories.
pub open spec fn settings_args(
    window_size: Option<(u32, u32)>,
    launcher_branding: Option<(Seq<char>, Seq<char>)>,
    dirs: LauncherDirsView,
    version_input: Option<(Seq<char>, Seq<char>)>,
    memory: (u16, Option<u16>),
) -> Seq<Seq<char>> {
    seq!["--Xms"@ + decimal(memory.0 as nat) + "m"@] + branding_args(launcher_branding)
        + version_args(version_input) + window_args(window_size) + max_memory_args(memory.1)
        + dir_args(dirs)
}

/// A word and a number behind it.
fn numbered(word: &str, n: u64) -> (out: String)
    ensures
        out@ == word@ + decimal(n as nat),
{
    let mut out = String::from_str(word);
    push_decimal(&mut out, n);
    out
}

fn push_branding(args: &mut Vec<String>, branding: Option<(String, String)>)
    ensures
        final(args).deep_view() == old(args).deep_view() + branding_args(pair_view(branding)),
{
    match branding {
        Some(b) => {
            push_arg(args, joined("-Dminecraft.launcher.brand=", b.0.as_str()));
            push_arg(args, joined("--Dminecraft.launcher.version=", b.1.as_str()));
        },
        None => {},
    }
    assert(final(args).deep_view() =~= old(args).deep_view() + branding_args(pair_view(branding)));
}

fn push_version(args: &mut Vec<String>, version: Option<(String, String)>)
    ensures
        final(args).deep_view() == old(args).deep_view() + version_args(pair_view(version)),
{
    match version {
        Some(v) => {
            push_arg(args, joined("--version ", v.0.as_str()));
            push_arg(args, joined("--versionType ", v.1.as_str()));
        },
        None => {},
    }
    assert(final(args).deep_view() =~= old(args).deep_view() + version_args(pair_view(version)));
}

fn push_window(args: &mut Vec<String>, window_size: Option<(u32, u32)>)
    ensures
        final(args).deep_view() == old(args).deep_view() + window_args(window_size),
{
    match window_size {
        Some(w) => {
            push_arg(args, numbered("--width ", w.0 as u64));
            push_arg(args, numbered("--height ", w.1 as u64));
        },
        None => {},
    }
    assert(final(args).deep_view() =~= old(args).deep_view() + window_args(window_size));
}

fn push_max_memory(args: &mut Vec<String>, max: Option<u16>)
    ensures
        final(args).deep_view() == old(args).deep_view() + max_memory_args(max),
{
    match max {
        Some(m) => {
            let mut arg = numbered("--Xmx", m as u64);
            arg.append("M");
            push_arg(args, arg);
        },
        None => {},
    }
    assert(final(args).deep_view() =~= old(args).deep_view() + max_memory_args(max));
}

fn push_dirs(args: &mut Vec<String>, dirs: &LauncherDirs)
    ensures
        final(args).deep_view() == old(args).deep_view() + dir_args(dirs@),
{
    push_arg(args, joined("--gameDir ", dirs.game_dir.as_str()));
    push_arg(args, joined("--assetsDir ", dirs.assets_dir.as_str()));
    let mut index = joined("--assetsIndex ", dirs.assets_dir.as_str());
    index.append("/index.json");
    push_arg(args, index);
    push_arg(args, joined("--librariesDir ", dirs.libraries_dir.as_str()));
    push_arg(args, joined("--nativesDir ", dirs.natives_dir.as_str()));
    push_arg(args, joined("--javaDir ", dirs.java_dir.as_str()));
    assert(final(args).deep_view() =~= old(args).deep_view() + dir_args(dirs@));
}

/// The arguments of the game, gathered one setting after the other.
#[derive(Debug)]
pub struct LaunchArgs {
    args: Vec<String>,
}

impl View for LaunchArgs {
    type V = Seq<Seq<char>>;

    closed spec fn view(&self) -> Seq<Seq<char>> {
        self.args.deep_view()
    }
}

impl LaunchArgs {
    /// No arguments yet.
    pub fn builder() -> (b: LaunchArgs)
        ensures
            b@ == Seq::<Seq<char>>::empty(),
    {
        let args: Vec<String> = Vec::new();
        assert(args.deep_view() =~= Seq::empty());
        LaunchArgs { args }
    }

    /// The arguments gathered so far.
    pub fn arguments(&self) -> (args: &Vec<String>)
        ensures
            args.deep_view() == self@,
    {
        &self.args
    }

    /// Adds the general settings: the size of the window (width, height),
    /// the launcher (name, version), the directories, the version (version,
    /// kind) and the memory in megabytes (least, most).
    pub fn game_settings(
        &mut self,
        window_size: Option<(u32, u32)>,
        launcher_branding: Option<(String, String)>,
        dirs: LauncherDirs,
        version_input: Option<(String, String)>,
        memory: (u16, Option<u16>),
    )
        ensures
            final(self)@ == old(self)@ + settings_args(
                window_size,
                pair_view(launcher_branding),
                dirs@,
                pair_view(version_input),
                memory,
            ),
    {
        let mut args: Vec<String> = Vec::new();
        core::mem::swap(&mut self.args, &mut args);
        let ghost start = args.deep_view();
        let mut least = numbered("--Xms", memory.0 as u64);
        least.append("m");
        push_arg(&mut args, least);
        let ghost a1 = start + seq!["--Xms"@ + decimal(memory.0 as nat) + "m"@];
        assert(args.deep_view() =~= a1);
        push_branding(&mut args, launcher_branding);
        push_version(&mut args, version_input);
        push_window(&mut args, window_size);
        push_max_memory(&mut args, memory.1);
        push_dirs(&mut args, &dirs);
        assert(args.deep_view() =~= start + settings_args(
            window_size,
            pair_view(launcher_branding),
            dirs@,
            pair_view(version_input),
            memory,
        ));
        self.args = args;
    }
}

} // verus!
