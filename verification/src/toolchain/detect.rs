//! The state of the external tools: where each one is, and which version it
//! reports.
use vstd::prelude::*;
use crate::paths::{file_name_of, join_path, join_str, owned, path_file_name};
use crate::pipeline::names::strip_end_char;
use crate::settings::AppSettings;
use crate::text::{
    chars_of, contains_seq, contains_str, ends_with, lines, lines_of, push_str,
    starts_with, string_of, string_views, sub_chars, trim, trim_chars,
};
use crate::toolchain::types::ToolStatus;

verus! {

/// Optional text as its view.
pub open spec fn opt_view(o: Option<String>) -> Option<Seq<char>> {
    match o {
        Some(s) => Some(s@),
        None => None,
    }
}

/// A tool status as plain values: (name, binary, found, version, path,
/// required).
pub type StatusView = (Seq<char>, Seq<char>, bool, Option<Seq<char>>, Option<Seq<char>>, bool);

/// The view of a tool status.
pub open spec fn status_view(t: ToolStatus) -> StatusView {
    (t.name@, t.binary@, t.found, opt_view(t.version), opt_view(t.path), t.required)
}

/// The views of tool statuses.
pub open spec fn status_views(v: Seq<ToolStatus>) -> Seq<StatusView> {
    v.map_values(|t: ToolStatus| status_view(t))
}

/// The version line of a tool: the first line of its standard output, or of
/// its error stream when the output is blank, trimmed.
pub open spec fn version_line(stdout: Seq<char>, stderr: Seq<char>) -> Option<Seq<char>> {
    let combined = if trim(stdout).len() == 0 {
        stderr
    } else {
        stdout
    };
    if lines(combined).len() > 0 {
        Some(trim(lines(combined)[0]))
    } else {
        None
    }
}

/// The version line of a tool, from what it printed.
pub fn first_version_line(stdout: &str, stderr: &str) -> (r: Option<String>)
    ensures
        opt_view(r) == version_line(stdout@, stderr@),
{
    let out = chars_of(stdout);
    let t = trim_chars(&out);
    let combined = if t.len() == 0 {
        chars_of(stderr)
    } else {
        out
    };
    let ls = lines_of(&combined);
    assert(crate::text::views(ls@).len() == ls@.len());
    if ls.len() > 0 {
        assert(crate::text::views(ls@)[0] == ls@[0]@);
        let first = trim_chars(&ls[0]);
        Some(string_of(&first))
    } else {
        None
    }
}

/// A tool to look for: its display name, its binary, the path to try
/// first, the arguments that make it print its version, and whether a
/// build needs it.
pub struct ToolQuery {
    pub name: String,
    pub binary: String,
    pub candidate: Option<String>,
    pub version_args: Vec<String>,
    pub required: bool,
}

/// What was found of one tool.
pub struct ToolProbe {
    /// The candidate path exists.
    pub candidate_exists: bool,
    /// The version line of the candidate, when it exists and printed one.
    pub candidate_version: Option<String>,
    /// Where the binary is on `PATH`.
    pub on_path: Option<String>,
    /// The version line of the binary on `PATH`, when it printed one.
    pub path_version: Option<String>,
}

/// What was found of all tools.
pub struct ToolchainProbe {
    /// One probe per query of `tool_queries`, in order.
    pub tools: Vec<ToolProbe>,
    /// `renpy.sh` exists in the configured Ren'Py SDK.
    pub renpy_sh_exists: bool,
    /// Where `renpy.sh` is on `PATH`.
    pub renpy_on_path: Option<String>,
    /// `rapt/project/build.gradle` exists in the configured Ren'Py SDK.
    pub rapt_gradle_exists: bool,
}

/// The Android SDK path without trailing `'/'`.
pub open spec fn sdk_root(settings: AppSettings) -> Seq<char> {
    strip_end_char(settings.android_sdk_path@, '/')
}

/// A binary in a hinted directory, when there is a hint.
pub open spec fn hinted(dir: Option<Seq<char>>, binary: Seq<char>) -> Option<Seq<char>> {
    match dir {
        Some(d) => if d.len() > 0 {
            Some(join_path(d, binary))
        } else {
            None
        },
        None => None,
    }
}

/// A configured full path, when it is set.
pub open spec fn configured(path: Seq<char>) -> Option<Seq<char>> {
    if path.len() > 0 {
        Some(path)
    } else {
        None
    }
}

/// The tools looked for, in order, as (name, binary, candidate, version
/// arguments, required).
pub open spec fn tool_query_views(settings: AppSettings) -> Seq<(Seq<char>, Seq<char>, Option<Seq<char>>, Seq<Seq<char>>, bool)> {
    let sdk = sdk_root(settings);
    let in_sdk = |suffix: Seq<char>| if sdk.len() > 0 {
        Some(sdk + suffix)
    } else {
        None::<Seq<char>>
    };
    let java_bin = if settings.java_home@.len() > 0 {
        Some(settings.java_home@ + "/bin"@)
    } else {
        None
    };
    let gradle_bin = if settings.gradle_home@.len() > 0 {
        Some(settings.gradle_home@ + "/bin"@)
    } else {
        None
    };
    seq![
        ("Java"@, "java"@, hinted(java_bin, "java"@), seq!["-version"@], true),
        ("ADB"@, "adb"@, hinted(in_sdk("/platform-tools"@), "adb"@), seq!["--version"@], true),
        (
            "sdkmanager"@,
            "sdkmanager"@,
            hinted(in_sdk("/cmdline-tools/latest/bin"@), "sdkmanager"@),
            seq!["--version"@],
            true,
        ),
        ("Gradle"@, "gradle"@, hinted(gradle_bin, "gradle"@), seq!["--version"@], true),
        ("Node.js"@, "node"@, configured(settings.node_path@), seq!["--version"@], true),
        ("Cordova"@, "cordova"@, configured(settings.cordova_path@), seq!["--version"@], true),
        (
            "apksigner"@,
            "apksigner"@,
            hinted(in_sdk("/build-tools/"@ + settings.build_tools_version@), "apksigner"@),
            seq!["--version"@],
            true,
        ),
    ]
}

/// The view of a query.
pub open spec fn query_view(q: ToolQuery) -> (Seq<char>, Seq<char>, Option<Seq<char>>, Seq<Seq<char>>, bool) {
    (q.name@, q.binary@, opt_view(q.candidate), string_views(q.version_args@), q.required)
}

/// A query with its view.
fn query(name: &str, binary: &str, candidate: Option<String>, arg: &str) -> (r: ToolQuery)
    ensures
        query_view(r) == (name@, binary@, opt_view(candidate), seq![arg@], true),
{
    let args = vec![owned(arg)];
    assert(string_views(args@) =~= seq![arg@]);
    ToolQuery { name: owned(name), binary: owned(binary), candidate, version_args: args, required: true }
}

/// A binary in a hinted directory.
fn hinted_exec(dir: Option<Vec<char>>, binary: &str) -> (r: Option<String>)
    ensures
        opt_view(r) == hinted(
            match dir {
                Some(d) => Some(d@),
                None => None,
            },
            binary@,
        ),
{
    match dir {
        Some(d) => if d.len() > 0 {
            Some(join_str(string_of(&d).as_str(), binary))
        } else {
            None
        },
        None => None,
    }
}

/// The Android SDK path without trailing `'/'`.
fn sdk_root_exec(settings: &AppSettings) -> (r: Vec<char>)
    ensures
        r@ == sdk_root(*settings),
{
    let s = chars_of(settings.android_sdk_path.as_str());
    let mut b = s.len();
    proof {
        assert(s@.subrange(0, b as int) =~= s@);
    }
    while b > 0 && s[b - 1] == '/'
        invariant
            b <= s.len(),
            s@ == settings.android_sdk_path@,
            strip_end_char(s@, '/') == strip_end_char(s@.subrange(0, b as int), '/'),
        decreases b,
    {
        assert(s@.subrange(0, b as int).drop_last() =~= s@.subrange(0, b - 1));
        b -= 1;
    }
    sub_chars(&s, 0, b)
}

/// A directory inside the SDK, when the SDK is set.
fn in_sdk_exec(sdk: &Vec<char>, suffix: &str) -> (r: Option<Vec<char>>)
    ensures
        match r {
            Some(d) => sdk@.len() > 0 && d@ == sdk@ + suffix@,
            None => sdk@.len() == 0,
        },
{
    if sdk.len() > 0 {
        let mut d = Vec::new();
        crate::text::push_all(&mut d, sdk);
        push_str(&mut d, suffix);
        Some(d)
    } else {
        None
    }
}

/// The tools looked for, in order: Java, ADB, sdkmanager, Gradle, Node.js,
/// Cordova and apksigner, each with the path to try first.
pub fn tool_queries(settings: &AppSettings) -> (r: Vec<ToolQuery>)
    ensures
        r@.map_values(|q: ToolQuery| query_view(q)) == tool_query_views(*settings),
{
    let sdk = sdk_root_exec(settings);
    let java_bin = if !settings.java_home.as_str().is_empty() {
        let mut d = chars_of(settings.java_home.as_str());
        push_str(&mut d, "/bin");
        Some(d)
    } else {
        None
    };
    let gradle_bin = if !settings.gradle_home.as_str().is_empty() {
        let mut d = chars_of(settings.gradle_home.as_str());
        push_str(&mut d, "/bin");
        Some(d)
    } else {
        None
    };
    let node = if !settings.node_path.as_str().is_empty() {
        Some(settings.node_path.clone())
    } else {
        None
    };
    let cordova = if !settings.cordova_path.as_str().is_empty() {
        Some(settings.cordova_path.clone())
    } else {
        None
    };
    let mut bt_suffix = chars_of("/build-tools/");
    push_str(&mut bt_suffix, settings.build_tools_version.as_str());
    let bt_dir = if sdk.len() > 0 {
        let mut d = Vec::new();
        crate::text::push_all(&mut d, &sdk);
        crate::text::push_all(&mut d, &bt_suffix);
        Some(d)
    } else {
        None
    };
    let r = vec![
        query("Java", "java", hinted_exec(java_bin, "java"), "-version"),
        query("ADB", "adb", hinted_exec(in_sdk_exec(&sdk, "/platform-tools"), "adb"), "--version"),
        query(
            "sdkmanager",
            "sdkmanager",
            hinted_exec(in_sdk_exec(&sdk, "/cmdline-tools/latest/bin"), "sdkmanager"),
            "--version",
        ),
        query("Gradle", "gradle", hinted_exec(gradle_bin, "gradle"), "--version"),
        query("Node.js", "node", node, "--version"),
        query("Cordova", "cordova", cordova, "--version"),
        query("apksigner", "apksigner", hinted_exec(bt_dir, "apksigner"), "--version"),
    ];
    assert(r@.map_values(|q: ToolQuery| query_view(q)) =~= tool_query_views(*settings));
    r
}

/// The view of a tool probe: (candidate exists, its version, path on PATH,
/// its version).
pub open spec fn probe_view(p: ToolProbe) -> (bool, Option<Seq<char>>, Option<Seq<char>>, Option<Seq<char>>) {
    (p.candidate_exists, opt_view(p.candidate_version), opt_view(p.on_path), opt_view(p.path_version))
}

/// The status of one tool: found at its candidate path when that exists,
/// else found on `PATH`, else not found.
pub open spec fn tool_status_spec(
    q: (Seq<char>, Seq<char>, Option<Seq<char>>, Seq<Seq<char>>, bool),
    p: (bool, Option<Seq<char>>, Option<Seq<char>>, Option<Seq<char>>),
) -> StatusView {
    match q.2 {
        Some(c) if p.0 => (q.0, q.1, true, p.1, Some(c), q.4),
        _ => match p.2 {
            Some(path) => (q.0, q.1, true, p.3, Some(path), q.4),
            None => (q.0, q.1, false, None, None, q.4),
        },
    }
}

/// What counts as nothing found.
pub open spec fn nothing_found() -> (bool, Option<Seq<char>>, Option<Seq<char>>, Option<Seq<char>>) {
    (false, None, None, None)
}

/// The status of one tool.
fn tool_status(q: &ToolQuery, p: Option<&ToolProbe>) -> (r: ToolStatus)
    ensures
        status_view(r) == tool_status_spec(
            query_view(*q),
            match p {
                Some(p) => probe_view(*p),
                None => nothing_found(),
            },
        ),
{
    match p {
        Some(p) => {
            match &q.candidate {
                Some(c) => if p.candidate_exists {
                    return ToolStatus {
                        name: q.name.clone(),
                        binary: q.binary.clone(),
                        found: true,
                        version: p.candidate_version.clone(),
                        path: Some(c.clone()),
                        required: q.required,
                    };
                },
                None => {},
            }
            match &p.on_path {
                Some(path) => ToolStatus {
                    name: q.name.clone(),
                    binary: q.binary.clone(),
                    found: true,
                    version: p.path_version.clone(),
                    path: Some(path.clone()),
                    required: q.required,
                },
                None => ToolStatus {
                    name: q.name.clone(),
                    binary: q.binary.clone(),
                    found: false,
                    version: None,
                    path: None,
                    required: q.required,
                },
            }
        },
        None => ToolStatus {
            name: q.name.clone(),
            binary: q.binary.clone(),
            found: false,
            version: None,
            path: None,
            required: q.required,
        },
    }
}

/// `renpy-` removed from the front and `-sdk` from the end, once each.
pub open spec fn sdk_version_name(dir: Seq<char>) -> Seq<char> {
    let a = if starts_with(dir, "renpy-"@) {
        dir.skip(6)
    } else {
        dir
    };
    if ends_with(a, "-sdk"@) {
        a.take(a.len() - 4)
    } else {
        a
    }
}

/// The Ren'Py version read from the SDK folder name (`renpy-8.5.2-sdk`
/// gives `8.5.2`), when it has a dot.
pub open spec fn renpy_version(sdk_path: Seq<char>) -> Option<Seq<char>> {
    match path_file_name(sdk_path) {
        Some(d) => if contains_seq(sdk_version_name(d), "."@) {
            Some(sdk_version_name(d))
        } else {
            None
        },
        None => None,
    }
}

/// The status of the Ren'Py SDK.
pub open spec fn renpy_sdk_status(sdk_path: Seq<char>, sh_exists: bool, on_path: Option<Seq<char>>) -> StatusView {
    if trim(sdk_path).len() > 0 {
        (
            "Ren'Py SDK"@,
            "renpy.sh"@,
            sh_exists,
            renpy_version(sdk_path),
            if sh_exists {
                Some(sdk_path)
            } else {
                None
            },
            false,
        )
    } else {
        match on_path {
            Some(p) => ("Ren'Py SDK"@, "renpy.sh"@, true, None, Some(p), false),
            None => ("Ren'Py SDK"@, "renpy.sh"@, false, None, None, false),
        }
    }
}

/// The Ren'Py version read from the SDK folder name.
fn renpy_version_exec(sdk_path: &str) -> (r: Option<String>)
    ensures
        opt_view(r) == renpy_version(sdk_path@),
{
    match file_name_of(sdk_path) {
        Some(d) => {
            let dv = chars_of(d.as_str());
            let prefix = chars_of("renpy-");
            proof {
                reveal_strlit("renpy-");
                reveal_strlit("-sdk");
            }
            let a = if crate::text::starts_with_chars(&dv, &prefix) {
                sub_chars(&dv, 6, dv.len())
            } else {
                dv
            };
            let suffix = chars_of("-sdk");
            let b = if crate::text::ends_with_chars(&a, &suffix) {
                sub_chars(&a, 0, a.len() - 4)
            } else {
                a
            };
            assert(b@ =~= sdk_version_name(d@));
            if contains_str(&b, ".") {
                Some(string_of(&b))
            } else {
                None
            }
        },
        None => None,
    }
}

/// The status of the Ren'Py SDK: its `renpy.sh`, and the version in its
/// folder name; without a configured SDK, `renpy.sh` on `PATH`.
pub fn detect_renpy_sdk(sdk_path: &str, sh_exists: bool, on_path: &Option<String>) -> (r: ToolStatus)
    ensures
        status_view(r) == renpy_sdk_status(sdk_path@, sh_exists, opt_view(*on_path)),
{
    let sp = chars_of(sdk_path);
    let t = trim_chars(&sp);
    if t.len() > 0 {
        return ToolStatus {
            name: owned("Ren'Py SDK"),
            binary: owned("renpy.sh"),
            found: sh_exists,
            version: renpy_version_exec(sdk_path),
            path: if sh_exists {
                Some(owned(sdk_path))
            } else {
                None
            },
            required: false,
        };
    }
    match on_path {
        Some(p) => ToolStatus {
            name: owned("Ren'Py SDK"),
            binary: owned("renpy.sh"),
            found: true,
            version: None,
            path: Some(p.clone()),
            required: false,
        },
        None => ToolStatus {
            name: owned("Ren'Py SDK"),
            binary: owned("renpy.sh"),
            found: false,
            version: None,
            path: None,
            required: false,
        },
    }
}

/// The status of RAPT, the Ren'Py Android packaging tool.
pub open spec fn rapt_status(sdk_path: Seq<char>, gradle_exists: bool) -> StatusView {
    if sdk_path.len() > 0 && gradle_exists {
        ("RAPT"@, "rapt"@, true, Some("installed"@), Some(join_path(sdk_path, "rapt"@)), false)
    } else {
        ("RAPT"@, "rapt"@, false, None, None, false)
    }
}

/// The status of RAPT: installed when `rapt/project/build.gradle` exists
/// in the configured Ren'Py SDK.
pub fn detect_rapt(sdk_path: &str, gradle_exists: bool) -> (r: ToolStatus)
    ensures
        status_view(r) == rapt_status(sdk_path@, gradle_exists),
{
    if sdk_path.is_empty() || !gradle_exists {
        return ToolStatus {
            name: owned("RAPT"),
            binary: owned("rapt"),
            found: false,
            version: None,
            path: None,
            required: false,
        };
    }
    ToolStatus {
        name: owned("RAPT"),
        binary: owned("rapt"),
        found: true,
        version: Some(owned("installed")),
        path: Some(join_str(sdk_path, "rapt")),
        required: false,
    }
}

/// Where `renpy.sh` of the configured SDK is.
pub fn renpy_sh_path(sdk_path: &str) -> (r: String)
    ensures
        r@ == join_path(sdk_path@, "renpy.sh"@),
{
    join_str(sdk_path, "renpy.sh")
}

/// Where RAPT's build script of the configured SDK is.
pub fn rapt_gradle_path(sdk_path: &str) -> (r: String)
    ensures
        r@ == join_path(sdk_path@, "rapt/project/build.gradle"@),
{
    join_str(sdk_path, "rapt/project/build.gradle")
}

/// The probe of the tool at index `i`, or nothing found.
pub open spec fn probe_at(tools: Seq<ToolProbe>, i: int) -> (bool, Option<Seq<char>>, Option<Seq<char>>, Option<Seq<char>>) {
    if 0 <= i < tools.len() {
        probe_view(tools[i])
    } else {
        nothing_found()
    }
}

/// The statuses of all tools, in order: the seven of `tool_queries`, then
/// the Ren'Py SDK and RAPT.
pub open spec fn all_statuses(settings: AppSettings, p: ToolchainProbe) -> Seq<StatusView> {
    let qs = tool_query_views(settings);
    Seq::new(7, |i: int| tool_status_spec(qs[i], probe_at(p.tools@, i))) + seq![
        renpy_sdk_status(settings.renpy_sdk_path@, p.renpy_sh_exists, opt_view(p.renpy_on_path)),
        rapt_status(settings.renpy_sdk_path@, p.rapt_gradle_exists),
    ]
}

/// The state of every tool a build may need.
pub fn check_all_tools(settings: &AppSettings, probe: &ToolchainProbe) -> (r: Vec<ToolStatus>)
    ensures
        status_views(r@) == all_statuses(*settings, *probe),
        r@.len() == 9,
{
    let qs = tool_queries(settings);
    let ghost qv = qs@.map_values(|q: ToolQuery| query_view(q));
    let mut out: Vec<ToolStatus> = Vec::new();
    let mut i: usize = 0;
    assert(qv.len() == 7);
    assert(status_views(out@) =~= Seq::new(
        0nat,
        |k: int| tool_status_spec(qv[k], probe_at(probe.tools@, k)),
    ));
    while i < 7
        invariant
            i <= 7,
            qs@.len() == 7,
            qv == qs@.map_values(|q: ToolQuery| query_view(q)),
            qv == tool_query_views(*settings),
            status_views(out@) == Seq::new(
                i as nat,
                |k: int| tool_status_spec(qv[k], probe_at(probe.tools@, k)),
            ),
        decreases 7 - i,
    {
        let p = if i < probe.tools.len() {
            Some(&probe.tools[i])
        } else {
            None
        };
        let st = tool_status(&qs[i], p);
        assert(status_view(st) == tool_status_spec(qv[i as int], probe_at(probe.tools@, i as int)));
        let ghost before = status_views(out@);
        out.push(st);
        assert(status_views(out@) =~= before.push(status_view(st)));
        assert(qv[i as int] == query_view(qs@[i as int]));
        assert(status_views(out@) =~= Seq::new(
            (i + 1) as nat,
            |k: int| tool_status_spec(qv[k], probe_at(probe.tools@, k)),
        ));
        i += 1;
    }
    let ghost seven = status_views(out@);
    out.push(detect_renpy_sdk(settings.renpy_sdk_path.as_str(), probe.renpy_sh_exists, &probe.renpy_on_path));
    out.push(detect_rapt(settings.renpy_sdk_path.as_str(), probe.rapt_gradle_exists));
    assert(status_views(out@) =~= all_statuses(*settings, *probe));
    out
}


/// The first place each tool is looked for.  With a Java home set, Java is
/// `<java home>/bin/java`; with a Gradle home set, Gradle is
/// `<gradle home>/bin/gradle` (the binary in the home's `bin` folder);
/// with an Android SDK set, ADB is `<sdk>/platform-tools/adb` and
/// sdkmanager `<sdk>/cmdline-tools/latest/bin/sdkmanager`; Node.js and
/// Cordova are their configured paths.  Nothing is tried first when the
/// setting is empty.
pub proof fn lemma_tool_candidates(settings: AppSettings)
    ensures
        ({
            let v = tool_query_views(settings);
            let sdk = sdk_root(settings);
            &&& v.len() == 7
            &&& v[0].0 == "Java"@ && v[0].1 == "java"@
            &&& v[1].0 == "ADB"@ && v[1].1 == "adb"@
            &&& v[2].0 == "sdkmanager"@ && v[2].1 == "sdkmanager"@
            &&& v[3].0 == "Gradle"@ && v[3].1 == "gradle"@
            &&& v[4].0 == "Node.js"@ && v[4].1 == "node"@
            &&& v[5].0 == "Cordova"@ && v[5].1 == "cordova"@
            &&& v[6].0 == "apksigner"@ && v[6].1 == "apksigner"@
            &&& v[0].2 == (if settings.java_home@.len() > 0 {
                Some(settings.java_home@ + "/bin/java"@)
            } else {
                None
            })
            &&& v[3].2 == (if settings.gradle_home@.len() > 0 {
                Some(settings.gradle_home@ + "/bin/gradle"@)
            } else {
                None
            })
            &&& v[1].2 == (if sdk.len() > 0 {
                Some(sdk + "/platform-tools/adb"@)
            } else {
                None
            })
            &&& v[2].2 == (if sdk.len() > 0 {
                Some(sdk + "/cmdline-tools/latest/bin/sdkmanager"@)
            } else {
                None
            })
            &&& v[4].2 == (if settings.node_path@.len() > 0 {
                Some(settings.node_path@)
            } else {
                None
            })
            &&& v[5].2 == (if settings.cordova_path@.len() > 0 {
                Some(settings.cordova_path@)
            } else {
                None
            })
        }),
{
    reveal_strlit("/bin");
    reveal_strlit("java");
    reveal_strlit("gradle");
    reveal_strlit("/bin/java");
    reveal_strlit("/bin/gradle");
    reveal_strlit("/platform-tools");
    reveal_strlit("adb");
    reveal_strlit("/platform-tools/adb");
    reveal_strlit("/cmdline-tools/latest/bin");
    reveal_strlit("sdkmanager");
    reveal_strlit("/cmdline-tools/latest/bin/sdkmanager");
    let sdk = sdk_root(settings);
    assert(settings.java_home@ + "/bin"@ + seq!['/'] + "java"@ =~= settings.java_home@ + "/bin/java"@);
    assert(settings.gradle_home@ + "/bin"@ + seq!['/'] + "gradle"@ =~= settings.gradle_home@ + "/bin/gradle"@);
    assert(sdk + "/platform-tools"@ + seq!['/'] + "adb"@ =~= sdk + "/platform-tools/adb"@);
    assert(sdk + "/cmdline-tools/latest/bin"@ + seq!['/'] + "sdkmanager"@ =~= sdk
        + "/cmdline-tools/latest/bin/sdkmanager"@);
    assert((settings.java_home@ + "/bin"@).last() == 'n');
    assert((settings.gradle_home@ + "/bin"@).last() == 'n');
    assert((sdk + "/platform-tools"@).last() == 's');
    assert((sdk + "/cmdline-tools/latest/bin"@).last() == 'n');
}


/// The status of each of the seven tools looked for: it is found when its
/// first place exists, with that place and the version printed there, or
/// else when its binary is on `PATH`, with that path and version; otherwise
/// it is not found and has neither path nor version.  Every one of them is
/// needed for a build, and the Ren'Py SDK and RAPT come after them.
pub proof fn lemma_tool_found(settings: AppSettings, p: ToolchainProbe, i: int)
    requires
        0 <= i < 7,
    ensures
        ({
            let st = all_statuses(settings, p)[i];
            let q = tool_query_views(settings)[i];
            let (cand_exists, cand_version, on_path, path_version) = probe_at(p.tools@, i);
            let at_candidate = q.2 is Some && cand_exists;
            &&& all_statuses(settings, p).len() == 9
            &&& st.0 == q.0 && st.1 == q.1 && st.5
            &&& (st.2 <==> at_candidate || on_path is Some)
            &&& at_candidate ==> st.4 == q.2 && st.3 == cand_version
            &&& !at_candidate && on_path is Some ==> st.4 == on_path && st.3 == path_version
            &&& !st.2 ==> st.3 is None && st.4 is None
        }),
{
    lemma_tool_candidates(settings);
    assert(all_statuses(settings, p)[i] == tool_status_spec(tool_query_views(settings)[i], probe_at(p.tools@, i)));
}

} // verus!
