//! The checks made before a build starts.
use vstd::prelude::*;
use crate::json::{json_string_member, string_member};
use crate::paths::owned;
use crate::settings::AppSettings;
use crate::text::{
    chars_of, decimal, decimal_chars, lines, lines_of, parse_u64, parse_u64_chars, push_all,
    push_str, string_of, trim, trim_chars,
};

verus! {

/// A problem found before the build: `"error"` or `"warning"`, what is
/// wrong, and what to do about it.
#[derive(Debug, Clone)]
pub struct PreflightIssue {
    pub severity: String,
    pub message: String,
    pub hint: String,
}

/// An issue as text: (severity, message, hint).
pub type IssueView = (Seq<char>, Seq<char>, Seq<char>);

/// The view of an issue.
pub open spec fn issue_view(i: PreflightIssue) -> IssueView {
    (i.severity@, i.message@, i.hint@)
}

/// The views of a list of issues.
pub open spec fn issue_views(v: Seq<PreflightIssue>) -> Seq<IssueView> {
    v.map_values(|i: PreflightIssue| issue_view(i))
}

/// An error with its hint.
pub open spec fn error_issue(message: Seq<char>, hint: Seq<char>) -> IssueView {
    ("error"@, message, hint)
}

/// A warning with its hint.
pub open spec fn warning_issue(message: Seq<char>, hint: Seq<char>) -> IssueView {
    ("warning"@, message, hint)
}

impl PreflightIssue {
    /// An error with its hint.
    pub fn error(message: String, hint: String) -> (r: Self)
        ensures
            issue_view(r) == error_issue(message@, hint@),
    {
        PreflightIssue { severity: owned("error"), message, hint }
    }

    /// A warning with its hint.
    pub fn warning(message: String, hint: String) -> (r: Self)
        ensures
            issue_view(r) == warning_issue(message@, hint@),
    {
        PreflightIssue { severity: owned("warning"), message, hint }
    }
}

/// The first line of `ls` whose trimmed text is a number.
pub open spec fn first_number_line(ls: Seq<Seq<char>>) -> Option<u64>
    decreases ls.len(),
{
    if ls.len() == 0 {
        None
    } else {
        match parse_u64(trim(ls[0])) {
            Some(v) => Some(v),
            None => first_number_line(ls.skip(1)),
        }
    }
}

/// Free megabytes reported by `df --output=avail -B1`: the first number
/// after the header line, in bytes, divided by 2^20.
pub open spec fn df_free_mb(output: Seq<char>) -> Option<u64> {
    let ls = lines(output);
    let body = if ls.len() > 0 {
        ls.skip(1)
    } else {
        ls
    };
    match first_number_line(body) {
        Some(b) => Some((b / 1048576) as u64),
        None => None,
    }
}

/// Free megabytes reported by `df --output=avail -B1 /tmp`.
pub fn tmp_free_mb(df_output: &str) -> (r: Option<u64>)
    ensures
        r == df_free_mb(df_output@),
{
    let text = chars_of(df_output);
    let ls = lines_of(&text);
    let ghost lv = lines(df_output@);
    assert(crate::text::views(ls@).len() == ls@.len());
    let mut i: usize = 1;
    if ls.len() == 0 {
        return None;
    }
    let ghost body = lv.skip(1);
    assert(body.skip(0) =~= body);
    while i < ls.len()
        invariant
            1 <= i <= ls.len(),
            crate::text::views(ls@) == lv,
            lv == lines(df_output@),
            body == lv.skip(1),
            first_number_line(body) == first_number_line(lv.skip(i as int)),
        decreases ls.len() - i,
    {
        assert(lv.skip(i as int)[0] == ls@[i as int]@);
        assert(lv.skip(i as int).skip(1) =~= lv.skip(i + 1));
        let t = trim_chars(&ls[i]);
        match parse_u64_chars(&t) {
            Some(v) => {
                return Some(v / 1048576);
            },
            None => {},
        }
        i += 1;
    }
    assert(lv.skip(i as int) =~= Seq::<Seq<char>>::empty());
    None
}

/// What is known of the machine and the game folder before a build.
pub struct PreflightProbe {
    /// The game folder exists.
    pub game_exists: bool,
    /// The game path is a folder.
    pub game_is_dir: bool,
    /// `bin/java` exists in the configured Java home.
    pub java_home_has_java: bool,
    /// `java -version` succeeded or printed to its error stream.
    pub java_runs: bool,
    /// `build-tools` is a folder in the configured Android SDK.
    pub build_tools_dir: bool,
    /// What `df --output=avail -B1 /tmp` printed, when it could run.
    pub df_output: Option<String>,
    /// `renpy.sh` exists in the configured Ren'Py SDK.
    pub renpy_sh: bool,
    /// `rapt/project/build.gradle` exists in the configured Ren'Py SDK.
    pub rapt_gradle: bool,
    /// `android.json` of the game: absent (`None`), unreadable
    /// (`Some(None)`), or its text.
    pub android_json: Option<Option<String>>,
    /// The configured Node.js path exists.
    pub node_path_exists: bool,
    /// `node --version` succeeded.
    pub node_runs: bool,
    /// The configured Cordova path exists.
    pub cordova_path_exists: bool,
    /// `cordova --version` succeeded.
    pub cordova_runs: bool,
}

/// `seq![x]` when `c` holds, else nothing.
pub open spec fn one_if(c: bool, x: IssueView) -> Seq<IssueView> {
    if c {
        seq![x]
    } else {
        seq![]
    }
}

/// A member that is a non-empty string.
pub open spec fn nonempty_member(m: Option<Option<Seq<char>>>) -> bool {
    match m {
        Some(Some(s)) => s.len() > 0,
        _ => false,
    }
}

/// The warning about the game's `android.json`, from what reading its
/// `package` and `name` members gave (`None`: the text is not JSON).
pub open spec fn json_issues(package: Option<Option<Seq<char>>>, name: Option<Option<Seq<char>>>) -> Seq<IssueView> {
    if package is None {
        seq![
            warning_issue(
                "android.json exists but is not valid JSON."@,
                "Fix or delete android.json — vn2apk will regenerate a valid one."@,
            ),
        ]
    } else {
        one_if(
            !nonempty_member(package) || !nonempty_member(name),
            warning_issue(
                "android.json is missing 'package' or 'name' keys."@,
                "Edit android.json to include valid 'package' and 'name' values, or delete it to let vn2apk regenerate it."@,
            ),
        )
    }
}

/// The view of what reading a member gave.
pub open spec fn member_view(m: Option<Option<String>>) -> Option<Option<Seq<char>>> {
    match m {
        Some(Some(s)) => Some(Some(s@)),
        Some(None) => Some(None),
        None => None,
    }
}

/// Whether a member that was read is a non-empty string.
fn is_nonempty_member(m: &Option<Option<String>>) -> (r: bool)
    ensures
        r == nonempty_member(member_view(*m)),
{
    match m {
        Some(Some(s)) => !s.as_str().is_empty(),
        _ => false,
    }
}

/// The warning about the game's `android.json`, from what reading its
/// `package` and `name` members gave.
pub fn android_json_warning(package: &Option<Option<String>>, name: &Option<Option<String>>) -> (r: Option<PreflightIssue>)
    ensures
        match r {
            Some(i) => json_issues(member_view(*package), member_view(*name)) == seq![issue_view(i)],
            None => json_issues(member_view(*package), member_view(*name)) == Seq::<IssueView>::empty(),
        },
{
    if package.is_none() {
        return Some(PreflightIssue::warning(
            owned("android.json exists but is not valid JSON."),
            owned("Fix or delete android.json — vn2apk will regenerate a valid one."),
        ));
    }
    if !is_nonempty_member(package) || !is_nonempty_member(name) {
        Some(PreflightIssue::warning(
            owned("android.json is missing 'package' or 'name' keys."),
            owned("Edit android.json to include valid 'package' and 'name' values, or delete it to let vn2apk regenerate it."),
        ))
    } else {
        assert(json_issues(member_view(*package), member_view(*name)) =~= Seq::<IssueView>::empty());
        None
    }
}

/// The check of the game path.
pub open spec fn game_path_issues(game_path: Seq<char>, p: PreflightProbe) -> Seq<IssueView> {
    if game_path.len() == 0 {
        seq![error_issue("No game folder selected."@, "Choose a game folder before building."@)]
    } else if !p.game_exists {
        seq![error_issue("Game folder does not exist: "@ + game_path, "Select a valid game folder."@)]
    } else if !p.game_is_dir {
        seq![error_issue("Game path is not a directory: "@ + game_path, "Select a folder, not a file."@)]
    } else {
        seq![]
    }
}

/// The check of the free space in `/tmp`.
pub open spec fn disk_issues(p: PreflightProbe) -> Seq<IssueView> {
    let free = match p.df_output {
        Some(o) => df_free_mb(o@),
        None => None,
    };
    match free {
        Some(mb) => one_if(
            mb <= 500,
            error_issue(
                "Low disk space in /tmp: "@ + decimal(mb as nat) + " MB free (need > 500 MB)."@,
                "Free up space in /tmp and try again."@,
            ),
        ),
        None => seq![
            warning_issue(
                "Could not determine free disk space in /tmp."@,
                "Ensure /tmp has at least 500 MB free before building."@,
            ),
        ],
    }
}

/// The checks of a Ren'Py build.
pub open spec fn renpy_issues(game_path: Seq<char>, settings: AppSettings, p: PreflightProbe) -> Seq<IssueView> {
    let sdk = if settings.renpy_sdk_path@.len() == 0 {
        seq![error_issue("Ren'Py SDK path is not set."@, "Set it in Settings → Ren'Py SDK."@)]
    } else {
        one_if(
            !p.renpy_sh,
            error_issue(
                "renpy.sh not found in the configured SDK path."@,
                "Check that the Ren'Py SDK path is correct."@,
            ),
        ) + one_if(
            !p.rapt_gradle,
            error_issue(
                "RAPT is not installed."@,
                "Open the Ren'Py Launcher → Android → Install SDK & Install RAPT."@,
            ),
        )
    };
    let json = if game_path.len() == 0 {
        seq![]
    } else {
        match p.android_json {
            Some(Some(text)) => json_issues(
                json_string_member(text@, "package"@),
                json_string_member(text@, "name"@),
            ),
            _ => seq![],
        }
    };
    sdk + json
}

/// The checks of an RPG Maker build.
pub open spec fn rpgmaker_issues(settings: AppSettings, p: PreflightProbe) -> Seq<IssueView> {
    let node_ok = if settings.node_path@.len() > 0 {
        p.node_path_exists
    } else {
        p.node_runs
    };
    let cordova_ok = if settings.cordova_path@.len() > 0 {
        p.cordova_path_exists
    } else {
        p.cordova_runs
    };
    one_if(
        !node_ok,
        error_issue(
            "Node.js not found."@,
            "Set Node.js path in Settings or install it via the Toolchain page."@,
        ),
    ) + one_if(
        !cordova_ok,
        error_issue(
            "Cordova not found."@,
            "Set Cordova path in Settings or install it via the Toolchain page."@,
        ),
    )
}

/// The checks of the keystore, Java and the Android SDK.
pub open spec fn core_issues(settings: AppSettings, p: PreflightProbe) -> Seq<IssueView> {
    let java_ok = (settings.java_home@.len() > 0 && p.java_home_has_java) || p.java_runs;
    one_if(
        settings.keystore_path@.len() == 0,
        error_issue(
            "Keystore path is not set."@,
            "Go to Settings → Signing and generate or select a keystore."@,
        ),
    ) + one_if(
        !java_ok,
        error_issue(
            "Java (JDK) not found."@,
            "Set JAVA_HOME in Settings or install JDK 17+ via the Toolchain page."@,
        ),
    ) + (if settings.android_sdk_path@.len() == 0 {
        seq![
            error_issue(
                "Android SDK path is not configured."@,
                "Set it in Settings → Android SDK, or install it via the Toolchain page."@,
            ),
        ]
    } else {
        one_if(
            !p.build_tools_dir,
            error_issue(
                "Android SDK build-tools/ directory not found."@,
                "Run sdkmanager to install build-tools, or re-install via the Toolchain page."@,
            ),
        )
    })
}

/// The checks of the engine: `RenPy`, or `RPGMV`/`RPGMZ`.
pub open spec fn engine_issues(engine: Seq<char>, game_path: Seq<char>, settings: AppSettings, p: PreflightProbe) -> Seq<IssueView> {
    if engine == "RenPy"@ {
        renpy_issues(game_path, settings, p)
    } else if engine == "RPGMV"@ || engine == "RPGMZ"@ {
        rpgmaker_issues(settings, p)
    } else {
        seq![]
    }
}

/// Every issue found before a build, in order: the game path, the
/// keystore, Java, the Android SDK, the free space in `/tmp`, then the
/// checks of the engine.
pub open spec fn preflight_issues(engine: Seq<char>, game_path: Seq<char>, settings: AppSettings, p: PreflightProbe) -> Seq<IssueView> {
    game_path_issues(game_path, p) + core_issues(settings, p) + disk_issues(p) + engine_issues(
        engine,
        game_path,
        settings,
        p,
    )
}

/// Adds an error.
fn push_error(issues: &mut Vec<PreflightIssue>, message: String, hint: &str)
    ensures
        issue_views(final(issues)@) == issue_views(old(issues)@).push(error_issue(message@, hint@)),
{
    let ghost before = issue_views(issues@);
    issues.push(PreflightIssue::error(message, owned(hint)));
    assert(issue_views(issues@) =~= before.push(error_issue(message@, hint@)));
}

/// Adds a warning.
fn push_warning(issues: &mut Vec<PreflightIssue>, message: &str, hint: &str)
    ensures
        issue_views(final(issues)@) == issue_views(old(issues)@).push(
            warning_issue(message@, hint@),
        ),
{
    let ghost before = issue_views(issues@);
    issues.push(PreflightIssue::warning(owned(message), owned(hint)));
    assert(issue_views(issues@) =~= before.push(warning_issue(message@, hint@)));
}

/// `prefix` followed by `rest`.
fn concat(prefix: &str, rest: &str) -> (r: String)
    ensures
        r@ == prefix@ + rest@,
{
    let mut v = chars_of(prefix);
    push_str(&mut v, rest);
    string_of(&v)
}

fn push_game_path_issues(issues: &mut Vec<PreflightIssue>, game_path: &str, p: &PreflightProbe)
    ensures
        issue_views(final(issues)@) == issue_views(old(issues)@) + game_path_issues(game_path@, *p),
{
    let ghost s0 = issue_views(issues@);
    if game_path.is_empty() {
        push_error(issues, owned("No game folder selected."), "Choose a game folder before building.");
    } else if !p.game_exists {
        push_error(issues, concat("Game folder does not exist: ", game_path), "Select a valid game folder.");
    } else if !p.game_is_dir {
        push_error(issues, concat("Game path is not a directory: ", game_path), "Select a folder, not a file.");
    }
    assert(issue_views(issues@) =~= s0 + game_path_issues(game_path@, *p));
}

fn push_core_issues(issues: &mut Vec<PreflightIssue>, settings: &AppSettings, p: &PreflightProbe)
    ensures
        issue_views(final(issues)@) == issue_views(old(issues)@) + core_issues(*settings, *p),
{
    let ghost s0 = issue_views(issues@);
    if settings.keystore_path.as_str().is_empty() {
        push_error(issues, owned("Keystore path is not set."), "Go to Settings → Signing and generate or select a keystore.");
    }
    let java_ok = (!settings.java_home.as_str().is_empty() && p.java_home_has_java) || p.java_runs;
    if !java_ok {
        push_error(issues, owned("Java (JDK) not found."), "Set JAVA_HOME in Settings or install JDK 17+ via the Toolchain page.");
    }
    if settings.android_sdk_path.as_str().is_empty() {
        push_error(issues, owned("Android SDK path is not configured."), "Set it in Settings → Android SDK, or install it via the Toolchain page.");
    } else if !p.build_tools_dir {
        push_error(issues, owned("Android SDK build-tools/ directory not found."), "Run sdkmanager to install build-tools, or re-install via the Toolchain page.");
    }
    assert(issue_views(issues@) =~= s0 + core_issues(*settings, *p));
}

fn push_disk_issues(issues: &mut Vec<PreflightIssue>, p: &PreflightProbe)
    ensures
        issue_views(final(issues)@) == issue_views(old(issues)@) + disk_issues(*p),
{
    let ghost s0 = issue_views(issues@);
    let free = match &p.df_output {
        Some(o) => tmp_free_mb(o.as_str()),
        None => None,
    };
    match free {
        Some(mb) => {
            if mb <= 500 {
                let mut m = chars_of("Low disk space in /tmp: ");
                let d = decimal_chars(mb);
                push_all(&mut m, &d);
                push_str(&mut m, " MB free (need > 500 MB).");
                push_error(issues, string_of(&m), "Free up space in /tmp and try again.");
            }
        },
        None => {
            push_warning(issues, "Could not determine free disk space in /tmp.", "Ensure /tmp has at least 500 MB free before building.");
        },
    }
    assert(issue_views(issues@) =~= s0 + disk_issues(*p));
}

fn push_renpy_issues(issues: &mut Vec<PreflightIssue>, game_path: &str, settings: &AppSettings, p: &PreflightProbe)
    ensures
        issue_views(final(issues)@) == issue_views(old(issues)@) + renpy_issues(game_path@, *settings, *p),
{
    let ghost s0 = issue_views(issues@);
    if settings.renpy_sdk_path.as_str().is_empty() {
        push_error(issues, owned("Ren'Py SDK path is not set."), "Set it in Settings → Ren'Py SDK.");
    } else {
        if !p.renpy_sh {
            push_error(issues, owned("renpy.sh not found in the configured SDK path."), "Check that the Ren'Py SDK path is correct.");
        }
        if !p.rapt_gradle {
            push_error(issues, owned("RAPT is not installed."), "Open the Ren'Py Launcher → Android → Install SDK & Install RAPT.");
        }
    }
    if !game_path.is_empty() {
        match &p.android_json {
            Some(Some(text)) => {
                let package = string_member(text.as_str(), "package");
                let name = string_member(text.as_str(), "name");
                assert(member_view(package) == json_string_member(text@, "package"@));
                assert(member_view(name) == json_string_member(text@, "name"@));
                let ghost before = issue_views(issues@);
                match android_json_warning(&package, &name) {
                    Some(i) => {
                        issues.push(i);
                        assert(issue_views(issues@) =~= before + json_issues(member_view(package), member_view(name)));
                    },
                    None => {
                        assert(issue_views(issues@) =~= before + json_issues(member_view(package), member_view(name)));
                    },
                }
            },
            _ => {},
        }
    }
    assert(issue_views(issues@) =~= s0 + renpy_issues(game_path@, *settings, *p));
}

fn push_rpgmaker_issues(issues: &mut Vec<PreflightIssue>, settings: &AppSettings, p: &PreflightProbe)
    ensures
        issue_views(final(issues)@) == issue_views(old(issues)@) + rpgmaker_issues(*settings, *p),
{
    let ghost s0 = issue_views(issues@);
    let node_ok = if !settings.node_path.as_str().is_empty() {
        p.node_path_exists
    } else {
        p.node_runs
    };
    if !node_ok {
        push_error(issues, owned("Node.js not found."), "Set Node.js path in Settings or install it via the Toolchain page.");
    }
    let cordova_ok = if !settings.cordova_path.as_str().is_empty() {
        p.cordova_path_exists
    } else {
        p.cordova_runs
    };
    if !cordova_ok {
        push_error(issues, owned("Cordova not found."), "Set Cordova path in Settings or install it via the Toolchain page.");
    }
    assert(issue_views(issues@) =~= s0 + rpgmaker_issues(*settings, *p));
}

/// Every issue found before a build: the game path, the keystore, Java,
/// the Android SDK, the free space in `/tmp`, then the checks of the
/// engine.
pub fn run_preflight(engine: &str, game_path: &str, settings: &AppSettings, p: &PreflightProbe) -> (r: Vec<PreflightIssue>)
    ensures
        issue_views(r@) == preflight_issues(engine@, game_path@, *settings, *p),
{
    let mut issues: Vec<PreflightIssue> = Vec::new();
    let ghost s0 = issue_views(issues@);
    push_game_path_issues(&mut issues, game_path, p);
    push_core_issues(&mut issues, settings, p);
    push_disk_issues(&mut issues, p);
    let ghost s3 = issue_views(issues@);
    if crate::text::str_is(engine, "RenPy") {
        push_renpy_issues(&mut issues, game_path, settings, p);
    } else if crate::text::str_is(engine, "RPGMV") || crate::text::str_is(engine, "RPGMZ") {
        push_rpgmaker_issues(&mut issues, settings, p);
    }
    assert(issue_views(issues@) =~= s3 + engine_issues(engine@, game_path@, *settings, *p));
    assert(s0 =~= Seq::<IssueView>::empty());
    assert(issue_views(issues@) =~= preflight_issues(engine@, game_path@, *settings, *p));
    issues
}

// ---------------------------------------------------------------------------
// Laws of the checks
// ---------------------------------------------------------------------------

/// The message of the missing keystore.
pub open spec fn keystore_message() -> Seq<char> {
    "Keystore path is not set."@
}

/// The messages of the three warnings; every other issue is an error.
pub open spec fn warning_messages() -> Seq<Seq<char>> {
    seq![
        "Could not determine free disk space in /tmp."@,
        "android.json is missing 'package' or 'name' keys."@,
        "android.json exists but is not valid JSON."@,
    ]
}

/// An issue is an error whose message is no warning's, or a warning with
/// one of the warning messages.
pub open spec fn well_kinded(v: IssueView) -> bool {
    ||| v.0 == "error"@ && !warning_messages().contains(v.1)
    ||| v.0 == "warning"@ && warning_messages().contains(v.1)
}

/// Every issue of the list is well kinded.
pub open spec fn all_well_kinded(s: Seq<IssueView>) -> bool {
    forall|i: int| 0 <= i < s.len() ==> well_kinded(#[trigger] s[i])
}

/// No issue of the list has the keystore message.
pub open spec fn no_keystore_issue(s: Seq<IssueView>) -> bool {
    forall|i: int| 0 <= i < s.len() ==> (#[trigger] s[i]).1 != keystore_message()
}

proof fn lemma_concat_kinds(a: Seq<IssueView>, b: Seq<IssueView>)
    ensures
        all_well_kinded(a) && all_well_kinded(b) ==> all_well_kinded(a + b),
        no_keystore_issue(a) && no_keystore_issue(b) ==> no_keystore_issue(a + b),
{
    assert forall|i: int| 0 <= i < (a + b).len() && i >= a.len() implies (a + b)[i] == b[i - a.len()] by {}
    assert forall|i: int| 0 <= i < (a + b).len() && i < a.len() implies (a + b)[i] == a[i] by {}
}

/// An error whose message starts with neither `C`, `a` nor `K` is well
/// kinded and is not the keystore issue.
proof fn lemma_plain_error(m: Seq<char>, hint: Seq<char>)
    requires
        m.len() > 0,
        m[0] != 'C' && m[0] != 'a' && m[0] != 'K',
    ensures
        well_kinded(error_issue(m, hint)),
        m != keystore_message(),
{
    reveal_strlit("Could not determine free disk space in /tmp.");
    reveal_strlit("android.json is missing 'package' or 'name' keys.");
    reveal_strlit("android.json exists but is not valid JSON.");
    reveal_strlit("Keystore path is not set.");
    let w = warning_messages();
    assert(w[0][0] == 'C' && w[1][0] == 'a' && w[2][0] == 'a');
    if w.contains(m) {
        let j = choose|j: int| 0 <= j < w.len() && w[j] == m;
        assert(m[0] == w[j][0]);
    }
    assert(keystore_message()[0] == 'K');
}

/// The first character of a message with a literal prefix.
proof fn lemma_first_of(prefix: Seq<char>, rest: Seq<char>)
    requires
        prefix.len() > 0,
    ensures
        (prefix + rest).len() > 0,
        (prefix + rest)[0] == prefix[0],
{
}

proof fn lemma_game_path_kinds(game_path: Seq<char>, p: PreflightProbe)
    ensures
        all_well_kinded(game_path_issues(game_path, p)),
        no_keystore_issue(game_path_issues(game_path, p)),
{
    reveal_strlit("No game folder selected.");
    reveal_strlit("Game folder does not exist: ");
    reveal_strlit("Game path is not a directory: ");
    lemma_plain_error("No game folder selected."@, "Choose a game folder before building."@);
    lemma_first_of("Game folder does not exist: "@, game_path);
    lemma_plain_error("Game folder does not exist: "@ + game_path, "Select a valid game folder."@);
    lemma_first_of("Game path is not a directory: "@, game_path);
    lemma_plain_error("Game path is not a directory: "@ + game_path, "Select a folder, not a file."@);
}

proof fn lemma_core_kinds(settings: AppSettings, p: PreflightProbe) -> (k: Seq<IssueView>)
    ensures
        ({
            let rest = core_issues(settings, p).skip(k.len() as int);
            &&& core_issues(settings, p) == k + rest
            &&& all_well_kinded(k)
            &&& all_well_kinded(rest)
            &&& no_keystore_issue(rest)
            &&& settings.keystore_path@.len() == 0 ==> k.len() == 1 && k[0].0 == "error"@ && k[0].1
                == keystore_message()
            &&& settings.keystore_path@.len() != 0 ==> k.len() == 0
        }),
{
    reveal_strlit("Keystore path is not set.");
    reveal_strlit("Java (JDK) not found.");
    reveal_strlit("Android SDK path is not configured.");
    reveal_strlit("Android SDK build-tools/ directory not found.");
    reveal_strlit("Could not determine free disk space in /tmp.");
    reveal_strlit("android.json is missing 'package' or 'name' keys.");
    reveal_strlit("android.json exists but is not valid JSON.");
    let w = warning_messages();
    assert(!w.contains(keystore_message())) by {
        if w.contains(keystore_message()) {
            let j = choose|j: int| 0 <= j < w.len() && w[j] == keystore_message();
            assert(keystore_message()[0] == w[j][0]);
        }
    }
    lemma_plain_error("Java (JDK) not found."@, "Set JAVA_HOME in Settings or install JDK 17+ via the Toolchain page."@);
    lemma_plain_error("Android SDK path is not configured."@, "Set it in Settings → Android SDK, or install it via the Toolchain page."@);
    lemma_plain_error("Android SDK build-tools/ directory not found."@, "Run sdkmanager to install build-tools, or re-install via the Toolchain page."@);
    let k = one_if(
        settings.keystore_path@.len() == 0,
        error_issue("Keystore path is not set."@, "Go to Settings → Signing and generate or select a keystore."@),
    );
    let java_ok = (settings.java_home@.len() > 0 && p.java_home_has_java) || p.java_runs;
    let j = one_if(
        !java_ok,
        error_issue("Java (JDK) not found."@, "Set JAVA_HOME in Settings or install JDK 17+ via the Toolchain page."@),
    );
    let a = if settings.android_sdk_path@.len() == 0 {
        seq![error_issue("Android SDK path is not configured."@, "Set it in Settings → Android SDK, or install it via the Toolchain page."@)]
    } else {
        one_if(
            !p.build_tools_dir,
            error_issue("Android SDK build-tools/ directory not found."@, "Run sdkmanager to install build-tools, or re-install via the Toolchain page."@),
        )
    };
    assert(core_issues(settings, p) == k + j + a);
    assert(core_issues(settings, p).skip(k.len() as int) =~= j + a);
    lemma_concat_kinds(j, a);
    assert(core_issues(settings, p) =~= k + (j + a));
    k
}

proof fn lemma_error_not_warning()
    ensures
        "error"@ != "warning"@,
{
    reveal_strlit("error");
    reveal_strlit("warning");
    assert("error"@.len() != "warning"@.len());
}

proof fn lemma_disk_kinds(p: PreflightProbe)
    ensures
        all_well_kinded(disk_issues(p)),
        no_keystore_issue(disk_issues(p)),
{
    reveal_strlit("Low disk space in /tmp: ");
    reveal_strlit("Could not determine free disk space in /tmp.");
    reveal_strlit("Keystore path is not set.");
    let free = match p.df_output {
        Some(o) => df_free_mb(o@),
        None => None,
    };
    match free {
        Some(mb) => {
            let rest = decimal(mb as nat) + " MB free (need > 500 MB)."@;
            lemma_first_of("Low disk space in /tmp: "@, rest);
            assert("Low disk space in /tmp: "@ + decimal(mb as nat) + " MB free (need > 500 MB)."@
                =~= "Low disk space in /tmp: "@ + rest);
            lemma_plain_error("Low disk space in /tmp: "@ + rest, "Free up space in /tmp and try again."@);
        },
        None => {
            assert(warning_messages()[0] == "Could not determine free disk space in /tmp."@);
            assert("Could not determine free disk space in /tmp."@ != keystore_message());
        },
    }
}

proof fn lemma_engine_kinds(engine: Seq<char>, game_path: Seq<char>, settings: AppSettings, p: PreflightProbe)
    ensures
        all_well_kinded(engine_issues(engine, game_path, settings, p)),
        no_keystore_issue(engine_issues(engine, game_path, settings, p)),
{
    reveal_strlit("Ren'Py SDK path is not set.");
    reveal_strlit("renpy.sh not found in the configured SDK path.");
    reveal_strlit("RAPT is not installed.");
    reveal_strlit("Node.js not found.");
    reveal_strlit("Cordova not found.");
    reveal_strlit("Could not determine free disk space in /tmp.");
    reveal_strlit("android.json is missing 'package' or 'name' keys.");
    reveal_strlit("android.json exists but is not valid JSON.");
    reveal_strlit("Keystore path is not set.");
    lemma_plain_error("Ren'Py SDK path is not set."@, "Set it in Settings → Ren'Py SDK."@);
    lemma_plain_error("renpy.sh not found in the configured SDK path."@, "Check that the Ren'Py SDK path is correct."@);
    lemma_plain_error("RAPT is not installed."@, "Open the Ren'Py Launcher → Android → Install SDK & Install RAPT."@);
    lemma_plain_error("Node.js not found."@, "Set Node.js path in Settings or install it via the Toolchain page."@);
    let w = warning_messages();
    let cm = "Cordova not found."@;
    assert(!w.contains(cm)) by {
        if w.contains(cm) {
            let j = choose|j: int| 0 <= j < w.len() && w[j] == cm;
            assert(cm.len() == w[j].len());
        }
    }
    assert(cm != keystore_message()) by {
        assert(cm[0] != keystore_message()[0]);
    }
    assert(w.contains(w[1]) && w.contains(w[2]));
    assert(w[1] != keystore_message()) by {
        assert(w[1][0] != keystore_message()[0]);
    }
    assert(w[2] != keystore_message()) by {
        assert(w[2][0] != keystore_message()[0]);
    }
    if engine == "RenPy"@ {
        let sdk = if settings.renpy_sdk_path@.len() == 0 {
            seq![error_issue("Ren'Py SDK path is not set."@, "Set it in Settings → Ren'Py SDK."@)]
        } else {
            one_if(
                !p.renpy_sh,
                error_issue("renpy.sh not found in the configured SDK path."@, "Check that the Ren'Py SDK path is correct."@),
            ) + one_if(
                !p.rapt_gradle,
                error_issue("RAPT is not installed."@, "Open the Ren'Py Launcher → Android → Install SDK & Install RAPT."@),
            )
        };
        let json = if game_path.len() == 0 {
            seq![]
        } else {
            match p.android_json {
                Some(Some(text)) => json_issues(
                    json_string_member(text@, "package"@),
                    json_string_member(text@, "name"@),
                ),
                _ => seq![],
            }
        };
        assert(renpy_issues(game_path, settings, p) == sdk + json);
        lemma_concat_kinds(sdk, json);
    } else if engine == "RPGMV"@ || engine == "RPGMZ"@ {
    }
}

/// Every issue found before a build is an error or a warning; the warnings
/// are exactly the issues with one of the three warning messages (no free
/// space known, `android.json` without its keys, `android.json` not JSON);
/// and the keystore error is among them exactly when no keystore path is
/// set.
#[verifier::rlimit(40)]
pub proof fn lemma_preflight_kinds(engine: Seq<char>, game_path: Seq<char>, settings: AppSettings, p: PreflightProbe)
    ensures
        ({
            let v = preflight_issues(engine, game_path, settings, p);
            &&& forall|i: int| 0 <= i < v.len() ==> (#[trigger] v[i]).0 == "error"@ || v[i].0 == "warning"@
            &&& forall|i: int| 0 <= i < v.len() ==> ((#[trigger] v[i]).0 == "warning"@ <==> warning_messages().contains(v[i].1))
            &&& (settings.keystore_path@.len() == 0 <==> exists|i: int|
                0 <= i < v.len() && (#[trigger] v[i]).0 == "error"@ && v[i].1 == keystore_message())
        }),
{
    lemma_error_not_warning();
    let g = game_path_issues(game_path, p);
    let c = core_issues(settings, p);
    let d = disk_issues(p);
    let e = engine_issues(engine, game_path, settings, p);
    lemma_game_path_kinds(game_path, p);
    let k = lemma_core_kinds(settings, p);
    lemma_disk_kinds(p);
    lemma_engine_kinds(engine, game_path, settings, p);
    let rest = c.skip(k.len() as int);
    let tail = rest + d + e;
    lemma_concat_kinds(rest, d);
    lemma_concat_kinds(rest + d, e);
    lemma_concat_kinds(k, tail);
    lemma_concat_kinds(g, k + tail);
    let v = preflight_issues(engine, game_path, settings, p);
    assert(v == g + c + d + e);
    assert(v =~= g + (k + tail));
    assert forall|i: int| 0 <= i < v.len() implies (#[trigger] v[i]).0 == "error"@ || v[i].0 == "warning"@ by {
        assert(well_kinded(v[i]));
    }
    assert forall|i: int| 0 <= i < v.len() implies ((#[trigger] v[i]).0 == "warning"@ <==> warning_messages().contains(v[i].1)) by {
        assert(well_kinded(v[i]));
    }
    if settings.keystore_path@.len() == 0 {
        assert(v[g.len() as int] == k[0]);
    } else {
        assert(k + tail =~= tail);
        lemma_concat_kinds(g, tail);
        assert(no_keystore_issue(v));
    }
}


/// The checks common to every engine: the game path, the keystore, Java,
/// the Android SDK and the free space in `/tmp`.
pub open spec fn common_issues(game_path: Seq<char>, settings: AppSettings, p: PreflightProbe) -> Seq<IssueView> {
    game_path_issues(game_path, p) + core_issues(settings, p) + disk_issues(p)
}

/// An RPG Maker build, MV as well as MZ, is checked for Node.js and Cordova
/// after the common checks: "Node.js not found." exactly when Node.js is
/// missing (the configured path does not exist or, with no path set,
/// `node` does not run), then "Cordova not found." exactly when Cordova is
/// missing in the same sense.  MV and MZ get the same issues.
pub proof fn lemma_rpgmaker_needs_node_and_cordova(
    engine: Seq<char>,
    game_path: Seq<char>,
    settings: AppSettings,
    p: PreflightProbe,
)
    requires
        engine == "RPGMV"@ || engine == "RPGMZ"@,
    ensures
        ({
            let node_missing = if settings.node_path@.len() > 0 {
                !p.node_path_exists
            } else {
                !p.node_runs
            };
            let cordova_missing = if settings.cordova_path@.len() > 0 {
                !p.cordova_path_exists
            } else {
                !p.cordova_runs
            };
            let node = error_issue(
                "Node.js not found."@,
                "Set Node.js path in Settings or install it via the Toolchain page."@,
            );
            let cordova = error_issue(
                "Cordova not found."@,
                "Set Cordova path in Settings or install it via the Toolchain page."@,
            );
            &&& preflight_issues(engine, game_path, settings, p) == common_issues(game_path, settings, p)
                + (if node_missing {
                seq![node]
            } else {
                seq![]
            }) + (if cordova_missing {
                seq![cordova]
            } else {
                seq![]
            })
            &&& preflight_issues(engine, game_path, settings, p) == preflight_issues(
                "RPGMZ"@,
                game_path,
                settings,
                p,
            )
        }),
{
    reveal_strlit("RPGMV");
    reveal_strlit("RPGMZ");
    reveal_strlit("RenPy");
    assert("RPGMV"@[1] != "RenPy"@[1]);
    assert("RPGMZ"@[1] != "RenPy"@[1]);
    let node_missing = if settings.node_path@.len() > 0 {
        !p.node_path_exists
    } else {
        !p.node_runs
    };
    let cordova_missing = if settings.cordova_path@.len() > 0 {
        !p.cordova_path_exists
    } else {
        !p.cordova_runs
    };
    let node = error_issue("Node.js not found."@, "Set Node.js path in Settings or install it via the Toolchain page."@);
    let cordova = error_issue("Cordova not found."@, "Set Cordova path in Settings or install it via the Toolchain page."@);
    assert(rpgmaker_issues(settings, p) =~= (if node_missing {
        seq![node]
    } else {
        seq![]
    }) + (if cordova_missing {
        seq![cordova]
    } else {
        seq![]
    }));
    assert(preflight_issues(engine, game_path, settings, p) =~= common_issues(game_path, settings, p)
        + rpgmaker_issues(settings, p));
}

/// An engine other than Ren'Py and RPG Maker (TyranoBuilder) gets the
/// common checks only.
pub proof fn lemma_other_engines_common_only(
    engine: Seq<char>,
    game_path: Seq<char>,
    settings: AppSettings,
    p: PreflightProbe,
)
    requires
        engine != "RenPy"@,
        engine != "RPGMV"@,
        engine != "RPGMZ"@,
    ensures
        preflight_issues(engine, game_path, settings, p) == common_issues(game_path, settings, p),
{
    assert(preflight_issues(engine, game_path, settings, p) =~= common_issues(game_path, settings, p));
}


/// The common checks, in order.  The game path: none chosen, missing, or
/// not a folder (one error at most).  The keystore: an error exactly when
/// no path is set.  Java: an error exactly when neither the configured
/// Java home holds `bin/java` nor `java` runs.  The Android SDK: an error
/// when no path is set, else one when it has no `build-tools/`.  Then the
/// free space in `/tmp`.
pub proof fn lemma_common_checks(game_path: Seq<char>, settings: AppSettings, p: PreflightProbe)
    ensures
        ({
            let java_found = (settings.java_home@.len() > 0 && p.java_home_has_java) || p.java_runs;
            let path = if game_path.len() == 0 {
                seq![error_issue("No game folder selected."@, "Choose a game folder before building."@)]
            } else if !p.game_exists {
                seq![error_issue("Game folder does not exist: "@ + game_path, "Select a valid game folder."@)]
            } else if !p.game_is_dir {
                seq![error_issue("Game path is not a directory: "@ + game_path, "Select a folder, not a file."@)]
            } else {
                seq![]
            };
            let keystore = if settings.keystore_path@.len() == 0 {
                seq![error_issue("Keystore path is not set."@, "Go to Settings → Signing and generate or select a keystore."@)]
            } else {
                seq![]
            };
            let java = if !java_found {
                seq![error_issue("Java (JDK) not found."@, "Set JAVA_HOME in Settings or install JDK 17+ via the Toolchain page."@)]
            } else {
                seq![]
            };
            let sdk = if settings.android_sdk_path@.len() == 0 {
                seq![error_issue("Android SDK path is not configured."@, "Set it in Settings → Android SDK, or install it via the Toolchain page."@)]
            } else if !p.build_tools_dir {
                seq![error_issue("Android SDK build-tools/ directory not found."@, "Run sdkmanager to install build-tools, or re-install via the Toolchain page."@)]
            } else {
                seq![]
            };
            common_issues(game_path, settings, p) == path + keystore + java + sdk + disk_issues(p)
        }),
{
    assert(common_issues(game_path, settings, p) =~= game_path_issues(game_path, p) + core_issues(settings, p)
        + disk_issues(p));
}


/// The free-space check: with the free space of `/tmp` known, one error
/// exactly when it is 500 MB or less (more than 500 MB is needed), naming
/// the free space; with it unknown, one warning.
pub proof fn lemma_disk_check(p: PreflightProbe)
    ensures
        ({
            let free = match p.df_output {
                Some(o) => df_free_mb(o@),
                None => None,
            };
            &&& free is None ==> disk_issues(p) == seq![
                warning_issue(
                    "Could not determine free disk space in /tmp."@,
                    "Ensure /tmp has at least 500 MB free before building."@,
                ),
            ]
            &&& forall|mb: u64| free == Some(mb) ==> (disk_issues(p).len() == 1 <==> mb <= 500)
                && (disk_issues(p).len() == 0 <==> mb > 500)
            &&& forall|mb: u64| free == Some(mb) && mb <= 500 ==> disk_issues(p)[0] == error_issue(
                "Low disk space in /tmp: "@ + decimal(mb as nat) + " MB free (need > 500 MB)."@,
                "Free up space in /tmp and try again."@,
            )
        }),
{
}

} // verus!
