//! The installation of missing tools, and the signing keystore.
use vstd::prelude::*;
use crate::paths::owned;
use crate::settings::{
    build_tools_field, copy_settings, cordova_field, gradle_field, java_field, node_field,
    renpy_field, sdk_field, settings_fields, AppSettings,
};
use crate::text::{chars_of, push_all, push_str, starts_with, string_of, string_views, sub_chars, trim, trim_chars};

verus! {

/// A piece of the gradle installation script.
pub const GRADLE_SCRIPT_0: &'static str = "set -e\nmkdir -p \"";

/// A piece of the gradle installation script.
pub const GRADLE_SCRIPT_1: &'static str = "/gradle\"\necho \"Downloading Gradle 8.7...\"\ncurl --silent --show-error -L -o /tmp/gradle-8.7-bin.zip \"https://services.gradle.org/distributions/gradle-8.7-bin.zip\"\necho \"Extracting Gradle 8.7...\"\nunzip -q /tmp/gradle-8.7-bin.zip -d \"";

/// A piece of the gradle installation script.
pub const GRADLE_SCRIPT_2: &'static str = "/gradle/\"\nrm -f /tmp/gradle-8.7-bin.zip\necho \"Done: Gradle 8.7 installed to ";

/// A piece of the gradle installation script.
pub const GRADLE_SCRIPT_3: &'static str = "/gradle/gradle-8.7\"\n";

/// A piece of the sdk installation script.
pub const SDK_SCRIPT_0: &'static str = "set -e\n";

/// A piece of the sdk installation script.
pub const SDK_SCRIPT_1: &'static str = "\nmkdir -p \"";

/// A piece of the sdk installation script.
pub const SDK_SCRIPT_2: &'static str = "/android-sdk/cmdline-tools\"\necho \"Downloading Android cmdline-tools...\"\ncurl --silent --show-error -L -o /tmp/cmdline-tools.zip \"https://dl.google.com/android/repository/commandlinetools-linux-11076708_latest.zip\"\necho \"Extracting cmdline-tools...\"\nunzip -q /tmp/cmdline-tools.zip -d \"";

/// A piece of the sdk installation script.
pub const SDK_SCRIPT_3: &'static str = "/android-sdk/cmdline-tools/\"\nif [ -d \"";

/// A piece of the sdk installation script.
pub const SDK_SCRIPT_4: &'static str = "/android-sdk/cmdline-tools/cmdline-tools\" ]; then\n  mv \"";

/// A piece of the sdk installation script.
pub const SDK_SCRIPT_5: &'static str = "/android-sdk/cmdline-tools/cmdline-tools\" \"";

/// A piece of the sdk installation script.
pub const SDK_SCRIPT_6: &'static str = "/android-sdk/cmdline-tools/latest\"\nfi\nrm -f /tmp/cmdline-tools.zip\nSDKMANAGER=\"";

/// A piece of the sdk installation script.
pub const SDK_SCRIPT_7: &'static str = "/android-sdk/cmdline-tools/latest/bin/sdkmanager\"\necho \"Accepting SDK licenses...\"\nyes | \"$SDKMANAGER\" --sdk_root=\"";

/// A piece of the sdk installation script.
pub const SDK_SCRIPT_8: &'static str = "/android-sdk\" --licenses >/dev/null 2>&1 || true\necho \"Installing platform-tools, build-tools;34.0.0, platforms;android-34 (this may take a while)...\"\n\"$SDKMANAGER\" --sdk_root=\"";

/// A piece of the sdk installation script.
pub const SDK_SCRIPT_9: &'static str = "/android-sdk\" \"platform-tools\" \"build-tools;34.0.0\" \"platforms;android-34\"\necho \"Done: Android SDK installed to ";

/// A piece of the sdk installation script.
pub const SDK_SCRIPT_10: &'static str = "/android-sdk\"\n";

/// A piece of the jdk installation script.
pub const JDK_SCRIPT_0: &'static str = "set -e\nmkdir -p \"";

/// A piece of the jdk installation script.
pub const JDK_SCRIPT_1: &'static str = "/jdk\"\necho \"Downloading JDK 21 (Eclipse Temurin)...\"\ncurl --silent --show-error -L -o /tmp/jdk21.tar.gz \"https://api.adoptium.net/v3/binary/latest/21/ga/linux/x64/jdk/hotspot/normal/eclipse\"\necho \"Extracting JDK 21...\"\ntar -xzf /tmp/jdk21.tar.gz --strip-components=1 -C \"";

/// A piece of the jdk installation script.
pub const JDK_SCRIPT_2: &'static str = "/jdk/\"\nrm -f /tmp/jdk21.tar.gz\necho \"Done: JDK 21 installed to ";

/// A piece of the jdk installation script.
pub const JDK_SCRIPT_3: &'static str = "/jdk\"\n";

/// A piece of the node installation script.
pub const NODE_SCRIPT_0: &'static str = "set -e\nmkdir -p \"";

/// A piece of the node installation script.
pub const NODE_SCRIPT_1: &'static str = "/nodejs\"\necho \"Downloading Node.js 20 LTS...\"\ncurl --silent --show-error -L -o /tmp/node.tar.gz \"https://nodejs.org/dist/v20.18.1/node-v20.18.1-linux-x64.tar.gz\"\necho \"Extracting Node.js...\"\ntar -xzf /tmp/node.tar.gz --strip-components=1 -C \"";

/// A piece of the node installation script.
pub const NODE_SCRIPT_2: &'static str = "/nodejs/\"\nrm -f /tmp/node.tar.gz\necho \"Done: Node.js installed to ";

/// A piece of the node installation script.
pub const NODE_SCRIPT_3: &'static str = "/nodejs/bin/node\"\n";

/// A piece of the renpy installation script.
pub const RENPY_SCRIPT_0: &'static str = "set -e\necho \"Downloading Ren'Py SDK 8.5.2 (~300 MB)...\"\ncurl --silent --show-error -L -o /tmp/renpy-8.5.2-sdk.tar.bz2 \"https://www.renpy.org/dl/8.5.2/renpy-8.5.2-sdk.tar.bz2\"\necho \"Extracting Ren'Py SDK...\"\ntar -xjf /tmp/renpy-8.5.2-sdk.tar.bz2 -C \"";

/// A piece of the renpy installation script.
pub const RENPY_SCRIPT_1: &'static str = "/\"\nrm -f /tmp/renpy-8.5.2-sdk.tar.bz2\nchmod +x \"";

/// A piece of the renpy installation script.
pub const RENPY_SCRIPT_2: &'static str = "/renpy-8.5.2-sdk/renpy.sh\" 2>/dev/null || true\necho \"Done: Ren'Py SDK installed to ";

/// A piece of the renpy installation script.
pub const RENPY_SCRIPT_3: &'static str = "/renpy-8.5.2-sdk\"\n";

/// A script with the home folder in three places.
pub open spec fn fill_home(p0: Seq<char>, p1: Seq<char>, p2: Seq<char>, p3: Seq<char>, h: Seq<char>) -> Seq<char> {
    p0 + h + p1 + h + p2 + h + p3
}

/// A script with the home folder in three places.
fn fill_home_exec(p0: &str, p1: &str, p2: &str, p3: &str, h: &str) -> (r: String)
    ensures
        r@ == fill_home(p0@, p1@, p2@, p3@, h@),
{
    let mut s = chars_of(p0);
    push_str(&mut s, h);
    push_str(&mut s, p1);
    push_str(&mut s, h);
    push_str(&mut s, p2);
    push_str(&mut s, h);
    push_str(&mut s, p3);
    string_of(&s)
}

/// The line that gives `sdkmanager` the configured Java, if any.
pub open spec fn java_env_line(java_home: Seq<char>) -> Seq<char> {
    if java_home.len() > 0 {
        "export JAVA_HOME='"@ + java_home + "'; export PATH=\"$JAVA_HOME/bin:$PATH\";"@
    } else {
        Seq::<char>::empty()
    }
}

/// The script that installs the Android command-line tools and SDK.
pub open spec fn sdk_script(java_home: Seq<char>, h: Seq<char>) -> Seq<char> {
    SDK_SCRIPT_0@ + java_env_line(java_home) + SDK_SCRIPT_1@ + h + SDK_SCRIPT_2@ + h
        + SDK_SCRIPT_3@ + h + SDK_SCRIPT_4@ + h + SDK_SCRIPT_5@ + h + SDK_SCRIPT_6@ + h
        + SDK_SCRIPT_7@ + h + SDK_SCRIPT_8@ + h + SDK_SCRIPT_9@ + h + SDK_SCRIPT_10@
}

/// The script that installs the Android command-line tools and SDK.
fn sdk_script_exec(java_home: &str, h: &str) -> (r: String)
    ensures
        r@ == sdk_script(java_home@, h@),
{
    let java_env = if !java_home.is_empty() {
        let mut j = chars_of("export JAVA_HOME='");
        push_str(&mut j, java_home);
        push_str(&mut j, "'; export PATH=\"$JAVA_HOME/bin:$PATH\";");
        j
    } else {
        Vec::new()
    };
    let mut s = chars_of(SDK_SCRIPT_0);
    push_all(&mut s, &java_env);
    push_str(&mut s, SDK_SCRIPT_1);
    push_str(&mut s, h);
    push_str(&mut s, SDK_SCRIPT_2);
    push_str(&mut s, h);
    push_str(&mut s, SDK_SCRIPT_3);
    push_str(&mut s, h);
    push_str(&mut s, SDK_SCRIPT_4);
    push_str(&mut s, h);
    push_str(&mut s, SDK_SCRIPT_5);
    push_str(&mut s, h);
    push_str(&mut s, SDK_SCRIPT_6);
    push_str(&mut s, h);
    push_str(&mut s, SDK_SCRIPT_7);
    push_str(&mut s, h);
    push_str(&mut s, SDK_SCRIPT_8);
    push_str(&mut s, h);
    push_str(&mut s, SDK_SCRIPT_9);
    push_str(&mut s, h);
    push_str(&mut s, SDK_SCRIPT_10);
    string_of(&s)
}

/// How a tool is installed.
pub enum InstallPlan {
    /// Run `npm install -g cordova`, then look for the installed command.
    InstallCordova,
    /// Run `script` with `bash -c`; on success the settings become `updated`.
    RunScript { script: String, updated: AppSettings },
    /// The tool cannot be installed from here; the reason.
    Refused(String),
    /// Nothing is known about installing the tool; a log line says so.
    NotAvailable(String),
}

/// An installation plan as plain values.
pub enum PlanView {
    InstallCordova,
    RunScript(Seq<char>, Seq<Seq<char>>),
    Refused(Seq<char>),
    NotAvailable(Seq<char>),
}

/// The view of a plan.
pub open spec fn plan_view(p: InstallPlan) -> PlanView {
    match p {
        InstallPlan::InstallCordova => PlanView::InstallCordova,
        InstallPlan::RunScript { script, updated } => PlanView::RunScript(script@, settings_fields(updated)),
        InstallPlan::Refused(m) => PlanView::Refused(m@),
        InstallPlan::NotAvailable(m) => PlanView::NotAvailable(m@),
    }
}

/// The installation of each tool: `cordova` with npm; Gradle 8.7, the
/// Android SDK, JDK 21, Node.js 20 and the Ren'Py SDK 8.5.2 by a download
/// script into the home folder `h`, with the matching setting pointed at
/// the result; RAPT is refused (it comes with the Ren'Py launcher); any
/// other name has no installer.
pub open spec fn install_plan_spec(tool: Seq<char>, settings: AppSettings, h: Seq<char>) -> PlanView {
    let f = settings_fields(settings);
    if tool == "cordova"@ {
        PlanView::InstallCordova
    } else if tool == "gradle"@ {
        PlanView::RunScript(
            fill_home(GRADLE_SCRIPT_0@, GRADLE_SCRIPT_1@, GRADLE_SCRIPT_2@, GRADLE_SCRIPT_3@, h),
            f.update(gradle_field(), h + "/gradle/gradle-8.7"@),
        )
    } else if tool == "android-cmdline-tools"@ {
        PlanView::RunScript(
            sdk_script(settings.java_home@, h),
            if settings.build_tools_version@.len() == 0 {
                f.update(sdk_field(), h + "/android-sdk"@).update(build_tools_field(), "34.0.0"@)
            } else {
                f.update(sdk_field(), h + "/android-sdk"@)
            },
        )
    } else if tool == "jdk"@ {
        PlanView::RunScript(
            fill_home(JDK_SCRIPT_0@, JDK_SCRIPT_1@, JDK_SCRIPT_2@, JDK_SCRIPT_3@, h),
            f.update(java_field(), h + "/jdk"@),
        )
    } else if tool == "node"@ {
        PlanView::RunScript(
            fill_home(NODE_SCRIPT_0@, NODE_SCRIPT_1@, NODE_SCRIPT_2@, NODE_SCRIPT_3@, h),
            f.update(node_field(), h + "/nodejs/bin/node"@),
        )
    } else if tool == "renpy-sdk"@ {
        PlanView::RunScript(
            fill_home(RENPY_SCRIPT_0@, RENPY_SCRIPT_1@, RENPY_SCRIPT_2@, RENPY_SCRIPT_3@, h),
            f.update(renpy_field(), h + "/renpy-8.5.2-sdk"@),
        )
    } else if tool == "rapt"@ {
        PlanView::Refused(
            "RAPT must be installed via the Ren'Py Launcher: open renpy.sh, go to Android → Install SDK."@,
        )
    } else {
        PlanView::NotAvailable("No auto-install available for '"@ + tool + "'."@)
    }
}

/// `a` followed by `b`.
fn cat(a: &str, b: &str) -> (r: String)
    ensures
        r@ == a@ + b@,
{
    let mut v = chars_of(a);
    push_str(&mut v, b);
    string_of(&v)
}

/// How to install the tool `tool_name`; `h` is the home folder (`/tmp` when
/// `HOME` is unset).
pub fn install_plan(tool_name: &str, settings: &AppSettings, h: &str) -> (r: InstallPlan)
    ensures
        plan_view(r) == install_plan_spec(tool_name@, *settings, h@),
{
    let ghost f = settings_fields(*settings);
    let is = |lit: &str| -> (b: bool)
        ensures
            b == (tool_name@ == lit@),
        { crate::text::str_is(tool_name, lit) };
    if is("cordova") {
        return InstallPlan::InstallCordova;
    }
    let mut updated = copy_settings(settings);
    assert(settings_fields(updated) == f);
    if is("gradle") {
        updated.gradle_home = cat(h, "/gradle/gradle-8.7");
        assert(settings_fields(updated) =~= f.update(gradle_field(), h@ + "/gradle/gradle-8.7"@));
        let script = fill_home_exec(GRADLE_SCRIPT_0, GRADLE_SCRIPT_1, GRADLE_SCRIPT_2, GRADLE_SCRIPT_3, h);
        return InstallPlan::RunScript { script, updated };
    }
    if is("android-cmdline-tools") {
        let script = sdk_script_exec(settings.java_home.as_str(), h);
        updated.android_sdk_path = cat(h, "/android-sdk");
        if updated.build_tools_version.as_str().is_empty() {
            updated.build_tools_version = owned("34.0.0");
            assert(settings_fields(updated) =~= f.update(sdk_field(), h@ + "/android-sdk"@).update(
                build_tools_field(),
                "34.0.0"@,
            ));
        } else {
            assert(settings_fields(updated) =~= f.update(sdk_field(), h@ + "/android-sdk"@));
        }
        return InstallPlan::RunScript { script, updated };
    }
    if is("jdk") {
        updated.java_home = cat(h, "/jdk");
        assert(settings_fields(updated) =~= f.update(java_field(), h@ + "/jdk"@));
        let script = fill_home_exec(JDK_SCRIPT_0, JDK_SCRIPT_1, JDK_SCRIPT_2, JDK_SCRIPT_3, h);
        return InstallPlan::RunScript { script, updated };
    }
    if is("node") {
        updated.node_path = cat(h, "/nodejs/bin/node");
        assert(settings_fields(updated) =~= f.update(node_field(), h@ + "/nodejs/bin/node"@));
        let script = fill_home_exec(NODE_SCRIPT_0, NODE_SCRIPT_1, NODE_SCRIPT_2, NODE_SCRIPT_3, h);
        return InstallPlan::RunScript { script, updated };
    }
    if is("renpy-sdk") {
        updated.renpy_sdk_path = cat(h, "/renpy-8.5.2-sdk");
        assert(settings_fields(updated) =~= f.update(renpy_field(), h@ + "/renpy-8.5.2-sdk"@));
        let script = fill_home_exec(RENPY_SCRIPT_0, RENPY_SCRIPT_1, RENPY_SCRIPT_2, RENPY_SCRIPT_3, h);
        return InstallPlan::RunScript { script, updated };
    }
    if is("rapt") {
        return InstallPlan::Refused(
            owned("RAPT must be installed via the Ren'Py Launcher: open renpy.sh, go to Android → Install SDK."),
        );
    }
    let mut m = chars_of("No auto-install available for '");
    push_str(&mut m, tool_name);
    push_str(&mut m, "'.");
    InstallPlan::NotAvailable(string_of(&m))
}

/// The arguments of `npm` that install Cordova.
pub fn npm_cordova_args() -> (r: Vec<String>)
    ensures
        string_views(r@) == seq!["install"@, "-g"@, "cordova"@],
{
    let r = vec![owned("install"), owned("-g"), owned("cordova")];
    assert(string_views(r@) =~= seq!["install"@, "-g"@, "cordova"@]);
    r
}

/// The settings after Cordova was installed: `located` is what `which
/// cordova` printed; when it is blank, nothing changes.
pub open spec fn cordova_installed(settings: AppSettings, located: Seq<char>) -> Option<Seq<Seq<char>>> {
    if trim(located).len() > 0 {
        Some(settings_fields(settings).update(cordova_field(), trim(located)))
    } else {
        None
    }
}

/// The settings after Cordova was installed, or `None` when it was not
/// found.
pub fn cordova_install_result(settings: &AppSettings, located: &str) -> (r: Option<AppSettings>)
    ensures
        match r {
            Some(u) => cordova_installed(*settings, located@) == Some(settings_fields(u)),
            None => cordova_installed(*settings, located@) is None,
        },
{
    let l = chars_of(located);
    let t = trim_chars(&l);
    if t.len() == 0 {
        return None;
    }
    let mut updated = copy_settings(settings);
    updated.cordova_path = string_of(&t);
    assert(settings_fields(updated) =~= settings_fields(*settings).update(cordova_field(), t@));
    Some(updated)
}

/// A keystore path with a leading `~` standing for the home folder.
pub open spec fn expanded_path(path: Seq<char>, home: Seq<char>) -> Seq<char> {
    if path.len() > 0 && path[0] == '~' {
        home + path.skip(1)
    } else {
        path
    }
}

/// A keystore path with a leading `~` replaced by the home folder.
pub fn expand_home(path: &str, home: &str) -> (r: String)
    ensures
        r@ == expanded_path(path@, home@),
{
    let p = chars_of(path);
    if p.len() > 0 && p[0] == '~' {
        let mut out = chars_of(home);
        let rest = sub_chars(&p, 1, p.len());
        push_all(&mut out, &rest);
        assert(rest@ =~= p@.skip(1));
        string_of(&out)
    } else {
        owned(path)
    }
}

/// The arguments of `keytool` that make a 2048-bit RSA key valid for 10000
/// days.
pub open spec fn keytool_args_spec(keystore: Seq<char>, alias: Seq<char>, storepass: Seq<char>, keypass: Seq<char>, dname: Seq<char>) -> Seq<Seq<char>> {
    seq![
        "-genkeypair"@,
        "-keystore"@,
        keystore,
        "-alias"@,
        alias,
        "-keyalg"@,
        "RSA"@,
        "-keysize"@,
        "2048"@,
        "-validity"@,
        "10000"@,
        "-storepass"@,
        storepass,
        "-keypass"@,
        keypass,
        "-dname"@,
        dname,
        "-noprompt"@,
    ]
}

/// The arguments of `keytool` that make the signing key.
pub fn keytool_args(keystore: &str, alias: &str, storepass: &str, keypass: &str, dname: &str) -> (r: Vec<String>)
    ensures
        string_views(r@) == keytool_args_spec(keystore@, alias@, storepass@, keypass@, dname@),
{
    let r = vec![
        owned("-genkeypair"),
        owned("-keystore"),
        owned(keystore),
        owned("-alias"),
        owned(alias),
        owned("-keyalg"),
        owned("RSA"),
        owned("-keysize"),
        owned("2048"),
        owned("-validity"),
        owned("10000"),
        owned("-storepass"),
        owned(storepass),
        owned("-keypass"),
        owned(keypass),
        owned("-dname"),
        owned(dname),
        owned("-noprompt"),
    ];
    assert(string_views(r@) =~= keytool_args_spec(keystore@, alias@, storepass@, keypass@, dname@));
    r
}

} // verus!
