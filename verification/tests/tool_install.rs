use vn2apk::settings::AppSettings;
use vn2apk::toolchain::install::{cordova_install_result, expand_home, install_plan, keytool_args, npm_cordova_args, InstallPlan};

fn s(x: &str) -> String {
    x.to_string()
}

fn script_of(plan: InstallPlan) -> (String, AppSettings) {
    match plan {
        InstallPlan::RunScript { script, updated } => (script, updated),
        _ => panic!("expected a script"),
    }
}

#[test]
fn gradle_script_and_settings() {
    let h = "/home/u";
    let (script, updated) = script_of(install_plan("gradle", &AppSettings::default(), h));
    let want = format!(
        r#"set -e
mkdir -p "{h}/gradle"
echo "Downloading Gradle 8.7..."
curl --silent --show-error -L -o /tmp/gradle-8.7-bin.zip "https://services.gradle.org/distributions/gradle-8.7-bin.zip"
echo "Extracting Gradle 8.7..."
unzip -q /tmp/gradle-8.7-bin.zip -d "{h}/gradle/"
rm -f /tmp/gradle-8.7-bin.zip
echo "Done: Gradle 8.7 installed to {h}/gradle/gradle-8.7"
"#
    );
    assert_eq!(script, want);
    assert_eq!(updated.gradle_home, "/home/u/gradle/gradle-8.7");
    assert_eq!(updated.keystore_alias, "key0");
}

#[test]
fn sdk_script_wires_java_home() {
    let h = "/home/u";
    let mut st = AppSettings::default();
    st.java_home = s("/jdk");
    st.build_tools_version = s("");
    let (script, updated) = script_of(install_plan("android-cmdline-tools", &st, h));
    let java_env = "export JAVA_HOME='/jdk'; export PATH=\"$JAVA_HOME/bin:$PATH\";";
    let want = format!(
        r#"set -e
{java_env}
mkdir -p "{h}/android-sdk/cmdline-tools"
echo "Downloading Android cmdline-tools..."
curl --silent --show-error -L -o /tmp/cmdline-tools.zip "https://dl.google.com/android/repository/commandlinetools-linux-11076708_latest.zip"
echo "Extracting cmdline-tools..."
unzip -q /tmp/cmdline-tools.zip -d "{h}/android-sdk/cmdline-tools/"
if [ -d "{h}/android-sdk/cmdline-tools/cmdline-tools" ]; then
  mv "{h}/android-sdk/cmdline-tools/cmdline-tools" "{h}/android-sdk/cmdline-tools/latest"
fi
rm -f /tmp/cmdline-tools.zip
SDKMANAGER="{h}/android-sdk/cmdline-tools/latest/bin/sdkmanager"
echo "Accepting SDK licenses..."
yes | "$SDKMANAGER" --sdk_root="{h}/android-sdk" --licenses >/dev/null 2>&1 || true
echo "Installing platform-tools, build-tools;34.0.0, platforms;android-34 (this may take a while)..."
"$SDKMANAGER" --sdk_root="{h}/android-sdk" "platform-tools" "build-tools;34.0.0" "platforms;android-34"
echo "Done: Android SDK installed to {h}/android-sdk"
"#
    );
    assert_eq!(script, want);
    assert_eq!(updated.android_sdk_path, "/home/u/android-sdk");
    assert_eq!(updated.build_tools_version, "34.0.0");
    assert_eq!(updated.java_home, "/jdk");

    let (script, updated) = script_of(install_plan("android-cmdline-tools", &AppSettings::default(), h));
    assert!(script.starts_with("set -e\n\nmkdir -p \"/home/u/android-sdk/cmdline-tools\"\n"));
    assert_eq!(updated.build_tools_version, "34.0.0");
    let mut st = AppSettings::default();
    st.build_tools_version = s("35.0.0");
    let (_, updated) = script_of(install_plan("android-cmdline-tools", &st, h));
    assert_eq!(updated.build_tools_version, "35.0.0");
}

#[test]
fn jdk_node_renpy_paths() {
    let h = "/h";
    let (script, updated) = script_of(install_plan("jdk", &AppSettings::default(), h));
    assert!(script.ends_with("echo \"Done: JDK 21 installed to /h/jdk\"\n"));
    assert_eq!(updated.java_home, "/h/jdk");
    let (script, updated) = script_of(install_plan("node", &AppSettings::default(), h));
    assert!(script.contains("tar -xzf /tmp/node.tar.gz --strip-components=1 -C \"/h/nodejs/\"\n"));
    assert_eq!(updated.node_path, "/h/nodejs/bin/node");
    let (script, updated) = script_of(install_plan("renpy-sdk", &AppSettings::default(), h));
    assert!(script.contains("chmod +x \"/h/renpy-8.5.2-sdk/renpy.sh\" 2>/dev/null || true\n"));
    assert_eq!(updated.renpy_sdk_path, "/h/renpy-8.5.2-sdk");
}

#[test]
fn cordova_rapt_and_unknown() {
    assert!(matches!(install_plan("cordova", &AppSettings::default(), "/h"), InstallPlan::InstallCordova));
    match install_plan("rapt", &AppSettings::default(), "/h") {
        InstallPlan::Refused(m) => assert_eq!(
            m,
            "RAPT must be installed via the Ren'Py Launcher: open renpy.sh, go to Android → Install SDK."
        ),
        _ => panic!("expected a refusal"),
    }
    match install_plan("zig", &AppSettings::default(), "/h") {
        InstallPlan::NotAvailable(m) => assert_eq!(m, "No auto-install available for 'zig'."),
        _ => panic!("expected no plan"),
    }
    assert_eq!(npm_cordova_args(), vec!["install", "-g", "cordova"]);
}

#[test]
fn cordova_result_uses_trimmed_location() {
    let st = AppSettings::default();
    let updated = cordova_install_result(&st, "/usr/local/bin/cordova\n").unwrap();
    assert_eq!(updated.cordova_path, "/usr/local/bin/cordova");
    assert_eq!(updated.keystore_alias, "key0");
    assert!(cordova_install_result(&st, "  \n").is_none());
}

#[test]
fn keystore_paths_and_arguments() {
    assert_eq!(expand_home("~/keys/a.keystore", "/home/u"), "/home/u/keys/a.keystore");
    assert_eq!(expand_home("/abs/~x", "/home/u"), "/abs/~x");
    assert_eq!(expand_home("", "/home/u"), "");
    assert_eq!(
        keytool_args("/k.ks", "key0", "sp", "kp", "CN=me"),
        vec![
            "-genkeypair", "-keystore", "/k.ks", "-alias", "key0", "-keyalg", "RSA", "-keysize", "2048",
            "-validity", "10000", "-storepass", "sp", "-keypass", "kp", "-dname", "CN=me", "-noprompt",
        ]
    );
}
