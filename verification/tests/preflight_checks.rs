use vn2apk::pipeline::preflight::{android_json_warning, run_preflight, tmp_free_mb, PreflightIssue, PreflightProbe};
use vn2apk::settings::AppSettings;

fn s(x: &str) -> String {
    x.to_string()
}

fn good_probe() -> PreflightProbe {
    PreflightProbe {
        game_exists: true,
        game_is_dir: true,
        java_home_has_java: true,
        java_runs: true,
        build_tools_dir: true,
        df_output: Some(s("     Avail\n2147483648\n")),
        renpy_sh: true,
        rapt_gradle: true,
        android_json: None,
        node_path_exists: true,
        node_runs: true,
        cordova_path_exists: true,
        cordova_runs: true,
    }
}

fn configured() -> AppSettings {
    let mut st = AppSettings::default();
    st.keystore_path = s("/k/release.keystore");
    st.java_home = s("/jdk");
    st.android_sdk_path = s("/sdk");
    st.renpy_sdk_path = s("/renpy");
    st
}

fn view(v: &[PreflightIssue]) -> Vec<(String, String, String)> {
    v.iter().map(|i| (i.severity.clone(), i.message.clone(), i.hint.clone())).collect()
}

#[test]
fn free_space_from_df() {
    assert_eq!(tmp_free_mb("     Avail\n2147483648\n"), Some(2048));
    assert_eq!(tmp_free_mb("Avail\n  oops\n  1048576  \n"), Some(1));
    assert_eq!(tmp_free_mb("1048576\n"), None);
    assert_eq!(tmp_free_mb(""), None);
}

#[test]
fn ready_machine_has_no_issue() {
    assert!(run_preflight("RenPy", "/games/vn", &configured(), &good_probe()).is_empty());
    assert!(run_preflight("RPGMV", "/games/mv", &configured(), &good_probe()).is_empty());
}

#[test]
fn common_checks_in_order() {
    let mut p = good_probe();
    p.java_home_has_java = false;
    p.java_runs = false;
    p.df_output = Some(s("Avail\n104857600\n"));
    let issues = run_preflight("TyranoBuilder", "", &AppSettings::default(), &p);
    assert_eq!(
        view(&issues),
        vec![
            (s("error"), s("No game folder selected."), s("Choose a game folder before building.")),
            (s("error"), s("Keystore path is not set."), s("Go to Settings → Signing and generate or select a keystore.")),
            (s("error"), s("Java (JDK) not found."), s("Set JAVA_HOME in Settings or install JDK 17+ via the Toolchain page.")),
            (s("error"), s("Android SDK path is not configured."), s("Set it in Settings → Android SDK, or install it via the Toolchain page.")),
            (s("error"), s("Low disk space in /tmp: 100 MB free (need > 500 MB)."), s("Free up space in /tmp and try again.")),
        ]
    );
}

#[test]
fn disk_space_needs_more_than_500_mb() {
    let mut p = good_probe();
    p.df_output = Some(s("Avail\n524288000\n"));
    let issues = run_preflight("TyranoBuilder", "/games/demo", &configured(), &p);
    assert!(view(&issues).contains(&(
        s("error"),
        s("Low disk space in /tmp: 500 MB free (need > 500 MB)."),
        s("Free up space in /tmp and try again.")
    )));
    p.df_output = Some(s("Avail\n525336576\n"));
    let issues = run_preflight("TyranoBuilder", "/games/demo", &configured(), &p);
    assert!(!view(&issues).iter().any(|i| i.1.starts_with("Low disk space")));
}

#[test]
fn game_path_and_sdk_problems() {
    let mut p = good_probe();
    p.game_exists = false;
    p.build_tools_dir = false;
    p.df_output = None;
    let issues = run_preflight("Other", "/nope", &configured(), &p);
    assert_eq!(
        view(&issues),
        vec![
            (s("error"), s("Game folder does not exist: /nope"), s("Select a valid game folder.")),
            (s("error"), s("Android SDK build-tools/ directory not found."), s("Run sdkmanager to install build-tools, or re-install via the Toolchain page.")),
            (s("warning"), s("Could not determine free disk space in /tmp."), s("Ensure /tmp has at least 500 MB free before building.")),
        ]
    );
    let mut p = good_probe();
    p.game_is_dir = false;
    let issues = run_preflight("Other", "/file.txt", &configured(), &p);
    assert_eq!(view(&issues), vec![(s("error"), s("Game path is not a directory: /file.txt"), s("Select a folder, not a file."))]);
}

#[test]
fn java_on_path_is_enough() {
    let mut p = good_probe();
    p.java_home_has_java = false;
    assert!(run_preflight("Other", "/g", &configured(), &p).is_empty());
}

#[test]
fn renpy_checks() {
    let mut p = good_probe();
    p.renpy_sh = false;
    p.rapt_gradle = false;
    p.android_json = Some(Some(s("{\"package\": \"com.a\"}")));
    let issues = run_preflight("RenPy", "/g", &configured(), &p);
    assert_eq!(
        view(&issues),
        vec![
            (s("error"), s("renpy.sh not found in the configured SDK path."), s("Check that the Ren'Py SDK path is correct.")),
            (s("error"), s("RAPT is not installed."), s("Open the Ren'Py Launcher → Android → Install SDK & Install RAPT.")),
            (s("warning"), s("android.json is missing 'package' or 'name' keys."), s("Edit android.json to include valid 'package' and 'name' values, or delete it to let vn2apk regenerate it.")),
        ]
    );
    let mut st = configured();
    st.renpy_sdk_path = s("");
    let mut p = good_probe();
    p.android_json = Some(Some(s("{oops")));
    let issues = run_preflight("RenPy", "/g", &st, &p);
    assert_eq!(
        view(&issues),
        vec![
            (s("error"), s("Ren'Py SDK path is not set."), s("Set it in Settings → Ren'Py SDK.")),
            (s("warning"), s("android.json exists but is not valid JSON."), s("Fix or delete android.json — vn2apk will regenerate a valid one.")),
        ]
    );
    let mut p = good_probe();
    p.android_json = Some(None);
    assert!(run_preflight("RenPy", "/g", &configured(), &p).is_empty());
    p.android_json = Some(Some(s("{\"package\": \"com.a\", \"name\": \"A\"}")));
    assert!(run_preflight("RenPy", "/g", &configured(), &p).is_empty());
}

#[test]
fn json_warning_from_members() {
    assert_eq!(android_json_warning(&Some(Some(s("com.a"))), &Some(Some(s("A")))).map(|i| i.message), None);
    assert_eq!(
        android_json_warning(&None, &None).map(|i| i.message),
        Some(s("android.json exists but is not valid JSON."))
    );
    assert_eq!(
        android_json_warning(&Some(Some(s(""))), &Some(Some(s("A")))).map(|i| i.message),
        Some(s("android.json is missing 'package' or 'name' keys."))
    );
    assert_eq!(
        android_json_warning(&Some(Some(s("com.a"))), &Some(None)).map(|i| i.severity),
        Some(s("warning"))
    );
}

#[test]
fn rpg_maker_needs_node_and_cordova() {
    let mut st = configured();
    st.node_path = s("/opt/node");
    let mut p = good_probe();
    p.node_path_exists = false;
    p.cordova_runs = false;
    let issues = run_preflight("RPGMZ", "/g", &st, &p);
    assert_eq!(
        view(&issues),
        vec![
            (s("error"), s("Node.js not found."), s("Set Node.js path in Settings or install it via the Toolchain page.")),
            (s("error"), s("Cordova not found."), s("Set Cordova path in Settings or install it via the Toolchain page.")),
        ]
    );
    let issues = run_preflight("RpgMakerMV", "/g", &st, &p);
    assert!(issues.is_empty());
}

#[test]
fn issue_constructors() {
    let e = PreflightIssue::error(s("m"), s("h"));
    assert_eq!((e.severity, e.message, e.hint), (s("error"), s("m"), s("h")));
    let w = PreflightIssue::warning(s("m2"), s("h2"));
    assert_eq!(w.severity, "warning");
}
