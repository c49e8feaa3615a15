use vn2apk::error_translate::translate;
use vn2apk::pipeline::preflight::{run_preflight, PreflightProbe};
use vn2apk::pipeline::rpgmv::{build_compat_shim, free_name_of, plan_renames};
use vn2apk::settings::AppSettings;

fn s(x: &str) -> String {
    x.to_string()
}

#[test]
fn renames_never_collide() {
    let existing = vec![s("é.ogg"), s("è.ogg"), s("e.ogg"), s("e_1.ogg"), s("audio")];
    let files = vec![s("é.ogg"), s("è.ogg"), s("e.ogg"), s("e_1.ogg")];
    assert_eq!(
        plan_renames(&existing, &files),
        vec![(s("é.ogg"), s("e_2.ogg")), (s("è.ogg"), s("e_3.ogg"))]
    );
    assert!(plan_renames(&existing, &vec![s("plain.txt")]).is_empty());
}

#[test]
fn free_names_are_numbered_from_one() {
    assert_eq!(free_name_of("a.png", &vec![]), "a.png");
    assert_eq!(free_name_of("a.png", &vec![s("a.png")]), "a_1.png");
    assert_eq!(free_name_of("a", &vec![s("a"), s("a_1")]), "a_2");
}

#[test]
fn translating_twice_changes_nothing() {
    for raw in [
        "keystore password was incorrect",
        "Failed to read key",
        "RAPT not found",
        "ANDROID_HOME",
        "JAVA_HOME",
        "No space left",
        "Permission denied",
        "Could not find app.apk",
        "exited with exit status: 255",
        "anything else",
    ] {
        let once = translate(raw);
        assert_eq!(translate(&once), once);
    }
}

#[test]
fn shim_escapes_control_characters() {
    let saves = vec![(s("RPG File1"), s("a\u{1}b\u{8}\u{c}\t\r\n\"\\"))];
    let shim = build_compat_shim(None, &saves, None).unwrap();
    assert!(shim.contains("    \"RPG File1\": \"a\\u0001b\\b\\f\\t\\r\\n\\\"\\\\\",\n"));
    assert!(shim.contains(&serde_json::to_string("a\u{1}b\u{8}\u{c}\t\r\n\"\\").unwrap()));
}

#[test]
fn issues_are_errors_or_the_three_warnings() {
    let probe = PreflightProbe {
        game_exists: false,
        game_is_dir: false,
        java_home_has_java: false,
        java_runs: false,
        build_tools_dir: false,
        df_output: None,
        renpy_sh: false,
        rapt_gradle: false,
        android_json: Some(Some(s("{"))),
        node_path_exists: false,
        node_runs: false,
        cordova_path_exists: false,
        cordova_runs: false,
    };
    let warnings = [
        "Could not determine free disk space in /tmp.",
        "android.json is missing 'package' or 'name' keys.",
        "android.json exists but is not valid JSON.",
    ];
    for engine in ["RenPy", "RPGMV", "Other"] {
        let issues = run_preflight(engine, "/g", &AppSettings::default(), &probe);
        for i in &issues {
            assert!(i.severity == "error" || i.severity == "warning");
            assert_eq!(i.severity == "warning", warnings.contains(&i.message.as_str()));
        }
        assert!(issues.iter().any(|i| i.severity == "error" && i.message == "Keystore path is not set."));
    }
    let mut st = AppSettings::default();
    st.keystore_path = s("/k");
    let issues = run_preflight("RenPy", "/g", &st, &probe);
    assert!(!issues.iter().any(|i| i.message == "Keystore path is not set."));
}
