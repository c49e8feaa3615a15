use vn2apk::pipeline::renpy::{
    android_build_args, android_json_content, check_cancel, find_renpy_apk_candidates, find_renpy_sh,
    rapt_keystore_args, validate_renpy_folder,
};
use vn2apk::pipeline::signing::{build_tools_bin, sign_apk, zipalign};
use vn2apk::pipeline::types::BuildOptions;
use vn2apk::settings::AppSettings;

fn s(x: &str) -> String {
    x.to_string()
}

fn settings() -> AppSettings {
    let mut st = AppSettings::default();
    st.android_sdk_path = s("/sdk");
    st.keystore_path = s("/k/release.keystore");
    st
}

#[test]
fn zipalign_command() {
    let c = zipalign("/w/cordova/app-release-unsigned.apk", "/w/app-aligned.apk", &settings());
    assert_eq!(c.program, "/sdk/build-tools/34.0.0/zipalign");
    assert_eq!(c.args, vec!["-f", "4", "/w/cordova/app-release-unsigned.apk", "/w/app-aligned.apk"]);
    assert_eq!(c.cwd, "/w/cordova");
    assert_eq!(zipalign("x.apk", "y.apk", &settings()).cwd, "");
    assert_eq!(zipalign("/", "y.apk", &settings()).cwd, "/tmp");
    assert_eq!(build_tools_bin(&settings()), "/sdk/build-tools/34.0.0");
}

#[test]
fn sign_command_and_refusals() {
    let c = sign_apk("/w/app-aligned.apk", "/w/Demo-signed.apk", "sp", "kp", &settings(), true).unwrap();
    assert_eq!(c.program, "/sdk/build-tools/34.0.0/apksigner");
    assert_eq!(
        c.args,
        vec![
            "sign", "--ks", "/k/release.keystore", "--ks-key-alias", "key0", "--ks-pass", "pass:sp", "--key-pass",
            "pass:kp", "--out", "/w/Demo-signed.apk", "/w/app-aligned.apk",
        ]
    );
    assert_eq!(c.cwd, "/w");
    assert_eq!(
        sign_apk("/w/a.apk", "/w/b.apk", "sp", "kp", &settings(), false).err(),
        Some(s("Keystore not found: /k/release.keystore. Generate one in Settings."))
    );
    assert_eq!(
        sign_apk("/w/a.apk", "/w/b.apk", "sp", "kp", &AppSettings::default(), true).err(),
        Some(s("Keystore path not set. Configure it in Settings before building."))
    );
}

#[test]
fn launcher_lookup() {
    let mut st = AppSettings::default();
    st.renpy_sdk_path = s("/renpy");
    assert_eq!(find_renpy_sh(&st, true, true, &None), Ok(s("/renpy/renpy.sh")));
    assert_eq!(find_renpy_sh(&st, false, true, &None), Ok(s("/renpy/renpy.bat")));
    assert_eq!(find_renpy_sh(&st, false, false, &Some(s("/usr/bin/renpy"))), Ok(s("/usr/bin/renpy")));
    assert_eq!(
        find_renpy_sh(&AppSettings::default(), true, true, &None),
        Err(s("renpy.sh not found. Set Ren'Py SDK Path in Settings, or install the Ren'Py SDK."))
    );
}

#[test]
fn renpy_folder_checks() {
    assert_eq!(validate_renpy_folder(false, true), Err(s("Game folder does not exist")));
    assert_eq!(validate_renpy_folder(true, false), Err(s("Missing game/ directory — is this a Ren'Py project?")));
    assert_eq!(validate_renpy_folder(true, true), Ok(()));
}

#[test]
fn android_json_text() {
    let options = BuildOptions {
        app_id: s("com.vn2apk.demo"),
        app_name: s("Demo"),
        version_name: s("1.2"),
        version_code: 12,
        icon_path: None,
        storepass: s(""),
        keypass: s(""),
        engine: s("RenPy"),
    };
    let want = format!(
        r#"{{
  "package": "{}",
  "name": "{}",
  "icon_name": "{}",
  "version": "{}",
  "numeric_version": "{}",
  "orientation": "{}",
  "permissions": ["VIBRATE"],
  "include_pil": false,
  "include_sqlite": false,
  "layout": null
}}
"#,
        "com.vn2apk.demo", "Demo", "Demo", "1.2", 12, "sensorLandscape",
    );
    assert_eq!(android_json_content(&options), want);
}

#[test]
fn android_json_escapes_values() {
    let options = BuildOptions {
        app_id: s("com.vn2apk.demo"),
        app_name: s("Say \"Hi\" \\ Bye"),
        version_name: s("1.0\tbeta"),
        version_code: 3,
        icon_path: None,
        storepass: s(""),
        keypass: s(""),
        engine: s("RenPy"),
    };
    let text = android_json_content(&options);
    assert!(text.contains("  \"name\": \"Say \\\"Hi\\\" \\\\ Bye\",\n"));
    assert!(text.contains("  \"icon_name\": \"Say \\\"Hi\\\" \\\\ Bye\",\n"));
    assert!(text.contains("  \"version\": \"1.0\\tbeta\",\n"));
    assert!(text.contains("  \"numeric_version\": \"3\",\n"));
    let value: serde_json::Value = serde_json::from_str(&text).unwrap();
    assert_eq!(value["name"], "Say \"Hi\" \\ Bye");
    assert_eq!(value["version"], "1.0\tbeta");
    assert_eq!(value["package"], "com.vn2apk.demo");
}

#[test]
fn apk_places_in_search_order() {
    let names = vec![s("Old Game-release.apk"), s("notes.txt"), s("x.apk")];
    let got = find_renpy_apk_candidates("/sdk", "/g", "My Game!", &names);
    assert_eq!(
        got,
        vec![
            "/sdk/rapt/bin/My_Game_-release-unsigned.apk",
            "/sdk/rapt/bin/My_Game_-release.apk",
            "/sdk/rapt/bin/My_Game_-debug.apk",
            "/sdk/rapt/bin/Old Game-release.apk",
            "/sdk/rapt/bin/x.apk",
            "/g/android-project/app/build/outputs/apk/release/app-release-unsigned.apk",
            "/g/android-project/app/build/outputs/apk/release/app-release.apk",
            "/g/android-project/app/build/outputs/apk/release/app-debug.apk",
            "/g/android-project/app/build/outputs/apk/debug/app-release-unsigned.apk",
            "/g/android-project/app/build/outputs/apk/debug/app-release.apk",
            "/g/android-project/app/build/outputs/apk/debug/app-debug.apk",
        ]
    );
    assert_eq!(find_renpy_apk_candidates("", "/g", "A-b", &names).len(), 6);
}

#[test]
fn renpy_tool_arguments() {
    assert_eq!(
        rapt_keystore_args("/g/android.keystore"),
        vec![
            "-genkeypair", "-keystore", "/g/android.keystore", "-alias", "android", "-keyalg", "RSA", "-keysize",
            "2048", "-validity", "10000", "-storepass", "android", "-keypass", "android", "-dname",
            "CN=vn2apk, OU=vn2apk, O=vn2apk, L=Unknown, ST=Unknown, C=US", "-noprompt",
        ]
    );
    assert_eq!(android_build_args("/sdk", "/g"), vec!["/sdk/launcher", "android_build", "/g"]);
}

#[test]
fn cancel_check() {
    assert_eq!(check_cancel(true), Err(s("Build cancelled by user")));
    assert_eq!(check_cancel(false), Ok(()));
}
