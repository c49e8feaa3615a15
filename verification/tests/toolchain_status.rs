use vn2apk::settings::AppSettings;
use vn2apk::toolchain::detect::{
    check_all_tools, detect_rapt, detect_renpy_sdk, first_version_line, rapt_gradle_path, renpy_sh_path,
    tool_queries, ToolProbe, ToolchainProbe,
};
use vn2apk::toolchain::types::ToolStatus;

fn s(x: &str) -> String {
    x.to_string()
}

fn view(t: &ToolStatus) -> (String, String, bool, Option<String>, Option<String>, bool) {
    (t.name.clone(), t.binary.clone(), t.found, t.version.clone(), t.path.clone(), t.required)
}

fn none() -> ToolProbe {
    ToolProbe { candidate_exists: false, candidate_version: None, on_path: None, path_version: None }
}

#[test]
fn version_line_prefers_stdout() {
    assert_eq!(first_version_line("  v20.18.1 \nmore", "ignored"), Some(s("v20.18.1")));
    assert_eq!(first_version_line("   \n", "openjdk version \"21\" 2023\nOpenJDK Runtime"), Some(s("openjdk version \"21\" 2023")));
    assert_eq!(first_version_line("", ""), None);
}

#[test]
fn queries_follow_settings() {
    let mut st = AppSettings::default();
    st.android_sdk_path = s("/sdk//");
    st.java_home = s("/jdk");
    st.cordova_path = s("/opt/cordova");
    let qs = tool_queries(&st);
    let names: Vec<&str> = qs.iter().map(|q| q.name.as_str()).collect();
    assert_eq!(names, vec!["Java", "ADB", "sdkmanager", "Gradle", "Node.js", "Cordova", "apksigner"]);
    let cands: Vec<Option<String>> = qs.iter().map(|q| q.candidate.clone()).collect();
    assert_eq!(
        cands,
        vec![
            Some(s("/jdk/bin/java")),
            Some(s("/sdk/platform-tools/adb")),
            Some(s("/sdk/cmdline-tools/latest/bin/sdkmanager")),
            None,
            None,
            Some(s("/opt/cordova")),
            Some(s("/sdk/build-tools/34.0.0/apksigner")),
        ]
    );
    assert_eq!(qs[0].version_args, vec![s("-version")]);
    assert_eq!(qs[3].version_args, vec![s("--version")]);
    assert!(qs.iter().all(|q| q.required));
}

#[test]
fn statuses_from_candidates_then_path() {
    let mut st = AppSettings::default();
    st.java_home = s("/jdk");
    st.renpy_sdk_path = s("/home/u/renpy-8.5.2-sdk");
    let mut tools: Vec<ToolProbe> = (0..7).map(|_| none()).collect();
    tools[0] = ToolProbe { candidate_exists: true, candidate_version: Some(s("openjdk 21")), on_path: Some(s("/usr/bin/java")), path_version: Some(s("openjdk 17")) };
    tools[1] = ToolProbe { candidate_exists: false, candidate_version: None, on_path: Some(s("/usr/bin/adb")), path_version: None };
    tools[4] = ToolProbe { candidate_exists: true, candidate_version: Some(s("x")), on_path: Some(s("/usr/bin/node")), path_version: Some(s("v20")) };
    let probe = ToolchainProbe { tools, renpy_sh_exists: true, renpy_on_path: None, rapt_gradle_exists: true };
    let r = check_all_tools(&st, &probe);
    assert_eq!(r.len(), 9);
    assert_eq!(view(&r[0]), (s("Java"), s("java"), true, Some(s("openjdk 21")), Some(s("/jdk/bin/java")), true));
    assert_eq!(view(&r[1]), (s("ADB"), s("adb"), true, None, Some(s("/usr/bin/adb")), true));
    assert_eq!(view(&r[2]), (s("sdkmanager"), s("sdkmanager"), false, None, None, true));
    // Node.js has no configured path, so only PATH counts.
    assert_eq!(view(&r[4]), (s("Node.js"), s("node"), true, Some(s("v20")), Some(s("/usr/bin/node")), true));
    assert_eq!(
        view(&r[7]),
        (s("Ren'Py SDK"), s("renpy.sh"), true, Some(s("8.5.2")), Some(s("/home/u/renpy-8.5.2-sdk")), false)
    );
    assert_eq!(
        view(&r[8]),
        (s("RAPT"), s("rapt"), true, Some(s("installed")), Some(s("/home/u/renpy-8.5.2-sdk/rapt")), false)
    );
}

#[test]
fn missing_probes_mean_not_found() {
    let probe = ToolchainProbe { tools: vec![], renpy_sh_exists: false, renpy_on_path: None, rapt_gradle_exists: false };
    let r = check_all_tools(&AppSettings::default(), &probe);
    assert_eq!(r.len(), 9);
    assert!(r.iter().all(|t| !t.found));
}

#[test]
fn renpy_sdk_status() {
    assert_eq!(
        view(&detect_renpy_sdk("/opt/renpy-8.1.3", false, &None)),
        (s("Ren'Py SDK"), s("renpy.sh"), false, Some(s("8.1.3")), None, false)
    );
    assert_eq!(view(&detect_renpy_sdk("/opt/renpy", true, &None)).3, None);
    assert_eq!(
        view(&detect_renpy_sdk("  ", false, &Some(s("/usr/bin/renpy.sh")))),
        (s("Ren'Py SDK"), s("renpy.sh"), true, None, Some(s("/usr/bin/renpy.sh")), false)
    );
    assert_eq!(view(&detect_renpy_sdk("", false, &None)).2, false);
}

#[test]
fn rapt_status() {
    assert_eq!(view(&detect_rapt("", true)), (s("RAPT"), s("rapt"), false, None, None, false));
    assert_eq!(view(&detect_rapt("/r", false)).2, false);
    assert_eq!(view(&detect_rapt("/r", true)).4, Some(s("/r/rapt")));
    assert_eq!(renpy_sh_path("/r"), "/r/renpy.sh");
    assert_eq!(rapt_gradle_path("/r"), "/r/rapt/project/build.gradle");
}
