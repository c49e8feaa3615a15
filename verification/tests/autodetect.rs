use vn2apk::version::version_less_exec;
use vn2apk::autodetect::{
    autodetect, best_gradle_dist, default_output_dir, dist_home_name, find_android_sdk, find_build_tools_version,
    find_cordova, find_gradle_home, find_java_home, find_renpy_sdk, java_home_of_binary, jdk_score_of, pick_jdk,
    EnvDir, GradleProbe, JavaHomeProbe, MachineProbe, RenpyProbe,
};

fn s(x: &str) -> String {
    x.to_string()
}

fn unset() -> EnvDir {
    EnvDir { value: None, is_dir: false }
}

fn entries(v: &[(&str, bool)]) -> Vec<(String, bool)> {
    v.iter().map(|(n, d)| (s(n), *d)).collect()
}

#[test]
fn sdk_from_variables_then_usual_places() {
    let home_var = EnvDir { value: Some(s("/opt/sdk")), is_dir: true };
    assert_eq!(find_android_sdk(&home_var, &unset(), "/home/u", &vec![true, true, true, true]), "/opt/sdk");
    let not_dir = EnvDir { value: Some(s("/nowhere")), is_dir: false };
    let root_var = EnvDir { value: Some(s("/sdk/root")), is_dir: true };
    assert_eq!(find_android_sdk(&not_dir, &root_var, "/home/u", &vec![false; 4]), "/sdk/root");
    let empty = EnvDir { value: Some(s("")), is_dir: true };
    assert_eq!(
        find_android_sdk(&empty, &unset(), "/home/u", &vec![false, true, true, false]),
        "/home/u/android-sdk"
    );
    assert_eq!(find_android_sdk(&unset(), &unset(), "/home/u", &vec![false, false, false, true]), "/opt/android-sdk");
    assert_eq!(find_android_sdk(&unset(), &unset(), "/home/u", &vec![false; 4]), "");
}

#[test]
fn gradle_from_variable() {
    let probe = GradleProbe {
        env: EnvDir { value: Some(s("/opt/gradle")), is_dir: true },
        installs: Some(entries(&[("gradle-8.7", true)])),
        dists: None,
        dist_homes: None,
    };
    assert_eq!(find_gradle_home("/home/u", &probe), "/opt/gradle");
}

#[test]
fn gradle_newest_install_by_version_order() {
    let probe = GradleProbe {
        env: unset(),
        installs: Some(entries(&[("gradle-8.10", true), ("gradle-8.5", true), ("gradle-9.0", false), ("tools", true)])),
        dists: None,
        dist_homes: None,
    };
    // Numbers compare by value, so 8.10 is newer than 8.5.
    assert_eq!(find_gradle_home("/home/u", &probe), "/home/u/gradle/gradle-8.10");
    let probe = GradleProbe {
        env: EnvDir { value: Some(s("")), is_dir: false },
        installs: Some(entries(&[("gradle-8.7", true), ("gradle-8.10", true)])),
        dists: None,
        dist_homes: None,
    };
    assert_eq!(find_gradle_home("/home/u", &probe), "/home/u/gradle/gradle-8.10");
}

#[test]
fn version_order_compares_numbers() {
    let v = |x: &str| x.chars().collect::<Vec<char>>();
    assert!(version_less_exec(&v("8.7"), &v("8.10")));
    assert!(!version_less_exec(&v("8.10"), &v("8.7")));
    assert!(version_less_exec(&v("gradle-8.9"), &v("gradle-8.10")));
    assert!(version_less_exec(&v("8.10"), &v("9")));
    assert!(version_less_exec(&v("8"), &v("8.0")));
    // Equal numbers: the text decides, so the order stays total.
    assert!(version_less_exec(&v("8.07"), &v("8.7")));
    assert!(!version_less_exec(&v("8.7"), &v("8.07")));
    assert!(!version_less_exec(&v("8.7"), &v("8.7")));
    // A number sorts where a digit would among other characters.
    assert!(version_less_exec(&v("8-rc"), &v("8.1")));
    assert!(version_less_exec(&v("8.1"), &v("8a")));
}

#[test]
fn gradle_from_wrapper_cache() {
    let probe = GradleProbe {
        env: unset(),
        installs: Some(entries(&[("notes", true)])),
        dists: Some(entries(&[("gradle-8.7-bin", true), ("gradle-8.9-all", true)])),
        dist_homes: Some(entries(&[
            ("/home/u/.gradle/wrapper/dists/gradle-8.7-bin/aaa/gradle-8.7", false),
            ("/home/u/.gradle/wrapper/dists/gradle-8.7-bin/bbb/gradle-8.7", true),
        ])),
    };
    assert_eq!(find_gradle_home("/home/u", &probe), "/home/u/.gradle/wrapper/dists/gradle-8.7-bin/bbb/gradle-8.7");
    let nothing = GradleProbe { env: unset(), installs: None, dists: Some(entries(&[("x", true)])), dist_homes: None };
    assert_eq!(find_gradle_home("/home/u", &nothing), "");
}

#[test]
fn gradle_distribution_names() {
    assert_eq!(best_gradle_dist(&entries(&[("gradle-8.7-bin", true), ("gradle-8.9-bin", true), ("gradle-9-bin", false)])), Some(s("gradle-8.9-bin")));
    assert_eq!(best_gradle_dist(&entries(&[("gradle-8.9-all", true)])), None);
    assert_eq!(dist_home_name("gradle-8.7-bin"), "gradle-8.7");
    assert_eq!(dist_home_name("gradle-bin-bin"), "gradle");
    assert_eq!(dist_home_name("gradle-8.7"), "gradle-8.7");
}

#[test]
fn java_prefers_variable_then_path_then_jdk_21() {
    let probe = JavaHomeProbe {
        env: EnvDir { value: Some(s("/opt/jdk")), is_dir: true },
        from_path: Some(s("/usr")),
        jvm_dir: true,
        jdks: vec![],
    };
    assert_eq!(find_java_home(&probe), "/opt/jdk");
    let probe = JavaHomeProbe { env: unset(), from_path: Some(s("/usr/lib/jvm/java-17")), jvm_dir: true, jdks: vec![] };
    assert_eq!(find_java_home(&probe), "/usr/lib/jvm/java-17");
    let jdks = entries(&[
        ("/usr/lib/jvm/java-25-openjdk", true),
        ("/usr/lib/jvm/java-17-openjdk", true),
        ("/usr/lib/jvm/java-21-openjdk", true),
        ("/usr/lib/jvm/java-21-broken", false),
    ]);
    let probe = JavaHomeProbe { env: unset(), from_path: None, jvm_dir: true, jdks };
    assert_eq!(find_java_home(&probe), "/usr/lib/jvm/java-21-openjdk");
    let probe = JavaHomeProbe { env: unset(), from_path: None, jvm_dir: false, jdks: entries(&[("/usr/lib/jvm/java-21", true)]) };
    assert_eq!(find_java_home(&probe), "");
}

#[test]
fn equal_scores_keep_listing_order() {
    assert_eq!(pick_jdk(&entries(&[("/jvm/zulu-8", true), ("/jvm/temurin-9", true)])), Some(s("/jvm/zulu-8")));
    assert_eq!(pick_jdk(&entries(&[("/jvm/java-11", false)])), None);
    assert_eq!(jdk_score_of("/usr/lib/jvm/java-21-openjdk"), 100);
    assert_eq!(jdk_score_of("/usr/lib/jvm/java-17"), 90);
    assert_eq!(jdk_score_of("/usr/lib/jvm/java-11-x"), 80);
    assert_eq!(jdk_score_of("/usr/lib/jvm/java-8"), 50);
}

#[test]
fn java_home_is_two_folders_up() {
    assert_eq!(java_home_of_binary("/usr/lib/jvm/java-21/bin/java"), Some(s("/usr/lib/jvm/java-21")));
    assert_eq!(java_home_of_binary("/bin/java"), Some(s("/")));
    assert_eq!(java_home_of_binary("/java"), None);
    assert_eq!(java_home_of_binary("java"), None);
}

#[test]
fn cordova_places_then_path() {
    assert_eq!(find_cordova("/home/u", &vec![false, true, true, false], &None), "/home/u/.local/bin/cordova");
    assert_eq!(find_cordova("/home/u", &vec![false; 4], &Some(s("/x/cordova"))), "/x/cordova");
    assert_eq!(find_cordova("/home/u", &vec![false; 4], &None), "");
}

#[test]
fn build_tools_prefers_34() {
    let dirs = Some(entries(&[("35.0.0", true), ("34.0.0", true), ("34.0.1", true), ("33.0.2", true), ("34.9", false)]));
    assert_eq!(find_build_tools_version("/sdk", &dirs), "34.0.1");
    let dirs = Some(entries(&[("34.0.9", true), ("34.0.10", true), ("33.0.2", true)]));
    assert_eq!(find_build_tools_version("/sdk", &dirs), "34.0.10");
    let dirs = Some(entries(&[("35.0.0", true), ("33.0.2", true)]));
    assert_eq!(find_build_tools_version("/sdk", &dirs), "35.0.0");
    assert_eq!(find_build_tools_version("/sdk", &Some(vec![])), "34.0.0");
    assert_eq!(find_build_tools_version("/sdk", &None), "34.0.0");
    assert_eq!(find_build_tools_version("", &Some(entries(&[("35.0.0", true)]))), "34.0.0");
}

#[test]
fn output_folder_prefers_downloads() {
    assert_eq!(default_output_dir("/home/u", true), "/home/u/Downloads");
    assert_eq!(default_output_dir("/home/u", false), "/home/u");
}

#[test]
fn renpy_sdk_newest_in_home_then_places() {
    let probe = RenpyProbe {
        home_entries: Some(vec![
            (s("renpy-8.1.0-sdk"), s("/home/u/renpy-8.1.0-sdk"), true),
            (s("renpy-8.3.0-sdk"), s("/home/u/renpy-8.3.0-sdk"), true),
            (s("renpy-9.0"), s("/home/u/renpy-9.0"), false),
            (s("zz"), s("/home/u/zz"), true),
        ]),
        places_have_script: vec![true, true],
        on_path_dir: None,
    };
    assert_eq!(find_renpy_sdk("/home/u", &probe), "/home/u/renpy-8.3.0-sdk");
    let probe = RenpyProbe {
        home_entries: Some(vec![
            (s("renpy-8.9"), s("/home/u/renpy-8.9"), true),
            (s("renpy-8.10"), s("/home/u/renpy-8.10"), true),
        ]),
        places_have_script: vec![true, true],
        on_path_dir: None,
    };
    assert_eq!(find_renpy_sdk("/home/u", &probe), "/home/u/renpy-8.10");
    let probe = RenpyProbe { home_entries: None, places_have_script: vec![false, true], on_path_dir: Some(s("/usr/bin")) };
    assert_eq!(find_renpy_sdk("/home/u", &probe), "/opt/renpy");
    let probe = RenpyProbe { home_entries: Some(vec![]), places_have_script: vec![false, false], on_path_dir: Some(s("/usr/bin")) };
    assert_eq!(find_renpy_sdk("/home/u", &probe), "/usr/bin");
}

#[test]
fn autodetect_fills_found_paths() {
    let probe = MachineProbe {
        home: s("/home/u"),
        android_home: unset(),
        android_sdk_root: unset(),
        sdk_candidate_dirs: vec![true, false, false, false],
        gradle: GradleProbe { env: unset(), installs: None, dists: None, dist_homes: None },
        java: JavaHomeProbe { env: unset(), from_path: Some(s("/usr/lib/jvm/java-21")), jvm_dir: false, jdks: vec![] },
        node_on_path: Some(s("/usr/bin/node")),
        cordova_are_files: vec![false, false, false, false],
        cordova_on_path: None,
        build_tools_dirs: Some(entries(&[("34.0.0", true)])),
        downloads_is_dir: true,
        renpy: RenpyProbe { home_entries: None, places_have_script: vec![false, false], on_path_dir: None },
    };
    let found = autodetect(&probe);
    assert_eq!(found.android_sdk_path, "/home/u/Android/Sdk");
    assert_eq!(found.gradle_home, "");
    assert_eq!(found.java_home, "/usr/lib/jvm/java-21");
    assert_eq!(found.node_path, "/usr/bin/node");
    assert_eq!(found.cordova_path, "");
    assert_eq!(found.build_tools_version, "34.0.0");
    assert_eq!(found.output_dir, "/home/u/Downloads");
    assert_eq!(found.renpy_sdk_path, "");
    assert_eq!(found.keystore_path, "");
    assert_eq!(found.keystore_alias, "key0");
}
