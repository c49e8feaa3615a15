use vn2apk::pipeline::cordova::{
    best_java_home, build_env, cordova_project_dir, create_args, find_cordova, patch_config_xml,
    patch_gradle_properties, patch_widget_tag, platform_add_args, release_apk_candidates, release_build_args,
    set_attr, CordovaProbe, JavaProbe,
};
use vn2apk::pipeline::env::env_lookup;
use vn2apk::settings::AppSettings;

fn s(x: &str) -> String {
    x.to_string()
}

fn settings() -> AppSettings {
    let mut st = AppSettings::default();
    st.android_sdk_path = s("/sdk");
    st.node_path = s("/opt/node/bin/node");
    st
}

#[test]
fn set_attr_replaces_quoted_values() {
    assert_eq!(
        set_attr("<widget id=\"io.cordova.hello\" version=\"1.0.0\">", "id", "com.x"),
        "<widget id=\"com.x\" version=\"1.0.0\">"
    );
    assert_eq!(set_attr("<widget version='1.0'>", "version", "2.0"), "<widget version=\"2.0\">");
}

#[test]
fn set_attr_adds_missing_attribute() {
    assert_eq!(set_attr("<widget>", "id", "a"), "<widget id=\"a\">");
    assert_eq!(set_attr("<widget id=\"abc>", "id", "a"), "<widget id=\"a\" id=\"abc>");
}

#[test]
fn widget_tag_gets_id_version_and_name() {
    let xml = "<?xml version=\"1.0\"?>\n<widget id=\"x\" version=\"1\"><name>Hello</name></widget>";
    assert_eq!(
        patch_widget_tag(xml, "com.a", "Game", "2.0"),
        "<?xml version=\"1.0\"?>\n<widget id=\"com.a\" version=\"2.0\"><name>Game</name></widget>"
    );
    assert_eq!(patch_widget_tag("no tags", "a", "b", "c"), "no tags");
}

#[test]
fn config_gets_preferences_and_icon() {
    let xml = "<widget id=\"x\" version=\"1\">\n<name>Hello</name>\n</widget>\n";
    let icon_line = "    <icon src=\"res/icon.png\" />\n";
    let insert = |icon: &str| {
        format!(
            r#"    <access origin="*" />
    <allow-navigation href="*" />
    <allow-intent href="http://*/*" />
    <allow-intent href="https://*/*" />
    <preference name="Orientation" value="landscape" />
    <preference name="FullScreen" value="true" />
    <preference name="AndroidPersistentFileLocation" value="Compatibility" />
    <preference name="android-targetSdkVersion" value="34" />
    <preference name="android-minSdkVersion" value="21" />
{icon}</widget>"#
        )
    };
    let head = "<widget id=\"com.a\" version=\"2.0\">\n<name>Game</name>\n";
    assert_eq!(
        patch_config_xml(xml, "com.a", "Game", "2.0", Some("res/icon.png")),
        format!("{head}{}\n", insert(icon_line))
    );
    assert_eq!(patch_config_xml(xml, "com.a", "Game", "2.0", None), format!("{head}{}\n", insert("")));
}

#[test]
fn gradle_properties_patched_once() {
    let patch = "\n# vn2apk: disable daemon + VFS watching to fix Unicode asset filename hashing\norg.gradle.daemon=false\norg.gradle.vfs.watch=false\norg.gradle.caching=false\norg.gradle.jvmargs=-Xmx2048m -Dfile.encoding=UTF-8\n";
    let once = patch_gradle_properties("android.useAndroidX=true\n").unwrap();
    assert_eq!(once, format!("android.useAndroidX=true\n{patch}"));
    assert_eq!(patch_gradle_properties(&once), None);
}

#[test]
fn java_21_preferred_over_configured_25() {
    let mut st = settings();
    st.java_home = s("/usr/lib/jvm/java-25-openjdk");
    let probe = JavaProbe { configured_has_java: true, preferred_have_java: vec![true, false, false, false] };
    assert_eq!(best_java_home(&st, &probe), "/usr/lib/jvm/java-21-openjdk");
    let probe = JavaProbe { configured_has_java: true, preferred_have_java: vec![false, true, false, false] };
    assert_eq!(best_java_home(&st, &probe), "/usr/lib/jvm/java-25-openjdk");
    st.java_home = s("/opt/jdk17");
    let probe = JavaProbe { configured_has_java: false, preferred_have_java: vec![false, false, true, true] };
    assert_eq!(best_java_home(&st, &probe), "/usr/lib/jvm/java-21");
    let probe = JavaProbe { configured_has_java: false, preferred_have_java: vec![false; 4] };
    assert_eq!(best_java_home(&st, &probe), "/opt/jdk17");
}

#[test]
fn build_env_sets_sdk_java_and_path() {
    let base = vec![(s("PATH"), s("/usr/bin")), (s("FOO"), s("1")), (s("LANG"), s("C"))];
    let probe = JavaProbe { configured_has_java: false, preferred_have_java: vec![false, true, false, false] };
    let env = build_env(&settings(), base, &probe, "/home/u");
    assert_eq!(env_lookup(&env, "ANDROID_HOME"), Some(s("/sdk")));
    assert_eq!(env_lookup(&env, "ANDROID_SDK_ROOT"), Some(s("/sdk")));
    assert_eq!(env_lookup(&env, "JAVA_HOME"), Some(s("/usr/lib/jvm/java-17-openjdk")));
    assert_eq!(env_lookup(&env, "FOO"), Some(s("1")));
    assert_eq!(env_lookup(&env, "LANG"), Some(s("en_US.UTF-8")));
    assert_eq!(env_lookup(&env, "LC_ALL"), Some(s("en_US.UTF-8")));
    assert_eq!(env_lookup(&env, "GRADLE_OPTS"), Some(s("-Dfile.encoding=UTF-8")));
    assert_eq!(
        env_lookup(&env, "JAVA_TOOL_OPTIONS"),
        Some(s("-Dfile.encoding=UTF-8 --enable-native-access=ALL-UNNAMED"))
    );
    assert_eq!(
        env_lookup(&env, "PATH"),
        Some(s("/usr/lib/jvm/java-17-openjdk/bin:/sdk/platform-tools:/sdk/cmdline-tools/latest/bin:/sdk/build-tools/34.0.0:/opt/node/bin:/home/u/.npm-global/bin:/home/u/.local/bin:/usr/bin"))
    );
    assert_eq!(env.iter().filter(|(k, _)| k == "LANG").count(), 1);
}

#[test]
fn build_env_without_tools_only_sets_encodings() {
    let probe = JavaProbe { configured_has_java: false, preferred_have_java: vec![false; 4] };
    let env = build_env(&AppSettings::default(), vec![], &probe, "");
    assert_eq!(env_lookup(&env, "ANDROID_HOME"), None);
    assert_eq!(env_lookup(&env, "JAVA_HOME"), None);
    assert_eq!(env_lookup(&env, "PATH"), Some(s("/.npm-global/bin:/.local/bin:")));
}

#[test]
fn cordova_command_lookup() {
    let mut st = settings();
    st.cordova_path = s("/opt/cordova/bin/cordova");
    let probe = CordovaProbe { configured_exists: true, candidates_exist: vec![true, true, true], on_path: None };
    assert_eq!(find_cordova(&st, "/home/u", &probe), Ok(s("/opt/cordova/bin/cordova")));
    let probe = CordovaProbe { configured_exists: false, candidates_exist: vec![false, true, true], on_path: None };
    assert_eq!(find_cordova(&st, "/home/u", &probe), Ok(s("/usr/local/bin/cordova")));
    let probe = CordovaProbe { configured_exists: false, candidates_exist: vec![false, false, false], on_path: Some(s("/x/cordova")) };
    assert_eq!(find_cordova(&st, "/home/u", &probe), Ok(s("/x/cordova")));
    let probe = CordovaProbe { configured_exists: false, candidates_exist: vec![false, false, false], on_path: None };
    assert_eq!(
        find_cordova(&st, "/home/u", &probe),
        Err(s("cordova not found. Set Cordova Path in Settings or run: npm install -g cordova"))
    );
}

#[test]
fn cordova_arguments() {
    assert_eq!(cordova_project_dir("/tmp/vn2apk_Demo"), "/tmp/vn2apk_Demo/cordova");
    assert_eq!(create_args("/w/cordova", "com.a", "Demo"), vec!["create", "/w/cordova", "com.a", "Demo"]);
    assert_eq!(platform_add_args(), vec!["platform", "add", "android@13"]);
    assert_eq!(
        release_build_args(),
        vec!["build", "android", "--release", "--", "--packageType=apk", "--gradleArg=-x lintVitalRelease -x lintVitalAnalyzeRelease"]
    );
    assert_eq!(
        release_apk_candidates("/w/cordova"),
        vec![
            "/w/cordova/platforms/android/app/build/outputs/apk/release/app-release-unsigned.apk",
            "/w/cordova/platforms/android/app/build/outputs/apk/release/app-release.apk",
        ]
    );
}
