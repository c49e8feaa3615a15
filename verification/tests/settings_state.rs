use std::sync::atomic::Ordering;
use vn2apk::pipeline::env::{env_lookup, env_set};
use vn2apk::settings::{copy_settings, default_settings, AppSettings};
use vn2apk::state::AppState;

fn s(x: &str) -> String {
    x.to_string()
}

#[test]
fn defaults_have_alias_and_build_tools() {
    let d = AppSettings::default();
    assert_eq!(d.keystore_alias, "key0");
    assert_eq!(d.build_tools_version, "34.0.0");
    for f in [&d.android_sdk_path, &d.gradle_home, &d.java_home, &d.node_path, &d.cordova_path, &d.keystore_path, &d.output_dir, &d.renpy_sdk_path] {
        assert!(f.is_empty());
    }
    assert_eq!(default_settings().keystore_alias, "key0");
}

#[test]
fn copy_keeps_every_field() {
    let mut a = AppSettings::default();
    a.java_home = s("/jdk");
    a.output_dir = s("/out");
    let b = copy_settings(&a);
    assert_eq!(b.java_home, "/jdk");
    assert_eq!(b.output_dir, "/out");
    assert_eq!(b.keystore_alias, "key0");
}

#[test]
fn state_starts_with_defaults_and_no_cancel() {
    let st = AppState::new();
    let settings = st.settings.lock().unwrap();
    assert_eq!(settings.keystore_alias, "key0");
    assert_eq!(settings.build_tools_version, "34.0.0");
    assert!(settings.android_sdk_path.is_empty());
    assert!(!st.build_cancel.load(Ordering::SeqCst));
}

#[test]
fn env_read_after_write() {
    let mut env = vec![(s("PATH"), s("/bin")), (s("HOME"), s("/home/u"))];
    env_set(&mut env, "PATH", "/x:/bin");
    env_set(&mut env, "LANG", "C");
    assert_eq!(env_lookup(&env, "PATH"), Some(s("/x:/bin")));
    assert_eq!(env_lookup(&env, "LANG"), Some(s("C")));
    assert_eq!(env_lookup(&env, "HOME"), Some(s("/home/u")));
    assert_eq!(env_lookup(&env, "NOPE"), None);
    assert_eq!(env.len(), 3);
    env_set(&mut env, "LANG", "en_US.UTF-8");
    assert_eq!(env.len(), 3);
    assert_eq!(env_lookup(&env, "LANG"), Some(s("en_US.UTF-8")));
}
