use vn2apk::error_translate::translate;

#[test]
fn wrong_store_password() {
    assert_eq!(
        translate("jarsigner error: keystore password was incorrect"),
        "Wrong keystore password. Re-enter your store/key password."
    );
}

#[test]
fn unreadable_key() {
    assert_eq!(
        translate("Failed to read key key0 from store"),
        "Could not read the signing key — check your keystore alias and password."
    );
}

#[test]
fn missing_rapt() {
    let want = "RAPT is not installed. Open the Ren'Py Launcher → Android → Install SDK.";
    assert_eq!(translate("RAPT not found"), want);
    assert_eq!(translate("android_build: /x is not a directory"), want);
    assert_ne!(translate("android_build failed"), want);
}

#[test]
fn missing_sdk() {
    let want = "Android SDK path is not configured. Set it in Settings → Android SDK.";
    assert_eq!(translate("SDK location not found. Define a valid SDK"), want);
    assert_eq!(translate("ANDROID_HOME is not set"), want);
}

#[test]
fn missing_java() {
    let want = "Java (JDK) not found. Set JAVA_HOME in Settings or install JDK 17+.";
    assert_eq!(translate("ERROR: JAVA_HOME is not set"), want);
    assert_eq!(translate("sh: 1: java: not found"), want);
    assert_eq!(translate("No such file or directory (os error 2): java"), want);
    assert_eq!(translate("No such file or directory (os error 2)"), "No such file or directory (os error 2)");
}

#[test]
fn disk_permission_apk_crash() {
    assert_eq!(
        translate("write failed: No space left on device"),
        "Not enough disk space. Free up space in /tmp and try again."
    );
    assert_eq!(
        translate("Permission denied (os error 13)"),
        "Permission denied. Check that the output folder is writable."
    );
    assert_eq!(
        translate("Could not find the built apk"),
        "APK not found after build. Check the build log for errors."
    );
    assert_eq!(
        translate("gradle exited with exit status: 255"),
        "Build tool crashed unexpectedly. Check the full log above for the root cause."
    );
}

#[test]
fn first_pattern_wins() {
    assert_eq!(
        translate("keystore password was incorrect; Permission denied"),
        "Wrong keystore password. Re-enter your store/key password."
    );
    assert_eq!(
        translate("ANDROID_HOME and JAVA_HOME"),
        "Android SDK path is not configured. Set it in Settings → Android SDK."
    );
}

#[test]
fn unknown_message_is_kept() {
    assert_eq!(translate("something odd happened"), "something odd happened");
    assert_eq!(translate(""), "");
    assert_eq!(translate("Build cancelled by user"), "Build cancelled by user");
}
