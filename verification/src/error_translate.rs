//! Friendlier wording for the errors of a build.
use vstd::prelude::*;
use crate::paths::owned;
use crate::text::{chars_of, contains_seq, contains_str, occurs_at};

verus! {

/// A wrong store password.
pub open spec fn says_bad_password(raw: Seq<char>) -> bool {
    contains_seq(raw, "keystore password was incorrect"@)
}

/// The signing key could not be read.
pub open spec fn says_unreadable_key(raw: Seq<char>) -> bool {
    contains_seq(raw, "Failed to read key"@)
}

/// The Ren'Py packaging tool is missing.
pub open spec fn says_no_rapt(raw: Seq<char>) -> bool {
    contains_seq(raw, "RAPT not found"@) || (contains_seq(raw, "android_build"@) && contains_seq(
        raw,
        "not a directory"@,
    ))
}

/// The Android SDK is not configured.
pub open spec fn says_no_sdk(raw: Seq<char>) -> bool {
    contains_seq(raw, "SDK location not found"@) || contains_seq(raw, "ANDROID_HOME"@)
}

/// No Java was found.
pub open spec fn says_no_java(raw: Seq<char>) -> bool {
    contains_seq(raw, "JAVA_HOME"@) || contains_seq(raw, "java: not found"@) || (contains_seq(
        raw,
        "No such file"@,
    ) && contains_seq(raw, "java"@))
}

/// The disk is full.
pub open spec fn says_disk_full(raw: Seq<char>) -> bool {
    contains_seq(raw, "No space left"@)
}

/// A permission was refused.
pub open spec fn says_permission(raw: Seq<char>) -> bool {
    contains_seq(raw, "Permission denied"@)
}

/// The package was not found after the build.
pub open spec fn says_no_apk(raw: Seq<char>) -> bool {
    contains_seq(raw, "Could not find"@) && contains_seq(raw, "apk"@)
}

/// A tool crashed.
pub open spec fn says_crash(raw: Seq<char>) -> bool {
    contains_seq(raw, "exited with exit status: 255"@)
}

/// Some known pattern occurs in the message.
pub open spec fn is_known_error(raw: Seq<char>) -> bool {
    says_bad_password(raw) || says_unreadable_key(raw) || says_no_rapt(raw) || says_no_sdk(raw)
        || says_no_java(raw) || says_disk_full(raw) || says_permission(raw) || says_no_apk(raw)
        || says_crash(raw)
}

/// The friendly message for a raw error: the first pattern that matches
/// decides, and an unknown message is kept as it is.
pub open spec fn translation(raw: Seq<char>) -> Seq<char> {
    if says_bad_password(raw) {
        "Wrong keystore password. Re-enter your store/key password."@
    } else if says_unreadable_key(raw) {
        "Could not read the signing key — check your keystore alias and password."@
    } else if says_no_rapt(raw) {
        "RAPT is not installed. Open the Ren'Py Launcher → Android → Install SDK."@
    } else if says_no_sdk(raw) {
        "Android SDK path is not configured. Set it in Settings → Android SDK."@
    } else if says_no_java(raw) {
        "Java (JDK) not found. Set JAVA_HOME in Settings or install JDK 17+."@
    } else if says_disk_full(raw) {
        "Not enough disk space. Free up space in /tmp and try again."@
    } else if says_permission(raw) {
        "Permission denied. Check that the output folder is writable."@
    } else if says_no_apk(raw) {
        "APK not found after build. Check the build log for errors."@
    } else if says_crash(raw) {
        "Build tool crashed unexpectedly. Check the full log above for the root cause."@
    } else {
        raw
    }
}

/// Translate a raw build error message into a human-friendly string.
/// Falls back to the original message if no pattern matches.
pub fn translate(raw: &str) -> (r: String)
    ensures
        r@ == translation(raw@),
        !is_known_error(raw@) ==> r@ == raw@,
{
    let v = chars_of(raw);
    if contains_str(&v, "keystore password was incorrect") {
        return owned("Wrong keystore password. Re-enter your store/key password.");
    }
    if contains_str(&v, "Failed to read key") {
        return owned("Could not read the signing key — check your keystore alias and password.");
    }
    if contains_str(&v, "RAPT not found") || (contains_str(&v, "android_build") && contains_str(
        &v,
        "not a directory",
    )) {
        return owned("RAPT is not installed. Open the Ren'Py Launcher → Android → Install SDK.");
    }
    if contains_str(&v, "SDK location not found") || contains_str(&v, "ANDROID_HOME") {
        return owned("Android SDK path is not configured. Set it in Settings → Android SDK.");
    }
    if contains_str(&v, "JAVA_HOME") || contains_str(&v, "java: not found") || (contains_str(
        &v,
        "No such file",
    ) && contains_str(&v, "java")) {
        return owned("Java (JDK) not found. Set JAVA_HOME in Settings or install JDK 17+.");
    }
    if contains_str(&v, "No space left") {
        return owned("Not enough disk space. Free up space in /tmp and try again.");
    }
    if contains_str(&v, "Permission denied") {
        return owned("Permission denied. Check that the output folder is writable.");
    }
    if contains_str(&v, "Could not find") && contains_str(&v, "apk") {
        return owned("APK not found after build. Check the build log for errors.");
    }
    if contains_str(&v, "exited with exit status: 255") {
        return owned(
            "Build tool crashed unexpectedly. Check the full log above for the root cause.",
        );
    }
    owned(raw)
}

// ---------------------------------------------------------------------------
// Translating twice
// ---------------------------------------------------------------------------

/// A pattern with a character that the text lacks does not occur in it.
proof fn lemma_absent(m: Seq<char>, p: Seq<char>, k: int, c: char)
    requires
        0 <= k < p.len(),
        p[k] == c,
        forall|i: int| 0 <= i < m.len() ==> m[i] != c,
    ensures
        !contains_seq(m, p),
{
    assert forall|i: int| !occurs_at(m, p, i) by {
        if occurs_at(m, p, i) {
            assert(m.subrange(i, i + p.len())[k] == p[k]);
            assert(m[i + k] == c);
        }
    }
}

/// A pattern with two neighbouring characters that never stand side by side
/// in the text does not occur in it.
proof fn lemma_absent_pair(m: Seq<char>, p: Seq<char>, k: int, a: char, b: char)
    requires
        0 <= k && k + 1 < p.len(),
        p[k] == a,
        p[k + 1] == b,
        forall|i: int| 0 <= i && i + 1 < m.len() ==> !(#[trigger] m[i] == a && m[i + 1] == b),
    ensures
        !contains_seq(m, p),
{
    assert forall|i: int| !occurs_at(m, p, i) by {
        if occurs_at(m, p, i) {
            assert(m.subrange(i, i + p.len())[k] == p[k]);
            assert(m.subrange(i, i + p.len())[k + 1] == p[k + 1]);
            assert(m[i + k] == a && m[i + k + 1] == b);
        }
    }
}

/// The friendly message 0 is left as it is by a second translation.
proof fn lemma_message_0_kept()
    ensures
        translation("Wrong keystore password. Re-enter your store/key password."@) == "Wrong keystore password. Re-enter your store/key password."@,
{
    reveal_strlit("ANDROID_HOME");
    reveal_strlit("Could not find");
    reveal_strlit("Failed to read key");
    reveal_strlit("JAVA_HOME");
    reveal_strlit("No space left");
    reveal_strlit("No such file");
    reveal_strlit("Permission denied");
    reveal_strlit("RAPT not found");
    reveal_strlit("SDK location not found");
    reveal_strlit("Wrong keystore password. Re-enter your store/key password.");
    reveal_strlit("android_build");
    reveal_strlit("exited with exit status: 255");
    reveal_strlit("java: not found");
    reveal_strlit("keystore password was incorrect");
    lemma_absent("Wrong keystore password. Re-enter your store/key password."@, "keystore password was incorrect"@, 22, 'i');
    lemma_absent("Wrong keystore password. Re-enter your store/key password."@, "Failed to read key"@, 0, 'F');
    lemma_absent("Wrong keystore password. Re-enter your store/key password."@, "RAPT not found"@, 1, 'A');
    lemma_absent("Wrong keystore password. Re-enter your store/key password."@, "android_build"@, 5, 'i');
    lemma_absent("Wrong keystore password. Re-enter your store/key password."@, "SDK location not found"@, 0, 'S');
    lemma_absent("Wrong keystore password. Re-enter your store/key password."@, "ANDROID_HOME"@, 0, 'A');
    lemma_absent("Wrong keystore password. Re-enter your store/key password."@, "JAVA_HOME"@, 0, 'J');
    lemma_absent("Wrong keystore password. Re-enter your store/key password."@, "java: not found"@, 0, 'j');
    lemma_absent("Wrong keystore password. Re-enter your store/key password."@, "No such file"@, 0, 'N');
    lemma_absent("Wrong keystore password. Re-enter your store/key password."@, "No space left"@, 0, 'N');
    lemma_absent("Wrong keystore password. Re-enter your store/key password."@, "Permission denied"@, 0, 'P');
    lemma_absent("Wrong keystore password. Re-enter your store/key password."@, "Could not find"@, 0, 'C');
    lemma_absent("Wrong keystore password. Re-enter your store/key password."@, "exited with exit status: 255"@, 1, 'x');
}

/// The friendly message 1 is left as it is by a second translation.
proof fn lemma_message_1_kept()
    ensures
        translation("Could not read the signing key — check your keystore alias and password."@) == "Could not read the signing key — check your keystore alias and password."@,
{
    reveal_strlit("ANDROID_HOME");
    reveal_strlit("Could not find");
    reveal_strlit("Could not read the signing key — check your keystore alias and password.");
    reveal_strlit("Failed to read key");
    reveal_strlit("JAVA_HOME");
    reveal_strlit("No space left");
    reveal_strlit("No such file");
    reveal_strlit("Permission denied");
    reveal_strlit("RAPT not found");
    reveal_strlit("SDK location not found");
    reveal_strlit("android_build");
    reveal_strlit("exited with exit status: 255");
    reveal_strlit("java: not found");
    reveal_strlit("keystore password was incorrect");
    lemma_absent_pair("Could not read the signing key — check your keystore alias and password."@, "keystore password was incorrect"@, 17, ' ', 'w');
    lemma_absent("Could not read the signing key — check your keystore alias and password."@, "Failed to read key"@, 0, 'F');
    lemma_absent("Could not read the signing key — check your keystore alias and password."@, "RAPT not found"@, 0, 'R');
    lemma_absent("Could not read the signing key — check your keystore alias and password."@, "android_build"@, 7, '_');
    lemma_absent("Could not read the signing key — check your keystore alias and password."@, "SDK location not found"@, 0, 'S');
    lemma_absent("Could not read the signing key — check your keystore alias and password."@, "ANDROID_HOME"@, 0, 'A');
    lemma_absent("Could not read the signing key — check your keystore alias and password."@, "JAVA_HOME"@, 0, 'J');
    lemma_absent("Could not read the signing key — check your keystore alias and password."@, "java: not found"@, 0, 'j');
    lemma_absent("Could not read the signing key — check your keystore alias and password."@, "No such file"@, 0, 'N');
    lemma_absent("Could not read the signing key — check your keystore alias and password."@, "No space left"@, 0, 'N');
    lemma_absent("Could not read the signing key — check your keystore alias and password."@, "Permission denied"@, 0, 'P');
    lemma_absent("Could not read the signing key — check your keystore alias and password."@, "Could not find"@, 10, 'f');
    lemma_absent("Could not read the signing key — check your keystore alias and password."@, "exited with exit status: 255"@, 1, 'x');
}

/// The friendly message 2 is left as it is by a second translation.
proof fn lemma_message_2_kept()
    ensures
        translation("RAPT is not installed. Open the Ren'Py Launcher → Android → Install SDK."@) == "RAPT is not installed. Open the Ren'Py Launcher → Android → Install SDK."@,
{
    reveal_strlit("ANDROID_HOME");
    reveal_strlit("Could not find");
    reveal_strlit("Failed to read key");
    reveal_strlit("JAVA_HOME");
    reveal_strlit("No space left");
    reveal_strlit("No such file");
    reveal_strlit("Permission denied");
    reveal_strlit("RAPT is not installed. Open the Ren'Py Launcher → Android → Install SDK.");
    reveal_strlit("RAPT not found");
    reveal_strlit("SDK location not found");
    reveal_strlit("android_build");
    reveal_strlit("exited with exit status: 255");
    reveal_strlit("java: not found");
    reveal_strlit("keystore password was incorrect");
    lemma_absent("RAPT is not installed. Open the Ren'Py Launcher → Android → Install SDK."@, "keystore password was incorrect"@, 0, 'k');
    lemma_absent("RAPT is not installed. Open the Ren'Py Launcher → Android → Install SDK."@, "Failed to read key"@, 0, 'F');
    lemma_absent("RAPT is not installed. Open the Ren'Py Launcher → Android → Install SDK."@, "RAPT not found"@, 9, 'f');
    lemma_absent("RAPT is not installed. Open the Ren'Py Launcher → Android → Install SDK."@, "android_build"@, 7, '_');
    lemma_absent("RAPT is not installed. Open the Ren'Py Launcher → Android → Install SDK."@, "SDK location not found"@, 17, 'f');
    lemma_absent("RAPT is not installed. Open the Ren'Py Launcher → Android → Install SDK."@, "ANDROID_HOME"@, 1, 'N');
    lemma_absent("RAPT is not installed. Open the Ren'Py Launcher → Android → Install SDK."@, "JAVA_HOME"@, 0, 'J');
    lemma_absent("RAPT is not installed. Open the Ren'Py Launcher → Android → Install SDK."@, "java: not found"@, 0, 'j');
    lemma_absent("RAPT is not installed. Open the Ren'Py Launcher → Android → Install SDK."@, "No such file"@, 0, 'N');
    lemma_absent("RAPT is not installed. Open the Ren'Py Launcher → Android → Install SDK."@, "No space left"@, 0, 'N');
    lemma_absent("RAPT is not installed. Open the Ren'Py Launcher → Android → Install SDK."@, "Permission denied"@, 3, 'm');
    lemma_absent("RAPT is not installed. Open the Ren'Py Launcher → Android → Install SDK."@, "Could not find"@, 0, 'C');
    lemma_absent("RAPT is not installed. Open the Ren'Py Launcher → Android → Install SDK."@, "exited with exit status: 255"@, 1, 'x');
}

/// The friendly message 3 is left as it is by a second translation.
proof fn lemma_message_3_kept()
    ensures
        translation("Android SDK path is not configured. Set it in Settings → Android SDK."@) == "Android SDK path is not configured. Set it in Settings → Android SDK."@,
{
    reveal_strlit("ANDROID_HOME");
    reveal_strlit("Android SDK path is not configured. Set it in Settings → Android SDK.");
    reveal_strlit("Could not find");
    reveal_strlit("Failed to read key");
    reveal_strlit("JAVA_HOME");
    reveal_strlit("No space left");
    reveal_strlit("No such file");
    reveal_strlit("Permission denied");
    reveal_strlit("RAPT not found");
    reveal_strlit("SDK location not found");
    reveal_strlit("android_build");
    reveal_strlit("exited with exit status: 255");
    reveal_strlit("java: not found");
    reveal_strlit("keystore password was incorrect");
    lemma_absent("Android SDK path is not configured. Set it in Settings → Android SDK."@, "keystore password was incorrect"@, 0, 'k');
    lemma_absent("Android SDK path is not configured. Set it in Settings → Android SDK."@, "Failed to read key"@, 0, 'F');
    lemma_absent("Android SDK path is not configured. Set it in Settings → Android SDK."@, "RAPT not found"@, 0, 'R');
    lemma_absent("Android SDK path is not configured. Set it in Settings → Android SDK."@, "android_build"@, 7, '_');
    lemma_absent("Android SDK path is not configured. Set it in Settings → Android SDK."@, "SDK location not found"@, 4, 'l');
    lemma_absent("Android SDK path is not configured. Set it in Settings → Android SDK."@, "ANDROID_HOME"@, 1, 'N');
    lemma_absent("Android SDK path is not configured. Set it in Settings → Android SDK."@, "JAVA_HOME"@, 0, 'J');
    lemma_absent("Android SDK path is not configured. Set it in Settings → Android SDK."@, "java: not found"@, 0, 'j');
    lemma_absent("Android SDK path is not configured. Set it in Settings → Android SDK."@, "No such file"@, 0, 'N');
    lemma_absent("Android SDK path is not configured. Set it in Settings → Android SDK."@, "No space left"@, 0, 'N');
    lemma_absent("Android SDK path is not configured. Set it in Settings → Android SDK."@, "Permission denied"@, 0, 'P');
    lemma_absent("Android SDK path is not configured. Set it in Settings → Android SDK."@, "Could not find"@, 0, 'C');
    lemma_absent("Android SDK path is not configured. Set it in Settings → Android SDK."@, "exited with exit status: 255"@, 1, 'x');
}

/// The friendly message 4 is left as it is by a second translation.
proof fn lemma_message_4_kept()
    ensures
        translation("Java (JDK) not found. Set JAVA_HOME in Settings or install JDK 17+."@) == "Java (JDK) not found. Set JAVA_HOME in Settings or install JDK 17+."@,
{
    reveal_strlit("ANDROID_HOME");
    reveal_strlit("Failed to read key");
    reveal_strlit("JAVA_HOME");
    reveal_strlit("Java (JDK) not found. Set JAVA_HOME in Settings or install JDK 17+.");
    reveal_strlit("RAPT not found");
    reveal_strlit("SDK location not found");
    reveal_strlit("android_build");
    reveal_strlit("keystore password was incorrect");
    lemma_absent("Java (JDK) not found. Set JAVA_HOME in Settings or install JDK 17+."@, "keystore password was incorrect"@, 0, 'k');
    lemma_absent("Java (JDK) not found. Set JAVA_HOME in Settings or install JDK 17+."@, "Failed to read key"@, 0, 'F');
    lemma_absent("Java (JDK) not found. Set JAVA_HOME in Settings or install JDK 17+."@, "RAPT not found"@, 0, 'R');
    lemma_absent("Java (JDK) not found. Set JAVA_HOME in Settings or install JDK 17+."@, "android_build"@, 8, 'b');
    lemma_absent("Java (JDK) not found. Set JAVA_HOME in Settings or install JDK 17+."@, "SDK location not found"@, 6, 'c');
    lemma_absent("Java (JDK) not found. Set JAVA_HOME in Settings or install JDK 17+."@, "ANDROID_HOME"@, 1, 'N');
    assert("Java (JDK) not found. Set JAVA_HOME in Settings or install JDK 17+."@.subrange(26, 35) =~= "JAVA_HOME"@);
    assert(occurs_at("Java (JDK) not found. Set JAVA_HOME in Settings or install JDK 17+."@, "JAVA_HOME"@, 26));
}

/// The friendly message 5 is left as it is by a second translation.
proof fn lemma_message_5_kept()
    ensures
        translation("Not enough disk space. Free up space in /tmp and try again."@) == "Not enough disk space. Free up space in /tmp and try again."@,
{
    reveal_strlit("ANDROID_HOME");
    reveal_strlit("Could not find");
    reveal_strlit("Failed to read key");
    reveal_strlit("JAVA_HOME");
    reveal_strlit("No space left");
    reveal_strlit("No such file");
    reveal_strlit("Not enough disk space. Free up space in /tmp and try again.");
    reveal_strlit("Permission denied");
    reveal_strlit("RAPT not found");
    reveal_strlit("SDK location not found");
    reveal_strlit("android_build");
    reveal_strlit("exited with exit status: 255");
    reveal_strlit("java: not found");
    reveal_strlit("keystore password was incorrect");
    lemma_absent("Not enough disk space. Free up space in /tmp and try again."@, "keystore password was incorrect"@, 13, 'w');
    lemma_absent("Not enough disk space. Free up space in /tmp and try again."@, "Failed to read key"@, 3, 'l');
    lemma_absent("Not enough disk space. Free up space in /tmp and try again."@, "RAPT not found"@, 0, 'R');
    lemma_absent("Not enough disk space. Free up space in /tmp and try again."@, "android_build"@, 7, '_');
    lemma_absent("Not enough disk space. Free up space in /tmp and try again."@, "SDK location not found"@, 0, 'S');
    lemma_absent("Not enough disk space. Free up space in /tmp and try again."@, "ANDROID_HOME"@, 0, 'A');
    lemma_absent("Not enough disk space. Free up space in /tmp and try again."@, "JAVA_HOME"@, 0, 'J');
    lemma_absent("Not enough disk space. Free up space in /tmp and try again."@, "java: not found"@, 0, 'j');
    lemma_absent("Not enough disk space. Free up space in /tmp and try again."@, "No such file"@, 8, 'f');
    lemma_absent("Not enough disk space. Free up space in /tmp and try again."@, "No space left"@, 9, 'l');
    lemma_absent("Not enough disk space. Free up space in /tmp and try again."@, "Permission denied"@, 0, 'P');
    lemma_absent("Not enough disk space. Free up space in /tmp and try again."@, "Could not find"@, 0, 'C');
    lemma_absent("Not enough disk space. Free up space in /tmp and try again."@, "exited with exit status: 255"@, 1, 'x');
}

/// The friendly message 6 is left as it is by a second translation.
proof fn lemma_message_6_kept()
    ensures
        translation("Permission denied. Check that the output folder is writable."@) == "Permission denied. Check that the output folder is writable."@,
{
    reveal_strlit("ANDROID_HOME");
    reveal_strlit("Failed to read key");
    reveal_strlit("JAVA_HOME");
    reveal_strlit("No space left");
    reveal_strlit("No such file");
    reveal_strlit("Permission denied");
    reveal_strlit("Permission denied. Check that the output folder is writable.");
    reveal_strlit("RAPT not found");
    reveal_strlit("SDK location not found");
    reveal_strlit("android_build");
    reveal_strlit("java: not found");
    reveal_strlit("keystore password was incorrect");
    lemma_absent("Permission denied. Check that the output folder is writable."@, "keystore password was incorrect"@, 2, 'y');
    lemma_absent("Permission denied. Check that the output folder is writable."@, "Failed to read key"@, 0, 'F');
    lemma_absent("Permission denied. Check that the output folder is writable."@, "RAPT not found"@, 0, 'R');
    lemma_absent("Permission denied. Check that the output folder is writable."@, "android_build"@, 7, '_');
    lemma_absent("Permission denied. Check that the output folder is writable."@, "SDK location not found"@, 0, 'S');
    lemma_absent("Permission denied. Check that the output folder is writable."@, "ANDROID_HOME"@, 0, 'A');
    lemma_absent("Permission denied. Check that the output folder is writable."@, "JAVA_HOME"@, 0, 'J');
    lemma_absent("Permission denied. Check that the output folder is writable."@, "java: not found"@, 0, 'j');
    lemma_absent("Permission denied. Check that the output folder is writable."@, "No such file"@, 0, 'N');
    lemma_absent("Permission denied. Check that the output folder is writable."@, "No space left"@, 0, 'N');
    assert("Permission denied. Check that the output folder is writable."@.subrange(0, 17) =~= "Permission denied"@);
    assert(occurs_at("Permission denied. Check that the output folder is writable."@, "Permission denied"@, 0));
}

/// The friendly message 7 is left as it is by a second translation.
proof fn lemma_message_7_kept()
    ensures
        translation("APK not found after build. Check the build log for errors."@) == "APK not found after build. Check the build log for errors."@,
{
    reveal_strlit("ANDROID_HOME");
    reveal_strlit("APK not found after build. Check the build log for errors.");
    reveal_strlit("Could not find");
    reveal_strlit("Failed to read key");
    reveal_strlit("JAVA_HOME");
    reveal_strlit("No space left");
    reveal_strlit("No such file");
    reveal_strlit("Permission denied");
    reveal_strlit("RAPT not found");
    reveal_strlit("SDK location not found");
    reveal_strlit("android_build");
    reveal_strlit("exited with exit status: 255");
    reveal_strlit("java: not found");
    reveal_strlit("keystore password was incorrect");
    lemma_absent("APK not found after build. Check the build log for errors."@, "keystore password was incorrect"@, 2, 'y');
    lemma_absent("APK not found after build. Check the build log for errors."@, "Failed to read key"@, 0, 'F');
    lemma_absent("APK not found after build. Check the build log for errors."@, "RAPT not found"@, 0, 'R');
    lemma_absent("APK not found after build. Check the build log for errors."@, "android_build"@, 7, '_');
    lemma_absent("APK not found after build. Check the build log for errors."@, "SDK location not found"@, 0, 'S');
    lemma_absent("APK not found after build. Check the build log for errors."@, "ANDROID_HOME"@, 1, 'N');
    lemma_absent("APK not found after build. Check the build log for errors."@, "JAVA_HOME"@, 0, 'J');
    lemma_absent("APK not found after build. Check the build log for errors."@, "java: not found"@, 0, 'j');
    lemma_absent("APK not found after build. Check the build log for errors."@, "No such file"@, 0, 'N');
    lemma_absent("APK not found after build. Check the build log for errors."@, "No space left"@, 0, 'N');
    lemma_absent("APK not found after build. Check the build log for errors."@, "Permission denied"@, 3, 'm');
    lemma_absent_pair("APK not found after build. Check the build log for errors."@, "Could not find"@, 0, 'C', 'o');
    lemma_absent("APK not found after build. Check the build log for errors."@, "exited with exit status: 255"@, 1, 'x');
}

/// The friendly message 8 is left as it is by a second translation.
proof fn lemma_message_8_kept()
    ensures
        translation("Build tool crashed unexpectedly. Check the full log above for the root cause."@) == "Build tool crashed unexpectedly. Check the full log above for the root cause."@,
{
    reveal_strlit("ANDROID_HOME");
    reveal_strlit("Build tool crashed unexpectedly. Check the full log above for the root cause.");
    reveal_strlit("Could not find");
    reveal_strlit("Failed to read key");
    reveal_strlit("JAVA_HOME");
    reveal_strlit("No space left");
    reveal_strlit("No such file");
    reveal_strlit("Permission denied");
    reveal_strlit("RAPT not found");
    reveal_strlit("SDK location not found");
    reveal_strlit("android_build");
    reveal_strlit("exited with exit status: 255");
    reveal_strlit("java: not found");
    reveal_strlit("keystore password was incorrect");
    lemma_absent("Build tool crashed unexpectedly. Check the full log above for the root cause."@, "keystore password was incorrect"@, 13, 'w');
    lemma_absent("Build tool crashed unexpectedly. Check the full log above for the root cause."@, "Failed to read key"@, 0, 'F');
    lemma_absent("Build tool crashed unexpectedly. Check the full log above for the root cause."@, "RAPT not found"@, 0, 'R');
    lemma_absent("Build tool crashed unexpectedly. Check the full log above for the root cause."@, "android_build"@, 7, '_');
    lemma_absent("Build tool crashed unexpectedly. Check the full log above for the root cause."@, "SDK location not found"@, 0, 'S');
    lemma_absent("Build tool crashed unexpectedly. Check the full log above for the root cause."@, "ANDROID_HOME"@, 0, 'A');
    lemma_absent("Build tool crashed unexpectedly. Check the full log above for the root cause."@, "JAVA_HOME"@, 0, 'J');
    lemma_absent("Build tool crashed unexpectedly. Check the full log above for the root cause."@, "java: not found"@, 0, 'j');
    lemma_absent("Build tool crashed unexpectedly. Check the full log above for the root cause."@, "No such file"@, 0, 'N');
    lemma_absent("Build tool crashed unexpectedly. Check the full log above for the root cause."@, "No space left"@, 0, 'N');
    lemma_absent("Build tool crashed unexpectedly. Check the full log above for the root cause."@, "Permission denied"@, 0, 'P');
    lemma_absent_pair("Build tool crashed unexpectedly. Check the full log above for the root cause."@, "Could not find"@, 0, 'C', 'o');
    lemma_absent("Build tool crashed unexpectedly. Check the full log above for the root cause."@, "exited with exit status: 255"@, 7, 'w');
}

/// Translating a message twice gives what translating it once gives: every
/// friendly message is left as it is.
pub proof fn lemma_translate_idempotent(raw: Seq<char>)
    ensures
        translation(translation(raw)) == translation(raw),
{
    lemma_message_0_kept();
    lemma_message_1_kept();
    lemma_message_2_kept();
    lemma_message_3_kept();
    lemma_message_4_kept();
    lemma_message_5_kept();
    lemma_message_6_kept();
    lemma_message_7_kept();
    lemma_message_8_kept();
}

} // verus!
