//! The persistent settings of the application.
use vstd::prelude::*;
use crate::paths::owned;

verus! {

/// Paths of the tools and signing defaults.  Every field is plain text; an
/// empty field means "not configured".
#[derive(Debug, Clone)]
pub struct AppSettings {
    pub android_sdk_path: String,
    pub gradle_home: String,
    pub java_home: String,
    pub node_path: String,
    pub cordova_path: String,
    pub keystore_path: String,
    pub keystore_alias: String,
    pub output_dir: String,
    pub build_tools_version: String,
    pub renpy_sdk_path: String,
}

/// The build-tools version assumed when none is found.
pub open spec fn default_build_tools() -> Seq<char> {
    "34.0.0"@
}

/// The key alias used when none is configured.
pub open spec fn default_key_alias() -> Seq<char> {
    "key0"@
}

/// The settings of a fresh installation: every path empty, the key alias
/// `key0` and build-tools `34.0.0`.
pub open spec fn is_default_settings(s: AppSettings) -> bool {
    &&& s.android_sdk_path@ == Seq::<char>::empty()
    &&& s.gradle_home@ == Seq::<char>::empty()
    &&& s.java_home@ == Seq::<char>::empty()
    &&& s.node_path@ == Seq::<char>::empty()
    &&& s.cordova_path@ == Seq::<char>::empty()
    &&& s.keystore_path@ == Seq::<char>::empty()
    &&& s.keystore_alias@ == default_key_alias()
    &&& s.output_dir@ == Seq::<char>::empty()
    &&& s.build_tools_version@ == default_build_tools()
    &&& s.renpy_sdk_path@ == Seq::<char>::empty()
}

/// The two settings hold the same text in every field.
pub open spec fn same_settings(a: AppSettings, b: AppSettings) -> bool {
    &&& a.android_sdk_path@ == b.android_sdk_path@
    &&& a.gradle_home@ == b.gradle_home@
    &&& a.java_home@ == b.java_home@
    &&& a.node_path@ == b.node_path@
    &&& a.cordova_path@ == b.cordova_path@
    &&& a.keystore_path@ == b.keystore_path@
    &&& a.keystore_alias@ == b.keystore_alias@
    &&& a.output_dir@ == b.output_dir@
    &&& a.build_tools_version@ == b.build_tools_version@
    &&& a.renpy_sdk_path@ == b.renpy_sdk_path@
}

/// The settings of a fresh installation.
pub fn default_settings() -> (s: AppSettings)
    ensures
        is_default_settings(s),
{
    AppSettings {
        android_sdk_path: String::new(),
        gradle_home: String::new(),
        java_home: String::new(),
        node_path: String::new(),
        cordova_path: String::new(),
        keystore_path: String::new(),
        keystore_alias: owned("key0"),
        output_dir: String::new(),
        build_tools_version: owned("34.0.0"),
        renpy_sdk_path: String::new(),
    }
}

impl Default for AppSettings {
    fn default() -> (s: Self)
        ensures
            is_default_settings(s),
    {
        default_settings()
    }
}

/// A field-by-field copy of the settings.
pub fn copy_settings(s: &AppSettings) -> (r: AppSettings)
    ensures
        same_settings(r, *s),
{
    AppSettings {
        android_sdk_path: s.android_sdk_path.clone(),
        gradle_home: s.gradle_home.clone(),
        java_home: s.java_home.clone(),
        node_path: s.node_path.clone(),
        cordova_path: s.cordova_path.clone(),
        keystore_path: s.keystore_path.clone(),
        keystore_alias: s.keystore_alias.clone(),
        output_dir: s.output_dir.clone(),
        build_tools_version: s.build_tools_version.clone(),
        renpy_sdk_path: s.renpy_sdk_path.clone(),
    }
}

/// The fields of the settings in declaration order: Android SDK, Gradle
/// home, Java home, Node.js, Cordova, keystore, key alias, output folder,
/// build-tools version, Ren'Py SDK.
pub open spec fn settings_fields(s: AppSettings) -> Seq<Seq<char>> {
    seq![
        s.android_sdk_path@,
        s.gradle_home@,
        s.java_home@,
        s.node_path@,
        s.cordova_path@,
        s.keystore_path@,
        s.keystore_alias@,
        s.output_dir@,
        s.build_tools_version@,
        s.renpy_sdk_path@,
    ]
}

/// The fields of the settings of a fresh installation.
pub open spec fn default_fields() -> Seq<Seq<char>> {
    seq![
        Seq::<char>::empty(),
        Seq::<char>::empty(),
        Seq::<char>::empty(),
        Seq::<char>::empty(),
        Seq::<char>::empty(),
        Seq::<char>::empty(),
        default_key_alias(),
        Seq::<char>::empty(),
        default_build_tools(),
        Seq::<char>::empty(),
    ]
}

/// Index of the Android SDK path in `settings_fields`.
pub open spec fn sdk_field() -> int {
    0
}

/// Index of the Gradle home in `settings_fields`.
pub open spec fn gradle_field() -> int {
    1
}

/// Index of the Java home in `settings_fields`.
pub open spec fn java_field() -> int {
    2
}

/// Index of the Node.js path in `settings_fields`.
pub open spec fn node_field() -> int {
    3
}

/// Index of the Cordova path in `settings_fields`.
pub open spec fn cordova_field() -> int {
    4
}

/// Index of the build-tools version in `settings_fields`.
pub open spec fn build_tools_field() -> int {
    8
}

/// Index of the Ren'Py SDK path in `settings_fields`.
pub open spec fn renpy_field() -> int {
    9
}

} // verus!
