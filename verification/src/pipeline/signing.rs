//! Aligning and signing the package with the Android build tools.
use vstd::prelude::*;
use crate::paths::{join_path, join_str, owned, parent_of, path_parent};
use crate::settings::AppSettings;
use crate::text::{chars_of, push_str, string_of, string_views};

verus! {

/// A command to run: the program, its arguments and its working folder.
pub struct ToolCommand {
    pub program: String,
    pub args: Vec<String>,
    pub cwd: String,
}

/// The build-tools folder of the configured SDK and version.
pub open spec fn build_tools_dir(settings: AppSettings) -> Seq<char> {
    join_path(join_path(settings.android_sdk_path@, "build-tools"@), settings.build_tools_version@)
}

/// The build-tools folder of the configured SDK and version.
pub fn build_tools_bin(settings: &AppSettings) -> (r: String)
    ensures
        r@ == build_tools_dir(*settings),
{
    let bt = join_str(settings.android_sdk_path.as_str(), "build-tools");
    join_str(bt.as_str(), settings.build_tools_version.as_str())
}

/// The folder a tool runs in: that of the package, or `/tmp`.
pub open spec fn work_folder(apk: Seq<char>) -> Seq<char> {
    match path_parent(apk) {
        Some(d) => d,
        None => "/tmp"@,
    }
}

/// The folder a tool runs in.
fn work_folder_exec(apk: &str) -> (r: String)
    ensures
        r@ == work_folder(apk@),
{
    match parent_of(apk) {
        Some(d) => d,
        None => owned("/tmp"),
    }
}

/// `zipalign -f 4 <unsigned> <aligned>` from the configured build tools,
/// run in the folder of the unsigned package.
pub fn zipalign(unsigned_apk: &str, aligned_apk: &str, settings: &AppSettings) -> (r: ToolCommand)
    ensures
        r.program@ == join_path(build_tools_dir(*settings), "zipalign"@),
        string_views(r.args@) == seq!["-f"@, "4"@, unsigned_apk@, aligned_apk@],
        r.cwd@ == work_folder(unsigned_apk@),
{
    let bin = build_tools_bin(settings);
    let args = vec![owned("-f"), owned("4"), owned(unsigned_apk), owned(aligned_apk)];
    assert(string_views(args@) =~= seq!["-f"@, "4"@, unsigned_apk@, aligned_apk@]);
    ToolCommand { program: join_str(bin.as_str(), "zipalign"), args, cwd: work_folder_exec(unsigned_apk) }
}

/// The arguments of `apksigner sign`.
pub open spec fn sign_args(settings: AppSettings, aligned: Seq<char>, signed: Seq<char>, storepass: Seq<char>, keypass: Seq<char>) -> Seq<Seq<char>> {
    seq![
        "sign"@,
        "--ks"@,
        settings.keystore_path@,
        "--ks-key-alias"@,
        settings.keystore_alias@,
        "--ks-pass"@,
        "pass:"@ + storepass,
        "--key-pass"@,
        "pass:"@ + keypass,
        "--out"@,
        signed,
        aligned,
    ]
}

/// Why signing cannot start, if it cannot: no keystore configured, or the
/// keystore file missing.
pub open spec fn sign_refusal(settings: AppSettings, keystore_exists: bool) -> Option<Seq<char>> {
    if settings.keystore_path@.len() == 0 {
        Some("Keystore path not set. Configure it in Settings before building."@)
    } else if !keystore_exists {
        Some("Keystore not found: "@ + settings.keystore_path@ + ". Generate one in Settings."@)
    } else {
        None
    }
}

/// `apksigner sign` with the configured keystore and alias, run in the
/// folder of the aligned package; an error when no keystore is configured
/// or it does not exist.
pub fn sign_apk(aligned_apk: &str, signed_apk: &str, storepass: &str, keypass: &str, settings: &AppSettings, keystore_exists: bool) -> (r: Result<ToolCommand, String>)
    ensures
        match r {
            Ok(c) => sign_refusal(*settings, keystore_exists) is None && c.program@ == join_path(
                build_tools_dir(*settings),
                "apksigner"@,
            ) && string_views(c.args@) == sign_args(*settings, aligned_apk@, signed_apk@, storepass@, keypass@)
                && c.cwd@ == work_folder(aligned_apk@),
            Err(e) => sign_refusal(*settings, keystore_exists) == Some(e@),
        },
{
    if settings.keystore_path.as_str().is_empty() {
        return Err(owned("Keystore path not set. Configure it in Settings before building."));
    }
    if !keystore_exists {
        let mut m = chars_of("Keystore not found: ");
        push_str(&mut m, settings.keystore_path.as_str());
        push_str(&mut m, ". Generate one in Settings.");
        return Err(string_of(&m));
    }
    let bin = build_tools_bin(settings);
    let mut sp = chars_of("pass:");
    push_str(&mut sp, storepass);
    let mut kp = chars_of("pass:");
    push_str(&mut kp, keypass);
    let args = vec![
        owned("sign"),
        owned("--ks"),
        settings.keystore_path.clone(),
        owned("--ks-key-alias"),
        settings.keystore_alias.clone(),
        owned("--ks-pass"),
        string_of(&sp),
        owned("--key-pass"),
        string_of(&kp),
        owned("--out"),
        owned(signed_apk),
        owned(aligned_apk),
    ];
    assert(string_views(args@) =~= sign_args(*settings, aligned_apk@, signed_apk@, storepass@, keypass@));
    Ok(ToolCommand { program: join_str(bin.as_str(), "apksigner"), args, cwd: work_folder_exec(aligned_apk) })
}


/// Signing goes ahead exactly when a keystore path is configured and the
/// keystore exists; the command then names the configured keystore after
/// `--ks`, the configured key alias after `--ks-key-alias` (whatever it
/// is), the store and key passwords (prefixed `pass:`) after `--ks-pass`
/// and `--key-pass`, the signed package after `--out`, and ends with the
/// aligned package.  Two settings with the same keystore path give
/// commands that differ at most in the alias.
pub proof fn lemma_sign_command(
    settings: AppSettings,
    other_alias: AppSettings,
    keystore_exists: bool,
    aligned: Seq<char>,
    signed: Seq<char>,
    storepass: Seq<char>,
    keypass: Seq<char>,
)
    requires
        other_alias.keystore_path@ == settings.keystore_path@,
    ensures
        sign_refusal(settings, keystore_exists) is None <==> settings.keystore_path@.len() > 0
            && keystore_exists,
        ({
            let a = sign_args(settings, aligned, signed, storepass, keypass);
            let b = sign_args(other_alias, aligned, signed, storepass, keypass);
            &&& a.len() == 12
            &&& a[0] == "sign"@
            &&& a.subrange(1, 3) == seq!["--ks"@, settings.keystore_path@]
            &&& a.subrange(3, 5) == seq!["--ks-key-alias"@, settings.keystore_alias@]
            &&& a.subrange(5, 7) == seq!["--ks-pass"@, "pass:"@ + storepass]
            &&& a.subrange(7, 9) == seq!["--key-pass"@, "pass:"@ + keypass]
            &&& a.subrange(9, 11) == seq!["--out"@, signed]
            &&& a.last() == aligned
            &&& b.len() == a.len()
            &&& b[4] == other_alias.keystore_alias@
            &&& forall|i: int| 0 <= i < a.len() && i != 4 ==> #[trigger] b[i] == a[i]
        }),
{
    let a = sign_args(settings, aligned, signed, storepass, keypass);
    assert(a.subrange(1, 3) =~= seq!["--ks"@, settings.keystore_path@]);
    assert(a.subrange(3, 5) =~= seq!["--ks-key-alias"@, settings.keystore_alias@]);
    assert(a.subrange(5, 7) =~= seq!["--ks-pass"@, "pass:"@ + storepass]);
    assert(a.subrange(7, 9) =~= seq!["--key-pass"@, "pass:"@ + keypass]);
    assert(a.subrange(9, 11) =~= seq!["--out"@, signed]);
}

} // verus!
