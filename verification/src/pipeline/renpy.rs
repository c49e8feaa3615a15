//! The decisions of the Ren'Py build: the launcher to run, the
//! `android.json` it needs, and where the package may land.
use vstd::prelude::*;
use crate::paths::{join_path, join_str, name_extension, name_extension_chars, owned};
use crate::json::{json_literal, string_literal};
use crate::pipeline::names::{is_alphanumeric_ch, unicode_alphanumeric};
use crate::pipeline::types::BuildOptions;
use crate::settings::AppSettings;
use crate::text::{chars_of, decimal, decimal_chars, is_literal, push_all, push_str, string_of, string_views};
use crate::toolchain::install::{keytool_args, keytool_args_spec};

verus! {

/// Stop when the user cancelled the build.
pub fn check_cancel(cancelled: bool) -> (r: Result<(), String>)
    ensures
        cancelled ==> (r matches Err(e) && e@ == "Build cancelled by user"@),
        !cancelled ==> r is Ok,
{
    if cancelled {
        Err(owned("Build cancelled by user"))
    } else {
        Ok(())
    }
}

/// The Ren'Py launcher script: `renpy.sh`, else `renpy.bat`, in the
/// configured SDK, else `renpy` on `PATH`.
pub open spec fn renpy_launcher(sdk: Seq<char>, sh_exists: bool, bat_exists: bool, on_path: Option<Seq<char>>) -> Result<Seq<char>, Seq<char>> {
    if sdk.len() > 0 && sh_exists {
        Ok(join_path(sdk, "renpy.sh"@))
    } else if sdk.len() > 0 && bat_exists {
        Ok(join_path(sdk, "renpy.bat"@))
    } else {
        match on_path {
            Some(p) => Ok(p),
            None => Err(
                "renpy.sh not found. Set Ren'Py SDK Path in Settings, or install the Ren'Py SDK."@,
            ),
        }
    }
}

/// Find the `renpy.sh` launcher script; `sh_exists` and `bat_exists` tell
/// whether `renpy.sh` and `renpy.bat` exist in the configured SDK.
pub fn find_renpy_sh(settings: &AppSettings, sh_exists: bool, bat_exists: bool, on_path: &Option<String>) -> (r: Result<String, String>)
    ensures
        match r {
            Ok(p) => renpy_launcher(
                settings.renpy_sdk_path@,
                sh_exists,
                bat_exists,
                match on_path {
                    Some(p) => Some(p@),
                    None => None,
                },
            ) == Ok::<Seq<char>, Seq<char>>(p@),
            Err(e) => renpy_launcher(
                settings.renpy_sdk_path@,
                sh_exists,
                bat_exists,
                match on_path {
                    Some(p) => Some(p@),
                    None => None,
                },
            ) == Err::<Seq<char>, Seq<char>>(e@),
        },
{
    let sdk = settings.renpy_sdk_path.as_str();
    if !sdk.is_empty() {
        if sh_exists {
            return Ok(join_str(sdk, "renpy.sh"));
        }
        if bat_exists {
            return Ok(join_str(sdk, "renpy.bat"));
        }
    }
    match on_path {
        Some(p) => Ok(p.clone()),
        None => Err(owned("renpy.sh not found. Set Ren'Py SDK Path in Settings, or install the Ren'Py SDK.")),
    }
}

/// The checks of a Ren'Py game folder: it exists and has a `game` folder.
pub open spec fn renpy_folder_check(exists: bool, game_is_dir: bool) -> Result<(), Seq<char>> {
    if !exists {
        Err("Game folder does not exist"@)
    } else if !game_is_dir {
        Err("Missing game/ directory — is this a Ren'Py project?"@)
    } else {
        Ok(())
    }
}

/// The checks of a Ren'Py game folder.
pub fn validate_renpy_folder(exists: bool, game_is_dir: bool) -> (r: Result<(), String>)
    ensures
        match r {
            Ok(()) => renpy_folder_check(exists, game_is_dir) is Ok,
            Err(e) => renpy_folder_check(exists, game_is_dir) == Err::<(), Seq<char>>(e@),
        },
{
    if !exists {
        Err(owned("Game folder does not exist"))
    } else if !game_is_dir {
        Err(owned("Missing game/ directory — is this a Ren'Py project?"))
    } else {
        Ok(())
    }
}

/// The `android.json` written for Ren'Py when the game has none; the
/// package, names and version are written as JSON string literals.
pub open spec fn android_json(app_id: Seq<char>, app_name: Seq<char>, version_name: Seq<char>, version_code: u32) -> Seq<char> {
    "{\n  \"package\": "@ + json_literal(app_id) + ",\n  \"name\": "@ + json_literal(app_name) + ",\n  \"icon_name\": "@
        + json_literal(app_name) + ",\n  \"version\": "@ + json_literal(version_name) + ",\n  \"numeric_version\": \""@
        + decimal(version_code as nat)
        + "\",\n  \"orientation\": \"sensorLandscape\",\n  \"permissions\": [\"VIBRATE\"],\n  \"include_pil\": false,\n  \"include_sqlite\": false,\n  \"layout\": null\n}\n"@
}

/// The minimal `android.json` Ren'Py's `android_build` needs: package and
/// application names, versions, landscape orientation.
pub fn android_json_content(options: &BuildOptions) -> (r: String)
    ensures
        r@ == android_json(
            options.app_id@,
            options.app_name@,
            options.version_name@,
            options.version_code,
        ),
{
    let mut s = chars_of("{\n  \"package\": ");
    push_str(&mut s, string_literal(options.app_id.as_str()).as_str());
    push_str(&mut s, ",\n  \"name\": ");
    let name = string_literal(options.app_name.as_str());
    push_str(&mut s, name.as_str());
    push_str(&mut s, ",\n  \"icon_name\": ");
    push_str(&mut s, name.as_str());
    push_str(&mut s, ",\n  \"version\": ");
    push_str(&mut s, string_literal(options.version_name.as_str()).as_str());
    push_str(&mut s, ",\n  \"numeric_version\": \"");
    let d = decimal_chars(options.version_code as u64);
    push_all(&mut s, &d);
    push_str(
        &mut s,
        "\",\n  \"orientation\": \"sensorLandscape\",\n  \"permissions\": [\"VIBRATE\"],\n  \"include_pil\": false,\n  \"include_sqlite\": false,\n  \"layout\": null\n}\n",
    );
    string_of(&s)
}

/// One character of the application name in RAPT's file names.
pub open spec fn rapt_name_char(c: char) -> char {
    if unicode_alphanumeric(c) || c == '-' {
        c
    } else {
        '_'
    }
}

/// The application name in RAPT's file names.
pub open spec fn rapt_name(app_name: Seq<char>) -> Seq<char> {
    Seq::new(app_name.len(), |i: int| rapt_name_char(app_name[i]))
}

/// The file names RAPT may give the package.
pub open spec fn rapt_outputs(sdk: Seq<char>, app_name: Seq<char>, listing: Seq<Seq<char>>) -> Seq<Seq<char>> {
    let bin = join_path(sdk, "rapt/bin"@);
    let name = rapt_name(app_name);
    seq![
        join_path(bin, name + "-release-unsigned.apk"@),
        join_path(bin, name + "-release.apk"@),
        join_path(bin, name + "-debug.apk"@),
    ] + apk_entries(bin, listing)
}

/// The `.apk` files among the names of a folder, as paths in it.
pub open spec fn apk_entries(dir: Seq<char>, names: Seq<Seq<char>>) -> Seq<Seq<char>>
    decreases names.len(),
{
    if names.len() == 0 {
        seq![]
    } else {
        let rest = apk_entries(dir, names.drop_last());
        if name_extension(names.last()) == Some("apk"@) {
            rest.push(join_path(dir, names.last()))
        } else {
            rest
        }
    }
}

/// The Gradle outputs of an `android-project` inside the game folder.
pub open spec fn project_outputs(game_path: Seq<char>) -> Seq<Seq<char>> {
    let base = join_path(game_path, "android-project/app/build/outputs/apk"@);
    let rel = join_path(base, "release"@);
    let dbg = join_path(base, "debug"@);
    seq![
        join_path(rel, "app-release-unsigned.apk"@),
        join_path(rel, "app-release.apk"@),
        join_path(rel, "app-debug.apk"@),
        join_path(dbg, "app-release-unsigned.apk"@),
        join_path(dbg, "app-release.apk"@),
        join_path(dbg, "app-debug.apk"@),
    ]
}

/// Every place the Ren'Py build may put the package, in the order they are
/// looked at: RAPT's `bin` folder (when an SDK is configured), then the
/// game's `android-project`.
pub open spec fn renpy_apk_places(sdk: Seq<char>, game_path: Seq<char>, app_name: Seq<char>, listing: Seq<Seq<char>>) -> Seq<Seq<char>> {
    (if sdk.len() > 0 {
        rapt_outputs(sdk, app_name, listing)
    } else {
        seq![]
    }) + project_outputs(game_path)
}

/// The application name in RAPT's file names.
fn rapt_name_exec(app_name: &str) -> (r: Vec<char>)
    ensures
        r@ == rapt_name(app_name@),
{
    let v = chars_of(app_name);
    let mut out: Vec<char> = Vec::new();
    let mut i: usize = 0;
    while i < v.len()
        invariant
            i <= v.len(),
            v@ == app_name@,
            out@ == rapt_name(app_name@).take(i as int),
        decreases v.len() - i,
    {
        let c = v[i];
        out.push(if is_alphanumeric_ch(c) || c == '-' {
            c
        } else {
            '_'
        });
        i += 1;
        assert(out@ =~= rapt_name(app_name@).take(i as int));
    }
    assert(rapt_name(app_name@).take(i as int) =~= rapt_name(app_name@));
    out
}

/// A file name in a folder.
fn named(dir: &str, name: &Vec<char>, suffix: &str) -> (r: String)
    ensures
        r@ == join_path(dir@, name@ + suffix@),
{
    let mut n = Vec::new();
    push_all(&mut n, name);
    push_str(&mut n, suffix);
    join_str(dir, string_of(&n).as_str())
}

/// Every place the Ren'Py build may put the package; `rapt_bin_names` are
/// the names in RAPT's `bin` folder.
pub fn find_renpy_apk_candidates(sdk_path: &str, game_path: &str, app_name: &str, rapt_bin_names: &Vec<String>) -> (r: Vec<String>)
    ensures
        string_views(r@) == renpy_apk_places(sdk_path@, game_path@, app_name@, string_views(rapt_bin_names@)),
{
    let mut out: Vec<String> = Vec::new();
    let ghost lv = string_views(rapt_bin_names@);
    if !sdk_path.is_empty() {
        let bin = join_str(sdk_path, "rapt/bin");
        let name = rapt_name_exec(app_name);
        out.push(named(bin.as_str(), &name, "-release-unsigned.apk"));
        out.push(named(bin.as_str(), &name, "-release.apk"));
        out.push(named(bin.as_str(), &name, "-debug.apk"));
        let ghost head = string_views(out@);
        let mut i: usize = 0;
        assert(lv.take(0) =~= Seq::<Seq<char>>::empty());
        assert(string_views(out@) =~= head + apk_entries(bin@, lv.take(0)));
        while i < rapt_bin_names.len()
            invariant
                i <= rapt_bin_names.len(),
                lv == string_views(rapt_bin_names@),
                string_views(out@) == head + apk_entries(bin@, lv.take(i as int)),
            decreases rapt_bin_names.len() - i,
        {
            proof {
                assert(lv.take(i + 1).drop_last() =~= lv.take(i as int));
                assert(lv.take(i + 1).last() == rapt_bin_names@[i as int]@);
            }
            let nv = chars_of(rapt_bin_names[i].as_str());
            let is_apk = match name_extension_chars(&nv) {
                Some(e) => is_literal(&e, "apk"),
                None => false,
            };
            if is_apk {
                let ghost before = string_views(out@);
                out.push(join_str(bin.as_str(), rapt_bin_names[i].as_str()));
                assert(string_views(out@) =~= before.push(join_path(bin@, nv@)));
            }
            i += 1;
        }
        assert(lv.take(i as int) =~= lv);
        assert(string_views(out@) =~= rapt_outputs(sdk_path@, app_name@, lv));
    }
    let ghost first = string_views(out@);
    let base = join_str(game_path, "android-project/app/build/outputs/apk");
    let rel = join_str(base.as_str(), "release");
    let dbg = join_str(base.as_str(), "debug");
    out.push(join_str(rel.as_str(), "app-release-unsigned.apk"));
    out.push(join_str(rel.as_str(), "app-release.apk"));
    out.push(join_str(rel.as_str(), "app-debug.apk"));
    out.push(join_str(dbg.as_str(), "app-release-unsigned.apk"));
    out.push(join_str(dbg.as_str(), "app-release.apk"));
    out.push(join_str(dbg.as_str(), "app-debug.apk"));
    assert(string_views(out@) =~= first + project_outputs(game_path@));
    out
}

/// The subject of the keystore RAPT signs with.
pub const RAPT_DNAME: &'static str = "CN=vn2apk, OU=vn2apk, O=vn2apk, L=Unknown, ST=Unknown, C=US";

/// The arguments of `keytool` that make the keystore RAPT expects: alias
/// `android`, password `android`.
pub fn rapt_keystore_args(dest: &str) -> (r: Vec<String>)
    ensures
        string_views(r@) == keytool_args_spec(dest@, "android"@, "android"@, "android"@, RAPT_DNAME@),
{
    keytool_args(dest, "android", "android", "android", RAPT_DNAME)
}

/// The arguments of the Ren'Py launcher that build the package.
pub fn android_build_args(sdk_path: &str, game_path: &str) -> (r: Vec<String>)
    ensures
        string_views(r@) == seq![join_path(sdk_path@, "launcher"@), "android_build"@, game_path@],
{
    let r = vec![join_str(sdk_path, "launcher"), owned("android_build"), owned(game_path)];
    assert(string_views(r@) =~= seq![join_path(sdk_path@, "launcher"@), "android_build"@, game_path@]);
    r
}

} // verus!
