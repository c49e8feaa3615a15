use vn2apk::pipeline::rpgmv::{
    aligned_apk_path, asset_source_dir, assemble_compat_shim, audio_extension, build_compat_shim,
    collect_save_imports, compat_fixes_message, dedup_path, final_apk_path, game_title, icon_source,
    icon_target, inject_compat_tag, is_data_file, m4a_exts, needs_ascii_rename, nwjs_warnings, ogg_exts,
    output_dir_for, patch_data_references, plan_runtime_patch, sanitize_message, save_key_for, signed_apk_path, stem_map_for,
    title_from_member, validate_rpgmv_folder, COMPAT_TAG,
};

fn s(x: &str) -> String {
    x.to_string()
}

#[test]
fn dedup_keeps_free_names_and_numbers_taken_ones() {
    let taken = vec![s("a.ogg"), s("a_1.ogg"), s("b")];
    assert_eq!(dedup_path("/w/audio", "c.ogg", &taken), "/w/audio/c.ogg");
    assert_eq!(dedup_path("/w/audio", "a.ogg", &taken), "/w/audio/a_2.ogg");
    assert_eq!(dedup_path("/w", "b", &taken), "/w/b_1");
    assert_eq!(dedup_path("/w", "x.tar.gz", &vec![s("x.tar.gz")]), "/w/x.tar_1.gz");
}

#[test]
fn non_ascii_names_need_renaming() {
    assert!(needs_ascii_rename("música.ogg"));
    assert!(!needs_ascii_rename("music.ogg"));
    assert!(!needs_ascii_rename(""));
}

#[test]
fn stem_map_skips_unchanged_stems() {
    let renames = vec![
        (s("Canción.ogg"), s("Cancion.ogg")),
        (s("same.ogg"), s("same.ogg")),
        (s("Ñu.png"), s("Nu.png")),
    ];
    assert_eq!(stem_map_for(&renames), vec![(s("Canción"), s("Cancion")), (s("Ñu"), s("Nu"))]);
}

#[test]
fn data_references_follow_renames() {
    let map = vec![(s("Canción"), s("Cancion"))];
    let json = "{\"name\":\"Canción\",\"other\":\"Canción2\",\"x\":\"Canción\"}";
    assert_eq!(
        patch_data_references(json, &map),
        Some(s("{\"name\":\"Cancion\",\"other\":\"Canción2\",\"x\":\"Cancion\"}"))
    );
    assert_eq!(patch_data_references("{\"name\":\"Other\"}", &map), None);
    assert_eq!(patch_data_references("anything", &vec![]), None);
}

#[test]
fn data_files_by_extension() {
    assert!(is_data_file("Map001.json"));
    assert!(is_data_file("plugins.JS"));
    assert!(!is_data_file("song.ogg"));
    assert!(!is_data_file("json"));
}

#[test]
fn nwjs_plugins_are_reported_once() {
    let files = vec![
        (s("Saver.js"), Some(s("var fs = require('fs'); nw.App.quit();"))),
        (s("Safe.js"), Some(s("console.log(1);"))),
        (s("Notes.txt"), Some(s("require('fs')"))),
        (s("Broken.js"), None),
        (s("Win.js"), Some(s("if (process.versions.nw) {}"))),
    ];
    assert_eq!(
        nwjs_warnings(&files),
        vec![
            s("Plugin 'Saver.js' uses 'require('fs')' (NW.js API, may not work in WebView)"),
            s("Plugin 'Win.js' uses 'process.versions.nw' (NW.js API, may not work in WebView)"),
        ]
    );
}

#[test]
fn save_files_map_to_storage_keys() {
    assert_eq!(save_key_for("config.rpgsave"), Some(s("RPG Config")));
    assert_eq!(save_key_for("global.rpgsave"), Some(s("RPG Global")));
    assert_eq!(save_key_for("file12.rpgsave"), Some(s("RPG File12")));
    assert_eq!(save_key_for("file.rpgsave"), None);
    assert_eq!(save_key_for("file1a.rpgsave"), None);
    assert_eq!(save_key_for("file1.sav"), None);
}

#[test]
fn save_imports_skip_blank_and_unreadable() {
    let entries = vec![
        (s("file1.rpgsave"), Some(s("  ABC==\n"))),
        (s("file2.rpgsave"), Some(s("   "))),
        (s("global.rpgsave"), None),
        (s("config.rpgsave"), Some(s("XYZ"))),
        (s("other.txt"), Some(s("data"))),
    ];
    assert_eq!(
        collect_save_imports(&entries),
        vec![(s("RPG File1"), s("ABC==")), (s("RPG Config"), s("XYZ"))]
    );
}

#[test]
fn audio_choice_prefers_ogg() {
    assert_eq!(audio_extension(true, true), Some(".ogg"));
    assert_eq!(audio_extension(false, true), Some(".m4a"));
    assert_eq!(audio_extension(false, false), None);
    assert_eq!(ogg_exts(), vec!["ogg", "rpgmvo"]);
    assert_eq!(m4a_exts(), vec!["m4a", "rpgmvm"]);
}

#[test]
fn game_title_is_read_from_system_json() {
    assert_eq!(game_title("{\"gameTitle\": \"Quest \\u00e9\", \"x\": 1}"), Some(s("Quest é")));
    assert_eq!(game_title("{\"gameTitle\": 3}"), None);
    assert_eq!(game_title("not json"), None);
    assert_eq!(title_from_member(Some(Some(s("T")))), Some(s("T")));
    assert_eq!(title_from_member(Some(None)), None);
    assert_eq!(title_from_member(None), None);
}

/// The shim as the reference builder writes it.
fn reference_shim(audio_ext: Option<&str>, saves: &[(String, String)], title: Option<&str>) -> Option<String> {
    if audio_ext.is_none() && saves.is_empty() {
        return None;
    }
    let mut js = String::from(
        "/* vn2apk compatibility shim — RPG Maker MV on Android / Cordova WebView.\n\
         \x20* Auto-generated. Loaded after rpg_managers.js, before main.js. */\n\
         (function () {\n  \"use strict\";\n",
    );
    if let Some(ext) = audio_ext {
        js.push_str(&format!(
            "  if (window.AudioManager) {{ AudioManager.audioFileExt = function () {{ return \"{ext}\"; }}; }}\n"
        ));
    }
    if !saves.is_empty() {
        js.push_str("  var saves = {\n");
        for (key, data) in saves {
            let k = serde_json::to_string(key).unwrap();
            let v = serde_json::to_string(data).unwrap();
            js.push_str(&format!("    {k}: {v},\n"));
        }
        js.push_str(
            "  };\n\
             \x20 Object.keys(saves).forEach(function (key) {\n\
             \x20   try {\n\
             \x20     if (localStorage.getItem(key) === null) {\n\
             \x20       localStorage.setItem(key, saves[key]);\n\
             \x20     }\n\
             \x20   } catch (e) { if (window.console) console.error(\"vn2apk save import failed:\", key, e); }\n\
             \x20 });\n",
        );
        if let Some(title) = title {
            let t = serde_json::to_string(title).unwrap();
            js.push_str(&format!("  var __vn2apkTitle = {t};\n"));
            js.push_str(
                "  try {\n\
                 \x20   if (window.LZString && window.DataManager && DataManager._globalId !== undefined) {\n\
                 \x20     var __raw = localStorage.getItem(\"RPG Global\");\n\
                 \x20     if (__raw) {\n\
                 \x20       var __gi = JSON.parse(LZString.decompressFromBase64(__raw));\n\
                 \x20       var __changed = false;\n\
                 \x20       for (var __i = 0; __i < __gi.length; __i++) {\n\
                 \x20         if (__gi[__i]) {\n\
                 \x20           if (__gi[__i].globalId !== DataManager._globalId) { __gi[__i].globalId = DataManager._globalId; __changed = true; }\n\
                 \x20           if (__gi[__i].title !== __vn2apkTitle) { __gi[__i].title = __vn2apkTitle; __changed = true; }\n\
                 \x20         }\n\
                 \x20       }\n\
                 \x20       if (__changed) localStorage.setItem(\"RPG Global\", LZString.compressToBase64(JSON.stringify(__gi)));\n\
                 \x20     }\n\
                 \x20   }\n\
                 \x20 } catch (e) { if (window.console) console.error(\"vn2apk globalInfo repair failed:\", e); }\n",
            );
        }
    }
    js.push_str("})();\n");
    Some(js)
}

#[test]
fn shim_matches_reference_text() {
    let saves = vec![(s("RPG File1"), s("N4Ig\"q")), (s("RPG Global"), s("AB\\C"))];
    assert_eq!(build_compat_shim(Some(".ogg"), &saves, Some(s("Quest \"2\""))), reference_shim(Some(".ogg"), &saves, Some("Quest \"2\"")));
    assert_eq!(build_compat_shim(None, &saves, None), reference_shim(None, &saves, None));
    assert_eq!(build_compat_shim(Some(".m4a"), &vec![], Some(s("T"))), reference_shim(Some(".m4a"), &[], None));
    assert_eq!(build_compat_shim(None, &vec![], Some(s("T"))), None);
}

#[test]
fn shim_assembly_uses_given_literals() {
    let encoded = vec![(s("\"K\""), s("\"V\""))];
    let shim = assemble_compat_shim(None, &encoded, Some("\"T\"")).unwrap();
    assert!(shim.contains("    \"K\": \"V\",\n"));
    assert!(shim.contains("  var __vn2apkTitle = \"T\";\n"));
    assert!(shim.ends_with("})();\n"));
    assert_eq!(assemble_compat_shim(None, &vec![], Some("\"T\"")), None);
}

#[test]
fn shim_tag_goes_before_main_script() {
    let page = "<body>\n        <script type=\"text/javascript\" src=\"js/main.js\"></script>\n</body>";
    let patched = inject_compat_tag(page).unwrap().unwrap();
    assert_eq!(
        patched,
        format!("<body>\n        {COMPAT_TAG}\n        <script type=\"text/javascript\" src=\"js/main.js\"></script>\n</body>")
    );
    assert_eq!(inject_compat_tag(&patched), Ok(None));
    assert_eq!(
        inject_compat_tag("<body></body>"),
        Err(s("index.html has no main.js script — cannot inject compat shim"))
    );
    assert_eq!(
        inject_compat_tag("<body> js/main.js </body>"),
        Err(s("index.html main.js is not in a <script> tag"))
    );
}

#[test]
fn fixes_message_lists_applied_fixes() {
    assert_eq!(
        compat_fixes_message(true, true),
        "Applied RPG Maker MV mobile compatibility fixes (audio extension, bundled save import)."
    );
    assert_eq!(compat_fixes_message(true, false), "Applied RPG Maker MV mobile compatibility fixes (audio extension).");
    assert_eq!(compat_fixes_message(false, true), "Applied RPG Maker MV mobile compatibility fixes (bundled save import).");
}

#[test]
fn build_layout_paths() {
    assert_eq!(asset_source_dir("/games/tg", "TyranoBuilder"), "/games/tg");
    assert_eq!(asset_source_dir("/games/mv", "RpgMakerMV"), "/games/mv/www");
    assert_eq!(icon_source("/g", "TyranoBuilder", true), "/g/tyrano/icon.png");
    assert_eq!(icon_source("/g", "TyranoBuilder", false), "/g/tyrano/data/icon.png");
    assert_eq!(icon_source("/g", "RpgMakerMZ", true), "/g/www/icon/icon.png");
    assert_eq!(icon_target(), "res/icon.png");
    assert_eq!(aligned_apk_path("/tmp/vn2apk_My_Game"), "/tmp/vn2apk_My_Game/app-aligned.apk");
    assert_eq!(signed_apk_path("/tmp/w", "My Game"), "/tmp/w/My_Game-signed.apk");
    assert_eq!(output_dir_for("", Some(s("/home/u"))), "/home/u/Downloads");
    assert_eq!(output_dir_for("", None), "/tmp/Downloads");
    assert_eq!(output_dir_for("/out", None), "/out");
    assert_eq!(final_apk_path("/out", "My Game", "1.2"), "/out/My_Game-1.2.apk");
    assert_eq!(sanitize_message(3), "Sanitizing 3 non-ASCII filename(s) for Gradle compatibility...");
}

#[test]
fn rpgmv_folder_checks_in_order() {
    assert_eq!(validate_rpgmv_folder(false, false, false), Err(s("Game folder does not exist")));
    assert_eq!(validate_rpgmv_folder(true, false, true), Err(s("Missing www/ directory — is this an RPGMV game?")));
    assert_eq!(validate_rpgmv_folder(true, true, false), Err(s("Missing www/index.html")));
    assert_eq!(validate_rpgmv_folder(true, true, true), Ok(()));
}

#[test]
fn runtime_patch_plan() {
    let page = "<body>\n<script type=\"text/javascript\" src=\"js/main.js\"></script>\n</body>";
    let none: Vec<(String, Option<String>)> = vec![];
    assert!(plan_runtime_patch(false, true, true, false, &none, None, Ok(page)).is_none());
    assert!(plan_runtime_patch(true, false, true, false, &none, None, Ok(page)).is_none());
    // Nothing to fix: no audio folder and no bundled save.
    assert!(plan_runtime_patch(true, true, false, false, &none, Some("{\"gameTitle\": \"T\"}"), Ok(page)).is_none());

    let plan = plan_runtime_patch(true, true, true, true, &none, None, Ok(page)).unwrap();
    assert!(plan.shim.contains("\".ogg\""));
    assert!(!plan.shim.contains("\".m4a\""));
    assert_eq!(plan.index, Ok(Some(inject_compat_tag(page).unwrap().unwrap())));
    assert_eq!(plan.message, compat_fixes_message(true, false));

    let saves = vec![(s("file1.rpgsave"), Some(s("ABC")))];
    let plan = plan_runtime_patch(true, true, false, true, &saves, None, Err("denied")).unwrap();
    assert!(plan.shim.contains("\".m4a\""));
    assert!(plan.shim.contains("RPG File1"));
    assert_eq!(plan.index, Err(s("Reading index.html: denied")));
    assert_eq!(plan.message, compat_fixes_message(true, true));

    let patched = inject_compat_tag(page).unwrap().unwrap();
    let plan = plan_runtime_patch(true, true, false, false, &saves, None, Ok(&patched)).unwrap();
    assert_eq!(plan.index, Ok(None));
    assert_eq!(plan.message, compat_fixes_message(false, true));
}
