use vn2apk::pipeline::engine_detect::{any_rpy, detect_engine, validate_game_folder, EngineKind, GameFolderProbe};

fn empty_folder() -> GameFolderProbe {
    GameFolderProbe {
        exists: true,
        rmmz_core: false,
        rpg_core: false,
        rpg_project: false,
        tyrano_js: false,
        tyrano_min_js: false,
        tyrano_dir: false,
        index_html: false,
        renpy_dir: false,
        game_dir: false,
        game_entries: vec![],
        nscript_dat: false,
        arc_nsa: false,
        data_xp3: false,
        startup_tjs: false,
        www_dir: false,
        www_index_html: false,
    }
}

fn engine_of(p: &GameFolderProbe) -> (EngineKind, u8, String) {
    let r = detect_engine(p).unwrap();
    (r.engine, r.confidence, r.details)
}

#[test]
fn missing_folder_is_an_error() {
    let mut p = empty_folder();
    p.exists = false;
    assert_eq!(detect_engine(&p).err(), Some("Game folder does not exist".to_string()));
    let v = validate_game_folder(&p).unwrap();
    assert!(!v.valid);
    assert_eq!(v.issues, vec!["Folder does not exist".to_string()]);
}

#[test]
fn markers_are_checked_in_order() {
    let mut p = empty_folder();
    p.rpg_core = true;
    p.rmmz_core = true;
    assert_eq!(engine_of(&p), (EngineKind::RpgMakerMZ, 95, "Found www/js/rmmz_core.js".to_string()));
    p.rmmz_core = false;
    assert_eq!(engine_of(&p), (EngineKind::RpgMakerMV, 95, "Found www/js/rpg_core.js".to_string()));
    let mut p = empty_folder();
    p.rpg_project = true;
    assert_eq!(engine_of(&p), (EngineKind::RpgMakerMV, 90, "Found Game.rpgproject".to_string()));
    let mut p = empty_folder();
    p.tyrano_dir = true;
    assert_eq!(engine_of(&p).0, EngineKind::Unknown);
    p.index_html = true;
    assert_eq!(engine_of(&p), (EngineKind::TyranoBuilder, 92, "Found tyrano/ directory with index.html".to_string()));
    let mut p = empty_folder();
    p.game_entries = vec!["script.rpy".to_string()];
    assert_eq!(
        engine_of(&p),
        (EngineKind::RenPy, 85, "Found Ren'Py markers (renpy/ dir or game/*.rpy)".to_string())
    );
    let mut p = empty_folder();
    p.arc_nsa = true;
    assert_eq!(engine_of(&p), (EngineKind::NScripter, 90, "Found NScripter data files".to_string()));
    let mut p = empty_folder();
    p.startup_tjs = true;
    assert_eq!(engine_of(&p), (EngineKind::Kirikiri, 90, "Found KiriKiri data files".to_string()));
    assert_eq!(engine_of(&empty_folder()), (EngineKind::Unknown, 0, "No known engine markers found".to_string()));
}

#[test]
fn rpy_by_extension() {
    assert!(any_rpy(&vec!["a.txt".to_string(), "b.rpy".to_string()]));
    assert!(!any_rpy(&vec![".rpy".to_string(), "b.RPY".to_string(), "rpy".to_string()]));
    assert!(!any_rpy(&vec![]));
}

#[test]
fn validation_for_each_engine() {
    let mut p = empty_folder();
    p.tyrano_js = true;
    let v = validate_game_folder(&p).unwrap();
    assert_eq!(v.issues, vec!["Missing tyrano/ directory".to_string(), "Missing index.html".to_string()]);
    assert!(!v.valid);

    let mut p = empty_folder();
    p.renpy_dir = true;
    let v = validate_game_folder(&p).unwrap();
    assert_eq!(v.issues, vec!["Missing game/ directory".to_string(), "No .rpy scripts found in game/".to_string()]);

    let mut p = empty_folder();
    p.rpg_core = true;
    p.www_dir = true;
    p.index_html = true;
    let v = validate_game_folder(&p).unwrap();
    assert!(v.valid);
    assert!(v.issues.is_empty());

    let v = validate_game_folder(&empty_folder()).unwrap();
    assert_eq!(
        v.issues,
        vec!["Missing www/ directory (expected for RPGMV/MZ)".to_string(), "Missing index.html".to_string()]
    );
}
