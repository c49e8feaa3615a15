//! Which engine made a game folder, and whether the folder can be built.
use vstd::prelude::*;
use crate::paths::{name_extension, name_extension_chars, owned};
use crate::pipeline::types::ValidationResult;
use crate::text::{chars_of, is_literal, string_views};

verus! {

/// The engines that are recognised.
#[derive(Debug, Clone, Copy, PartialEq, Eq, Structural)]
pub enum EngineKind {
    RpgMakerMV,
    RpgMakerMZ,
    TyranoBuilder,
    RenPy,
    NScripter,
    Kirikiri,
    Unknown,
}

/// The engine found, how sure the guess is (0 to 100), and the evidence.
#[derive(Debug, Clone)]
pub struct EngineDetectResult {
    pub engine: EngineKind,
    pub confidence: u8,
    pub details: String,
}

/// RPG Maker MZ core script.
pub const RMMZ_CORE: &'static str = "www/js/rmmz_core.js";

/// RPG Maker MV core script.
pub const RPG_CORE: &'static str = "www/js/rpg_core.js";

/// RPG Maker MV project file.
pub const RPG_PROJECT: &'static str = "Game.rpgproject";

/// TyranoScript engine.
pub const TYRANO_JS: &'static str = "tyrano/libs/tyrano.js";

/// TyranoScript engine, minified.
pub const TYRANO_MIN_JS: &'static str = "tyrano/libs/tyrano.min.js";

/// What is known of a game folder: which marker files and folders exist.
pub struct GameFolderProbe {
    /// The folder exists.
    pub exists: bool,
    /// `www/js/rmmz_core.js` exists.
    pub rmmz_core: bool,
    /// `www/js/rpg_core.js` exists.
    pub rpg_core: bool,
    /// `Game.rpgproject` exists.
    pub rpg_project: bool,
    /// `tyrano/libs/tyrano.js` exists.
    pub tyrano_js: bool,
    /// `tyrano/libs/tyrano.min.js` exists.
    pub tyrano_min_js: bool,
    /// `tyrano` is a folder.
    pub tyrano_dir: bool,
    /// `index.html` exists.
    pub index_html: bool,
    /// `renpy` is a folder.
    pub renpy_dir: bool,
    /// `game` is a folder.
    pub game_dir: bool,
    /// The names in `game` (empty when it cannot be listed).
    pub game_entries: Vec<String>,
    /// `nscript.dat` exists.
    pub nscript_dat: bool,
    /// `arc.nsa` exists.
    pub arc_nsa: bool,
    /// `data.xp3` exists.
    pub data_xp3: bool,
    /// `startup.tjs` exists.
    pub startup_tjs: bool,
    /// `www` is a folder.
    pub www_dir: bool,
    /// `www/index.html` exists.
    pub www_index_html: bool,
}

/// Some name has the extension `rpy`.
pub open spec fn has_rpy(names: Seq<Seq<char>>) -> bool {
    exists|i: int| 0 <= i < names.len() && name_extension(names[i]) == Some("rpy"@)
}

/// Whether some name has the extension `rpy`.
pub fn any_rpy(names: &Vec<String>) -> (r: bool)
    ensures
        r == has_rpy(string_views(names@)),
{
    let mut i: usize = 0;
    while i < names.len()
        invariant
            i <= names.len(),
            forall|j: int| 0 <= j < i ==> name_extension(string_views(names@)[j]) != Some("rpy"@),
        decreases names.len() - i,
    {
        let v = chars_of(names[i].as_str());
        let is_rpy = match name_extension_chars(&v) {
            Some(e) => is_literal(&e, "rpy"),
            None => false,
        };
        assert(string_views(names@)[i as int] == v@);
        if is_rpy {
            return true;
        }
        i += 1;
    }
    false
}

/// The view of a probe that decides the engine.
pub open spec fn detection(p: GameFolderProbe) -> Result<(EngineKind, u8, Seq<char>), Seq<char>> {
    if !p.exists {
        Err("Game folder does not exist"@)
    } else if p.rmmz_core {
        Ok((EngineKind::RpgMakerMZ, 95u8, "Found www/js/rmmz_core.js"@))
    } else if p.rpg_core {
        Ok((EngineKind::RpgMakerMV, 95u8, "Found www/js/rpg_core.js"@))
    } else if p.rpg_project {
        Ok((EngineKind::RpgMakerMV, 90u8, "Found Game.rpgproject"@))
    } else if p.tyrano_js || p.tyrano_min_js || (p.tyrano_dir && p.index_html) {
        Ok((EngineKind::TyranoBuilder, 92u8, "Found tyrano/ directory with index.html"@))
    } else if p.renpy_dir || has_rpy(string_views(p.game_entries@)) {
        Ok((EngineKind::RenPy, 85u8, "Found Ren'Py markers (renpy/ dir or game/*.rpy)"@))
    } else if p.nscript_dat || p.arc_nsa {
        Ok((EngineKind::NScripter, 90u8, "Found NScripter data files"@))
    } else if p.data_xp3 || p.startup_tjs {
        Ok((EngineKind::Kirikiri, 90u8, "Found KiriKiri data files"@))
    } else {
        Ok((EngineKind::Unknown, 0u8, "No known engine markers found"@))
    }
}

/// A detection result with its view.
fn found(engine: EngineKind, confidence: u8, details: &str) -> (r: EngineDetectResult)
    ensures
        r.engine == engine,
        r.confidence == confidence,
        r.details@ == details@,
{
    EngineDetectResult { engine, confidence, details: owned(details) }
}

/// The engine that made the game folder, by its marker files, checked in
/// order of certainty.
pub fn detect_engine(p: &GameFolderProbe) -> (r: Result<EngineDetectResult, String>)
    ensures
        match r {
            Ok(d) => detection(*p) == Ok::<(EngineKind, u8, Seq<char>), Seq<char>>(
                (d.engine, d.confidence, d.details@),
            ),
            Err(e) => detection(*p) == Err::<(EngineKind, u8, Seq<char>), Seq<char>>(e@),
        },
{
    if !p.exists {
        return Err(owned("Game folder does not exist"));
    }
    if p.rmmz_core {
        return Ok(found(EngineKind::RpgMakerMZ, 95, "Found www/js/rmmz_core.js"));
    }
    if p.rpg_core {
        return Ok(found(EngineKind::RpgMakerMV, 95, "Found www/js/rpg_core.js"));
    }
    if p.rpg_project {
        return Ok(found(EngineKind::RpgMakerMV, 90, "Found Game.rpgproject"));
    }
    if p.tyrano_js || p.tyrano_min_js || (p.tyrano_dir && p.index_html) {
        return Ok(found(EngineKind::TyranoBuilder, 92, "Found tyrano/ directory with index.html"));
    }
    if p.renpy_dir || any_rpy(&p.game_entries) {
        return Ok(found(EngineKind::RenPy, 85, "Found Ren'Py markers (renpy/ dir or game/*.rpy)"));
    }
    if p.nscript_dat || p.arc_nsa {
        return Ok(found(EngineKind::NScripter, 90, "Found NScripter data files"));
    }
    if p.data_xp3 || p.startup_tjs {
        return Ok(found(EngineKind::Kirikiri, 90, "Found KiriKiri data files"));
    }
    Ok(found(EngineKind::Unknown, 0, "No known engine markers found"))
}

/// The engine as validation sees it: unknown when detection fails.
pub open spec fn detected_engine(p: GameFolderProbe) -> EngineKind {
    match detection(p) {
        Ok(d) => d.0,
        Err(_) => EngineKind::Unknown,
    }
}

/// The problems of a game folder, in order, for the detected engine.
pub open spec fn folder_issues(p: GameFolderProbe) -> Seq<Seq<char>> {
    if !p.exists {
        seq!["Folder does not exist"@]
    } else {
        match detected_engine(p) {
            EngineKind::TyranoBuilder => (if !p.tyrano_dir {
                seq!["Missing tyrano/ directory"@]
            } else {
                seq![]
            }) + (if !p.index_html {
                seq!["Missing index.html"@]
            } else {
                seq![]
            }),
            EngineKind::RenPy => (if !p.game_dir {
                seq!["Missing game/ directory"@]
            } else {
                seq![]
            }) + (if !has_rpy(string_views(p.game_entries@)) {
                seq!["No .rpy scripts found in game/"@]
            } else {
                seq![]
            }),
            _ => (if !p.www_dir {
                seq!["Missing www/ directory (expected for RPGMV/MZ)"@]
            } else {
                seq![]
            }) + (if !p.www_index_html && !p.index_html {
                seq!["Missing index.html"@]
            } else {
                seq![]
            }),
        }
    }
}

/// Whether the game folder can be built, and why not.  The folder is valid
/// exactly when there is no issue.
pub fn validate_game_folder(p: &GameFolderProbe) -> (r: Result<ValidationResult, String>)
    ensures
        r matches Ok(v) && string_views(v.issues@) == folder_issues(*p) && v.valid == (
        v.issues@.len() == 0),
{
    let mut issues: Vec<String> = Vec::new();
    if !p.exists {
        issues.push(owned("Folder does not exist"));
        assert(string_views(issues@) =~= folder_issues(*p));
        return Ok(ValidationResult { valid: false, issues });
    }
    let engine = match detect_engine(p) {
        Ok(d) => d.engine,
        Err(_) => EngineKind::Unknown,
    };
    match engine {
        EngineKind::TyranoBuilder => {
            if !p.tyrano_dir {
                issues.push(owned("Missing tyrano/ directory"));
            }
            if !p.index_html {
                issues.push(owned("Missing index.html"));
            }
        },
        EngineKind::RenPy => {
            if !p.game_dir {
                issues.push(owned("Missing game/ directory"));
            }
            if !any_rpy(&p.game_entries) {
                issues.push(owned("No .rpy scripts found in game/"));
            }
        },
        _ => {
            if !p.www_dir {
                issues.push(owned("Missing www/ directory (expected for RPGMV/MZ)"));
            }
            if !p.www_index_html && !p.index_html {
                issues.push(owned("Missing index.html"));
            }
        },
    }
    assert(string_views(issues@) =~= folder_issues(*p));
    let valid = issues.len() == 0;
    Ok(ValidationResult { valid, issues })
}


// ---------------------------------------------------------------------------
// Laws
// ---------------------------------------------------------------------------

/// Each engine is reported exactly when one of its markers is present and
/// no marker of an engine checked before it: RPG Maker MZ (`rmmz_core.js`),
/// RPG Maker MV (`rpg_core.js`, then `Game.rpgproject`), TyranoBuilder
/// (`tyrano.js`, `tyrano.min.js`, or `tyrano/` with `index.html`), Ren'Py
/// (`renpy/` or a `.rpy` file in `game/`), NScripter (`nscript.dat` or
/// `arc.nsa`), KiriKiri (`data.xp3` or `startup.tjs`, either alone
/// suffices); a folder with none of them is unknown, and a missing folder
/// is an error.
pub proof fn lemma_engine_markers(p: GameFolderProbe)
    ensures
        ({
            let mz = p.rmmz_core;
            let mv = p.rpg_core || p.rpg_project;
            let ty = p.tyrano_js || p.tyrano_min_js || (p.tyrano_dir && p.index_html);
            let rp = p.renpy_dir || has_rpy(string_views(p.game_entries@));
            let ns = p.nscript_dat || p.arc_nsa;
            let kk = p.data_xp3 || p.startup_tjs;
            &&& (detection(p) is Err <==> !p.exists)
            &&& (!p.exists ==> detection(p) == Err::<(EngineKind, u8, Seq<char>), Seq<char>>(
                "Game folder does not exist"@,
            ))
            &&& (p.exists && mz ==> detection(p) == Ok::<(EngineKind, u8, Seq<char>), Seq<char>>(
                (EngineKind::RpgMakerMZ, 95u8, "Found www/js/rmmz_core.js"@),
            ))
            &&& (p.exists && !mz && p.rpg_core ==> detection(p) == Ok::<
                (EngineKind, u8, Seq<char>),
                Seq<char>,
            >((EngineKind::RpgMakerMV, 95u8, "Found www/js/rpg_core.js"@)))
            &&& (p.exists && !mz && !p.rpg_core && p.rpg_project ==> detection(p) == Ok::<
                (EngineKind, u8, Seq<char>),
                Seq<char>,
            >((EngineKind::RpgMakerMV, 90u8, "Found Game.rpgproject"@)))
            &&& (p.exists && !mz && !mv && ty ==> detection(p) == Ok::<(EngineKind, u8, Seq<char>), Seq<char>>(
                (EngineKind::TyranoBuilder, 92u8, "Found tyrano/ directory with index.html"@),
            ))
            &&& (p.exists && !mz && !mv && !ty && rp ==> detection(p) == Ok::<
                (EngineKind, u8, Seq<char>),
                Seq<char>,
            >((EngineKind::RenPy, 85u8, "Found Ren'Py markers (renpy/ dir or game/*.rpy)"@)))
            &&& (p.exists && !mz && !mv && !ty && !rp && ns ==> detection(p) == Ok::<
                (EngineKind, u8, Seq<char>),
                Seq<char>,
            >((EngineKind::NScripter, 90u8, "Found NScripter data files"@)))
            &&& (p.exists && !mz && !mv && !ty && !rp && !ns && kk ==> detection(p) == Ok::<
                (EngineKind, u8, Seq<char>),
                Seq<char>,
            >((EngineKind::Kirikiri, 90u8, "Found KiriKiri data files"@)))
            &&& (p.exists && !mz && !mv && !ty && !rp && !ns && !kk ==> detection(p) == Ok::<
                (EngineKind, u8, Seq<char>),
                Seq<char>,
            >((EngineKind::Unknown, 0u8, "No known engine markers found"@)))
            &&& (detected_engine(p) == EngineKind::Kirikiri <==> p.exists && !mz && !mv && !ty && !rp
                && !ns && kk)
            &&& (detected_engine(p) == EngineKind::Unknown <==> !p.exists || (!mz && !mv && !ty && !rp
                && !ns && !kk))
        }),
{
}

/// The problems of a game folder.  A missing folder has exactly one.  A
/// TyranoBuilder folder needs `tyrano/` and `index.html`; a Ren'Py folder
/// needs `game/` with a `.rpy` script; any other folder (RPG Maker or
/// unknown) needs `www/`, and `index.html` in `www/` or at the top — it
/// misses `index.html` only when neither exists.  The folder has no
/// problem exactly when it has all it needs.
pub proof fn lemma_folder_needs(p: GameFolderProbe)
    ensures
        !p.exists ==> folder_issues(p) == seq!["Folder does not exist"@],
        p.exists && detected_engine(p) == EngineKind::TyranoBuilder ==> (folder_issues(p).len() == 0
            <==> p.tyrano_dir && p.index_html) && (folder_issues(p).contains("Missing index.html"@)
            <==> !p.index_html),
        p.exists && detected_engine(p) == EngineKind::RenPy ==> (folder_issues(p).len() == 0 <==> p.game_dir
            && has_rpy(string_views(p.game_entries@))),
        p.exists && detected_engine(p) != EngineKind::TyranoBuilder && detected_engine(p)
            != EngineKind::RenPy ==> (folder_issues(p).len() == 0 <==> p.www_dir && (p.www_index_html
            || p.index_html)) && (folder_issues(p).contains("Missing index.html"@) <==> !p.www_index_html
            && !p.index_html) && (folder_issues(p).contains(
            "Missing www/ directory (expected for RPGMV/MZ)"@,
        ) <==> !p.www_dir),
{
    reveal_strlit("Missing index.html");
    reveal_strlit("Missing tyrano/ directory");
    reveal_strlit("Missing www/ directory (expected for RPGMV/MZ)");
    let mi = "Missing index.html"@;
    let mt = "Missing tyrano/ directory"@;
    let mw = "Missing www/ directory (expected for RPGMV/MZ)"@;
    assert(mi.len() != mt.len() && mi.len() != mw.len());
    let v = folder_issues(p);
    if p.exists {
        if v.contains(mi) {
            let j = choose|j: int| 0 <= j < v.len() && v[j] == mi;
        }
        if v.contains(mw) {
            let j = choose|j: int| 0 <= j < v.len() && v[j] == mw;
        }
        if v.len() > 0 {
            assert(v.contains(v[0]));
            assert(v.contains(v[v.len() - 1]));
        }
    }
}

} // verus!
