use vn2apk::pipeline::names::{ascii_fold, make_app_id, suggest_app_id, to_ascii_name, work_dir_for};

#[test]
fn suggests_lowercase_package_from_folder_name() {
    assert_eq!(suggest_app_id("My Game"), "com.vn2apk.my_game");
}

#[test]
fn app_id_starting_with_digit_gets_prefix() {
    assert_eq!(suggest_app_id("123 Go!"), "com.vn2apk.app_123_go");
}

#[test]
fn app_id_of_symbols_only_falls_back_to_game() {
    assert_eq!(suggest_app_id("!!!"), "com.vn2apk.game");
    assert_eq!(suggest_app_id(""), "com.vn2apk.game");
}

#[test]
fn app_id_trims_underscores() {
    assert_eq!(make_app_id("_a b_"), "com.vn2apk.a_b");
    assert_eq!(make_app_id("--Visual-Novel--"), "com.vn2apk.visual_novel");
}

#[test]
fn app_id_drops_non_ascii_letters() {
    // A Java package name takes ASCII letters, digits and `_` only.
    assert_eq!(make_app_id("Café"), "com.vn2apk.caf");
    assert_eq!(make_app_id("ÉTÉ"), "com.vn2apk.t");
    assert_eq!(make_app_id("CAFÉ Noir"), "com.vn2apk.caf__noir");
}

#[test]
fn work_dir_keeps_unicode_alphanumerics() {
    assert_eq!(work_dir_for("日本_x"), "/tmp/vn2apk_日本_x");
    assert_eq!(work_dir_for("a b\tc"), "/tmp/vn2apk_a_b_c");
}

#[test]
fn ascii_names_fold_accents() {
    assert_eq!(to_ascii_name("Ñandú.ogg"), "Nandu.ogg");
    assert_eq!(to_ascii_name("Straße"), "Strase");
    assert_eq!(to_ascii_name("日本.png"), "__.png");
    assert_eq!(to_ascii_name("plain.txt"), "plain.txt");
    assert_eq!(ascii_fold('Ø'), 'O');
    assert_eq!(ascii_fold('þ'), 't');
    assert_eq!(ascii_fold('€'), '_');
}

#[test]
fn ascii_name_is_all_ascii() {
    for name in ["Ünïcödé ファイル.m4a", "ßßß", "ok"] {
        assert!(to_ascii_name(name).is_ascii());
    }
}

#[test]
fn work_dir_replaces_symbols() {
    assert_eq!(work_dir_for("My Game!"), "/tmp/vn2apk_My_Game_");
    assert_eq!(work_dir_for("Café 2"), "/tmp/vn2apk_Café_2");
}
