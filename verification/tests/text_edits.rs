use cruelty_style::byteseq::{contains, replace_bytes, trimmed_len, valid_utf8_bytes};
use cruelty_style::edits::{patch_file, path_has};
use cruelty_style::locate::{first_found, game_dir_candidates, settings_dir_candidates, DirBase};
use cruelty_style::options::PatchOptions;
use cruelty_style::override_cfg::patch_override_cfg;
use cruelty_style::selection::{
    fov_limit_text, menu_options, needs_archive_patch, patch_options, read_selection, starts_with,
};

fn all_patches(frames: usize) -> PatchOptions {
    PatchOptions {
        apply_parkinson: true,
        apply_ceo: true,
        apply_dwbt: true,
        apply_ishowspeed: true,
        apply_ui: true,
        num_frames: frames,
    }
}

fn no_patches() -> PatchOptions {
    PatchOptions {
        apply_parkinson: false,
        apply_ceo: false,
        apply_dwbt: false,
        apply_ishowspeed: false,
        apply_ui: false,
        num_frames: 1,
    }
}

#[test]
fn replace_is_left_to_right_and_non_overlapping() {
    assert_eq!(replace_bytes(b"aaaa", b"aa", b"b"), b"bb".to_vec());
    assert_eq!(replace_bytes(b"aaa", b"aa", b"b"), b"ba".to_vec());
    assert_eq!(replace_bytes(b"xyz", b"q", b"r"), b"xyz".to_vec());
    assert_eq!(replace_bytes(b"xyz", b"", b"r"), b"xyz".to_vec());
    assert_eq!(replace_bytes(b"abcabc", b"bc", b"XYZ"), b"aXYZaXYZ".to_vec());
    assert_eq!(replace_bytes(b"", b"a", b"b"), Vec::<u8>::new());
}

#[test]
fn contains_finds_occurrences() {
    assert!(contains(b"hello world", b"o w"));
    assert!(contains(b"abc", b""));
    assert!(!contains(b"abc", b"abcd"));
    assert!(!contains(b"abc", b"cb"));
    assert!(contains(b"abc", b"abc"));
}

#[test]
fn utf8_decoding_drops_invalid_parts() {
    assert_eq!(valid_utf8_bytes(b"Pla\xffyer"), b"Player".to_vec());
    assert_eq!(valid_utf8_bytes("é€😀".as_bytes()), "é€😀".as_bytes().to_vec());
    // Truncated sequence, surrogate, overlong form.
    assert_eq!(valid_utf8_bytes(b"a\xe2\x82"), b"a".to_vec());
    assert_eq!(valid_utf8_bytes(b"a\xed\xa0\x80b"), b"ab".to_vec());
    assert_eq!(valid_utf8_bytes(b"\xc0\xafz"), b"z".to_vec());
    // A bad continuation keeps the byte that follows.
    assert_eq!(valid_utf8_bytes(b"\xe2\x28\xa1"), b"(".to_vec());
}

#[test]
fn trailing_nuls_are_trimmed() {
    assert_eq!(trimmed_len(b"ab\x00\x00"), 2);
    assert_eq!(trimmed_len(b"a\x00b"), 3);
    assert_eq!(trimmed_len(b"\x00\x00"), 0);
}

#[test]
fn path_test_uses_decoded_text() {
    assert!(path_has(b"res://scripts/Player.gd\x00\x00", "Player.gd"));
    assert!(path_has(b"res://OtherPlayer.gd", "Player.gd"));
    assert!(path_has(b"res://Pla\xffyer.gd", "Player.gd"));
    assert!(!path_has(b"res://player.gd", "Player.gd"));
    assert!(path_has(b"res://GUI.gd", "UI.gd"));
}

#[test]
fn player_script_gets_fov_overlay_and_speed() {
    let data = b"func _ready():\nwrapf(player_view.fov, 4, 120)\nfunc _physics_process(delta):\n".to_vec();
    let out = patch_file(b"res://Player.gd", data, &all_patches(1), b"200");
    let text = String::from_utf8(out).unwrap();
    assert!(text.contains("wrapf(player_view.fov, 4, 200)"));
    assert!(!text.contains("wrapf(player_view.fov, 4, 120)"));
    let speed = text.find("SpeedCanvas").unwrap();
    let ceo = text.find("CEOCanvas").unwrap();
    assert!(speed < ceo, "the speed label is inserted after the ready hook, before the overlay");
    assert!(text.starts_with("func _ready():\n\tvar cl=CanvasLayer.new()"));
}

#[test]
fn hud_script_gets_face_frames() {
    let data = b"const HEALTH = a\nconst DEATH = b\nfunc _ready():\n\thealth_texture.texture.fps = clamp(100 - health, 24, 100)".to_vec();
    let out = patch_file(b"res://UI.gd", data, &all_patches(12), b"200");
    let text = String::from_utf8(out).unwrap();
    assert!(text.starts_with("var HEALTH = a\nvar DEATH = b\nfunc _ready():\n\tvar cf = []\n\tfor i in range(12):"));
    assert!(text.ends_with("\t\thealth_texture.texture.fps = clamp(100 - health, 24, 100)"));
    assert!(text.contains("if typeof(HEALTH) == TYPE_ARRAY:"));
}

#[test]
fn weapon_and_menus() {
    let w = b"player_weapon.transform.origin.x = lerp(player_weapon.transform.origin.x, - 0.135, 5 * delta)".to_vec();
    let out = patch_file(b"res://weapon.gd", w.clone(), &all_patches(1), b"200");
    assert!(String::from_utf8(out).unwrap().ends_with("player_weapon.transform.origin.z = -0.1"));
    let kept = patch_file(b"res://weapon.gd", w.clone(), &no_patches(), b"200");
    assert_eq!(kept, w);
    let g = b"max_value = 160.0 max_value = 160.0".to_vec();
    let out = patch_file(b"res://General_Menu.tscn", g, &all_patches(1), b"200");
    assert_eq!(out, b"max_value = 200.0 max_value = 200.0".to_vec());
}

#[test]
fn unrelated_files_are_kept() {
    let data = b"func _ready():\nmax_value = 160.0".to_vec();
    assert_eq!(patch_file(b"res://other.gd", data.clone(), &all_patches(3), b"200"), data);
}

#[test]
fn override_file_gets_missing_physics_settings() {
    let out = patch_override_cfg(b"");
    assert_eq!(
        out,
        b"\n[physics]\ncommon/physics_interpolation=true\ncommon/physics_fps=144\n".to_vec()
    );
    let existing = b"[physics]\ncommon/physics_fps=60\n";
    assert_eq!(
        patch_override_cfg(existing),
        b"[physics]\ncommon/physics_fps=60\ncommon/physics_interpolation=true\n".to_vec()
    );
    let again = patch_override_cfg(&out);
    assert_eq!(again, out);
}

#[test]
fn menu_selection_is_read_by_prefix() {
    let options = menu_options();
    assert_eq!(options.len(), 7);
    let chosen = vec![options[0], options[2], options[5]];
    let s = read_selection(&chosen);
    assert!(s.apply_ui && s.apply_parkinson && s.apply_ishowspeed);
    assert!(!s.apply_movement && !s.apply_ceo && !s.apply_dwbt && !s.uninstall);
    assert!(needs_archive_patch(&s));
    let only_movement = read_selection(&vec![options[1]]);
    assert!(only_movement.apply_movement && !needs_archive_patch(&only_movement));
    let uninstall = read_selection(&vec![options[6]]);
    assert!(uninstall.uninstall);
    assert!(starts_with("FOV & Gamma", "FOV"));
    assert!(!starts_with("FO", "FOV"));
}

#[test]
fn fov_limit_and_frames() {
    assert_eq!(fov_limit_text(true), "200");
    assert_eq!(fov_limit_text(false), "120");
    let s = read_selection(&vec!["HPIcon (x)"]);
    assert_eq!(patch_options(&s, None).num_frames, 1);
    assert_eq!(patch_options(&s, Some(9)).num_frames, 9);
    assert!(patch_options(&s, Some(9)).apply_dwbt);
}

#[test]
fn candidate_folders_follow_known_bases() {
    let all = settings_dir_candidates(true, true, true);
    assert_eq!(all.len(), 6);
    assert_eq!(all[0].base, DirBase::DataDir);
    assert_eq!(all[0].parts, vec!["Godot", "app_userdata", "Cruelty Squad"]);
    assert_eq!(all[1].base, DirBase::ConfigDir);
    assert_eq!(all[2].base, DirBase::Home);
    assert_eq!(settings_dir_candidates(false, false, true).len(), 4);
    assert_eq!(settings_dir_candidates(false, false, false).len(), 0);
    let games = game_dir_candidates(true, false);
    assert_eq!(games.len(), 5);
    assert_eq!(games[0].base, DirBase::WorkingDir);
    assert!(games[0].parts.is_empty());
    assert_eq!(games[1].parts, vec!["Cruelty Squad"]);
    assert_eq!(games[4].base, DirBase::Absolute);
    assert_eq!(game_dir_candidates(true, true).len(), 8);
}

#[test]
fn first_found_takes_the_earliest() {
    assert_eq!(first_found(&[false, true, true]), Some(1));
    assert_eq!(first_found(&[false, false]), None);
    assert_eq!(first_found(&[]), None);
}
