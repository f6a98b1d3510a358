//! The edits that the selected patches make to the game's scripts and scenes.
use vstd::prelude::*;
use vstd::string::StringSliceAdditionalSpecFns;
use crate::byteseq::{contains_seq, replace_all, valid_utf8_parts, trim_trailing_nuls, contains, replace_bytes, push_all, valid_utf8_bytes, trimmed_len};
use crate::decimal::{decimal, push_decimal};
use crate::gametext::{PLAYER_SCRIPT, WEAPON_SCRIPT, MENU_SCENE, GENERAL_MENU_SCENE, UI_SCRIPT, FOV_WRAP_120, FOV_WRAP_160, FOV_WRAP_OPEN, FOV_WRAP_CLOSE, READY_HOOK, PHYSICS_HOOK, CEO_READY, CEO_PROCESS, SPEED_READY, SPEED_PROCESS, WEAPON_SWAY, WEAPON_LOWERED, FOV_SLIDER, FOV_SLIDER_WIDE, GAMMA_SLIDER, GAMMA_SLIDER_WIDE, SLIDER_MAX_160, SLIDER_MAX_200, CONST_HEALTH, VAR_HEALTH, CONST_DEATH, VAR_DEATH, FACES_OPEN, FACES_CLOSE, HEALTH_FPS, HEALTH_ANIMATION};
use crate::options::PatchOptions;

verus! {

/// The path test of the rewriter: the archive path, with its trailing zero bytes
/// dropped and decoded as UTF-8 with invalid parts dropped, contains `fragment`.
pub open spec fn path_mentions(raw_path: Seq<u8>, fragment: Seq<u8>) -> bool {
    contains_seq(valid_utf8_parts(trim_trailing_nuls(raw_path)), fragment)
}

/// The FOV clamp with upper limit `limit` (the limit's text).
pub open spec fn fov_clamp(limit: Seq<u8>) -> Seq<u8> {
    FOV_WRAP_OPEN.spec_bytes() + limit + FOV_WRAP_CLOSE.spec_bytes()
}

/// The ready-callback code that loads `n` custom face frames.
pub open spec fn faces_code(n: nat) -> Seq<u8> {
    FACES_OPEN.spec_bytes() + decimal(n) + FACES_CLOSE.spec_bytes()
}

/// `d` with `code` inserted after every occurrence of `hook`.
pub open spec fn insert_after(d: Seq<u8>, hook: Seq<u8>, code: Seq<u8>) -> Seq<u8> {
    replace_all(d, hook, hook + code)
}

/// Edits to the player script: the FOV limit, then the overlay, then the speed label.
pub open spec fn player_edits(d: Seq<u8>, o: PatchOptions, limit: Seq<u8>) -> Seq<u8> {
    let d1 = if o.apply_ui {
        replace_all(
            replace_all(d, FOV_WRAP_120.spec_bytes(), fov_clamp(limit)),
            FOV_WRAP_160.spec_bytes(),
            fov_clamp(limit),
        )
    } else {
        d
    };
    let d2 = if o.apply_ceo {
        insert_after(
            insert_after(d1, READY_HOOK.spec_bytes(), CEO_READY.spec_bytes()),
            PHYSICS_HOOK.spec_bytes(),
            CEO_PROCESS.spec_bytes(),
        )
    } else {
        d1
    };
    if o.apply_ishowspeed {
        insert_after(
            insert_after(d2, READY_HOOK.spec_bytes(), SPEED_READY.spec_bytes()),
            PHYSICS_HOOK.spec_bytes(),
            SPEED_PROCESS.spec_bytes(),
        )
    } else {
        d2
    }
}

/// Edits to the HUD script for custom face frames.
pub open spec fn hud_edits(d: Seq<u8>, frames: nat) -> Seq<u8> {
    replace_all(
        insert_after(
            replace_all(
                replace_all(d, CONST_HEALTH.spec_bytes(), VAR_HEALTH.spec_bytes()),
                CONST_DEATH.spec_bytes(),
                VAR_DEATH.spec_bytes(),
            ),
            READY_HOOK.spec_bytes(),
            faces_code(frames),
        ),
        HEALTH_FPS.spec_bytes(),
        HEALTH_ANIMATION.spec_bytes(),
    )
}

/// The content of the archive file at `raw_path` after the selected patches,
/// given its stored content `d` and the FOV limit's text `limit`.
pub open spec fn patched_file(raw_path: Seq<u8>, d: Seq<u8>, o: PatchOptions, limit: Seq<u8>) -> Seq<u8> {
    let d1 = if path_mentions(raw_path, PLAYER_SCRIPT.spec_bytes()) {
        player_edits(d, o, limit)
    } else {
        d
    };
    let d2 = if path_mentions(raw_path, WEAPON_SCRIPT.spec_bytes()) && o.apply_parkinson {
        replace_all(d1, WEAPON_SWAY.spec_bytes(), WEAPON_LOWERED.spec_bytes())
    } else {
        d1
    };
    let d3 = if path_mentions(raw_path, MENU_SCENE.spec_bytes()) && o.apply_ui {
        replace_all(
            replace_all(d2, FOV_SLIDER.spec_bytes(), FOV_SLIDER_WIDE.spec_bytes()),
            GAMMA_SLIDER.spec_bytes(),
            GAMMA_SLIDER_WIDE.spec_bytes(),
        )
    } else {
        d2
    };
    let d4 = if path_mentions(raw_path, GENERAL_MENU_SCENE.spec_bytes()) && o.apply_ui {
        replace_all(d3, SLIDER_MAX_160.spec_bytes(), SLIDER_MAX_200.spec_bytes())
    } else {
        d3
    };
    if path_mentions(raw_path, UI_SCRIPT.spec_bytes()) && o.apply_dwbt {
        hud_edits(d4, o.num_frames as nat)
    } else {
        d4
    }
}

/// Whether the archive path `raw_path` mentions `fragment` (see `path_mentions`).
pub fn path_has(raw_path: &[u8], fragment: &str) -> (r: bool)
    ensures
        r == path_mentions(raw_path@, fragment.spec_bytes()),
{
    let n = trimmed_len(raw_path);
    let trimmed = vstd::slice::slice_subrange(raw_path, 0, n);
    let text = valid_utf8_bytes(trimmed);
    contains(text.as_slice(), fragment.as_bytes())
}

/// `d` with `code` inserted after every occurrence of `hook`.
fn insert_code_after(d: &[u8], hook: &str, code: &[u8]) -> (r: Vec<u8>)
    ensures
        r@ == insert_after(d@, hook.spec_bytes(), code@),
{
    let mut with_code: Vec<u8> = Vec::new();
    push_all(&mut with_code, hook.as_bytes());
    push_all(&mut with_code, code);
    replace_bytes(d, hook.as_bytes(), with_code.as_slice())
}

/// The FOV clamp with upper limit `limit`.
fn fov_clamp_bytes(limit: &[u8]) -> (r: Vec<u8>)
    ensures
        r@ == fov_clamp(limit@),
{
    let mut out: Vec<u8> = Vec::new();
    push_all(&mut out, FOV_WRAP_OPEN.as_bytes());
    push_all(&mut out, limit);
    push_all(&mut out, FOV_WRAP_CLOSE.as_bytes());
    out
}

/// The face-loading code for `n` frames.
fn faces_code_bytes(n: usize) -> (r: Vec<u8>)
    ensures
        r@ == faces_code(n as nat),
{
    let mut out: Vec<u8> = Vec::new();
    push_all(&mut out, FACES_OPEN.as_bytes());
    push_decimal(&mut out, n);
    push_all(&mut out, FACES_CLOSE.as_bytes());
    out
}

/// The player-script edits.
fn edit_player(d: Vec<u8>, o: &PatchOptions, limit: &[u8]) -> (r: Vec<u8>)
    ensures
        r@ == player_edits(d@, *o, limit@),
{
    let mut d = d;
    if o.apply_ui {
        let clamp = fov_clamp_bytes(limit);
        d = replace_bytes(d.as_slice(), FOV_WRAP_120.as_bytes(), clamp.as_slice());
        d = replace_bytes(d.as_slice(), FOV_WRAP_160.as_bytes(), clamp.as_slice());
    }
    if o.apply_ceo {
        d = insert_code_after(d.as_slice(), READY_HOOK, CEO_READY.as_bytes());
        d = insert_code_after(d.as_slice(), PHYSICS_HOOK, CEO_PROCESS.as_bytes());
    }
    if o.apply_ishowspeed {
        d = insert_code_after(d.as_slice(), READY_HOOK, SPEED_READY.as_bytes());
        d = insert_code_after(d.as_slice(), PHYSICS_HOOK, SPEED_PROCESS.as_bytes());
    }
    d
}

/// The HUD-script edits for `frames` custom face frames.
fn edit_hud(d: Vec<u8>, frames: usize) -> (r: Vec<u8>)
    ensures
        r@ == hud_edits(d@, frames as nat),
{
    let d = replace_bytes(d.as_slice(), CONST_HEALTH.as_bytes(), VAR_HEALTH.as_bytes());
    let d = replace_bytes(d.as_slice(), CONST_DEATH.as_bytes(), VAR_DEATH.as_bytes());
    let faces = faces_code_bytes(frames);
    let d = insert_code_after(d.as_slice(), READY_HOOK, faces.as_slice());
    replace_bytes(d.as_slice(), HEALTH_FPS.as_bytes(), HEALTH_ANIMATION.as_bytes())
}

/// The content of the archive file at `raw_path`, stored as `data`, after the
/// patches that `o` selects; `fov_limit` is the text of the new FOV limit.
pub fn patch_file(raw_path: &[u8], data: Vec<u8>, o: &PatchOptions, fov_limit: &[u8]) -> (r: Vec<u8>)
    ensures
        r@ == patched_file(raw_path@, data@, *o, fov_limit@),
{
    let mut d = data;
    if path_has(raw_path, PLAYER_SCRIPT) {
        d = edit_player(d, o, fov_limit);
    }
    if o.apply_parkinson && path_has(raw_path, WEAPON_SCRIPT) {
        d = replace_bytes(d.as_slice(), WEAPON_SWAY.as_bytes(), WEAPON_LOWERED.as_bytes());
    }
    if o.apply_ui && path_has(raw_path, MENU_SCENE) {
        d = replace_bytes(d.as_slice(), FOV_SLIDER.as_bytes(), FOV_SLIDER_WIDE.as_bytes());
        d = replace_bytes(d.as_slice(), GAMMA_SLIDER.as_bytes(), GAMMA_SLIDER_WIDE.as_bytes());
    }
    if o.apply_ui && path_has(raw_path, GENERAL_MENU_SCENE) {
        d = replace_bytes(d.as_slice(), SLIDER_MAX_160.as_bytes(), SLIDER_MAX_200.as_bytes());
    }
    if o.apply_dwbt && path_has(raw_path, UI_SCRIPT) {
        d = edit_hud(d, o.num_frames);
    }
    d
}

/// No patch is selected.
pub open spec fn selects_nothing(o: PatchOptions) -> bool {
    !o.apply_parkinson && !o.apply_ceo && !o.apply_dwbt && !o.apply_ishowspeed && !o.apply_ui
}

/// With no patch selected, every file keeps its content.
pub proof fn lemma_no_patch_keeps_content(raw_path: Seq<u8>, d: Seq<u8>, o: PatchOptions, limit: Seq<u8>)
    requires
        selects_nothing(o),
    ensures
        patched_file(raw_path, d, o, limit) == d,
{
}

/// Files whose path mentions none of the patched scripts and scenes keep their content.
pub proof fn lemma_unrelated_file_kept(raw_path: Seq<u8>, d: Seq<u8>, o: PatchOptions, limit: Seq<u8>)
    requires
        !path_mentions(raw_path, PLAYER_SCRIPT.spec_bytes()),
        !path_mentions(raw_path, WEAPON_SCRIPT.spec_bytes()),
        !path_mentions(raw_path, MENU_SCENE.spec_bytes()),
        !path_mentions(raw_path, GENERAL_MENU_SCENE.spec_bytes()),
        !path_mentions(raw_path, UI_SCRIPT.spec_bytes()),
    ensures
        patched_file(raw_path, d, o, limit) == d,
{
}

/// `o` with the custom-face patch turned off.
pub open spec fn without_faces(o: PatchOptions) -> PatchOptions {
    PatchOptions {
        apply_parkinson: o.apply_parkinson,
        apply_ceo: o.apply_ceo,
        apply_dwbt: false,
        apply_ishowspeed: o.apply_ishowspeed,
        apply_ui: o.apply_ui,
        num_frames: o.num_frames,
    }
}

/// The custom-face patch is made to every file whose path mentions `UI.gd`
/// when it is selected, whatever the number of frames (one included), and to
/// nothing else: after the other patches, `HEALTH` and `DEATH` become
/// variables, the face-loading code for `num_frames` frames follows the ready
/// callback's header, and the icon's animation line becomes the frame-cycling code.
pub proof fn lemma_face_patch(raw_path: Seq<u8>, d: Seq<u8>, o: PatchOptions, limit: Seq<u8>)
    ensures
        (path_mentions(raw_path, "UI.gd".spec_bytes()) && o.apply_dwbt) ==> patched_file(raw_path, d, o, limit) == replace_all(
                replace_all(replace_all(replace_all(patched_file(raw_path, d, without_faces(o), limit), "const HEALTH".spec_bytes(), "var HEALTH".spec_bytes()), "const DEATH".spec_bytes(), "var DEATH".spec_bytes()), "func _ready():".spec_bytes(), "func _ready():".spec_bytes() + ("\n\tvar cf = []\n\tfor i in range(".spec_bytes() + decimal(o.num_frames as nat) + "):\n\t\tvar img = Image.new()\n\t\tif img.load(\"user://custom_face_%d.png\" % i) == OK:\n\t\t\timg.resize(256, 256, 0)\n\t\t\tvar tex = ImageTexture.new()\n\t\t\ttex.create_from_image(img)\n\t\t\tcf.append(tex)\n\tif cf.size() > 1:\n\t\tHEALTH = cf\n\t\tDEATH = cf\n\telif cf.size() == 1:\n\t\tHEALTH = cf[0]\n\t\tDEATH = cf[0]\n".spec_bytes())),
                "health_texture.texture.fps = clamp(100 - health, 24, 100)".spec_bytes(),
                "if typeof(HEALTH) == TYPE_ARRAY:\n\t\thealth_texture.texture = HEALTH[int(OS.get_ticks_msec() / 1000.0 * clamp(100 - health, 24, 100)) % HEALTH.size()]\n\telse:\n\t\thealth_texture.texture = HEALTH\n\t\thealth_texture.texture.fps = clamp(100 - health, 24, 100)".spec_bytes(),
            ),
        !(path_mentions(raw_path, "UI.gd".spec_bytes()) && o.apply_dwbt) ==> patched_file(raw_path, d, o, limit)
            == patched_file(raw_path, d, without_faces(o), limit),
{
}

/// What each patch does to a file whose path mentions only its own script or scene.
pub proof fn lemma_single_file_patches(raw_path: Seq<u8>, d: Seq<u8>, o: PatchOptions, limit: Seq<u8>)
    ensures
        path_mentions(raw_path, "UI.gd".spec_bytes()) && !path_mentions(raw_path, "Player.gd".spec_bytes()) && !path_mentions(raw_path, "weapon.gd".spec_bytes()) && !path_mentions(raw_path, "Menu_test.tscn".spec_bytes()) && !path_mentions(raw_path, "General_Menu.tscn".spec_bytes()) ==> patched_file(raw_path, d, o, limit) == if o.apply_dwbt {
            replace_all(
                replace_all(replace_all(replace_all(d, "const HEALTH".spec_bytes(), "var HEALTH".spec_bytes()), "const DEATH".spec_bytes(), "var DEATH".spec_bytes()), "func _ready():".spec_bytes(), "func _ready():".spec_bytes() + ("\n\tvar cf = []\n\tfor i in range(".spec_bytes() + decimal(o.num_frames as nat) + "):\n\t\tvar img = Image.new()\n\t\tif img.load(\"user://custom_face_%d.png\" % i) == OK:\n\t\t\timg.resize(256, 256, 0)\n\t\t\tvar tex = ImageTexture.new()\n\t\t\ttex.create_from_image(img)\n\t\t\tcf.append(tex)\n\tif cf.size() > 1:\n\t\tHEALTH = cf\n\t\tDEATH = cf\n\telif cf.size() == 1:\n\t\tHEALTH = cf[0]\n\t\tDEATH = cf[0]\n".spec_bytes())),
                "health_texture.texture.fps = clamp(100 - health, 24, 100)".spec_bytes(),
                "if typeof(HEALTH) == TYPE_ARRAY:\n\t\thealth_texture.texture = HEALTH[int(OS.get_ticks_msec() / 1000.0 * clamp(100 - health, 24, 100)) % HEALTH.size()]\n\telse:\n\t\thealth_texture.texture = HEALTH\n\t\thealth_texture.texture.fps = clamp(100 - health, 24, 100)".spec_bytes(),
            )
        } else {
            d
        },
        path_mentions(raw_path, "weapon.gd".spec_bytes()) && !path_mentions(raw_path, "Player.gd".spec_bytes()) && !path_mentions(raw_path, "Menu_test.tscn".spec_bytes()) && !path_mentions(raw_path, "General_Menu.tscn".spec_bytes()) && !path_mentions(raw_path, "UI.gd".spec_bytes()) ==> patched_file(raw_path, d, o, limit) == if o.apply_parkinson {
            replace_all(d, "player_weapon.transform.origin.x = lerp(player_weapon.transform.origin.x, - 0.135, 5 * delta)".spec_bytes(), "player_weapon.transform.origin.x = lerp(player_weapon.transform.origin.x, -0.035, 5 * delta)\n\t\t\t\tplayer_weapon.transform.origin.y = -0.1\n\t\t\t\tplayer_weapon.transform.origin.z = -0.1".spec_bytes())
        } else {
            d
        },
        path_mentions(raw_path, "Menu_test.tscn".spec_bytes()) && !path_mentions(raw_path, "Player.gd".spec_bytes()) && !path_mentions(raw_path, "weapon.gd".spec_bytes()) && !path_mentions(raw_path, "General_Menu.tscn".spec_bytes()) && !path_mentions(raw_path, "UI.gd".spec_bytes()) ==> patched_file(raw_path, d, o, limit) == if o.apply_ui {
            replace_all(replace_all(d, "[node name=\"FOV\" type=\"HSlider\" parent=\"Settings/GridContainer/PanelContainer/VBoxContainer\"]".spec_bytes(), "[node name=\"FOV\" type=\"HSlider\" parent=\"Settings/GridContainer/PanelContainer/VBoxContainer\"]\nmax_value = 200.0".spec_bytes()), "[node name=\"GAMMA\" type=\"HSlider\" parent=\"Settings/GridContainer/PanelContainer/VBoxContainer\"]".spec_bytes(), "[node name=\"GAMMA\" type=\"HSlider\" parent=\"Settings/GridContainer/PanelContainer/VBoxContainer\"]\nmax_value = 3.0".spec_bytes())
        } else {
            d
        },
        path_mentions(raw_path, "General_Menu.tscn".spec_bytes()) && !path_mentions(raw_path, "Player.gd".spec_bytes()) && !path_mentions(raw_path, "weapon.gd".spec_bytes()) && !path_mentions(raw_path, "Menu_test.tscn".spec_bytes()) && !path_mentions(raw_path, "UI.gd".spec_bytes()) ==> patched_file(raw_path, d, o, limit) == if o.apply_ui {
            replace_all(d, "max_value = 160.0".spec_bytes(), "max_value = 200.0".spec_bytes())
        } else {
            d
        },
        path_mentions(raw_path, "Player.gd".spec_bytes()) && !path_mentions(raw_path, "weapon.gd".spec_bytes()) && !path_mentions(raw_path, "Menu_test.tscn".spec_bytes()) && !path_mentions(raw_path, "General_Menu.tscn".spec_bytes()) && !path_mentions(raw_path, "UI.gd".spec_bytes()) ==> patched_file(raw_path, d, o, limit) == ({
            let d1 = (if o.apply_ui { replace_all(replace_all(d, "wrapf(player_view.fov, 4, 120)".spec_bytes(), "wrapf(player_view.fov, 4, ".spec_bytes() + limit + ")".spec_bytes()), "wrapf(player_view.fov, 4, 160)".spec_bytes(), "wrapf(player_view.fov, 4, ".spec_bytes() + limit + ")".spec_bytes()) } else { d });
            let d2 = (if o.apply_ceo { replace_all(replace_all(d1, "func _ready():".spec_bytes(), "func _ready():".spec_bytes() + "\n\tvar __cl=CanvasLayer.new()\n\t__cl.name=\"CEOCanvas\"\n\tvar cr=ColorRect.new()\n\tcr.name=\"TripRect\"\n\tcr.mouse_filter=2\n\tcr.anchor_right=1.0\n\tcr.anchor_bottom=1.0\n\tvar mat=CanvasItemMaterial.new()\n\tmat.blend_mode=1\n\tcr.material=mat\n\t__cl.add_child(cr)\n\tget_tree().get_root().call_deferred(\"add_child\",__cl)\n".spec_bytes()), "func _physics_process(delta):".spec_bytes(), "func _physics_process(delta):".spec_bytes() + "\n\tif not self.has_meta(\"ceo_t\"): self.set_meta(\"ceo_t\", 0.0)\n\tvar ceo_t = self.get_meta(\"ceo_t\") + delta\n\tself.set_meta(\"ceo_t\", ceo_t)\n\tvar __cl_node=get_tree().get_root().get_node_or_null(\"CEOCanvas\")\n\tif __cl_node:\n\t\tvar __tr=__cl_node.get_node_or_null(\"TripRect\")\n\t\tif __tr:\n\t\t\t__tr.color=Color(sin(ceo_t*5.0)*0.5+0.5,sin(ceo_t*6.0)*0.5+0.5,sin(ceo_t*7.0)*0.5+0.5,0.15)\n".spec_bytes()) } else { d1 });
            (if o.apply_ishowspeed { replace_all(replace_all(d2, "func _ready():".spec_bytes(), "func _ready():".spec_bytes() + "\n\tvar cl=CanvasLayer.new()\n\tcl.name=\"SpeedCanvas\"\n\tvar sl=Label.new()\n\tsl.name=\"SpeedLabel\"\n\tsl.add_color_override(\"font_color\", Color(1,1,0))\n\tcl.add_child(sl)\n\tget_tree().get_root().call_deferred(\"add_child\", cl)\n".spec_bytes()), "func _physics_process(delta):".spec_bytes(), "func _physics_process(delta):".spec_bytes() + "\n\tvar cl=get_tree().get_root().get_node_or_null(\"SpeedCanvas\")\n\tif cl != null:\n\t\tvar sl=cl.get_node_or_null(\"SpeedLabel\")\n\t\tif sl != null:\n\t\t\tsl.text = \"SPEED: \" + str(int(player_velocity.length()))\n\t\t\tvar vp_size = get_viewport().size\n\t\t\tsl.rect_position = Vector2(vp_size.x / 2.0 - sl.rect_size.x / 2.0, vp_size.y - 30)\n".spec_bytes()) } else { d2 })
        }),
{
}

} // verus!
