//! Text of the game files that the patches look for, and of what they put in.
use vstd::prelude::*;

verus! {

/// File-path fragment of the player script.
pub const PLAYER_SCRIPT: &'static str = "Player.gd";

/// File-path fragment of the weapon script.
pub const WEAPON_SCRIPT: &'static str = "weapon.gd";

/// File-path fragment of the main menu scene.
pub const MENU_SCENE: &'static str = "Menu_test.tscn";

/// File-path fragment of the in-game menu scene.
pub const GENERAL_MENU_SCENE: &'static str = "General_Menu.tscn";

/// File-path fragment of the HUD script.
pub const UI_SCRIPT: &'static str = "UI.gd";

/// Stock FOV clamp (upper limit 120).
pub const FOV_WRAP_120: &'static str = "wrapf(player_view.fov, 4, 120)";

/// Stock FOV clamp (upper limit 160).
pub const FOV_WRAP_160: &'static str = "wrapf(player_view.fov, 4, 160)";

/// Start of the FOV clamp with the new limit.
pub const FOV_WRAP_OPEN: &'static str = "wrapf(player_view.fov, 4, ";

/// End of the FOV clamp with the new limit.
pub const FOV_WRAP_CLOSE: &'static str = ")";

/// Header of a script's ready callback.
pub const READY_HOOK: &'static str = "func _ready():";

/// Header of a script's physics callback.
pub const PHYSICS_HOOK: &'static str = "func _physics_process(delta):";

/// Ready-callback code that adds the rainbow overlay.
pub const CEO_READY: &'static str = "\n\tvar __cl=CanvasLayer.new()\n\t__cl.name=\"CEOCanvas\"\n\tvar cr=ColorRect.new()\n\tcr.name=\"TripRect\"\n\tcr.mouse_filter=2\n\tcr.anchor_right=1.0\n\tcr.anchor_bottom=1.0\n\tvar mat=CanvasItemMaterial.new()\n\tmat.blend_mode=1\n\tcr.material=mat\n\t__cl.add_child(cr)\n\tget_tree().get_root().call_deferred(\"add_child\",__cl)\n";

/// Physics-callback code that cycles the overlay colour.
pub const CEO_PROCESS: &'static str = "\n\tif not self.has_meta(\"ceo_t\"): self.set_meta(\"ceo_t\", 0.0)\n\tvar ceo_t = self.get_meta(\"ceo_t\") + delta\n\tself.set_meta(\"ceo_t\", ceo_t)\n\tvar __cl_node=get_tree().get_root().get_node_or_null(\"CEOCanvas\")\n\tif __cl_node:\n\t\tvar __tr=__cl_node.get_node_or_null(\"TripRect\")\n\t\tif __tr:\n\t\t\t__tr.color=Color(sin(ceo_t*5.0)*0.5+0.5,sin(ceo_t*6.0)*0.5+0.5,sin(ceo_t*7.0)*0.5+0.5,0.15)\n";

/// Ready-callback code that adds the speed label.
pub const SPEED_READY: &'static str = "\n\tvar cl=CanvasLayer.new()\n\tcl.name=\"SpeedCanvas\"\n\tvar sl=Label.new()\n\tsl.name=\"SpeedLabel\"\n\tsl.add_color_override(\"font_color\", Color(1,1,0))\n\tcl.add_child(sl)\n\tget_tree().get_root().call_deferred(\"add_child\", cl)\n";

/// Physics-callback code that updates the speed label.
pub const SPEED_PROCESS: &'static str = "\n\tvar cl=get_tree().get_root().get_node_or_null(\"SpeedCanvas\")\n\tif cl != null:\n\t\tvar sl=cl.get_node_or_null(\"SpeedLabel\")\n\t\tif sl != null:\n\t\t\tsl.text = \"SPEED: \" + str(int(player_velocity.length()))\n\t\t\tvar vp_size = get_viewport().size\n\t\t\tsl.rect_position = Vector2(vp_size.x / 2.0 - sl.rect_size.x / 2.0, vp_size.y - 30)\n";

/// Stock weapon sway line.
pub const WEAPON_SWAY: &'static str = "player_weapon.transform.origin.x = lerp(player_weapon.transform.origin.x, - 0.135, 5 * delta)";

/// Weapon placement that replaces the sway line.
pub const WEAPON_LOWERED: &'static str = "player_weapon.transform.origin.x = lerp(player_weapon.transform.origin.x, -0.035, 5 * delta)\n\t\t\t\tplayer_weapon.transform.origin.y = -0.1\n\t\t\t\tplayer_weapon.transform.origin.z = -0.1";

/// Menu node of the FOV slider.
pub const FOV_SLIDER: &'static str = "[node name=\"FOV\" type=\"HSlider\" parent=\"Settings/GridContainer/PanelContainer/VBoxContainer\"]";

/// FOV slider node with a higher maximum.
pub const FOV_SLIDER_WIDE: &'static str = "[node name=\"FOV\" type=\"HSlider\" parent=\"Settings/GridContainer/PanelContainer/VBoxContainer\"]\nmax_value = 200.0";

/// Menu node of the gamma slider.
pub const GAMMA_SLIDER: &'static str = "[node name=\"GAMMA\" type=\"HSlider\" parent=\"Settings/GridContainer/PanelContainer/VBoxContainer\"]";

/// Gamma slider node with a higher maximum.
pub const GAMMA_SLIDER_WIDE: &'static str = "[node name=\"GAMMA\" type=\"HSlider\" parent=\"Settings/GridContainer/PanelContainer/VBoxContainer\"]\nmax_value = 3.0";

/// Stock slider maximum of the in-game menu.
pub const SLIDER_MAX_160: &'static str = "max_value = 160.0";

/// Raised slider maximum of the in-game menu.
pub const SLIDER_MAX_200: &'static str = "max_value = 200.0";

/// Constant declaration of the health icon.
pub const CONST_HEALTH: &'static str = "const HEALTH";

/// Variable declaration of the health icon.
pub const VAR_HEALTH: &'static str = "var HEALTH";

/// Constant declaration of the death icon.
pub const CONST_DEATH: &'static str = "const DEATH";

/// Variable declaration of the death icon.
pub const VAR_DEATH: &'static str = "var DEATH";

/// Ready-callback code that loads the custom faces, up to the frame count.
pub const FACES_OPEN: &'static str = "\n\tvar cf = []\n\tfor i in range(";

/// Rest of the face-loading code, after the frame count.
pub const FACES_CLOSE: &'static str = "):\n\t\tvar img = Image.new()\n\t\tif img.load(\"user://custom_face_%d.png\" % i) == OK:\n\t\t\timg.resize(256, 256, 0)\n\t\t\tvar tex = ImageTexture.new()\n\t\t\ttex.create_from_image(img)\n\t\t\tcf.append(tex)\n\tif cf.size() > 1:\n\t\tHEALTH = cf\n\t\tDEATH = cf\n\telif cf.size() == 1:\n\t\tHEALTH = cf[0]\n\t\tDEATH = cf[0]\n";

/// Stock health icon animation line.
pub const HEALTH_FPS: &'static str = "health_texture.texture.fps = clamp(100 - health, 24, 100)";

/// Health icon animation that also cycles custom frames.
pub const HEALTH_ANIMATION: &'static str = "if typeof(HEALTH) == TYPE_ARRAY:\n\t\thealth_texture.texture = HEALTH[int(OS.get_ticks_msec() / 1000.0 * clamp(100 - health, 24, 100)) % HEALTH.size()]\n\telse:\n\t\thealth_texture.texture = HEALTH\n\t\thealth_texture.texture.fps = clamp(100 - health, 24, 100)";

} // verus!
