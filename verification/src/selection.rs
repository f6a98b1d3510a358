//! The patch menu, what a choice in it selects, and the plan that follows.
use vstd::prelude::*;
use vstd::string::StringSliceAdditionalSpecFns;
use crate::options::PatchOptions;

verus! {

/// Menu title.
pub const MENU_TITLE: &'static str = "cruelty style - select patches:";

/// Menu entry: FOV and gamma sliders.
pub const OPTION_UI: &'static str = "FOV & Gamma (obv)";

/// Menu entry: physics interpolation.
pub const OPTION_MOVEMENT: &'static str = "MDMA (fix of bug with jittery movement)";

/// Menu entry: lowered weapon.
pub const OPTION_PARKINSON: &'static str = "ParkinsonSyndrome (shaky hands)";

/// Menu entry: rainbow overlay.
pub const OPTION_CEO: &'static str = "CEOMindsetTrip (rainbow screen. useless js for fun ig)";

/// Menu entry: custom health icon.
pub const OPTION_DWBT: &'static str = "HPIcon (custom hp icon - supports PNG, JPG, JPEG, GIF (yes even videogifs))";

/// Menu entry: speed readout.
pub const OPTION_ISHOWSPEED: &'static str = "IShowSpeed (shows ur current speed)";

/// Menu entry: restore the backed-up archive.
pub const OPTION_UNINSTALL: &'static str = "uninstall cruelty style";

/// Prefix by which a chosen entry selects the FOV and gamma patch.
pub const PREFIX_UI: &'static str = "FOV";

/// Prefix by which a chosen entry selects the movement patch.
pub const PREFIX_MOVEMENT: &'static str = "MDMA";

/// Prefix by which a chosen entry selects the weapon patch.
pub const PREFIX_PARKINSON: &'static str = "ParkinsonSyndrome";

/// Prefix by which a chosen entry selects the overlay patch.
pub const PREFIX_CEO: &'static str = "CEOMindsetTrip";

/// Prefix by which a chosen entry selects the health icon patch.
pub const PREFIX_DWBT: &'static str = "HPIcon";

/// Prefix by which a chosen entry selects the speed readout patch.
pub const PREFIX_ISHOWSPEED: &'static str = "IShowSpeed";

/// Prefix by which a chosen entry asks for the uninstall.
pub const PREFIX_UNINSTALL: &'static str = "uninstall";

/// FOV limit text when the FOV patch is selected (the limit 200).
pub const FOV_LIMIT_WIDE: &'static str = "200";

/// FOV limit text otherwise (the limit 120).
pub const FOV_LIMIT_STOCK: &'static str = "120";

/// The menu entries, in the order shown.
pub open spec fn menu() -> Seq<Seq<char>> {
    seq![
        OPTION_UI@,
        OPTION_MOVEMENT@,
        OPTION_PARKINSON@,
        OPTION_CEO@,
        OPTION_DWBT@,
        OPTION_ISHOWSPEED@,
        OPTION_UNINSTALL@,
    ]
}

/// The menu entries, in the order shown.
pub fn menu_options() -> (r: Vec<&'static str>)
    ensures
        r@.map_values(|s: &'static str| s@) == menu(),
{
    let mut r: Vec<&'static str> = Vec::new();
    r.push(OPTION_UI);
    r.push(OPTION_MOVEMENT);
    r.push(OPTION_PARKINSON);
    r.push(OPTION_CEO);
    r.push(OPTION_DWBT);
    r.push(OPTION_ISHOWSPEED);
    r.push(OPTION_UNINSTALL);
    assert(r@.map_values(|s: &'static str| s@) =~= menu());
    r
}

/// What the chosen menu entries select.
#[derive(Clone, Copy, Debug, PartialEq, Eq, Structural)]
pub struct Selection {
    pub uninstall: bool,
    pub apply_ui: bool,
    pub apply_movement: bool,
    pub apply_parkinson: bool,
    pub apply_ceo: bool,
    pub apply_dwbt: bool,
    pub apply_ishowspeed: bool,
}

/// `s` starts with `p`.
pub open spec fn has_prefix(s: Seq<u8>, p: Seq<u8>) -> bool {
    p.len() <= s.len() && s.subrange(0, p.len() as int) == p
}

/// Some chosen entry starts with `p`.
pub open spec fn any_chosen(chosen: Seq<&str>, p: &str) -> bool {
    exists|i: int| 0 <= i < chosen.len() && has_prefix(#[trigger] chosen[i].spec_bytes(), p.spec_bytes())
}

/// What the chosen entries `chosen` select: an item is selected when some chosen
/// entry starts with its prefix.
pub open spec fn selection_of(chosen: Seq<&str>) -> Selection {
    Selection {
        uninstall: any_chosen(chosen, PREFIX_UNINSTALL),
        apply_ui: any_chosen(chosen, PREFIX_UI),
        apply_movement: any_chosen(chosen, PREFIX_MOVEMENT),
        apply_parkinson: any_chosen(chosen, PREFIX_PARKINSON),
        apply_ceo: any_chosen(chosen, PREFIX_CEO),
        apply_dwbt: any_chosen(chosen, PREFIX_DWBT),
        apply_ishowspeed: any_chosen(chosen, PREFIX_ISHOWSPEED),
    }
}

/// Whether `s` starts with `p`.
pub fn starts_with(s: &str, p: &str) -> (r: bool)
    ensures
        r == has_prefix(s.spec_bytes(), p.spec_bytes()),
{
    let sb = s.as_bytes();
    let pb = p.as_bytes();
    if pb.len() > sb.len() {
        return false;
    }
    let mut i: usize = 0;
    while i < pb.len()
        invariant
            sb@ == s.spec_bytes(),
            pb@ == p.spec_bytes(),
            pb@.len() <= sb@.len(),
            i <= pb@.len(),
            forall|j: int| 0 <= j < i ==> sb@[j] == pb@[j],
        decreases pb@.len() - i,
    {
        if sb[i] != pb[i] {
            assert(sb@.subrange(0, pb@.len() as int)[i as int] != pb@[i as int]);
            return false;
        }
        i = i + 1;
    }
    assert(sb@.subrange(0, pb@.len() as int) =~= pb@);
    true
}

/// Whether some chosen entry starts with `p`.
fn chosen_with(chosen: &Vec<&str>, p: &str) -> (r: bool)
    ensures
        r == any_chosen(chosen@, p),
{
    let mut i: usize = 0;
    while i < chosen.len()
        invariant
            i <= chosen@.len(),
            forall|j: int| 0 <= j < i ==> !has_prefix(#[trigger] chosen@[j].spec_bytes(), p.spec_bytes()),
        decreases chosen@.len() - i,
    {
        if starts_with(chosen[i], p) {
            return true;
        }
        i = i + 1;
    }
    false
}

/// What the chosen entries select.
pub fn read_selection(chosen: &Vec<&str>) -> (r: Selection)
    ensures
        r == selection_of(chosen@),
{
    Selection {
        uninstall: chosen_with(chosen, PREFIX_UNINSTALL),
        apply_ui: chosen_with(chosen, PREFIX_UI),
        apply_movement: chosen_with(chosen, PREFIX_MOVEMENT),
        apply_parkinson: chosen_with(chosen, PREFIX_PARKINSON),
        apply_ceo: chosen_with(chosen, PREFIX_CEO),
        apply_dwbt: chosen_with(chosen, PREFIX_DWBT),
        apply_ishowspeed: chosen_with(chosen, PREFIX_ISHOWSPEED),
    }
}

/// Whether the game archive must be rewritten: some archive patch is selected.
pub fn needs_archive_patch(s: &Selection) -> (r: bool)
    ensures
        r == (s.apply_ui || s.apply_parkinson || s.apply_ceo || s.apply_dwbt || s.apply_ishowspeed),
{
    s.apply_ui || s.apply_parkinson || s.apply_ceo || s.apply_dwbt || s.apply_ishowspeed
}

/// Text of the FOV limit that the player script gets.
pub fn fov_limit_text(apply_ui: bool) -> (r: &'static str)
    ensures
        r@ == (if apply_ui { FOV_LIMIT_WIDE@ } else { FOV_LIMIT_STOCK@ }),
        r@ == (if apply_ui { "200"@ } else { "120"@ }),
{
    if apply_ui {
        FOV_LIMIT_WIDE
    } else {
        FOV_LIMIT_STOCK
    }
}

/// The archive patches of `s`, with the number of face frames prepared
/// (one when no face image was processed).
pub fn patch_options(s: &Selection, prepared_frames: Option<usize>) -> (r: PatchOptions)
    ensures
        r.apply_parkinson == s.apply_parkinson,
        r.apply_ceo == s.apply_ceo,
        r.apply_dwbt == s.apply_dwbt,
        r.apply_ishowspeed == s.apply_ishowspeed,
        r.apply_ui == s.apply_ui,
        r.num_frames == (match prepared_frames {
            Some(n) => n,
            None => 1,
        }),
{
    PatchOptions {
        apply_parkinson: s.apply_parkinson,
        apply_ceo: s.apply_ceo,
        apply_dwbt: s.apply_dwbt,
        apply_ishowspeed: s.apply_ishowspeed,
        apply_ui: s.apply_ui,
        num_frames: match prepared_frames {
            Some(n) => n,
            None => 1,
        },
    }
}

/// Each item of the menu is selected exactly when some chosen entry starts with
/// its own prefix: `uninstall`, `FOV`, `MDMA`, `ParkinsonSyndrome`,
/// `CEOMindsetTrip`, `HPIcon` and `IShowSpeed`.
pub proof fn lemma_selection_by_prefix(chosen: Seq<&str>)
    ensures
        selection_of(chosen).uninstall <==> exists|i: int|
            0 <= i < chosen.len() && has_prefix(#[trigger] chosen[i].spec_bytes(), "uninstall".spec_bytes()),
        selection_of(chosen).apply_ui <==> exists|i: int|
            0 <= i < chosen.len() && has_prefix(#[trigger] chosen[i].spec_bytes(), "FOV".spec_bytes()),
        selection_of(chosen).apply_movement <==> exists|i: int|
            0 <= i < chosen.len() && has_prefix(#[trigger] chosen[i].spec_bytes(), "MDMA".spec_bytes()),
        selection_of(chosen).apply_parkinson <==> exists|i: int|
            0 <= i < chosen.len() && has_prefix(#[trigger] chosen[i].spec_bytes(), "ParkinsonSyndrome".spec_bytes()),
        selection_of(chosen).apply_ceo <==> exists|i: int|
            0 <= i < chosen.len() && has_prefix(#[trigger] chosen[i].spec_bytes(), "CEOMindsetTrip".spec_bytes()),
        selection_of(chosen).apply_dwbt <==> exists|i: int|
            0 <= i < chosen.len() && has_prefix(#[trigger] chosen[i].spec_bytes(), "HPIcon".spec_bytes()),
        selection_of(chosen).apply_ishowspeed <==> exists|i: int|
            0 <= i < chosen.len() && has_prefix(#[trigger] chosen[i].spec_bytes(), "IShowSpeed".spec_bytes()),
{
}

} // verus!
