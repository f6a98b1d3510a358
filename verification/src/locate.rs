//! Where the game and its settings are looked for, and which candidate is taken.
use vstd::prelude::*;

verus! {

/// The folder a candidate path starts from.
#[derive(Clone, Copy, Debug, PartialEq, Eq, Structural)]
pub enum DirBase {
    /// The user's data folder (as the platform defines it).
    DataDir,
    /// The user's configuration folder.
    ConfigDir,
    /// The user's home folder.
    Home,
    /// The working directory.
    WorkingDir,
    /// No base: the first part is an absolute path.
    Absolute,
}

/// A candidate folder: a base folder with parts joined to it, in order.
pub struct Candidate {
    pub base: DirBase,
    pub parts: Vec<&'static str>,
}

/// A candidate folder as base and part texts.
pub struct CandidateView {
    pub base: DirBase,
    pub parts: Seq<Seq<char>>,
}

impl View for Candidate {
    type V = CandidateView;

    open spec fn view(&self) -> CandidateView {
        CandidateView { base: self.base, parts: self.parts@.map_values(|p: &'static str| p@) }
    }
}

/// File whose presence marks the settings folder.
pub const SETTINGS_FILE: &'static str = "settings.save";

/// File whose presence marks the game folder.
pub const GAME_ARCHIVE: &'static str = "crueltysquad.pck";

/// Copy of the stock archive kept in the game folder, from which every patch starts.
pub const BACKUP_ARCHIVE: &'static str = "crueltysquad.pck.bak_plus";

/// Name of the rewritten archive in the temporary folder, before it replaces the game's.
pub const PATCHED_ARCHIVE: &'static str = "crueltysquad_patched_plus.pck";

/// Godot's folder name under the data and configuration folders.
pub const GODOT_DIR: &'static str = "Godot";

/// Godot's user-data folder name.
pub const USERDATA_DIR: &'static str = "app_userdata";

/// The game's folder name.
pub const GAME_DIR: &'static str = "Cruelty Squad";

/// Settings folder under the home folder: Proton prefix of a Steam install.
pub const HOME_SETTINGS_PROTON: &'static str = ".local/share/Steam/steamapps/compatdata/1388770/pfx/drive_c/users/steamuser/AppData/Roaming/Godot/app_userdata/Cruelty Squad";

/// Settings folder under the home folder: native Godot.
pub const HOME_SETTINGS_NATIVE: &'static str = ".local/share/godot/app_userdata/Cruelty Squad";

/// Settings folder under the home folder: Wine prefix.
pub const HOME_SETTINGS_WINE: &'static str = ".wine/drive_c/users/steamuser/AppData/Roaming/Godot/app_userdata/Cruelty Squad";

/// Settings folder under the home folder: Proton prefix of a Flatpak Steam install.
pub const HOME_SETTINGS_FLATPAK: &'static str = ".var/app/com.valvesoftware.Steam/.local/share/Steam/steamapps/compatdata/1388770/pfx/drive_c/users/steamuser/AppData/Roaming/Godot/app_userdata/Cruelty Squad";

/// Game folder under the home folder: Steam.
pub const HOME_GAME_STEAM: &'static str = ".steam/steam/steamapps/common/Cruelty Squad";

/// Game folder under the home folder: Steam's data folder.
pub const HOME_GAME_STEAM_DATA: &'static str = ".local/share/Steam/steamapps/common/Cruelty Squad";

/// Game folder under the home folder: Flatpak Steam.
pub const HOME_GAME_FLATPAK: &'static str = ".var/app/com.valvesoftware.Steam/.local/share/Steam/steamapps/common/Cruelty Squad";

/// Game folder of a default 32-bit Steam install on Windows.
pub const WINDOWS_GAME_X86: &'static str = "C:\\Program Files (x86)\\Steam\\steamapps\\common\\Cruelty Squad";

/// Game folder of a default Steam install on Windows.
pub const WINDOWS_GAME: &'static str = "C:\\Program Files\\Steam\\steamapps\\common\\Cruelty Squad";

/// Game folder of a second Steam library on Windows.
pub const WINDOWS_GAME_LIBRARY: &'static str = "D:\\SteamLibrary\\steamapps\\common\\Cruelty Squad";

/// A candidate from a base and its parts.
pub open spec fn cand(base: DirBase, parts: Seq<Seq<char>>) -> CandidateView {
    CandidateView { base, parts }
}

/// The Godot user-data parts of the game.
pub open spec fn godot_parts() -> Seq<Seq<char>> {
    seq![GODOT_DIR@, USERDATA_DIR@, GAME_DIR@]
}

/// The settings folders looked at, in order, given which base folders are known.
pub open spec fn settings_candidates(has_data: bool, has_config: bool, has_home: bool) -> Seq<CandidateView> {
    (if has_data {
        seq![cand(DirBase::DataDir, godot_parts())]
    } else {
        Seq::empty()
    }) + (if has_config {
        seq![cand(DirBase::ConfigDir, godot_parts())]
    } else {
        Seq::empty()
    }) + (if has_home {
        seq![
            cand(DirBase::Home, seq![HOME_SETTINGS_PROTON@]),
            cand(DirBase::Home, seq![HOME_SETTINGS_NATIVE@]),
            cand(DirBase::Home, seq![HOME_SETTINGS_WINE@]),
            cand(DirBase::Home, seq![HOME_SETTINGS_FLATPAK@]),
        ]
    } else {
        Seq::empty()
    })
}

/// The game folders looked at, in order, given which base folders are known.
pub open spec fn game_candidates(has_working_dir: bool, has_home: bool) -> Seq<CandidateView> {
    (if has_working_dir {
        seq![cand(DirBase::WorkingDir, Seq::empty()), cand(DirBase::WorkingDir, seq![GAME_DIR@])]
    } else {
        Seq::empty()
    }) + (if has_home {
        seq![
            cand(DirBase::Home, seq![HOME_GAME_STEAM@]),
            cand(DirBase::Home, seq![HOME_GAME_STEAM_DATA@]),
            cand(DirBase::Home, seq![HOME_GAME_FLATPAK@]),
        ]
    } else {
        Seq::empty()
    }) + seq![
        cand(DirBase::Absolute, seq![WINDOWS_GAME_X86@]),
        cand(DirBase::Absolute, seq![WINDOWS_GAME@]),
        cand(DirBase::Absolute, seq![WINDOWS_GAME_LIBRARY@]),
    ]
}

/// A candidate with one part.
fn single(base: DirBase, part: &'static str) -> (c: Candidate)
    ensures
        c@ == cand(base, seq![part@]),
{
    let mut parts: Vec<&'static str> = Vec::new();
    parts.push(part);
    let c = Candidate { base, parts };
    assert(c@.parts =~= seq![part@]);
    c
}

/// The settings folders looked at, in order, given which base folders are known.
pub fn settings_dir_candidates(has_data: bool, has_config: bool, has_home: bool) -> (r: Vec<Candidate>)
    ensures
        r@.map_values(|c: Candidate| c@) == settings_candidates(has_data, has_config, has_home),
{
    let mut r: Vec<Candidate> = Vec::new();
    if has_data {
        let mut parts: Vec<&'static str> = Vec::new();
        parts.push(GODOT_DIR);
        parts.push(USERDATA_DIR);
        parts.push(GAME_DIR);
        let c = Candidate { base: DirBase::DataDir, parts };
        assert(c@.parts =~= godot_parts());
        r.push(c);
    }
    if has_config {
        let mut parts: Vec<&'static str> = Vec::new();
        parts.push(GODOT_DIR);
        parts.push(USERDATA_DIR);
        parts.push(GAME_DIR);
        let c = Candidate { base: DirBase::ConfigDir, parts };
        assert(c@.parts =~= godot_parts());
        r.push(c);
    }
    if has_home {
        r.push(single(DirBase::Home, HOME_SETTINGS_PROTON));
        r.push(single(DirBase::Home, HOME_SETTINGS_NATIVE));
        r.push(single(DirBase::Home, HOME_SETTINGS_WINE));
        r.push(single(DirBase::Home, HOME_SETTINGS_FLATPAK));
    }
    assert(r@.map_values(|c: Candidate| c@) =~= settings_candidates(has_data, has_config, has_home));
    r
}

/// The game folders looked at, in order, given which base folders are known.
pub fn game_dir_candidates(has_working_dir: bool, has_home: bool) -> (r: Vec<Candidate>)
    ensures
        r@.map_values(|c: Candidate| c@) == game_candidates(has_working_dir, has_home),
{
    let mut r: Vec<Candidate> = Vec::new();
    if has_working_dir {
        let c = Candidate { base: DirBase::WorkingDir, parts: Vec::new() };
        assert(c@.parts =~= Seq::<Seq<char>>::empty());
        r.push(c);
        r.push(single(DirBase::WorkingDir, GAME_DIR));
    }
    if has_home {
        r.push(single(DirBase::Home, HOME_GAME_STEAM));
        r.push(single(DirBase::Home, HOME_GAME_STEAM_DATA));
        r.push(single(DirBase::Home, HOME_GAME_FLATPAK));
    }
    r.push(single(DirBase::Absolute, WINDOWS_GAME_X86));
    r.push(single(DirBase::Absolute, WINDOWS_GAME));
    r.push(single(DirBase::Absolute, WINDOWS_GAME_LIBRARY));
    assert(r@.map_values(|c: Candidate| c@) =~= game_candidates(has_working_dir, has_home));
    r
}

/// The index of the first candidate that was found (the folder and its marker
/// file both exist), if any.
pub fn first_found(found: &[bool]) -> (r: Option<usize>)
    ensures
        r matches Some(i) ==> i < found@.len() && found@[i as int] && forall|j: int|
            0 <= j < i ==> !found@[j],
        r is None ==> forall|j: int| 0 <= j < found@.len() ==> !found@[j],
{
    let mut i: usize = 0;
    while i < found.len()
        invariant
            i <= found@.len(),
            forall|j: int| 0 <= j < i ==> !found@[j],
        decreases found@.len() - i,
    {
        if found[i] {
            return Some(i);
        }
        i = i + 1;
    }
    None
}

/// The settings folders looked at are, in order: `Godot/app_userdata/Cruelty Squad`
/// under the data folder when it is known, the same under the configuration
/// folder when it is known, and then, when the home folder is known, four
/// different folders under it: the Steam Proton prefix, native Godot, Wine and
/// the Flatpak Steam Proton prefix.
pub proof fn lemma_settings_folders(has_data: bool, has_config: bool, has_home: bool)
    ensures
        ({
            let c = settings_candidates(has_data, has_config, has_home);
            let n: int = (if has_data { 1int } else { 0int }) + (if has_config { 1int } else { 0int });
            let godot = seq!["Godot"@, "app_userdata"@, "Cruelty Squad"@];
            &&& c.len() == n + (if has_home { 4int } else { 0int })
            &&& has_data ==> c[0] == cand(DirBase::DataDir, godot)
            &&& has_config ==> c[n - 1] == cand(DirBase::ConfigDir, godot)
            &&& has_home ==> {
                &&& c[n] == cand(DirBase::Home, seq![".local/share/Steam/steamapps/compatdata/1388770/pfx/drive_c/users/steamuser/AppData/Roaming/Godot/app_userdata/Cruelty Squad"@])
                &&& c[n + 1] == cand(DirBase::Home, seq![".local/share/godot/app_userdata/Cruelty Squad"@])
                &&& c[n + 2] == cand(DirBase::Home, seq![".wine/drive_c/users/steamuser/AppData/Roaming/Godot/app_userdata/Cruelty Squad"@])
                &&& c[n + 3] == cand(DirBase::Home, seq![".var/app/com.valvesoftware.Steam/.local/share/Steam/steamapps/compatdata/1388770/pfx/drive_c/users/steamuser/AppData/Roaming/Godot/app_userdata/Cruelty Squad"@])
            }
        }),
        ".local/share/Steam/steamapps/compatdata/1388770/pfx/drive_c/users/steamuser/AppData/Roaming/Godot/app_userdata/Cruelty Squad"@ != ".local/share/godot/app_userdata/Cruelty Squad"@,
        ".local/share/Steam/steamapps/compatdata/1388770/pfx/drive_c/users/steamuser/AppData/Roaming/Godot/app_userdata/Cruelty Squad"@ != ".wine/drive_c/users/steamuser/AppData/Roaming/Godot/app_userdata/Cruelty Squad"@,
        ".local/share/Steam/steamapps/compatdata/1388770/pfx/drive_c/users/steamuser/AppData/Roaming/Godot/app_userdata/Cruelty Squad"@ != ".var/app/com.valvesoftware.Steam/.local/share/Steam/steamapps/compatdata/1388770/pfx/drive_c/users/steamuser/AppData/Roaming/Godot/app_userdata/Cruelty Squad"@,
        ".local/share/godot/app_userdata/Cruelty Squad"@ != ".wine/drive_c/users/steamuser/AppData/Roaming/Godot/app_userdata/Cruelty Squad"@,
        ".local/share/godot/app_userdata/Cruelty Squad"@ != ".var/app/com.valvesoftware.Steam/.local/share/Steam/steamapps/compatdata/1388770/pfx/drive_c/users/steamuser/AppData/Roaming/Godot/app_userdata/Cruelty Squad"@,
        ".wine/drive_c/users/steamuser/AppData/Roaming/Godot/app_userdata/Cruelty Squad"@ != ".var/app/com.valvesoftware.Steam/.local/share/Steam/steamapps/compatdata/1388770/pfx/drive_c/users/steamuser/AppData/Roaming/Godot/app_userdata/Cruelty Squad"@,
{
    reveal_strlit(".local/share/Steam/steamapps/compatdata/1388770/pfx/drive_c/users/steamuser/AppData/Roaming/Godot/app_userdata/Cruelty Squad");
    reveal_strlit(".local/share/godot/app_userdata/Cruelty Squad");
    reveal_strlit(".wine/drive_c/users/steamuser/AppData/Roaming/Godot/app_userdata/Cruelty Squad");
    reveal_strlit(".var/app/com.valvesoftware.Steam/.local/share/Steam/steamapps/compatdata/1388770/pfx/drive_c/users/steamuser/AppData/Roaming/Godot/app_userdata/Cruelty Squad");
    assert(".local/share/Steam/steamapps/compatdata/1388770/pfx/drive_c/users/steamuser/AppData/Roaming/Godot/app_userdata/Cruelty Squad"@[13] != ".local/share/godot/app_userdata/Cruelty Squad"@[13]);
    assert(".local/share/Steam/steamapps/compatdata/1388770/pfx/drive_c/users/steamuser/AppData/Roaming/Godot/app_userdata/Cruelty Squad"@[1] != ".wine/drive_c/users/steamuser/AppData/Roaming/Godot/app_userdata/Cruelty Squad"@[1]);
    assert(".local/share/Steam/steamapps/compatdata/1388770/pfx/drive_c/users/steamuser/AppData/Roaming/Godot/app_userdata/Cruelty Squad"@[1] != ".var/app/com.valvesoftware.Steam/.local/share/Steam/steamapps/compatdata/1388770/pfx/drive_c/users/steamuser/AppData/Roaming/Godot/app_userdata/Cruelty Squad"@[1]);
    assert(".local/share/godot/app_userdata/Cruelty Squad"@[1] != ".wine/drive_c/users/steamuser/AppData/Roaming/Godot/app_userdata/Cruelty Squad"@[1]);
    assert(".local/share/godot/app_userdata/Cruelty Squad"@[1] != ".var/app/com.valvesoftware.Steam/.local/share/Steam/steamapps/compatdata/1388770/pfx/drive_c/users/steamuser/AppData/Roaming/Godot/app_userdata/Cruelty Squad"@[1]);
    assert(".wine/drive_c/users/steamuser/AppData/Roaming/Godot/app_userdata/Cruelty Squad"@[1] != ".var/app/com.valvesoftware.Steam/.local/share/Steam/steamapps/compatdata/1388770/pfx/drive_c/users/steamuser/AppData/Roaming/Godot/app_userdata/Cruelty Squad"@[1]);
}

/// The game folders looked at are, in order: the working directory and its
/// `Cruelty Squad` folder when the working directory is known, three different
/// Steam library folders under the home folder when it is known, and last, always,
/// the three different Windows Steam folders: the default 32-bit install, the
/// default install, and a second library on drive D.
pub proof fn lemma_game_folders(has_working_dir: bool, has_home: bool)
    ensures
        ({
            let c = game_candidates(has_working_dir, has_home);
            let m: int = if has_working_dir { 2int } else { 0int };
            let k: int = m + (if has_home { 3int } else { 0int });
            &&& c.len() == k + 3
            &&& has_working_dir ==> c[0] == cand(DirBase::WorkingDir, Seq::empty()) && c[1] == cand(
                DirBase::WorkingDir,
                seq!["Cruelty Squad"@],
            )
            &&& has_home ==> {
                &&& c[m] == cand(DirBase::Home, seq![".steam/steam/steamapps/common/Cruelty Squad"@])
                &&& c[m + 1] == cand(DirBase::Home, seq![".local/share/Steam/steamapps/common/Cruelty Squad"@])
                &&& c[m + 2] == cand(DirBase::Home, seq![".var/app/com.valvesoftware.Steam/.local/share/Steam/steamapps/common/Cruelty Squad"@])
            }
            &&& c[k] == cand(DirBase::Absolute, seq!["C:\\Program Files (x86)\\Steam\\steamapps\\common\\Cruelty Squad"@])
            &&& c[k + 1] == cand(DirBase::Absolute, seq!["C:\\Program Files\\Steam\\steamapps\\common\\Cruelty Squad"@])
            &&& c[k + 2] == cand(DirBase::Absolute, seq!["D:\\SteamLibrary\\steamapps\\common\\Cruelty Squad"@])
        }),
        ".steam/steam/steamapps/common/Cruelty Squad"@ != ".local/share/Steam/steamapps/common/Cruelty Squad"@,
        ".steam/steam/steamapps/common/Cruelty Squad"@ != ".var/app/com.valvesoftware.Steam/.local/share/Steam/steamapps/common/Cruelty Squad"@,
        ".local/share/Steam/steamapps/common/Cruelty Squad"@ != ".var/app/com.valvesoftware.Steam/.local/share/Steam/steamapps/common/Cruelty Squad"@,
        "C:\\Program Files (x86)\\Steam\\steamapps\\common\\Cruelty Squad"@ != "C:\\Program Files\\Steam\\steamapps\\common\\Cruelty Squad"@,
        "C:\\Program Files (x86)\\Steam\\steamapps\\common\\Cruelty Squad"@ != "D:\\SteamLibrary\\steamapps\\common\\Cruelty Squad"@,
        "C:\\Program Files\\Steam\\steamapps\\common\\Cruelty Squad"@ != "D:\\SteamLibrary\\steamapps\\common\\Cruelty Squad"@,
{
    reveal_strlit(".steam/steam/steamapps/common/Cruelty Squad");
    reveal_strlit(".local/share/Steam/steamapps/common/Cruelty Squad");
    reveal_strlit(".var/app/com.valvesoftware.Steam/.local/share/Steam/steamapps/common/Cruelty Squad");
    reveal_strlit("C:\\Program Files (x86)\\Steam\\steamapps\\common\\Cruelty Squad");
    reveal_strlit("C:\\Program Files\\Steam\\steamapps\\common\\Cruelty Squad");
    reveal_strlit("D:\\SteamLibrary\\steamapps\\common\\Cruelty Squad");
    assert(".steam/steam/steamapps/common/Cruelty Squad"@[1] != ".local/share/Steam/steamapps/common/Cruelty Squad"@[1]);
    assert(".steam/steam/steamapps/common/Cruelty Squad"@[1] != ".var/app/com.valvesoftware.Steam/.local/share/Steam/steamapps/common/Cruelty Squad"@[1]);
    assert(".local/share/Steam/steamapps/common/Cruelty Squad"@[1] != ".var/app/com.valvesoftware.Steam/.local/share/Steam/steamapps/common/Cruelty Squad"@[1]);
    assert("C:\\Program Files (x86)\\Steam\\steamapps\\common\\Cruelty Squad"@[16] != "C:\\Program Files\\Steam\\steamapps\\common\\Cruelty Squad"@[16]);
    assert("C:\\Program Files (x86)\\Steam\\steamapps\\common\\Cruelty Squad"@[0] != "D:\\SteamLibrary\\steamapps\\common\\Cruelty Squad"@[0]);
    assert("C:\\Program Files\\Steam\\steamapps\\common\\Cruelty Squad"@[0] != "D:\\SteamLibrary\\steamapps\\common\\Cruelty Squad"@[0]);
}

} // verus!
