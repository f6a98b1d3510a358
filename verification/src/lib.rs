//! Patch logic for the Cruelty Squad "cruelty style" mod installer: the Godot
//! PCK archive rewriter, the game-script edits it applies, the engine override
//! file edit, the search for the game and settings folders, and the hand-off
//! of the selected patches.
pub mod byteseq;
pub mod decimal;
pub mod options;
pub mod gametext;
pub mod edits;
pub mod pck;
pub mod rewrite;
pub mod override_cfg;
pub mod locate;
pub mod selection;
pub mod pck_laws;
pub mod settings;
pub mod faces;
