//! The patches a user selects, and the flag text that hands them to the archive rewriter.
use vstd::prelude::*;
use crate::decimal::{decimal, all_digits, digits_value, lemma_decimal_roundtrip, push_decimal, parse_decimal};

verus! {

/// The selected game-file patches, and how many custom face frames were prepared.
#[derive(Clone, Copy, Debug, PartialEq, Eq, Structural)]
pub struct PatchOptions {
    /// Lower the weapon model ("ParkinsonSyndrome").
    pub apply_parkinson: bool,
    /// Rainbow screen overlay ("CEOMindsetTrip").
    pub apply_ceo: bool,
    /// Custom health icon frames ("HPIcon").
    pub apply_dwbt: bool,
    /// On-screen speed readout ("IShowSpeed").
    pub apply_ishowspeed: bool,
    /// Wider FOV and gamma sliders ("FOV & Gamma").
    pub apply_ui: bool,
    /// Number of custom face frames that the health icon cycles through.
    pub num_frames: usize,
}

/// `b'1'` for a selected patch, `b'0'` otherwise.
pub open spec fn flag_byte(b: bool) -> u8 {
    if b {
        49u8
    } else {
        48u8
    }
}

/// The flag text: one digit per patch (parkinson, ceo, dwbt, ishowspeed, ui),
/// then the decimal frame count.
pub open spec fn flags_text(o: PatchOptions) -> Seq<u8> {
    seq![
        flag_byte(o.apply_parkinson),
        flag_byte(o.apply_ceo),
        flag_byte(o.apply_dwbt),
        flag_byte(o.apply_ishowspeed),
        flag_byte(o.apply_ui),
    ] + decimal(o.num_frames as nat)
}

/// What the archive rewriter reads from a flag text: a position selects its patch
/// exactly when it holds `b'1'`, and the text from the sixth byte on is the frame
/// count, which must be a nonempty digit string whose value fits in a `usize`.
pub open spec fn read_flags(f: Seq<u8>) -> Option<PatchOptions> {
    let count = f.skip(5);
    if f.len() >= 6 && all_digits(count) && digits_value(count) <= usize::MAX {
        Some(
            PatchOptions {
                apply_parkinson: f[0] == 49,
                apply_ceo: f[1] == 49,
                apply_dwbt: f[2] == 49,
                apply_ishowspeed: f[3] == 49,
                apply_ui: f[4] == 49,
                num_frames: digits_value(count) as usize,
            },
        )
    } else {
        None
    }
}

/// The flag text for `o`.
pub fn encode_flags(o: &PatchOptions) -> (r: Vec<u8>)
    ensures
        r@ == flags_text(*o),
{
    let mut out: Vec<u8> = Vec::new();
    out.push(if o.apply_parkinson { 49u8 } else { 48u8 });
    out.push(if o.apply_ceo { 49u8 } else { 48u8 });
    out.push(if o.apply_dwbt { 49u8 } else { 48u8 });
    out.push(if o.apply_ishowspeed { 49u8 } else { 48u8 });
    out.push(if o.apply_ui { 49u8 } else { 48u8 });
    push_decimal(&mut out, o.num_frames);
    assert(out@ =~= flags_text(*o));
    out
}

/// The patches that the flag text `f` selects.
pub fn decode_flags(f: &[u8]) -> (r: Option<PatchOptions>)
    ensures
        r == read_flags(f@),
{
    if f.len() < 6 {
        return None;
    }
    let count = vstd::slice::slice_subrange(f, 5, f.len());
    assert(count@ =~= f@.skip(5));
    match parse_decimal(count) {
        None => None,
        Some(n) => Some(
            PatchOptions {
                apply_parkinson: f[0] == 49,
                apply_ceo: f[1] == 49,
                apply_dwbt: f[2] == 49,
                apply_ishowspeed: f[3] == 49,
                apply_ui: f[4] == 49,
                num_frames: n,
            },
        ),
    }
}

/// Reading the flag text written for `o` gives `o` back.
pub proof fn lemma_flags_roundtrip(o: PatchOptions)
    ensures
        read_flags(flags_text(o)) == Some(o),
{
    let f = flags_text(o);
    lemma_decimal_roundtrip(o.num_frames as nat);
    assert(f.skip(5) =~= decimal(o.num_frames as nat));
}

} // verus!
