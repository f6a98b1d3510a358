//! The engine override file edit that turns on physics interpolation at 144 Hz.
use vstd::prelude::*;
use vstd::string::StringSliceAdditionalSpecFns;
use crate::byteseq::{contains_seq, occurs_at, contains, push_all};

verus! {

/// Name of the engine override file in the game folder.
pub const OVERRIDE_FILE: &'static str = "override.cfg";

/// Section header that the override file needs.
pub const PHYSICS_SECTION: &'static str = "[physics]";

/// Text appended when the section header is missing.
pub const PHYSICS_SECTION_TEXT: &'static str = "\n[physics]\n";

/// Setting key for physics interpolation.
pub const INTERPOLATION_KEY: &'static str = "common/physics_interpolation";

/// Line appended when the interpolation setting is missing.
pub const INTERPOLATION_LINE: &'static str = "common/physics_interpolation=true\n";

/// Setting key for the physics tick rate.
pub const PHYSICS_FPS_KEY: &'static str = "common/physics_fps";

/// Line appended when the tick-rate setting is missing.
pub const PHYSICS_FPS_LINE: &'static str = "common/physics_fps=144\n";

/// `c` with `text` appended unless `key` already occurs in it.
pub open spec fn add_if_missing(c: Seq<u8>, key: Seq<u8>, text: Seq<u8>) -> Seq<u8> {
    if contains_seq(c, key) {
        c
    } else {
        c + text
    }
}

/// The override file content `c` after the movement patch: the physics section,
/// the interpolation setting and the tick-rate setting are appended, in that
/// order, each only when its key is not already in the text.
pub open spec fn patched_override(c: Seq<u8>) -> Seq<u8> {
    add_if_missing(
        add_if_missing(
            add_if_missing(c, PHYSICS_SECTION.spec_bytes(), PHYSICS_SECTION_TEXT.spec_bytes()),
            INTERPOLATION_KEY.spec_bytes(),
            INTERPOLATION_LINE.spec_bytes(),
        ),
        PHYSICS_FPS_KEY.spec_bytes(),
        PHYSICS_FPS_LINE.spec_bytes(),
    )
}

/// `c` with `text` appended unless `key` already occurs in it.
fn append_if_missing(c: &mut Vec<u8>, key: &str, text: &str)
    ensures
        final(c)@ == add_if_missing(old(c)@, key.spec_bytes(), text.spec_bytes()),
{
    if !contains(c.as_slice(), key.as_bytes()) {
        push_all(c, text.as_bytes());
    }
}

/// The override file content `content` after the movement patch.
pub fn patch_override_cfg(content: &[u8]) -> (r: Vec<u8>)
    ensures
        r@ == patched_override(content@),
{
    let mut c: Vec<u8> = Vec::new();
    push_all(&mut c, content);
    append_if_missing(&mut c, PHYSICS_SECTION, PHYSICS_SECTION_TEXT);
    append_if_missing(&mut c, INTERPOLATION_KEY, INTERPOLATION_LINE);
    append_if_missing(&mut c, PHYSICS_FPS_KEY, PHYSICS_FPS_LINE);
    c
}

/// The bytes of an ASCII string are its characters.
proof fn lemma_ascii_bytes(s: &str)
    requires
        vstd::string::is_ascii(s),
    ensures
        s.spec_bytes().len() == s@.len(),
        forall|i: int| 0 <= i < s@.len() ==> #[trigger] s.spec_bytes()[i] == s@[i] as u8,
{
    vstd::utf8::is_ascii_chars_encode_utf8(s@);
}

/// An occurrence in `a` is still one in `a + b`.
proof fn lemma_contains_append(a: Seq<u8>, b: Seq<u8>, key: Seq<u8>)
    requires
        contains_seq(a, key),
    ensures
        contains_seq(a + b, key),
{
    let i = choose|i: int| occurs_at(a, key, i);
    assert((a + b).subrange(i, i + key.len()) =~= a.subrange(i, i + key.len()));
    assert(occurs_at(a + b, key, i));
}

/// When `text` holds `key` at `at`, `c` holds `key` once `text` is added if missing.
proof fn lemma_add_if_missing_contains(c: Seq<u8>, key: Seq<u8>, text: Seq<u8>, at: int)
    requires
        occurs_at(text, key, at),
    ensures
        contains_seq(add_if_missing(c, key, text), key),
{
    if !contains_seq(c, key) {
        assert((c + text).subrange(c.len() + at, c.len() + at + key.len()) =~= text.subrange(
            at,
            at + key.len(),
        ));
        assert(occurs_at(c + text, key, c.len() + at));
    }
}

/// After the movement patch the override text holds the physics section header,
/// the interpolation key and the tick-rate key, and starts with the text it was given.
pub proof fn lemma_override_complete(c: Seq<u8>)
    ensures
        contains_seq(patched_override(c), PHYSICS_SECTION.spec_bytes()),
        contains_seq(patched_override(c), INTERPOLATION_KEY.spec_bytes()),
        contains_seq(patched_override(c), PHYSICS_FPS_KEY.spec_bytes()),
        patched_override(c).subrange(0, c.len() as int) == c,
{
    reveal_strlit("[physics]");
    reveal_strlit("\n[physics]\n");
    reveal_strlit("common/physics_interpolation");
    reveal_strlit("common/physics_interpolation=true\n");
    reveal_strlit("common/physics_fps");
    reveal_strlit("common/physics_fps=144\n");
    assert(vstd::string::is_ascii(PHYSICS_SECTION));
    assert(vstd::string::is_ascii(PHYSICS_SECTION_TEXT));
    assert(vstd::string::is_ascii(INTERPOLATION_KEY));
    assert(vstd::string::is_ascii(INTERPOLATION_LINE));
    assert(vstd::string::is_ascii(PHYSICS_FPS_KEY));
    assert(vstd::string::is_ascii(PHYSICS_FPS_LINE));
    lemma_ascii_bytes(PHYSICS_SECTION);
    lemma_ascii_bytes(PHYSICS_SECTION_TEXT);
    lemma_ascii_bytes(INTERPOLATION_KEY);
    lemma_ascii_bytes(INTERPOLATION_LINE);
    lemma_ascii_bytes(PHYSICS_FPS_KEY);
    lemma_ascii_bytes(PHYSICS_FPS_LINE);
    let sec = PHYSICS_SECTION.spec_bytes();
    let sec_text = PHYSICS_SECTION_TEXT.spec_bytes();
    let ik = INTERPOLATION_KEY.spec_bytes();
    let il = INTERPOLATION_LINE.spec_bytes();
    let fk = PHYSICS_FPS_KEY.spec_bytes();
    let fl = PHYSICS_FPS_LINE.spec_bytes();
    assert(sec_text.subrange(1, 1 + sec.len() as int) =~= sec);
    assert(il.subrange(0, ik.len() as int) =~= ik);
    assert(fl.subrange(0, fk.len() as int) =~= fk);
    let c1 = add_if_missing(c, sec, sec_text);
    let c2 = add_if_missing(c1, ik, il);
    let c3 = add_if_missing(c2, fk, fl);
    lemma_add_if_missing_contains(c, sec, sec_text, 1);
    if !contains_seq(c1, ik) {
        lemma_contains_append(c1, il, sec);
    }
    lemma_add_if_missing_contains(c1, ik, il, 0);
    if !contains_seq(c2, fk) {
        lemma_contains_append(c2, fl, sec);
        lemma_contains_append(c2, fl, ik);
    }
    lemma_add_if_missing_contains(c2, fk, fl, 0);
    assert(c3.subrange(0, c.len() as int) =~= c);
}

/// Applying the movement patch a second time changes nothing.
pub proof fn lemma_override_idempotent(c: Seq<u8>)
    ensures
        patched_override(patched_override(c)) == patched_override(c),
{
    lemma_override_complete(c);
}

} // verus!
