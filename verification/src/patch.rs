//! Best-effort binary patches over an image of the host's code.
//!
//! At attach time the tool disables a few known startup behaviors of
//! the host by overwriting instruction bytes at fixed offsets.  The
//! host binary's code may differ by build, so every patch carries the
//! byte pattern it expects to find and silently does nothing when the
//! pattern is absent: a mismatch is never an error, merely a skipped
//! cosmetic patch.

use vstd::prelude::*;

verus! {

/// Whether `image` holds the byte pattern `expected` at `offset`.
pub open spec fn patch_matches(image: Seq<u8>, offset: usize, expected: Seq<u8>) -> bool {
    offset + expected.len() <= image.len() && image.subrange(
        offset as int,
        offset + expected.len(),
    ) == expected
}

/// The image after a best-effort patch: `replacement` where the
/// pattern stood if it matched, the image untouched otherwise.
pub open spec fn patch_applied(
    image: Seq<u8>,
    offset: usize,
    expected: Seq<u8>,
    replacement: Seq<u8>,
) -> Seq<u8>
    recommends
        expected.len() == replacement.len(),
{
    if patch_matches(image, offset, expected) {
        image.subrange(0, offset as int) + replacement + image.subrange(
            offset + replacement.len(),
            image.len() as int,
        )
    } else {
        image
    }
}

/// One best-effort patch: at `offset` the image is expected to hold
/// `expected`, and if it does, those bytes are replaced by
/// `replacement` (of the same length).
pub struct BytePatch {
    pub offset: usize,
    pub expected: Vec<u8>,
    pub replacement: Vec<u8>,
}

impl BytePatch {
    /// A patch is well formed when the replacement covers exactly the
    /// bytes the pattern covers.
    pub open spec fn wf(self) -> bool {
        self.expected@.len() == self.replacement@.len()
    }
}

/// Applies one best-effort patch to an image of the host's code.
/// Returns whether the expected pattern was found and overwritten;
/// on a mismatch the image is left exactly as it was.
pub fn apply_patch(image: &mut Vec<u8>, patch: &BytePatch) -> (applied: bool)
    requires
        patch.wf(),
    ensures
        applied == patch_matches(old(image)@, patch.offset, patch.expected@),
        final(image)@ == patch_applied(
            old(image)@,
            patch.offset,
            patch.expected@,
            patch.replacement@,
        ),
        final(image)@.len() == old(image)@.len(),
{
    let len = patch.expected.len();
    if patch.offset > image.len() || len > image.len() - patch.offset {
        proof {
            assert(!patch_matches(image@, patch.offset, patch.expected@));
        }
        return false;
    }
    let mut i: usize = 0;
    while i < len
        invariant
            i <= len,
            patch.wf(),
            len == patch.expected@.len(),
            patch.offset + len <= image@.len(),
            patch.offset + len <= usize::MAX,
            forall|j: int| 0 <= j < i ==> image@[patch.offset + j] == patch.expected@[j],
        decreases len - i,
    {
        if image[patch.offset + i] != patch.expected[i] {
            proof {
                assert(image@.subrange(patch.offset as int, patch.offset + patch.expected@.len())[i as int]
                    != patch.expected@[i as int]);
            }
            return false;
        }
        i = i + 1;
    }
    proof {
        assert(image@.subrange(patch.offset as int, patch.offset + patch.expected@.len())
            =~= patch.expected@);
    }
    let ghost pre = image@;
    let mut k: usize = 0;
    while k < len
        invariant
            k <= len,
            patch.wf(),
            len == patch.replacement@.len(),
            patch.offset + len <= image@.len(),
            patch.offset + len <= usize::MAX,
            image@.len() == pre.len(),
            forall|j: int| 0 <= j < k ==> image@[patch.offset + j] == patch.replacement@[j],
            forall|j: int|
                0 <= j < pre.len() && !(patch.offset <= j < patch.offset + k) ==> image@[j]
                    == pre[j],
        decreases len - k,
    {
        let b = patch.replacement[k];
        image.set(patch.offset + k, b);
        k = k + 1;
    }
    proof {
        assert(patch_matches(pre, patch.offset, patch.expected@));
        assert(image@ =~= pre.subrange(0, patch.offset as int) + patch.replacement@
            + pre.subrange(patch.offset + patch.replacement@.len(), pre.len() as int));
    }
    true
}

/// The intro-screen pattern: a two-byte conditional jump.
pub open spec fn no_logo_expected() -> Seq<u8> {
    seq![0x74u8, 0x53u8]
}

/// The intro-screen replacement: two no-ops.
pub open spec fn no_logo_replacement() -> Seq<u8> {
    seq![0x90u8, 0x90u8]
}

/// The event-draw pattern: a two-byte "clear register".
pub open spec fn event_expected() -> Seq<u8> {
    seq![0x32u8, 0xC0u8]
}

/// The event-draw replacement: "load one".
pub open spec fn event_replacement() -> Seq<u8> {
    seq![0xB0u8, 0x01u8]
}

/// The font pattern: the first byte of the patched function.
pub open spec fn font_expected() -> Seq<u8> {
    seq![0x48u8]
}

/// The font replacement: a return.
pub open spec fn font_replacement() -> Seq<u8> {
    seq![0xC3u8]
}

/// The patch that skips the host's intro screens.
pub fn no_logo_patch(offset: usize) -> (p: BytePatch)
    ensures
        p.wf(),
        p.offset == offset,
        p.expected@ == no_logo_expected(),
        p.replacement@ == no_logo_replacement(),
{
    let mut expected: Vec<u8> = Vec::new();
    expected.push(0x74);
    expected.push(0x53);
    let mut replacement: Vec<u8> = Vec::new();
    replacement.push(0x90);
    replacement.push(0x90);
    proof {
        assert(expected@ =~= no_logo_expected());
        assert(replacement@ =~= no_logo_replacement());
    }
    BytePatch { offset, expected, replacement }
}

/// One of the two event patches needed for event draw.
pub fn event_patch(offset: usize) -> (p: BytePatch)
    ensures
        p.wf(),
        p.offset == offset,
        p.expected@ == event_expected(),
        p.replacement@ == event_replacement(),
{
    let mut expected: Vec<u8> = Vec::new();
    expected.push(0x32);
    expected.push(0xC0);
    let mut replacement: Vec<u8> = Vec::new();
    replacement.push(0xB0);
    replacement.push(0x01);
    proof {
        assert(expected@ =~= event_expected());
        assert(replacement@ =~= event_replacement());
    }
    BytePatch { offset, expected, replacement }
}

/// The font patch needed for event draw and the altimeter.
pub fn font_patch(offset: usize) -> (p: BytePatch)
    ensures
        p.wf(),
        p.offset == offset,
        p.expected@ == font_expected(),
        p.replacement@ == font_replacement(),
{
    let mut expected: Vec<u8> = Vec::new();
    expected.push(0x48);
    let mut replacement: Vec<u8> = Vec::new();
    replacement.push(0xC3);
    proof {
        assert(expected@ =~= font_expected());
        assert(replacement@ =~= font_replacement());
    }
    BytePatch { offset, expected, replacement }
}

/// Applies the intro-screen patch to an image, best effort.
pub fn apply_no_logo(image: &mut Vec<u8>, offset: usize) -> (applied: bool)
    ensures
        applied == patch_matches(old(image)@, offset, no_logo_expected()),
        final(image)@ == patch_applied(
            old(image)@,
            offset,
            no_logo_expected(),
            no_logo_replacement(),
        ),
{
    let p = no_logo_patch(offset);
    apply_patch(image, &p)
}

/// Applies the two event patches in order, best effort and
/// independently: a mismatch of one does not prevent the other.
pub fn apply_event_patches(image: &mut Vec<u8>, offset_1: usize, offset_2: usize) -> (applied: (
    bool,
    bool,
))
    ensures
        applied.0 == patch_matches(old(image)@, offset_1, event_expected()),
        final(image)@ == patch_applied(
            patch_applied(old(image)@, offset_1, event_expected(), event_replacement()),
            offset_2,
            event_expected(),
            event_replacement(),
        ),
{
    let p1 = event_patch(offset_1);
    let a1 = apply_patch(image, &p1);
    let p2 = event_patch(offset_2);
    let a2 = apply_patch(image, &p2);
    (a1, a2)
}

/// Applies the font patch to an image, best effort.
pub fn apply_font_patch(image: &mut Vec<u8>, offset: usize) -> (applied: bool)
    ensures
        applied == patch_matches(old(image)@, offset, font_expected()),
        final(image)@ == patch_applied(
            old(image)@,
            offset,
            font_expected(),
            font_replacement(),
        ),
{
    let p = font_patch(offset);
    apply_patch(image, &p)
}

} // verus!
