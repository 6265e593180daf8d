//! Resolution of the kernel-feature capability set. A feature is declared
//! by the kernel version `(major, patch)` that introduced it; the resolved
//! set fixes, once per process and before any descriptor is built, which
//! optional descriptor fields and flags legally exist. Every build
//! consults the set read-only and leaves an absent feature's field at its
//! safe default instead of erroring, so the same logical request runs
//! unmodified across kernel versions.

use vstd::prelude::*;

verus! {

/// A detected kernel version.
#[derive(Clone, Copy, Debug, PartialEq, Eq, Structural)]
pub struct KernelVersion {
    pub major: u32,
    pub patch: u32,
    pub sublevel: u32,
}

/// One declared feature threshold: the version that introduced a feature
/// family, and whether the user selected this family explicitly.
#[derive(Clone, Copy, Debug, PartialEq, Eq, Structural)]
pub struct FeatureVersion {
    pub major: u32,
    pub patch: u32,
    pub selected: bool,
}

/// The resolved capability set: every feature introduced at or below the
/// basis version is present.
#[derive(Clone, Copy, Debug, PartialEq, Eq, Structural)]
pub struct CapabilitySet {
    pub basis_major: u32,
    pub basis_patch: u32,
}

/// The outcome of resolving the capability set: the set itself, and
/// whether a user-selected version family disagrees with the detected
/// kernel version (a non-fatal warning, never an error).
#[derive(Clone, Copy, Debug, PartialEq, Eq, Structural)]
pub struct Resolution {
    pub caps: CapabilitySet,
    pub mismatch_warning: bool,
}

/// True when the capability set `cs` holds the feature introduced in
/// version `(major, patch)`.
pub open spec fn cap_has(cs: CapabilitySet, major: u32, patch: u32) -> bool {
    cs.basis_major > major || (cs.basis_major == major && cs.basis_patch >= patch)
}

/// The first user-selected entry of the feature table, if any. The
/// table's invariant allows at most one selected entry, so "first" is
/// "the" selected entry.
pub open spec fn spec_selected(entries: Seq<FeatureVersion>) -> Option<FeatureVersion>
    decreases entries.len(),
{
    if entries.len() == 0 {
        None
    } else if entries[0].selected {
        Some(entries[0])
    } else {
        spec_selected(entries.skip(1))
    }
}

impl CapabilitySet {
    /// True when the feature introduced in version `(major, patch)` is
    /// present in this set.
    pub fn has(&self, major: u32, patch: u32) -> (r: bool)
        ensures
            r == cap_has(*self, major, patch),
    {
        self.basis_major > major || (self.basis_major == major && self.basis_patch >= patch)
    }
}

/// Splits the packed kernel version code carried by the version header —
/// major in the high bits, then patch level, then sublevel in the low
/// byte — into its three parts.
pub fn version_from_code(code: u32) -> (r: KernelVersion)
    ensures
        r.major == code / 0x10000,
        r.patch == (code / 0x100) % 0x100,
        r.sublevel == code % 0x100,
{
    KernelVersion {
        major: code / 0x10000,
        patch: (code / 0x100) % 0x100,
        sublevel: code % 0x100,
    }
}

/// Resolves the capability set from the detected kernel version and the
/// declared feature table. With no user selection, every feature
/// threshold `(m, p)` with `(major == m && patch >= p) || major > m` is
/// enabled, which the basis version `(major, patch)` captures exactly.
/// With a user-selected version family, exactly that version's feature
/// set is used regardless of the detected version, and a mismatch between
/// the two surfaces as a non-fatal warning.
pub fn resolve_capabilities(detected: KernelVersion, entries: &Vec<FeatureVersion>) -> (r:
    Resolution)
    ensures
        match spec_selected(entries@) {
            None => r.caps.basis_major == detected.major && r.caps.basis_patch == detected.patch
                && !r.mismatch_warning,
            Some(sel) => r.caps.basis_major == sel.major && r.caps.basis_patch == sel.patch
                && r.mismatch_warning == (sel.major != detected.major || sel.patch
                != detected.patch),
        },
{
    proof {
        assert(entries@.skip(0) =~= entries@);
    }
    let mut i: usize = 0;
    while i < entries.len()
        invariant
            i <= entries.len(),
            spec_selected(entries@) == spec_selected(entries@.skip(i as int)),
        decreases entries.len() - i,
    {
        proof {
            assert(entries@.skip(i as int)[0] == entries@[i as int]);
            assert(entries@.skip(i as int).skip(1) =~= entries@.skip(i as int + 1));
        }
        if entries[i].selected {
            let sel = entries[i];
            return Resolution {
                caps: CapabilitySet { basis_major: sel.major, basis_patch: sel.patch },
                mismatch_warning: sel.major != detected.major || sel.patch != detected.patch,
            };
        }
        i = i + 1;
    }
    Resolution {
        caps: CapabilitySet { basis_major: detected.major, basis_patch: detected.patch },
        mismatch_warning: false,
    }
}

} // verus!
