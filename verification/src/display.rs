//! Which of the machine's displays the overlay covers.
use vstd::prelude::*;

verus! {

/// The position of the first primary display.
pub open spec fn spec_first_primary(primaries: Seq<bool>) -> Option<int>
    decreases primaries.len(),
{
    if primaries.len() == 0 {
        None
    } else if primaries[0] {
        Some(0)
    } else {
        match spec_first_primary(primaries.drop_first()) {
            Some(i) => Some(i + 1),
            None => None,
        }
    }
}

pub proof fn lemma_first_primary(primaries: Seq<bool>)
    ensures
        match spec_first_primary(primaries) {
            Some(i) => 0 <= i < primaries.len() && primaries[i] && forall|j: int|
                0 <= j < i ==> !primaries[j],
            None => forall|j: int| 0 <= j < primaries.len() ==> !primaries[j],
        },
    decreases primaries.len(),
{
    if primaries.len() > 0 && !primaries[0] {
        lemma_first_primary(primaries.drop_first());
        assert forall|j: int| 0 < j < primaries.len() implies primaries[j]
            == primaries.drop_first()[j - 1] by {}
    }
}

/// The display to use among those listed (`primaries` tells which of them is
/// primary): the saved one while it exists, else the first primary display,
/// else the first display.
pub open spec fn spec_select_display(display_idx: Option<usize>, primaries: Seq<bool>) -> int {
    match display_idx {
        Some(i) if i < primaries.len() => i as int,
        _ => match spec_first_primary(primaries) {
            Some(p) => p,
            None => 0,
        },
    }
}

/// Picks the display the overlay covers. With no display at all there is
/// nothing to cover, so at least one is required.
pub fn select_display(display_idx: Option<usize>, primaries: &Vec<bool>) -> (r: usize)
    requires
        primaries@.len() > 0,
    ensures
        r == spec_select_display(display_idx, primaries@),
        r < primaries@.len(),
{
    if let Some(i) = display_idx {
        if i < primaries.len() {
            return i;
        }
    }
    proof {
        lemma_first_primary(primaries@);
    }
    let mut k: usize = 0;
    while k < primaries.len()
        invariant
            k <= primaries.len(),
            !(display_idx matches Some(i) && i < primaries@.len()),
            forall|j: int| 0 <= j < k ==> !primaries@[j],
            match spec_first_primary(primaries@) {
                Some(p) => 0 <= p < primaries@.len() && primaries@[p] && forall|j: int|
                    0 <= j < p ==> !primaries@[j],
                None => forall|j: int| 0 <= j < primaries@.len() ==> !primaries@[j],
            },
        decreases primaries.len() - k,
    {
        if primaries[k] {
            return k;
        }
        k = k + 1;
    }
    0
}

/// Whether a saved display index no longer names a display (worth a warning).
pub fn saved_display_missing(display_idx: Option<usize>, count: usize) -> (r: bool)
    ensures
        r == (display_idx matches Some(i) && i >= count),
{
    match display_idx {
        Some(i) => i >= count,
        None => false,
    }
}

/// The smallest inner size given to the overlay window on a display of
/// `width` by `height` pixels: one pixel wider and one lower, which keeps
/// compositors from treating it as a fullscreen window.
pub fn overlay_min_size(width: u32, height: u32) -> (r: (u32, u32))
    requires
        width < u32::MAX,
        height > 0,
    ensures
        r.0 == width + 1,
        r.1 == height - 1,
{
    (width + 1, height - 1)
}

} // verus!
