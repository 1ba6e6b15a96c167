use vstd::prelude::*;

verus! {

/// A display mode: active resolution, refresh rate and raw timings.
#[derive(Debug, Clone, Copy, PartialEq, Eq, Structural)]
pub struct ModeInfo {
    pub clock: u32,
    pub hdisplay: u16,
    pub hsync_start: u16,
    pub hsync_end: u16,
    pub htotal: u16,
    pub hskew: u16,
    pub vdisplay: u16,
    pub vsync_start: u16,
    pub vsync_end: u16,
    pub vtotal: u16,
    pub vscan: u16,
    pub vrefresh: u32,
    pub flags: u32,
    pub mode_type: u32,
}

/// A width and a height.
#[derive(Debug, Clone, Copy, PartialEq, Eq)]
pub struct Size<T> {
    pub width: T,
    pub height: T,
}

impl ModeInfo {
    /// The active resolution of the mode.
    pub fn size(&self) -> (r: Size<u32>)
        ensures
            r.width == self.hdisplay,
            r.height == self.vdisplay,
    {
        Size { width: self.hdisplay as u32, height: self.vdisplay as u32 }
    }
}

/// The "optimal" scan over the first `k` modes: (index, width, height) of
/// the last mode that was strictly wider and strictly taller than the best
/// one before it, starting from (0, 0, 0).
pub open spec fn optimal_scan(modes: Seq<ModeInfo>, k: nat) -> (nat, nat, nat)
    decreases k,
{
    if k == 0 || k > modes.len() {
        (0, 0, 0)
    } else {
        let (i, w, h) = optimal_scan(modes, (k - 1) as nat);
        let m = modes[k - 1];
        if m.hdisplay > w && m.vdisplay > h {
            ((k - 1) as nat, m.hdisplay as nat, m.vdisplay as nat)
        } else {
            (i, w, h)
        }
    }
}

/// The mode a screen uses: the first one by default, or under the optimal
/// policy the one the scan keeps.
pub open spec fn selected_mode(modes: Seq<ModeInfo>, optimal: bool) -> nat {
    if optimal {
        optimal_scan(modes, modes.len()).0
    } else {
        0
    }
}

proof fn lemma_scan_index(modes: Seq<ModeInfo>, k: nat)
    requires
        k <= modes.len(),
    ensures
        optimal_scan(modes, k).0 == 0 || optimal_scan(modes, k).0 < k,
    decreases k,
{
    if k > 0 {
        lemma_scan_index(modes, (k - 1) as nat);
    }
}

/// The index of the mode to use among `modes`: 0 by default; under the
/// optimal policy, a mode is taken only when it is wider and taller than
/// the best so far, so one that grows in a single dimension is passed over.
pub fn select_mode(modes: &[ModeInfo], optimal: bool) -> (r: usize)
    ensures
        r == selected_mode(modes@, optimal),
        modes@.len() > 0 ==> r < modes@.len(),
{
    if !optimal {
        return 0;
    }
    let mut best: usize = 0;
    let mut width: u16 = 0;
    let mut height: u16 = 0;
    let mut k: usize = 0;
    while k < modes.len()
        invariant
            k <= modes@.len(),
            optimal_scan(modes@, k as nat) == (best as nat, width as nat, height as nat),
        decreases modes@.len() - k,
    {
        let m = modes[k];
        if m.hdisplay > width && m.vdisplay > height {
            best = k;
            width = m.hdisplay;
            height = m.vdisplay;
        }
        k = k + 1;
    }
    proof {
        lemma_scan_index(modes@, modes@.len());
    }
    best
}

} // verus!
