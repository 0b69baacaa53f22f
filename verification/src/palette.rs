use vstd::prelude::*;
use plotters::style::{Color, Palette, Palette99};

verus! {

/// The RGB triple at position `idx` of the 21-entry categorical colour
/// table of plotters' `Palette99`. The table itself lives in the outside
/// crate; only the entries the contracts need are stated beside the calls.
pub uninterp spec fn palette99_rgb(idx: int) -> (u8, u8, u8);

/// Relies on plotters' `Palette99::pick`, which selects entry `idx % 21` of
/// its fixed 21-entry colour table, and on `Color::to_backend_color`, which
/// exposes that entry's RGB triple. The first two entries are stated as the
/// table gives them.
#[verifier::external_body]
pub(crate) fn palette_pick_rgb(idx: usize) -> (r: (u8, u8, u8))
    ensures
        r == palette99_rgb(idx as int % 21),
        idx as int % 21 == 0 ==> r == ((230u8, 25u8, 75u8)),
        idx as int % 21 == 1 ==> r == ((60u8, 180u8, 75u8)),
{
    let c = Palette99::pick(idx).to_backend_color();
    (c.rgb.0, c.rgb.1, c.rgb.2)
}

} // verus!
