use vstd::prelude::*;

verus! {

#[verifier::external_type_specification]
pub struct ExPtySize(portable_pty::PtySize);

/// The geometry to give the terminal device: `rows` lines of `cols` columns,
/// with the pixel dimensions left unset.
pub fn pty_size(rows: u16, cols: u16) -> (r: portable_pty::PtySize)
    ensures
        r.rows == rows,
        r.cols == cols,
        r.pixel_width == 0,
        r.pixel_height == 0,
{
    portable_pty::PtySize { rows, cols, pixel_width: 0, pixel_height: 0 }
}

} // verus!
