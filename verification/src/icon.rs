use vstd::prelude::*;

verus! {

/// Width and height of the tray icon, in pixels.
pub const TRAY_ICON_SIZE: u32 = 16;

/// Whether the centre of pixel (`x`, `y`) lies strictly inside the icon's
/// disc: within 7 pixels of the icon's centre (7.5, 7.5), which, doubled to
/// stay in whole numbers, is `(2x - 15)^2 + (2y - 15)^2 < 14^2`.
pub open spec fn in_disc(x: int, y: int) -> bool {
    (2 * x - 15) * (2 * x - 15) + (2 * y - 15) * (2 * y - 15) < 196
}

/// The RGBA bytes of pixel (`x`, `y`): opaque green inside the disc,
/// transparent outside it.
pub open spec fn icon_pixel(x: int, y: int) -> Seq<u8> {
    if in_disc(x, y) {
        seq![80u8, 200, 120, 255]
    } else {
        seq![0u8, 0, 0, 0]
    }
}

/// The RGBA bytes of the tray icon, row by row from the top: a green circle
/// on a transparent square.
pub fn tray_icon_rgba() -> (rgba: Vec<u8>)
    ensures
        rgba@.len() == 1024,
        forall|p: int|
            0 <= p < 256 ==> #[trigger] rgba@.subrange(4 * p, 4 * p + 4) == icon_pixel(
                p % 16,
                p / 16,
            ),
{
    let mut rgba: Vec<u8> = Vec::new();
    let mut p: u32 = 0;
    while p < 256
        invariant
            p <= 256,
            rgba@.len() == 4 * p,
            forall|q: int|
                0 <= q < p ==> #[trigger] rgba@.subrange(4 * q, 4 * q + 4) == icon_pixel(
                    q % 16,
                    q / 16,
                ),
        decreases 256 - p,
    {
        let x: i32 = (p % 16) as i32;
        let y: i32 = (p / 16) as i32;
        let dx: i32 = 2 * x - 15;
        let dy: i32 = 2 * y - 15;
        assert(0 <= dx * dx <= 225 && 0 <= dy * dy <= 225) by (nonlinear_arith)
            requires
                -15 <= dx <= 15,
                -15 <= dy <= 15,
        ;
        let inside = dx * dx + dy * dy < 196;
        let ghost before = rgba@;
        if inside {
            rgba.push(80);
            rgba.push(200);
            rgba.push(120);
            rgba.push(255);
        } else {
            rgba.push(0);
            rgba.push(0);
            rgba.push(0);
            rgba.push(0);
        }
        assert(rgba@.subrange(4 * p, 4 * p + 4) =~= icon_pixel(p as int % 16, p as int / 16));
        assert forall|q: int| 0 <= q < p + 1 implies #[trigger] rgba@.subrange(4 * q, 4 * q + 4)
            == icon_pixel(q % 16, q / 16) by {
            if q < p {
                assert(rgba@.subrange(4 * q, 4 * q + 4) =~= before.subrange(4 * q, 4 * q + 4));
            }
        }
        p = p + 1;
    }
    rgba
}

} // verus!
