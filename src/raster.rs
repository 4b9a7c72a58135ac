use vstd::prelude::*;

verus! {

/// The pixel coordinates of a `width` by `height` raster in row-major
/// order: row 0 first, and within a row the leftmost column first.
pub fn raster_order(width: u32, height: u32) -> (r: Vec<(u32, u32)>)
    requires
        width as int * height as int <= usize::MAX,
    ensures
        r@.len() == width as int * height as int,
        forall|i: int|
            0 <= i < r@.len() ==> (#[trigger] r@[i]).0 as int == i % width as int && r@[i].1 as int
                == i / width as int,
{
    let mut r: Vec<(u32, u32)> = Vec::new();
    let mut y: u32 = 0;
    while y < height
        invariant
            y <= height,
            width as int * height as int <= usize::MAX,
            r@.len() == y as int * width as int,
            forall|i: int|
                0 <= i < r@.len() ==> (#[trigger] r@[i]).0 as int == i % width as int && r@[i].1 as int
                    == i / width as int,
        decreases height - y,
    {
        let mut x: u32 = 0;
        while x < width
            invariant
                x <= width,
                y < height,
                width as int * height as int <= usize::MAX,
                r@.len() == y as int * width as int + x as int,
                forall|i: int|
                    0 <= i < r@.len() ==> (#[trigger] r@[i]).0 as int == i % width as int && r@[i].1 as int
                        == i / width as int,
            decreases width - x,
        {
            proof {
                let n = y as int * width as int + x as int;
                assert(n % width as int == x as int && n / width as int == y as int) by (nonlinear_arith)
                    requires 0 <= x < width, 0 <= y, n == y * width + x;
            }
            r.push((x, y));
            x = x + 1;
        }
        proof {
            assert(y as int * width as int + width as int == (y as int + 1) * width as int) by (nonlinear_arith);
        }
        y = y + 1;
    }
    proof {
        assert(y as int * width as int == width as int * height as int) by (nonlinear_arith)
            requires y == height;
    }
    r
}

} // verus!

verus! {

/// Byte `k` of a framebuffer laid out for a display whose rows run bottom to
/// top: rows of `pitch` bytes, row `y` holding row `height - 1 - y` of the
/// framebuffer's `3 * width` bytes, and zero in the padding after them.
pub open spec fn display_byte(framebuffer: Seq<u8>, width: int, height: int, pitch: int, k: int) -> u8 {
    let y = k / pitch;
    let col = k % pitch;
    if col < 3 * width {
        framebuffer[(height - 1 - y) * (3 * width) + col]
    } else {
        0
    }
}

/// Copies a framebuffer of three bytes per pixel into rows of `pitch` bytes,
/// turning it upside down for a display surface whose first row is the
/// bottom one.
pub fn display_rows(framebuffer: &Vec<u8>, width: u32, height: u32, pitch: usize) -> (r: Vec<u8>)
    requires
        framebuffer@.len() == 3 * width as int * height as int,
        pitch >= 3 * width as int,
        pitch as int * height as int <= usize::MAX,
    ensures
        r@.len() == pitch as int * height as int,
        forall|k: int|
            0 <= k < r@.len() ==> #[trigger] r@[k] == display_byte(
                framebuffer@,
                width as int,
                height as int,
                pitch as int,
                k,
            ),
{
    let row: usize = 3 * width as usize;
    let total: usize = framebuffer.len();
    let mut r: Vec<u8> = Vec::new();
    let mut y: u32 = 0;
    while y < height
        invariant
            y <= height,
            row == 3 * width as int,
            total == framebuffer@.len(),
            framebuffer@.len() == row as int * height as int,
            pitch >= row,
            pitch as int * height as int <= usize::MAX,
            r@.len() == y as int * pitch as int,
            forall|k: int|
                0 <= k < r@.len() ==> #[trigger] r@[k] == display_byte(
                    framebuffer@,
                    width as int,
                    height as int,
                    pitch as int,
                    k,
                ),
        decreases height - y,
    {
        let src_row: usize = (height - 1 - y) as usize;
        proof {
            assert(src_row as int * row as int + row as int <= row as int * height as int)
                by (nonlinear_arith)
                requires src_row < height, 0 <= row;
        }
        let mut col: usize = 0;
        while col < pitch
            invariant
                y < height,
                col <= pitch,
                row == 3 * width as int,
                total == framebuffer@.len(),
                src_row == height - 1 - y,
                src_row as int * row as int + row as int <= row as int * height as int,
                framebuffer@.len() == row as int * height as int,
                pitch >= row,
                pitch as int * height as int <= usize::MAX,
                r@.len() == y as int * pitch as int + col as int,
                forall|k: int|
                    0 <= k < r@.len() ==> #[trigger] r@[k] == display_byte(
                        framebuffer@,
                        width as int,
                        height as int,
                        pitch as int,
                        k,
                    ),
            decreases pitch - col,
        {
            proof {
                let n = y as int * pitch as int + col as int;
                assert(n / pitch as int == y as int && n % pitch as int == col as int)
                    by (nonlinear_arith)
                    requires 0 <= col < pitch, 0 <= y, n == y * pitch + col;
            }
            if col < row {
                r.push(framebuffer[src_row * row + col]);
            } else {
                r.push(0);
            }
            col = col + 1;
        }
        proof {
            assert(y as int * pitch as int + pitch as int == (y as int + 1) * pitch as int)
                by (nonlinear_arith);
            assert((y as int + 1) * pitch as int <= pitch as int * height as int)
                by (nonlinear_arith)
                requires y < height, 0 <= pitch;
        }
        y = y + 1;
    }
    proof {
        assert(y as int * pitch as int == pitch as int * height as int) by (nonlinear_arith)
            requires y == height;
    }
    r
}

} // verus!
