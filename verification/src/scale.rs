//! The debayer/resize pipeline: converts a single-channel mosaic frame with
//! a 2x2 repeating color filter into three channel buffers at an arbitrary
//! target size.
//!
//! For each channel a per-axis integer lookup table maps each destination
//! coordinate to a source coordinate, built once per call from the source
//! size, the destination size and the channel's sub-pixel offset within the
//! 2x2 tile.  This is nearest-neighbor resampling driven by two
//! one-dimensional tables; its cost is one lookup per destination sample,
//! independent of the resize ratio.

use vstd::prelude::*;

use crate::frame::{RawImage, RgbImage};
use crate::geom::ImgSize;

verus! {

/// A channel's sub-pixel offset within the 2x2 color filter tile.
#[derive(Clone, Copy, PartialEq, Eq, Structural, Debug)]
pub struct Offset {
    pub x: usize,
    pub y: usize,
}

/// Per-axis lookup tables: entry `i` is the source coordinate sampled for
/// destination coordinate `i`.
pub struct LookupTable {
    pub x: Vec<usize>,
    pub y: Vec<usize>,
}

/// The source coordinate sampled for destination coordinate `i` along one
/// axis: the destination position scaled into the channel's half-resolution
/// grid, mapped back onto the full mosaic, plus the channel offset.
pub open spec fn lookup_coord(src: int, dst: int, off: int, i: int) -> int {
    off + 2 * ((i * (src / 2)) / dst)
}

/// Every lookup coordinate stays within the source axis.
pub proof fn lemma_lookup_coord_in_range(src: int, dst: int, off: int, i: int)
    requires
        2 <= src,
        1 <= dst,
        0 <= off <= 1,
        0 <= i < dst,
    ensures
        0 <= lookup_coord(src, dst, off, i) < src,
{
    let half = src / 2;
    assert(i * half <= (dst - 1) * half) by (nonlinear_arith)
        requires
            0 <= i <= dst - 1,
            0 <= half,
    ;
    assert((i * half) / dst < half) by (nonlinear_arith)
        requires
            1 <= dst,
            1 <= half,
            0 <= i * half <= (dst - 1) * half,
    ;
    assert((i * half) / dst >= 0) by (nonlinear_arith)
        requires
            1 <= dst,
            0 <= i * half,
    ;
    assert(2 * half <= src);
}

/// Builds one axis of the lookup table.
fn axis_lookup(src: usize, dst: usize, off: usize) -> (r: Vec<usize>)
    requires
        2 <= src,
        1 <= dst,
        off <= 1,
        dst * (src / 2) <= usize::MAX,
    ensures
        r@.len() == dst,
        forall|i: int| 0 <= i < dst ==> #[trigger] r@[i] == lookup_coord(
            src as int,
            dst as int,
            off as int,
            i,
        ),
        forall|i: int| 0 <= i < dst ==> #[trigger] r@[i] < src,
{
    let half = src / 2;
    let mut table: Vec<usize> = Vec::new();
    let mut i: usize = 0;
    while i < dst
        invariant
            i <= dst,
            2 <= src,
            1 <= dst,
            off <= 1,
            half == src / 2,
            dst * half <= usize::MAX,
            table@.len() == i,
            forall|j: int| 0 <= j < i ==> #[trigger] table@[j] == lookup_coord(
                src as int,
                dst as int,
                off as int,
                j,
            ),
            forall|j: int| 0 <= j < i ==> #[trigger] table@[j] < src,
        decreases dst - i,
    {
        proof {
            assert(i * half <= dst * half) by (nonlinear_arith)
                requires
                    0 <= i <= dst,
                    0 <= half,
            ;
            lemma_lookup_coord_in_range(src as int, dst as int, off as int, i as int);
        }
        let coord = off + 2 * ((i * half) / dst);
        table.push(coord);
        i = i + 1;
    }
    table
}

/// Builds the per-axis lookup tables for one channel.
pub fn scale_lookup_table(input: ImgSize, output: ImgSize, offset: Offset) -> (r: LookupTable)
    requires
        2 <= input.x,
        2 <= input.y,
        1 <= output.x,
        1 <= output.y,
        offset.x <= 1,
        offset.y <= 1,
        output.x * (input.x / 2) <= usize::MAX,
        output.y * (input.y / 2) <= usize::MAX,
    ensures
        r.x@.len() == output.x,
        r.y@.len() == output.y,
        forall|i: int| 0 <= i < output.x ==> #[trigger] r.x@[i] == lookup_coord(
            input.x as int,
            output.x as int,
            offset.x as int,
            i,
        ),
        forall|i: int| 0 <= i < output.y ==> #[trigger] r.y@[i] == lookup_coord(
            input.y as int,
            output.y as int,
            offset.y as int,
            i,
        ),
        forall|i: int| 0 <= i < output.x ==> #[trigger] r.x@[i] < input.x,
        forall|i: int| 0 <= i < output.y ==> #[trigger] r.y@[i] < input.y,
{
    LookupTable {
        x: axis_lookup(input.x, output.x, offset.x),
        y: axis_lookup(input.y, output.y, offset.y),
    }
}

/// Extracts one channel: for each destination row, the vertical lookup
/// selects a source row; the horizontal lookup then selects one sample per
/// destination column from that row.
fn scale_with_lookup_table(image: &RawImage, table: &LookupTable) -> (r: Vec<u16>)
    requires
        image.wf(),
        table.x@.len() >= 1,
        table.x@.len() * table.y@.len() <= usize::MAX,
        forall|i: int| 0 <= i < table.x@.len() ==> #[trigger] table.x@[i] < image.data.width,
        forall|i: int| 0 <= i < table.y@.len() ==> #[trigger] table.y@[i] < image.data.height,
    ensures
        r@.len() == table.x@.len() * table.y@.len(),
        forall|line: int, col: int|
            0 <= line < table.y@.len() && 0 <= col < table.x@.len() ==> r@[line * table.x@.len()
                + col] == image.data.pixels@[table.y@[line] * image.data.width + table.x@[col]],
{
    let w = image.data.width;
    let sx = table.x.len();
    let sy = table.y.len();
    let mut out: Vec<u16> = Vec::new();
    let mut line: usize = 0;
    while line < sy
        invariant
            line <= sy,
            1 <= sx,
            sx == table.x@.len(),
            sy == table.y@.len(),
            w == image.data.width,
            image.wf(),
            sx * sy <= usize::MAX,
            forall|i: int| 0 <= i < sx ==> #[trigger] table.x@[i] < image.data.width,
            forall|i: int| 0 <= i < sy ==> #[trigger] table.y@[i] < image.data.height,
            out@.len() == line * sx,
            forall|k: int|
                0 <= k < out@.len() ==> #[trigger] out@[k] == image.data.pixels@[table.y@[k / (
                sx as int)] * image.data.width + table.x@[k % (sx as int)]],
        decreases sy - line,
    {
        let src_line = table.y[line];
        proof {
            assert((line + 1) * sx <= sy * sx) by (nonlinear_arith)
                requires
                    0 <= line < sy,
                    0 <= sx,
            ;
            assert(sy * sx == sx * sy) by (nonlinear_arith);
        }
        let mut col: usize = 0;
        while col < sx
            invariant
                col <= sx,
                line < sy,
                1 <= sx,
                sx == table.x@.len(),
                sy == table.y@.len(),
                w == image.data.width,
                image.wf(),
                sx * sy <= usize::MAX,
                (line + 1) * sx <= sx * sy,
                src_line == table.y@[line as int],
                src_line < image.data.height,
                forall|i: int| 0 <= i < sx ==> #[trigger] table.x@[i] < image.data.width,
                forall|i: int| 0 <= i < sy ==> #[trigger] table.y@[i] < image.data.height,
                out@.len() == line * sx + col,
                forall|k: int|
                    0 <= k < out@.len() ==> #[trigger] out@[k] == image.data.pixels@[table.y@[k / (
                    sx as int)] * image.data.width + table.x@[k % (sx as int)]],
            decreases sx - col,
        {
            let src_col = table.x[col];
            proof {
                assert(src_line * w + src_col < image.data.height * w) by (nonlinear_arith)
                    requires
                        0 <= src_line,
                        src_line < image.data.height,
                        0 <= src_col < w,
                ;
                assert(image.data.height * w == w * image.data.height) by (nonlinear_arith);
                vstd::arithmetic::div_mod::lemma_fundamental_div_mod_converse(
                    line * sx + col,
                    sx as int,
                    line as int,
                    col as int,
                );
            }
            let idx = src_line * w + src_col;
            out.push(image.data.pixels[idx]);
            col = col + 1;
        }
        line = line + 1;
        proof {
            assert(line * sx == (line - 1) * sx + sx) by (nonlinear_arith);
        }
    }
    proof {
        assert(sy * sx == sx * sy) by (nonlinear_arith);
        assert forall|li: int, co: int|
            0 <= li < table.y@.len() && 0 <= co < table.x@.len() implies out@[li * table.x@.len()
            + co] == image.data.pixels@[table.y@[li] * image.data.width + table.x@[co]] by {
            assert(li * (sx as int) + co < (sx as int) * (sy as int)) by (nonlinear_arith)
                requires
                    0 <= li < sy,
                    0 <= co < sx,
            ;
            assert(li * (sx as int) + co >= 0) by (nonlinear_arith)
                requires
                    0 <= li,
                    0 <= co,
                    0 <= sx,
            ;
            vstd::arithmetic::div_mod::lemma_fundamental_div_mod_converse(
                li * (sx as int) + co,
                sx as int,
                li,
                co,
            );
            assert(out@[li * (sx as int) + co] == image.data.pixels@[table.y@[(li * (sx as int)
                + co) / (sx as int)] * image.data.width + table.x@[(li * (sx as int) + co) % (
            sx as int)]]);
        }
    }
    out
}

/// The source sample a destination pixel of one channel takes, for a mosaic
/// frame, a destination size and a channel offset.
pub open spec fn channel_sample(
    image: RawImage,
    size: ImgSize,
    off: Offset,
    line: int,
    col: int,
) -> u16 {
    image.data.pixels@[lookup_coord(image.data.height as int, size.y as int, off.y as int, line)
        * image.data.width + lookup_coord(image.data.width as int, size.x as int, off.x as int, col)]
}

/// Resamples one channel of the mosaic to the destination size.
fn resize_channel(image: &RawImage, output_size: ImgSize, offset: Offset) -> (r: Vec<u16>)
    requires
        image.wf(),
        2 <= image.data.width,
        2 <= image.data.height,
        1 <= output_size.x,
        1 <= output_size.y,
        offset.x <= 1,
        offset.y <= 1,
        output_size.x * (image.data.width / 2) <= usize::MAX,
        output_size.y * (image.data.height / 2) <= usize::MAX,
        output_size.x * output_size.y <= usize::MAX,
    ensures
        r@.len() == output_size.x * output_size.y,
        forall|line: int, col: int|
            0 <= line < output_size.y && 0 <= col < output_size.x ==> r@[line * output_size.x
                + col] == channel_sample(*image, output_size, offset, line, col),
{
    let input_size = ImgSize { x: image.data.width, y: image.data.height };
    let lookup = scale_lookup_table(input_size, output_size, offset);
    let r = scale_with_lookup_table(image, &lookup);
    proof {
        assert(r@.len() == output_size.x * output_size.y) by (nonlinear_arith)
            requires
                r@.len() == lookup.x@.len() * lookup.y@.len(),
                lookup.x@.len() == output_size.x,
                lookup.y@.len() == output_size.y,
        ;
        assert forall|line: int, col: int|
            0 <= line < output_size.y && 0 <= col < output_size.x implies r@[line * output_size.x
            + col] == channel_sample(*image, output_size, offset, line, col) by {
            assert(lookup.y@[line] == lookup_coord(
                image.data.height as int,
                output_size.y as int,
                offset.y as int,
                line,
            ));
            assert(lookup.x@[col] == lookup_coord(
                image.data.width as int,
                output_size.x as int,
                offset.x as int,
                col,
            ));
        }
    }
    r
}

/// The channel offsets of the supported 2x2 filter layout: red at (1, 0),
/// green at (1, 1) with the second green sample discarded, blue at (0, 1).
pub open spec fn red_offset() -> Offset {
    Offset { x: 1, y: 0 }
}

pub open spec fn green_offset() -> Offset {
    Offset { x: 1, y: 1 }
}

pub open spec fn blue_offset() -> Offset {
    Offset { x: 0, y: 1 }
}

/// Converts a raw mosaic frame into a three-channel preview of exactly the
/// requested size, one independent nearest-neighbor resample per channel.
pub fn debayer_scale_fast(input: &RawImage, size: ImgSize) -> (r: RgbImage)
    requires
        input.wf(),
        2 <= input.data.width,
        2 <= input.data.height,
        1 <= size.x,
        1 <= size.y,
        size.x * (input.data.width / 2) <= usize::MAX,
        size.y * (input.data.height / 2) <= usize::MAX,
        size.x * size.y <= usize::MAX,
    ensures
        r.wf(),
        r.spec_size() == size,
        forall|line: int, col: int|
            0 <= line < size.y && 0 <= col < size.x ==> {
                &&& r.red@[line * size.x + col] == channel_sample(
                    *input,
                    size,
                    red_offset(),
                    line,
                    col,
                )
                &&& r.green@[line * size.x + col] == channel_sample(
                    *input,
                    size,
                    green_offset(),
                    line,
                    col,
                )
                &&& r.blue@[line * size.x + col] == channel_sample(
                    *input,
                    size,
                    blue_offset(),
                    line,
                    col,
                )
            },
{
    let red = resize_channel(input, size, Offset { x: 1, y: 0 });
    let green = resize_channel(input, size, Offset { x: 1, y: 1 });
    let blue = resize_channel(input, size, Offset { x: 0, y: 1 });
    proof {
        assert(size.x * size.y == size.y * size.x) by (nonlinear_arith);
    }
    RgbImage { width: size.x, height: size.y, red, green, blue }
}

} // verus!
