//! View configuration, pixel mapping, the whole-frame and tiled render
//! drivers, and the RGBA output buffer.
use crate::color::{color_of, shade};
use crate::fractal::{Fractal, FractalBehavior};
use vstd::prelude::*;

verus! {

/// Why a view configuration was refused.
#[derive(Clone, Copy, Debug, PartialEq, Eq, Structural)]
pub enum ConfigError {
    /// Width or height is zero.
    EmptyResolution,
    /// The tile size is zero.
    EmptyTile,
    /// The pixel count is not a multiple of the tile size.
    RaggedTiles,
    /// The iteration budget is zero.
    ZeroIterations,
    /// A precision is zero.
    ZeroPrecision,
    /// The RGBA buffer would not fit in memory.
    TooLarge,
}

/// Render resolution, tile size, iteration budget and the two precision tiers.
///
/// `pixel_count` is `width * height`; `valid` states the invariant that [`ViewConfiguration::new`] establishes.
#[derive(Clone, Copy, Debug, PartialEq, Eq, Structural)]
pub struct ViewConfiguration {
    pub width: usize,
    pub height: usize,
    pub pixel_count: usize,
    pub tile_size: usize,
    pub max_iter: u32,
    pub world_precision: u32,
    pub iteration_precision: u32,
}

impl ViewConfiguration {
    /// The tiles cover the grid exactly and the RGBA buffer fits in `usize`.
    pub open spec fn valid(&self) -> bool {
        &&& self.width > 0
        &&& self.height > 0
        &&& self.pixel_count == self.width * self.height
        &&& self.pixel_count * 4 <= usize::MAX
        &&& self.tile_size > 0
        &&& self.pixel_count % self.tile_size == 0
        &&& self.max_iter > 0
        &&& self.world_precision > 0
        &&& self.iteration_precision > 0
    }

    /// Builds a configuration, refusing misuse up front: an empty grid, an
    /// empty tile, tiles that do not cover the grid exactly, a zero budget,
    /// a zero precision, or a buffer that does not fit in memory.
    pub fn new(
        width: usize,
        height: usize,
        tile_size: usize,
        max_iter: u32,
        world_precision: u32,
        iteration_precision: u32,
    ) -> (r: Result<ViewConfiguration, ConfigError>)
        ensures
            width == 0 || height == 0 ==> r == Err::<ViewConfiguration, _>(
                ConfigError::EmptyResolution,
            ),
            width > 0 && height > 0 && width * height * 4 > usize::MAX ==> r == Err::<
                ViewConfiguration,
                _,
            >(ConfigError::TooLarge),
            width > 0 && height > 0 && width * height * 4 <= usize::MAX ==> (match r {
                Ok(c) => {
                    &&& c.valid()
                    &&& c.width == width
                    &&& c.height == height
                    &&& c.tile_size == tile_size
                    &&& c.max_iter == max_iter
                    &&& c.world_precision == world_precision
                    &&& c.iteration_precision == iteration_precision
                    &&& tile_size > 0 && (width * height) % (tile_size as int) == 0
                    &&& max_iter > 0 && world_precision > 0 && iteration_precision > 0
                },
                Err(e) => e == (if tile_size == 0 {
                    ConfigError::EmptyTile
                } else if (width * height) % (tile_size as int) != 0 {
                    ConfigError::RaggedTiles
                } else if max_iter == 0 {
                    ConfigError::ZeroIterations
                } else {
                    ConfigError::ZeroPrecision
                }),
            }),
            width > 0 && height > 0 && width * height * 4 <= usize::MAX && tile_size > 0 && (width
                * height) % (tile_size as int) == 0 && max_iter > 0 && world_precision > 0
                && iteration_precision > 0 ==> r is Ok,
    {
        if width == 0 || height == 0 {
            return Err(ConfigError::EmptyResolution);
        }
        let pixel_count = match width.checked_mul(height) {
            Some(n) => n,
            None => {
                proof {
                    assert(width * height * 4 > usize::MAX) by (nonlinear_arith)
                        requires
                            width * height > usize::MAX,
                    ;
                }
                return Err(ConfigError::TooLarge);
            },
        };
        let bytes = match pixel_count.checked_mul(4) {
            Some(n) => n,
            None => return Err(ConfigError::TooLarge),
        };
        if tile_size == 0 {
            return Err(ConfigError::EmptyTile);
        }
        if pixel_count % tile_size != 0 {
            return Err(ConfigError::RaggedTiles);
        }
        if max_iter == 0 {
            return Err(ConfigError::ZeroIterations);
        }
        if world_precision == 0 || iteration_precision == 0 {
            return Err(ConfigError::ZeroPrecision);
        }
        Ok(
            ViewConfiguration {
                width,
                height,
                pixel_count,
                tile_size,
                max_iter,
                world_precision,
                iteration_precision,
            },
        )
    }
}


/// Byte `k` of the RGBA frame for the results `bs`, one per pixel in row-major
/// order: the gray shade on R, G and B, and an opaque alpha.
pub open spec fn frame_byte<C, F>(bs: Seq<FractalBehavior<C, F>>, max_iter: u32, k: int) -> u8 {
    if k % 4 == 3 {
        255
    } else {
        shade(bs[k / 4], max_iter)
    }
}

/// The whole RGBA frame for the results `bs`.
pub open spec fn frame<C, F>(bs: Seq<FractalBehavior<C, F>>, max_iter: u32) -> Seq<u8> {
    Seq::new(4 * bs.len(), |k: int| frame_byte(bs, max_iter, k))
}

/// The exact horizontal offset of pixel column `x`: the pixel maps to
/// `(x / width - 0.5) * 2 = (2x - width) / width`, and this is the numerator.
pub open spec fn offset_numerator(x: int, extent: int) -> int {
    2 * x - extent
}

/// Which computation a pixel of a tiled pass asks for.
#[derive(Clone, Copy, Debug, PartialEq, Eq, Structural)]
pub enum PixelMethod {
    /// The tile's first pixel: full precision, and its result becomes the reference orbit.
    Reference,
    /// Full precision: the reference orbit converged.
    FullPrecision,
    /// Perturbation around the reference endpoint: the reference orbit diverged.
    Perturbed,
}

/// One pixel that a tiled pass asks the caller to evaluate.
#[derive(Clone, Copy, Debug, PartialEq, Eq, Structural)]
pub struct PixelRequest {
    pub index: usize,
    pub x: usize,
    pub y: usize,
    pub method: PixelMethod,
}

/// Position of a tiled pass: the current tile, the offset inside it, and
/// whether the tile's reference orbit diverged.
#[derive(Clone, Copy, Debug, PartialEq, Eq, Structural)]
pub struct TileCursor {
    pub tile: usize,
    pub offset: usize,
    pub perturbed: bool,
}

/// The method a tiled pass uses at `offset` inside a tile whose reference diverged or not.
pub open spec fn method_at(offset: usize, perturbed: bool) -> PixelMethod {
    if offset == 0 {
        PixelMethod::Reference
    } else if perturbed {
        PixelMethod::Perturbed
    } else {
        PixelMethod::FullPrecision
    }
}

/// The cursor after the result for its pixel came in; `diverged` tells how that result ended.
pub open spec fn cursor_after(c: TileCursor, diverged: bool, tile_size: usize) -> TileCursor {
    let perturbed = if c.offset == 0 {
        diverged
    } else {
        c.perturbed
    };
    if c.offset + 1 == tile_size {
        TileCursor { tile: (c.tile + 1) as usize, offset: 0, perturbed }
    } else {
        TileCursor { tile: c.tile, offset: (c.offset + 1) as usize, perturbed }
    }
}

/// The endpoint a tile's reference result offers to the perturbation path:
/// that of a diverging orbit, and none for a converging one.
pub fn reference_endpoint<C, F>(b: &FractalBehavior<C, F>) -> (r: Option<&C>)
    ensures
        b matches FractalBehavior::Diverges(z, _, _) ==> r == Some(z),
        b is Converges ==> r is None,
{
    match b {
        FractalBehavior::Diverges(z, _, _) => Some(z),
        FractalBehavior::Converges(..) => None,
    }
}

/// The render state: the view (zoom `F` and center `C`, held for the caller),
/// the fractal, the configuration, the RGBA buffer, the redraw flag and the
/// cursor of a tiled pass.
pub struct Explorer<F, C> {
    zoom: F,
    position: C,
    fractal: Fractal,
    config: ViewConfiguration,
    buffer: Vec<u8>,
    update_screen: bool,
    cursor: TileCursor,
}

impl<F, C> Explorer<F, C> {
    pub closed spec fn spec_zoom(&self) -> F {
        self.zoom
    }

    pub closed spec fn spec_position(&self) -> C {
        self.position
    }

    pub closed spec fn spec_fractal(&self) -> Fractal {
        self.fractal
    }

    pub closed spec fn spec_config(&self) -> ViewConfiguration {
        self.config
    }

    pub closed spec fn spec_buffer(&self) -> Seq<u8> {
        self.buffer@
    }

    pub closed spec fn spec_update_screen(&self) -> bool {
        self.update_screen
    }

    pub closed spec fn spec_cursor(&self) -> TileCursor {
        self.cursor
    }

    /// The buffer holds one RGBA pixel per grid point and the tiled cursor is in range.
    pub closed spec fn well_formed(&self) -> bool {
        &&& self.config.valid()
        &&& self.buffer@.len() == 4 * self.config.pixel_count
        &&& self.cursor.offset < self.config.tile_size
        &&& self.cursor.tile <= self.config.pixel_count / self.config.tile_size
        &&& self.cursor.tile == self.config.pixel_count / self.config.tile_size
            ==> self.cursor.offset == 0
    }

    /// The number of tiles of a tiled pass.
    pub open spec fn spec_tile_count(&self) -> int {
        self.spec_config().pixel_count as int / self.spec_config().tile_size as int
    }

    /// A fresh render state with a zeroed buffer, due for a redraw.
    pub fn new(config: ViewConfiguration, fractal: Fractal, zoom: F, position: C) -> (r: Self)
        requires
            config.valid(),
        ensures
            r.well_formed(),
            r.spec_config() == config,
            r.spec_fractal() == fractal,
            r.spec_zoom() == zoom,
            r.spec_position() == position,
            r.spec_buffer() == Seq::new(4 * config.pixel_count as nat, |k: int| 0u8),
            r.spec_update_screen(),
            r.spec_cursor() == (TileCursor { tile: 0, offset: 0, perturbed: false }),
    {
        let n = config.pixel_count * 4;
        let mut buffer: Vec<u8> = Vec::with_capacity(n);
        let mut k: usize = 0;
        while k < n
            invariant
                k <= n,
                buffer@ == Seq::new(k as nat, |j: int| 0u8),
            decreases n - k,
        {
            buffer.push(0);
            k = k + 1;
            assert(buffer@ =~= Seq::new(k as nat, |j: int| 0u8));
        }
        proof {
            assert(config.pixel_count / config.tile_size >= 0) by (nonlinear_arith)
                requires
                    config.tile_size > 0,
            ;
        }
        Explorer {
            zoom,
            position,
            fractal,
            config,
            buffer,
            update_screen: true,
            cursor: TileCursor { tile: 0, offset: 0, perturbed: false },
        }
    }

    pub fn zoom(&self) -> (r: &F)
        ensures
            *r == self.spec_zoom(),
    {
        &self.zoom
    }

    pub fn position(&self) -> (r: &C)
        ensures
            *r == self.spec_position(),
    {
        &self.position
    }

    pub fn fractal(&self) -> (r: Fractal)
        ensures
            r == self.spec_fractal(),
    {
        self.fractal
    }

    pub fn config(&self) -> (r: ViewConfiguration)
        ensures
            r == self.spec_config(),
    {
        self.config
    }

    /// The RGBA buffer, row-major, 4 bytes per pixel.
    pub fn buffer(&self) -> (r: &Vec<u8>)
        ensures
            r@ == self.spec_buffer(),
    {
        &self.buffer
    }

    /// Replaces the view and marks the frame for a redraw.
    pub fn set_view(&mut self, zoom: F, position: C)
        ensures
            final(self).spec_zoom() == zoom,
            final(self).spec_position() == position,
            final(self).spec_fractal() == old(self).spec_fractal(),
            final(self).spec_config() == old(self).spec_config(),
            final(self).spec_buffer() == old(self).spec_buffer(),
            final(self).spec_cursor() == old(self).spec_cursor(),
            final(self).spec_update_screen(),
            old(self).well_formed() ==> final(self).well_formed(),
    {
        self.zoom = zoom;
        self.position = position;
        self.update_screen = true;
    }

    /// Switches the fractal and marks the frame for a redraw.
    pub fn set_fractal(&mut self, fractal: Fractal)
        ensures
            final(self).spec_fractal() == fractal,
            final(self).spec_zoom() == old(self).spec_zoom(),
            final(self).spec_position() == old(self).spec_position(),
            final(self).spec_config() == old(self).spec_config(),
            final(self).spec_buffer() == old(self).spec_buffer(),
            final(self).spec_cursor() == old(self).spec_cursor(),
            final(self).spec_update_screen(),
            old(self).well_formed() ==> final(self).well_formed(),
    {
        self.fractal = fractal;
        self.update_screen = true;
    }

    /// The frame-update decision: reports whether a redraw is due and clears the flag.
    pub fn update(&mut self) -> (r: bool)
        ensures
            r == old(self).spec_update_screen(),
            !final(self).spec_update_screen(),
            final(self).spec_zoom() == old(self).spec_zoom(),
            final(self).spec_position() == old(self).spec_position(),
            final(self).spec_fractal() == old(self).spec_fractal(),
            final(self).spec_config() == old(self).spec_config(),
            final(self).spec_buffer() == old(self).spec_buffer(),
            final(self).spec_cursor() == old(self).spec_cursor(),
            old(self).well_formed() ==> final(self).well_formed(),
    {
        let r = self.update_screen;
        self.update_screen = false;
        r
    }

    /// Column and row of pixel `idx` in row-major order.
    pub fn pixel_of(&self, idx: usize) -> (r: (usize, usize))
        requires
            self.well_formed(),
            idx < self.spec_config().pixel_count,
        ensures
            r.0 == idx % self.spec_config().width,
            r.1 == idx / self.spec_config().width,
            r.0 < self.spec_config().width,
            r.1 < self.spec_config().height,
    {
        let w = self.config.width;
        proof {
            let h = self.config.height as int;
            assert((idx as int) / (w as int) < h) by (nonlinear_arith)
                requires
                    idx < w * h,
                    w > 0,
            ;
        }
        (idx % w, idx / w)
    }

    /// The exact normalized position of pixel `(x, y)` as numerators over
    /// `width` and `height`: the pixel maps to
    /// `zoom * (r.0 / width + i r.1 / height) + position`, each part in `[-1, 1)`.
    pub fn world_to_complex(&self, x: usize, y: usize) -> (r: (i64, i64))
        requires
            self.well_formed(),
            x < self.spec_config().width,
            y < self.spec_config().height,
        ensures
            r.0 == offset_numerator(x as int, self.spec_config().width as int),
            r.1 == offset_numerator(y as int, self.spec_config().height as int),
            -(self.spec_config().width as int) <= r.0 < self.spec_config().width,
            -(self.spec_config().height as int) <= r.1 < self.spec_config().height,
    {
        let w = self.config.width;
        let h = self.config.height;
        proof {
            assert(w * 4 <= w * h * 4) by (nonlinear_arith)
                requires
                    h >= 1,
            ;
            assert(h * 4 <= w * h * 4) by (nonlinear_arith)
                requires
                    w >= 1,
            ;
        }
        let dx = 2 * (x as i64) - (w as i64);
        let dy = 2 * (y as i64) - (h as i64);
        (dx, dy)
    }
    /// Writes the gray `g` on R, G and B of pixel `idx` and an opaque alpha.
    fn write_pixel(&mut self, idx: usize, g: u8)
        requires
            old(self).well_formed(),
            idx < old(self).spec_config().pixel_count,
        ensures
            final(self).buffer@ == old(self).buffer@.update(4 * idx, g).update(4 * idx + 1, g).update(
                4 * idx + 2,
                g,
            ).update(4 * idx + 3, 255u8),
            final(self).zoom == old(self).zoom,
            final(self).position == old(self).position,
            final(self).fractal == old(self).fractal,
            final(self).config == old(self).config,
            final(self).update_screen == old(self).update_screen,
            final(self).cursor == old(self).cursor,
            final(self).well_formed(),
    {
        let base = idx * 4;
        self.buffer.set(base, g);
        self.buffer.set(base + 1, g);
        self.buffer.set(base + 2, g);
        self.buffer.set(base + 3, 255);
    }

    /// Whole-frame pass: writes the color of `results[i]`, the full-precision
    /// result of pixel `i` in row-major order, at pixel `i`. The buffer then
    /// depends on the results alone, not on what it held before: two passes
    /// with the same results leave byte-identical buffers.
    pub fn fill_image_buffer<Z, M>(&mut self, results: &Vec<FractalBehavior<Z, M>>)
        requires
            old(self).well_formed(),
            results@.len() == old(self).spec_config().pixel_count,
            forall|i: int|
                0 <= i < results@.len() ==> (#[trigger] results@[i]).well_formed(
                    old(self).spec_config().max_iter,
                ),
        ensures
            final(self).well_formed(),
            final(self).spec_buffer() == frame(results@, old(self).spec_config().max_iter),
            final(self).spec_zoom() == old(self).spec_zoom(),
            final(self).spec_position() == old(self).spec_position(),
            final(self).spec_fractal() == old(self).spec_fractal(),
            final(self).spec_config() == old(self).spec_config(),
            final(self).spec_update_screen() == old(self).spec_update_screen(),
            final(self).spec_cursor() == old(self).spec_cursor(),
    {
        let n = self.config.pixel_count;
        let max_iter = self.config.max_iter;
        let ghost bs = results@;
        let mut idx: usize = 0;
        while idx < n
            invariant
                idx <= n,
                n == self.config.pixel_count,
                max_iter == self.config.max_iter,
                bs == results@,
                bs.len() == n,
                forall|i: int| 0 <= i < bs.len() ==> (#[trigger] bs[i]).well_formed(max_iter),
                self.well_formed(),
                self.zoom == old(self).zoom,
                self.position == old(self).position,
                self.fractal == old(self).fractal,
                self.config == old(self).config,
                self.update_screen == old(self).update_screen,
                self.cursor == old(self).cursor,
                forall|k: int| 0 <= k < 4 * idx ==> self.buffer@[k] == frame_byte(bs, max_iter, k),
            decreases n - idx,
        {
            let g = color_of(&results[idx], max_iter);
            let ghost before = self.buffer@;
            self.write_pixel(idx, g);
            assert forall|k: int| 0 <= k < 4 * (idx + 1) implies self.buffer@[k] == frame_byte(
                bs,
                max_iter,
                k,
            ) by {
                if k >= 4 * idx {
                    assert(k / 4 == idx as int);
                    assert(k % 4 == k - 4 * idx);
                } else {
                    assert(self.buffer@[k] == before[k]);
                }
            }
            idx = idx + 1;
        }
        assert(self.buffer@ =~= frame(bs, max_iter));
    }

    /// Restarts the tiled pass at the first pixel of the first tile.
    pub fn begin_tiled_pass(&mut self)
        ensures
            final(self).spec_cursor() == (TileCursor { tile: 0, offset: 0, perturbed: false }),
            final(self).spec_zoom() == old(self).spec_zoom(),
            final(self).spec_position() == old(self).spec_position(),
            final(self).spec_fractal() == old(self).spec_fractal(),
            final(self).spec_config() == old(self).spec_config(),
            final(self).spec_buffer() == old(self).spec_buffer(),
            final(self).spec_update_screen() == old(self).spec_update_screen(),
            old(self).well_formed() ==> final(self).well_formed(),
    {
        proof {
            if self.config.valid() {
                assert(self.config.pixel_count / self.config.tile_size >= 0) by (nonlinear_arith)
                    requires
                        self.config.tile_size > 0,
                ;
            }
        }
        self.cursor = TileCursor { tile: 0, offset: 0, perturbed: false };
    }

    /// The pixel the tiled pass needs next, or `None` once every tile is done.
    /// Tiles are runs of `tile_size` consecutive pixels in row-major order;
    /// the first pixel of a tile is its reference, the others are evaluated
    /// at full precision when the reference converged and by perturbation
    /// when it diverged.
    pub fn next_request(&self) -> (r: Option<PixelRequest>)
        requires
            self.well_formed(),
        ensures
            self.spec_cursor().tile == self.spec_tile_count() ==> r is None,
            self.spec_cursor().tile < self.spec_tile_count() ==> r == Some(
                (PixelRequest {
                    index: (self.spec_cursor().tile * self.spec_config().tile_size
                        + self.spec_cursor().offset) as usize,
                    x: ((self.spec_cursor().tile * self.spec_config().tile_size
                        + self.spec_cursor().offset) % self.spec_config().width as int) as usize,
                    y: ((self.spec_cursor().tile * self.spec_config().tile_size
                        + self.spec_cursor().offset) / self.spec_config().width as int) as usize,
                    method: method_at(self.spec_cursor().offset, self.spec_cursor().perturbed),
                }),
            ),
            r matches Some(q) ==> q.index < self.spec_config().pixel_count,
    {
        let ts = self.config.tile_size;
        let tiles = self.config.pixel_count / ts;
        if self.cursor.tile == tiles {
            return None;
        }
        let t = self.cursor.tile;
        let o = self.cursor.offset;
        proof {
            let n = self.config.pixel_count as int;
            assert(t * ts + o < n) by (nonlinear_arith)
                requires
                    t < tiles,
                    tiles == n / ts as int,
                    n % ts as int == 0,
                    o < ts,
                    ts > 0,
            ;
        }
        let index = t * ts + o;
        let (x, y) = self.pixel_of(index);
        let method = if o == 0 {
            PixelMethod::Reference
        } else if self.cursor.perturbed {
            PixelMethod::Perturbed
        } else {
            PixelMethod::FullPrecision
        };
        Some(PixelRequest { index, x, y, method })
    }

    /// Tiled pass, one step: stores the color of `result`, the outcome of the
    /// pixel that [`Explorer::next_request`] asked for, and moves on. The
    /// result of a tile's reference pixel decides how the rest of the tile is
    /// evaluated.
    pub fn fill_image_buffer_pt<Z, M>(&mut self, result: &FractalBehavior<Z, M>)
        requires
            old(self).well_formed(),
            old(self).spec_cursor().tile < old(self).spec_tile_count(),
            result.well_formed(old(self).spec_config().max_iter),
        ensures
            final(self).well_formed(),
            ({
                let c = old(self).spec_cursor();
                let idx = c.tile * old(self).spec_config().tile_size + c.offset;
                let g = shade(*result, old(self).spec_config().max_iter);
                final(self).spec_buffer() == old(self).spec_buffer().update(idx * 4, g).update(
                    idx * 4 + 1,
                    g,
                ).update(idx * 4 + 2, g).update(idx * 4 + 3, 255u8)
            }),
            final(self).spec_cursor() == cursor_after(
                old(self).spec_cursor(),
                result is Diverges,
                old(self).spec_config().tile_size,
            ),
            final(self).spec_zoom() == old(self).spec_zoom(),
            final(self).spec_position() == old(self).spec_position(),
            final(self).spec_fractal() == old(self).spec_fractal(),
            final(self).spec_config() == old(self).spec_config(),
            final(self).spec_update_screen() == old(self).spec_update_screen(),
    {
        let ts = self.config.tile_size;
        let tiles = self.config.pixel_count / ts;
        let t = self.cursor.tile;
        let o = self.cursor.offset;
        proof {
            let n = self.config.pixel_count as int;
            assert(t * ts + o < n) by (nonlinear_arith)
                requires
                    t < tiles,
                    tiles == n / ts as int,
                    n % ts as int == 0,
                    o < ts,
                    ts > 0,
            ;
        }
        let g = color_of(result, self.config.max_iter);
        self.write_pixel(t * ts + o, g);
        let perturbed = if o == 0 {
            result.diverges()
        } else {
            self.cursor.perturbed
        };
        if o + 1 == ts {
            self.cursor = TileCursor { tile: t + 1, offset: 0, perturbed };
        } else {
            self.cursor = TileCursor { tile: t, offset: o + 1, perturbed };
        }
        assert(self.buffer@.len() == 4 * self.config.pixel_count);
    }
}

/// A tiled pass visits the pixels once each, in row-major order: the cursor
/// that stands at pixel `k` writes pixel `k` and, whatever the result handed
/// in, moves to pixel `k + 1`. With [`Explorer::fill_image_buffer_pt`], which
/// fixes the written bytes from the cursor and the result alone, a complete
/// pass from [`Explorer::begin_tiled_pass`] overwrites every pixel, so two
/// passes handed the same results leave byte-identical buffers.
pub proof fn lemma_tiled_pass_visits_in_order(k: int, tile_size: usize, perturbed: bool, diverged: bool)
    requires
        0 <= k < usize::MAX,
        tile_size > 0,
    ensures
        ({
            let c = TileCursor {
                tile: (k / tile_size as int) as usize,
                offset: (k % tile_size as int) as usize,
                perturbed,
            };
            let n = cursor_after(c, diverged, tile_size);
            &&& c.tile * tile_size + c.offset == k
            &&& n.tile * tile_size + n.offset == k + 1
            &&& n.offset == (k + 1) % tile_size as int
            &&& n.tile == (k + 1) / tile_size as int
        }),
{
    let b = tile_size as int;
    let t = k / b;
    let o = k % b;
    assert(t * b + o == k && 0 <= o < b && t >= 0) by (nonlinear_arith)
        requires
            b > 0,
            k >= 0,
            t == k / b,
            o == k % b,
    ;
    assert(t <= k) by (nonlinear_arith)
        requires
            b > 0,
            k >= 0,
            t * b + o == k,
            0 <= o,
            t >= 0,
    ;
    if o + 1 == b {
        assert(k + 1 == (t + 1) * b) by (nonlinear_arith)
            requires
                t * b + o == k,
                o + 1 == b,
        ;
        assert((k + 1) / b == t + 1 && (k + 1) % b == 0) by (nonlinear_arith)
            requires
                b > 0,
                k + 1 == (t + 1) * b,
                t >= 0,
        ;
    } else {
        assert((k + 1) / b == t && (k + 1) % b == o + 1) by (nonlinear_arith)
            requires
                b > 0,
                k + 1 == t * b + (o + 1),
                0 <= o + 1 < b,
                t >= 0,
        ;
    }
}

/// The layout a well-formed render state guarantees: a valid configuration and
/// a buffer of exactly `width * height * 4` bytes.
pub proof fn lemma_well_formed_layout<F, C>(e: &Explorer<F, C>)
    requires
        e.well_formed(),
    ensures
        e.spec_config().valid(),
        e.spec_buffer().len() == 4 * e.spec_config().pixel_count,
        e.spec_buffer().len() == 4 * (e.spec_config().width * e.spec_config().height),
{
}

/// In a tiled pass, a tile whose reference orbit converged evaluates each of
/// its other pixels at full precision, as the whole-frame pass does.
pub proof fn lemma_converged_reference_falls_back(c: TileCursor, tile_size: usize, diverged: bool)
    requires
        c.offset < tile_size,
    ensures
        c.offset == 0 && !diverged && tile_size > 1 ==> ({
            let n = cursor_after(c, diverged, tile_size);
            method_at(n.offset, n.perturbed) == PixelMethod::FullPrecision && n.tile == c.tile
        }),
        c.offset > 0 && !c.perturbed && c.offset + 1 < tile_size ==> ({
            let n = cursor_after(c, diverged, tile_size);
            method_at(n.offset, n.perturbed) == PixelMethod::FullPrecision && n.tile == c.tile
        }),
        c.offset == 0 && diverged && tile_size > 1 ==> ({
            let n = cursor_after(c, diverged, tile_size);
            method_at(n.offset, n.perturbed) == PixelMethod::Perturbed
        }),
{
}

/// The pixel-to-plane mapping preserves the order of columns and of rows:
/// the normalized offset `(2x - extent) / extent` is monotonic in `x`.
pub proof fn lemma_offset_monotone(x1: int, x2: int, extent: int)
    requires
        0 <= x1 <= x2 < extent,
    ensures
        offset_numerator(x1, extent) <= offset_numerator(x2, extent),
        x1 < x2 ==> offset_numerator(x1, extent) < offset_numerator(x2, extent),
        -extent <= offset_numerator(x1, extent) < extent,
{
}

} // verus!
