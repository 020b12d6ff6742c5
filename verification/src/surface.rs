use vstd::prelude::*;

use crate::error::PlatformError;

verus! {

/// Bytes per packed pixel: blue, green, red, alpha, from low to high address.
pub const BYTES_PER_PIXEL: u32 = 4;

/// Largest width or height a surface accepts. The presentation interface
/// measures a destination region in signed 32-bit coordinates, so a source
/// dimension beyond that could never be presented.
pub const MAX_DIMENSION: u32 = 0x7fff_ffff;

/// The mathematical model of a [`PixelSurface`]: its geometry, the byte
/// content of its pixel memory, and how many times a held memory block has
/// been given back so far.
#[verifier::ext_equal]
pub struct SurfaceModel {
    pub width: nat,
    pub height: nat,
    pub stride: nat,
    pub bytes: Seq<u8>,
    pub releases: nat,
}

impl SurfaceModel {
    /// Geometry and memory always agree: a present call can never observe a
    /// stride that is not `width * 4`, nor a memory block whose length is not
    /// `width * height * 4`. Dimensions stay presentable (they fit the signed
    /// 32-bit coordinates of the presentation interface).
    pub open spec fn wf(self) -> bool {
        &&& self.width <= MAX_DIMENSION
        &&& self.height <= MAX_DIMENSION
        &&& self.stride == self.width * 4
        &&& self.bytes.len() == self.width * self.height * 4
    }

    /// A surface that currently owns a pixel memory block.
    pub open spec fn is_allocated(self) -> bool {
        self.width > 0 && self.height > 0
    }

    /// Byte offset of the pixel at column `x`, row `y`: row `y` starts at
    /// `y * stride`, and each pixel occupies four bytes.
    pub open spec fn byte_offset(self, x: nat, y: nat) -> nat {
        y * self.stride + x * 4
    }

    /// The four bytes of the pixel at `(x, y)`, low to high address:
    /// blue, green, red, alpha.
    pub open spec fn pixel_at(self, x: nat, y: nat) -> (u8, u8, u8, u8) {
        let off = self.byte_offset(x, y) as int;
        (self.bytes[off], self.bytes[off + 1], self.bytes[off + 2], self.bytes[off + 3])
    }

    /// The model after writing byte tuple `(b, g, r, a)` at `(x, y)`.
    pub open spec fn with_pixel(self, x: nat, y: nat, b: u8, g: u8, r: u8, a: u8) -> SurfaceModel {
        let off = self.byte_offset(x, y) as int;
        SurfaceModel {
            bytes: self.bytes.update(off, b).update(off + 1, g).update(off + 2, r).update(
                off + 3,
                a,
            ),
            ..self
        }
    }

    /// The model after giving the owned memory back: empty geometry, empty
    /// memory, and one more release if and only if memory was actually held.
    pub open spec fn released(self) -> SurfaceModel {
        SurfaceModel {
            width: 0,
            height: 0,
            stride: 0,
            bytes: Seq::empty(),
            releases: self.releases + if self.is_allocated() {
                1nat
            } else {
                0nat
            },
        }
    }
}

/// One channel of the scrolling test pattern: the low byte of the pixel
/// coordinate plus the animation offset.
pub open spec fn gradient_channel(coord: nat, offset: nat) -> u8 {
    ((coord + offset) % 256) as u8
}

/// Every pixel of `m` holds the test pattern for the given animation
/// offsets: blue follows the column, green follows the row, red is zero and
/// alpha is fully opaque.
pub open spec fn has_gradient(m: SurfaceModel, x_offset: u32, y_offset: u32) -> bool {
    forall|x: nat, y: nat|
        x < m.width && y < m.height ==> #[trigger] m.pixel_at(x, y) == (
        gradient_channel(x, x_offset as nat),
        gradient_channel(y, y_offset as nat),
        0u8,
        255u8,
        )
}

/// The 32-bit value that a pixel's four bytes form when read back, low
/// address first, as one little-endian word: blue lowest, then green, red,
/// alpha — `0xAARRGGBB`.
pub open spec fn pixel_word(b: u8, g: u8, r: u8, a: u8) -> u32 {
    (b + g * 0x100 + r * 0x1_0000 + a * 0x100_0000) as u32
}

/// Packs one pixel into the word form the presentation format prescribes:
/// shifting alpha, red, green and blue into `0xAARRGGBB` yields exactly the
/// little-endian reading of the byte tuple `(b, g, r, a)`.
pub fn pack_pixel(b: u8, g: u8, r: u8, a: u8) -> (word: u32)
    ensures
        word == pixel_word(b, g, r, a),
{
    let word: u32 = (a as u32) << 24 | (r as u32) << 16 | (g as u32) << 8 | (b as u32);
    proof {
        assert((a as u32) << 24u32 | (r as u32) << 16u32 | (g as u32) << 8u32 | (b as u32) == (b
            as u32) + (g as u32) * 0x100 + (r as u32) * 0x1_0000 + (a as u32) * 0x100_0000)
            by (bit_vector);
    }
    word
}

/// Size in bytes of the native header structure that the descriptor below
/// models.
pub const BITMAP_HEADER_SIZE: u32 = 40;

/// The source-format description handed to the external blit facility, as
/// plain values: a 32-bit-per-pixel top-down device-independent bitmap.
#[derive(Clone, Copy, Debug, PartialEq, Eq, Structural)]
pub struct BitmapDescriptor {
    /// Size of the native header structure in bytes.
    pub header_size: u32,
    /// Source width in pixels.
    pub width: i32,
    /// Source height in pixels, negated: a negative height instructs the
    /// presenter to treat row 0 as the topmost row, whatever the presenter's
    /// default row order is.
    pub height: i32,
    /// Color plane count; always one.
    pub planes: u16,
    /// Bits per pixel; always 32.
    pub bit_count: u16,
}

/// Everything one present needs besides the pixel bytes themselves: source
/// geometry, format descriptor, and the destination region's size.
#[derive(Clone, Copy, Debug, PartialEq, Eq, Structural)]
pub struct PresentRequest {
    pub descriptor: BitmapDescriptor,
    pub src_width: u32,
    pub src_height: u32,
    /// Bytes per source row; always `src_width * 4`, no padding.
    pub stride: usize,
    pub target_width: i32,
    pub target_height: i32,
}

/// An exclusively owned off-screen image: `width * height` pixels, four
/// bytes each, rows stored top row first with stride `width * 4` and no
/// padding. The memory never leaks outside this type except as a read-only
/// view while a present is prepared.
pub struct PixelSurface {
    width: u32,
    height: u32,
    stride: usize,
    memory: Vec<u8>,
    releases: Ghost<nat>,
}

impl View for PixelSurface {
    type V = SurfaceModel;

    closed spec fn view(&self) -> SurfaceModel {
        SurfaceModel {
            width: self.width as nat,
            height: self.height as nat,
            stride: self.stride as nat,
            bytes: self.memory@,
            releases: self.releases@,
        }
    }
}

impl PixelSurface {
    /// Allocates a zero-filled surface for positive dimensions. Fails with
    /// [`PlatformError::AllocationError`] exactly when the byte count
    /// `width * height * 4` cannot be addressed on this machine.
    pub fn allocate(width: u32, height: u32) -> (result: Result<PixelSurface, PlatformError>)
        requires
            0 < width <= MAX_DIMENSION,
            0 < height <= MAX_DIMENSION,
        ensures
            result is Err <==> width * height * 4 > isize::MAX,
            match result {
                Ok(s) => {
                    &&& s@.wf()
                    &&& s@.is_allocated()
                    &&& s@.width == width
                    &&& s@.height == height
                    &&& s@.stride == width * 4
                    &&& s@.bytes.len() == width * height * 4
                    &&& forall|i: int| 0 <= i < s@.bytes.len() ==> s@.bytes[i] == 0u8
                    &&& s@.releases == 0
                },
                Err(e) => e == PlatformError::AllocationError,
            },
    {
        proof {
            assert((width as int) * (height as int) < 0x4000_0000_0000_0000) by (nonlinear_arith)
                requires
                    width <= 0x7fff_ffffu32,
                    height <= 0x7fff_ffffu32,
            ;
        }
        let pixels: u64 = (width as u64) * (height as u64);
        let total: u64 = match pixels.checked_mul(4) {
            Some(t) => t,
            None => {
                return Err(PlatformError::AllocationError);
            },
        };
        if total > isize::MAX as u64 {
            return Err(PlatformError::AllocationError);
        }
        let size: usize = total as usize;
        proof {
            assert((width as int) * 4 <= (width as int) * (height as int) * 4) by (nonlinear_arith)
                requires
                    width >= 1,
                    height >= 1,
            ;
        }
        let stride: usize = (width as usize) * 4;
        let memory: Vec<u8> = vec![0u8; size];
        proof {
            assert(forall|i: int| 0 <= i < memory@.len() ==> memory@[i] == 0u8) by {
                assert forall|i: int| 0 <= i < memory@.len() implies memory@[i] == 0u8 by {
                    assert(cloned(0u8, memory@[i]));
                }
            }
        }
        Ok(
            PixelSurface {
                width,
                height,
                stride,
                memory,
                releases: Ghost(0nat),
            },
        )
    }

    /// Gives the owned memory back. Releasing an already-released surface is
    /// a no-op: the release count advances only when memory was actually
    /// held, so a double release can never free twice.
    pub fn release(&mut self)
        ensures
            final(self)@ =~= old(self)@.released(),
            final(self)@.wf(),
            !final(self)@.is_allocated(),
    {
        let ghost bump: nat = if self@.is_allocated() {
            1nat
        } else {
            0nat
        };
        let ghost count: nat = self.releases@ + bump;
        self.memory = Vec::new();
        self.width = 0;
        self.height = 0;
        self.stride = 0;
        self.releases = Ghost(count);
        proof {
            assert(self.memory@ =~= Seq::<u8>::empty());
        }
    }

    /// Releasing twice is the same as releasing once: the second release
    /// finds no memory held, changes nothing, and in particular does not
    /// advance the release count — no double free.
    pub proof fn lemma_release_idempotent(m: SurfaceModel)
        ensures
            m.released().released() =~= m.released(),
            m.is_allocated() ==> m.released().releases == m.releases + 1,
            !m.is_allocated() ==> m.released().releases == m.releases,
    {
    }

    /// Releases any currently held memory and installs a zero-filled block
    /// for the new dimensions, replacing memory and geometry together: the
    /// surface is observable only in its prior valid state (on failure) or
    /// in the new valid state (on success), never in between. The release
    /// count advances exactly once when memory was held, and only on success.
    pub fn resize(&mut self, width: u32, height: u32) -> (result: Result<(), PlatformError>)
        requires
            0 < width <= MAX_DIMENSION,
            0 < height <= MAX_DIMENSION,
        ensures
            result is Err <==> width * height * 4 > isize::MAX,
            match result {
                Ok(unit) => {
                    &&& final(self)@.wf()
                    &&& final(self)@.is_allocated()
                    &&& final(self)@.width == width
                    &&& final(self)@.height == height
                    &&& final(self)@.stride == width * 4
                    &&& final(self)@.bytes.len() == width * height * 4
                    &&& forall|i: int|
                        0 <= i < final(self)@.bytes.len() ==> final(self)@.bytes[i] == 0u8
                    &&& final(self)@.releases == old(self)@.releases + if old(
                        self,
                    )@.is_allocated() {
                        1nat
                    } else {
                        0nat
                    }
                },
                Err(e) => {
                    &&& e == PlatformError::AllocationError
                    &&& final(self)@ == old(self)@
                },
            },
    {
        proof {
            assert((width as int) * (height as int) < 0x4000_0000_0000_0000) by (nonlinear_arith)
                requires
                    width <= 0x7fff_ffffu32,
                    height <= 0x7fff_ffffu32,
            ;
        }
        let pixels: u64 = (width as u64) * (height as u64);
        let total: u64 = match pixels.checked_mul(4) {
            Some(t) => t,
            None => {
                return Err(PlatformError::AllocationError);
            },
        };
        if total > isize::MAX as u64 {
            return Err(PlatformError::AllocationError);
        }
        let size: usize = total as usize;
        proof {
            assert((width as int) * 4 <= (width as int) * (height as int) * 4) by (nonlinear_arith)
                requires
                    width >= 1,
                    height >= 1,
            ;
        }
        let ghost bump: nat = if self@.is_allocated() {
            1nat
        } else {
            0nat
        };
        let ghost count: nat = self.releases@ + bump;
        let memory: Vec<u8> = vec![0u8; size];
        proof {
            assert(forall|i: int| 0 <= i < memory@.len() ==> memory@[i] == 0u8) by {
                assert forall|i: int| 0 <= i < memory@.len() implies memory@[i] == 0u8 by {
                    assert(cloned(0u8, memory@[i]));
                }
            }
        }
        self.memory = memory;
        self.width = width;
        self.height = height;
        self.stride = (width as usize) * 4;
        self.releases = Ghost(count);
        Ok(())
    }

    /// The pixel offset formula stays inside the memory block: a well-formed
    /// surface has four bytes at the offset of each of its pixels.
    pub proof fn lemma_offset_in_bounds(m: SurfaceModel, x: nat, y: nat)
        requires
            m.wf(),
            x < m.width,
            y < m.height,
        ensures
            m.byte_offset(x, y) + 4 <= m.bytes.len(),
    {
        assert(y * (m.width * 4) + x * 4 + 4 <= m.width * m.height * 4) by (nonlinear_arith)
            requires
                x < m.width,
                y < m.height,
        ;
    }

    /// Pixels at distinct coordinates occupy disjoint byte ranges.
    proof fn lemma_offsets_disjoint(m: SurfaceModel, x: nat, y: nat, x2: nat, y2: nat)
        requires
            m.wf(),
            x < m.width,
            y < m.height,
            x2 < m.width,
            y2 < m.height,
            !(x2 == x && y2 == y),
        ensures
            m.byte_offset(x, y) + 4 <= m.byte_offset(x2, y2) || m.byte_offset(x2, y2) + 4
                <= m.byte_offset(x, y),
    {
        let o1 = m.byte_offset(x, y);
        let o2 = m.byte_offset(x2, y2);
        assert(o1 + 4 <= o2 || o2 + 4 <= o1) by (nonlinear_arith)
            requires
                o1 == y * (m.width * 4) + x * 4,
                o2 == y2 * (m.width * 4) + x2 * 4,
                x < m.width,
                x2 < m.width,
                !(x2 == x && y2 == y),
        ;
    }

    /// Pixel packing round trip: writing byte tuple `(b, g, r, a)` at `(x, y)`
    /// and reading back through the offset formula `y * stride + x * 4` yields
    /// the same four bytes.
    pub proof fn lemma_pixel_round_trip(
        m: SurfaceModel,
        x: nat,
        y: nat,
        b: u8,
        g: u8,
        r: u8,
        a: u8,
    )
        requires
            m.wf(),
            x < m.width,
            y < m.height,
        ensures
            m.with_pixel(x, y, b, g, r, a).pixel_at(x, y) == (b, g, r, a),
    {
        Self::lemma_offset_in_bounds(m, x, y);
    }

    /// Writing one pixel leaves every other pixel of the surface unchanged.
    pub proof fn lemma_write_other_pixels(
        m: SurfaceModel,
        x: nat,
        y: nat,
        b: u8,
        g: u8,
        r: u8,
        a: u8,
        x2: nat,
        y2: nat,
    )
        requires
            m.wf(),
            x < m.width,
            y < m.height,
            x2 < m.width,
            y2 < m.height,
            !(x2 == x && y2 == y),
        ensures
            m.with_pixel(x, y, b, g, r, a).pixel_at(x2, y2) == m.pixel_at(x2, y2),
    {
        Self::lemma_offset_in_bounds(m, x, y);
        Self::lemma_offset_in_bounds(m, x2, y2);
        Self::lemma_offsets_disjoint(m, x, y, x2, y2);
    }

    /// Computes a pixel's byte offset, `y * stride + x * 4`, with the proof
    /// that its four bytes lie inside the memory block.
    fn pixel_offset(&self, x: u32, y: u32) -> (off: usize)
        requires
            self@.wf(),
            x < self@.width,
            y < self@.height,
        ensures
            off == self@.byte_offset(x as nat, y as nat),
            off + 4 <= self@.bytes.len(),
            off + 4 <= usize::MAX,
    {
        proof {
            Self::lemma_offset_in_bounds(self@, x as nat, y as nat);
        }
        let n: usize = self.memory.len();
        let off: usize = (y as usize) * self.stride + (x as usize) * 4;
        proof {
            assert(off + 4 <= n);
        }
        off
    }

    /// Writes the byte tuple `(b, g, r, a)` — blue, green, red, alpha, low to
    /// high address — at column `x`, row `y`.
    pub fn write_pixel(&mut self, x: u32, y: u32, b: u8, g: u8, r: u8, a: u8)
        requires
            old(self)@.wf(),
            x < old(self)@.width,
            y < old(self)@.height,
        ensures
            final(self)@ =~= old(self)@.with_pixel(x as nat, y as nat, b, g, r, a),
            final(self)@.wf(),
    {
        let off = self.pixel_offset(x, y);
        self.memory[off] = b;
        self.memory[off + 1] = g;
        self.memory[off + 2] = r;
        self.memory[off + 3] = a;
    }

    /// Reads the byte tuple at column `x`, row `y`, in the same order the
    /// writer packs it: blue, green, red, alpha.
    pub fn read_pixel(&self, x: u32, y: u32) -> (pixel: (u8, u8, u8, u8))
        requires
            self@.wf(),
            x < self@.width,
            y < self@.height,
        ensures
            pixel == self@.pixel_at(x as nat, y as nat),
    {
        let off = self.pixel_offset(x, y);
        (self.memory[off], self.memory[off + 1], self.memory[off + 2], self.memory[off + 3])
    }

    /// One channel of the test pattern: a wrapping coordinate-plus-offset
    /// sum, truncated to its low byte.
    fn gradient_channel_exec(coord: u32, offset: u32) -> (channel: u8)
        ensures
            channel == gradient_channel(coord as nat, offset as nat),
    {
        let sum: u32 = coord.wrapping_add(offset);
        let channel: u8 = (sum % 256) as u8;
        proof {
            if coord + offset > u32::MAX {
                vstd::arithmetic::div_mod::lemma_mod_multiples_vanish(
                    -16777216,
                    coord + offset,
                    256,
                );
                assert(256 * (-16777216int) + (coord + offset) == coord + offset
                    - 0x1_0000_0000int);
            }
        }
        channel
    }

    /// Fills the whole surface with the deterministic scrolling test
    /// pattern for the given animation offsets, leaving geometry and the
    /// release count untouched.
    pub fn render_gradient(&mut self, x_offset: u32, y_offset: u32)
        requires
            old(self)@.wf(),
        ensures
            final(self)@.wf(),
            final(self)@.width == old(self)@.width,
            final(self)@.height == old(self)@.height,
            final(self)@.stride == old(self)@.stride,
            final(self)@.releases == old(self)@.releases,
            final(self)@.bytes.len() == old(self)@.bytes.len(),
            has_gradient(final(self)@, x_offset, y_offset),
    {
        let width = self.width;
        let height = self.height;
        let ghost orig = self@;
        let mut y: u32 = 0;
        while y < height
            invariant
                self@.wf(),
                self@.width == orig.width,
                self@.height == orig.height,
                self@.stride == orig.stride,
                self@.releases == orig.releases,
                self@.bytes.len() == orig.bytes.len(),
                width == orig.width,
                height == orig.height,
                y <= height,
                forall|xx: nat, yy: nat|
                    xx < self@.width && yy < y ==> #[trigger] self@.pixel_at(xx, yy) == (
                    gradient_channel(xx, x_offset as nat),
                    gradient_channel(yy, y_offset as nat),
                    0u8,
                    255u8,
                    ),
            decreases height - y,
        {
            let mut x: u32 = 0;
            while x < width
                invariant
                    self@.wf(),
                    self@.width == orig.width,
                    self@.height == orig.height,
                    self@.stride == orig.stride,
                    self@.releases == orig.releases,
                    self@.bytes.len() == orig.bytes.len(),
                    width == orig.width,
                    height == orig.height,
                    y < height,
                    x <= width,
                    forall|xx: nat, yy: nat|
                        xx < self@.width && yy < y ==> #[trigger] self@.pixel_at(xx, yy) == (
                        gradient_channel(xx, x_offset as nat),
                        gradient_channel(yy, y_offset as nat),
                        0u8,
                        255u8,
                        ),
                    forall|xx: nat|
                        xx < x ==> #[trigger] self@.pixel_at(xx, y as nat) == (
                        gradient_channel(xx, x_offset as nat),
                        gradient_channel(y as nat, y_offset as nat),
                        0u8,
                        255u8,
                        ),
                decreases width - x,
            {
                let blue = Self::gradient_channel_exec(x, x_offset);
                let green = Self::gradient_channel_exec(y, y_offset);
                let ghost before = self@;
                self.write_pixel(x, y, blue, green, 0, 255);
                proof {
                    Self::lemma_pixel_round_trip(
                        before,
                        x as nat,
                        y as nat,
                        blue,
                        green,
                        0u8,
                        255u8,
                    );
                    assert forall|xx: nat, yy: nat|
                        xx < self@.width && yy < y implies #[trigger] self@.pixel_at(xx, yy) == (
                        gradient_channel(xx, x_offset as nat),
                        gradient_channel(yy, y_offset as nat),
                        0u8,
                        255u8,
                    ) by {
                        Self::lemma_write_other_pixels(
                            before,
                            x as nat,
                            y as nat,
                            blue,
                            green,
                            0u8,
                            255u8,
                            xx,
                            yy,
                        );
                    }
                    assert forall|xx: nat| xx < x implies #[trigger] self@.pixel_at(xx, y as nat)
                        == (
                        gradient_channel(xx, x_offset as nat),
                        gradient_channel(y as nat, y_offset as nat),
                        0u8,
                        255u8,
                    ) by {
                        Self::lemma_write_other_pixels(
                            before,
                            x as nat,
                            y as nat,
                            blue,
                            green,
                            0u8,
                            255u8,
                            xx,
                            y as nat,
                        );
                    }
                }
                x += 1;
            }
            y += 1;
        }
    }

    /// Prepares one present: packages the source geometry, the top-down
    /// 32-bit format descriptor and the destination size for the external
    /// blit facility. The pixel bytes travel separately through
    /// [`Self::bytes`], a read-only view.
    pub fn present_request(&self, target_width: i32, target_height: i32) -> (request:
        PresentRequest)
        requires
            self@.wf(),
            self@.is_allocated(),
        ensures
            request.descriptor.header_size == BITMAP_HEADER_SIZE,
            request.descriptor.width == self@.width,
            request.descriptor.height == -(self@.height as int),
            request.descriptor.planes == 1,
            request.descriptor.bit_count == 32,
            request.src_width == self@.width,
            request.src_height == self@.height,
            request.stride == self@.stride,
            request.target_width == target_width,
            request.target_height == target_height,
    {
        PresentRequest {
            descriptor: BitmapDescriptor {
                header_size: BITMAP_HEADER_SIZE,
                width: self.width as i32,
                height: -(self.height as i32),
                planes: 1,
                bit_count: 32,
            },
            src_width: self.width,
            src_height: self.height,
            stride: self.stride,
            target_width,
            target_height,
        }
    }

    /// Read-only view of the pixel memory, for the duration of a present.
    pub fn bytes(&self) -> (memory: &Vec<u8>)
        ensures
            memory@ == self@.bytes,
    {
        &self.memory
    }

    /// Current surface width in pixels.
    pub fn width(&self) -> (w: u32)
        ensures
            w == self@.width,
    {
        self.width
    }

    /// Current surface height in pixels.
    pub fn height(&self) -> (h: u32)
        ensures
            h == self@.height,
    {
        self.height
    }

    /// Bytes per row; always `width * 4`, with no padding.
    pub fn stride(&self) -> (s: usize)
        ensures
            s == self@.stride,
    {
        self.stride
    }

    /// Byte length of the owned memory block.
    pub fn byte_len(&self) -> (n: usize)
        ensures
            n == self@.bytes.len(),
    {
        self.memory.len()
    }
}

} // verus!
