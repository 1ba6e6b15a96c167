use vstd::prelude::*;
use vstd::arithmetic::div_mod::{lemma_fundamental_div_mod, lemma_fundamental_div_mod_converse};
use crate::error::ErrorKind;
use crate::graphics::enums::PixelFormat;

verus! {

/// Whether memory index `i` lies in the `w` x `h` rectangle at (`x`, `y`) of
/// an image whose rows start `pitch` words apart.
pub open spec fn in_rect(i: int, pitch: int, x: int, y: int, w: int, h: int) -> bool {
    y <= i / pitch < y + h && x <= i % pitch < x + w
}

/// The pixel index, within the rectangle's row-major pixels, of memory index `i`.
pub open spec fn rect_offset(i: int, pitch: int, x: int, y: int, w: int) -> int {
    (i / pitch - y) * w + (i % pitch - x)
}

/// `mem` with the first `k` pixels of `pixels` (row-major, `w` per row)
/// copied into the rectangle at (`x`, `y`).
pub open spec fn painted(
    mem: Seq<u32>,
    pitch: int,
    x: int,
    y: int,
    w: int,
    h: int,
    pixels: Seq<u32>,
    k: int,
) -> Seq<u32> {
    Seq::new(
        mem.len(),
        |i: int|
            if in_rect(i, pitch, x, y, w, h) && rect_offset(i, pitch, x, y, w) < k {
                pixels[rect_offset(i, pitch, x, y, w)]
            } else {
                mem[i]
            },
    )
}

/// `mem` after writing the whole rectangle of `pixels`; every row lands at
/// its own `pitch`-aligned offset and nothing outside the rectangle changes.
pub open spec fn rect_written(
    mem: Seq<u32>,
    pitch: int,
    x: int,
    y: int,
    w: int,
    h: int,
    pixels: Seq<u32>,
) -> Seq<u32> {
    painted(mem, pitch, x, y, w, h, pixels, w * h)
}

/// The `w` x `h` rectangle at (`x`, `y`) of `mem`, row-major.
pub open spec fn rect_read(mem: Seq<u32>, pitch: int, x: int, y: int, w: int, h: int) -> Seq<u32> {
    Seq::new((w * h) as nat, |j: int| mem[(y + j / w) * pitch + x + j % w])
}

/// Index `q * d + r` has quotient `q` and remainder `r`.
proof fn lemma_split(i: int, d: int, q: int, r: int)
    requires
        d > 0,
        0 <= r < d,
        i == q * d + r,
    ensures
        i / d == q,
        i % d == r,
{
    lemma_fundamental_div_mod_converse(i, d, q, r);
}

/// Two row-major positions with columns under `w` are equal only when
/// their rows and columns are.
proof fn lemma_unique_pos(a: int, b: int, c: int, d: int, w: int)
    requires
        w > 0,
        0 <= b < w,
        0 <= d < w,
        a * w + b == c * w + d,
    ensures
        a == c,
        b == d,
{
    lemma_split(a * w + b, w, a, b);
    lemma_split(c * w + d, w, c, d);
}

/// Writing pixel `k = r * w + c` at its place extends the painting by one.
proof fn lemma_paint_step(
    mem: Seq<u32>,
    pitch: int,
    x: int,
    y: int,
    w: int,
    h: int,
    pixels: Seq<u32>,
    r: int,
    c: int,
)
    requires
        0 <= x,
        0 <= y,
        0 <= r < h,
        0 <= c < w,
        x + w <= pitch,
        (y + r) * pitch + x + c < mem.len(),
    ensures
        painted(mem, pitch, x, y, w, h, pixels, r * w + c + 1) == painted(
            mem,
            pitch,
            x,
            y,
            w,
            h,
            pixels,
            r * w + c,
        ).update((y + r) * pitch + x + c, pixels[r * w + c]),
{
    let k = r * w + c;
    let i0 = (y + r) * pitch + x + c;
    let before = painted(mem, pitch, x, y, w, h, pixels, k);
    let after = painted(mem, pitch, x, y, w, h, pixels, k + 1);
    lemma_split(i0, pitch, y + r, x + c);
    assert forall|i: int| 0 <= i < mem.len() implies #[trigger] after[i] == before.update(
        i0,
        pixels[k],
    )[i] by {
        if i != i0 && in_rect(i, pitch, x, y, w, h) {
            let q = i / pitch;
            let cc = i % pitch;
            lemma_fundamental_div_mod(i, pitch);
            if rect_offset(i, pitch, x, y, w) == k {
                lemma_unique_pos(q - y, cc - x, r, c, w);
                assert(i == pitch * q + cc);
                assert(i == q * pitch + cc) by (nonlinear_arith)
                    requires
                        i == pitch * q + cc,
                ;
            }
        }
    }
    assert(after =~= before.update(i0, pixels[k]));
}

/// A rectangle read back after it was written holds the pixels written.
pub proof fn lemma_write_read_round_trip(
    mem: Seq<u32>,
    pitch: int,
    x: int,
    y: int,
    w: int,
    h: int,
    pixels: Seq<u32>,
)
    requires
        0 <= x,
        0 <= y,
        0 < w,
        0 <= h,
        x + w <= pitch,
        (y + h) * pitch <= mem.len(),
        pixels.len() == w * h,
    ensures
        rect_read(rect_written(mem, pitch, x, y, w, h, pixels), pitch, x, y, w, h) == pixels,
{
    let out = rect_read(rect_written(mem, pitch, x, y, w, h, pixels), pitch, x, y, w, h);
    assert forall|j: int| 0 <= j < w * h implies #[trigger] out[j] == pixels[j] by {
        let r = j / w;
        let c = j % w;
        lemma_fundamental_div_mod(j, w);
        assert(j == r * w + c) by (nonlinear_arith)
            requires
                j == w * r + c,
        ;
        assert(0 <= c < w);
        assert(0 <= r < h) by (nonlinear_arith)
            requires
                j == r * w + c,
                0 <= c < w,
                0 <= j < w * h,
        ;
        let i = (y + r) * pitch + x + c;
        assert((y + r) * pitch + pitch == (y + r + 1) * pitch) by (nonlinear_arith);
        assert((y + r + 1) * pitch <= (y + h) * pitch) by (nonlinear_arith)
            requires
                r + 1 <= h,
                0 < pitch,
        ;
        assert(0 <= i) by (nonlinear_arith)
            requires
                i == (y + r) * pitch + x + c,
                0 <= x,
                0 <= y,
                0 <= r,
                0 <= c,
                0 < pitch,
        ;
        lemma_split(i, pitch, y + r, x + c);
    }
    assert(out =~= pixels);
}

/// An allocated block of pixel memory: fixed width and height, a row
/// stride in bytes chosen by the hardware, 4 bytes per pixel.
///
/// The pixel memory itself is reached only while mapped; `write` and `read`
/// take the mapped words, `stride / 4` of them per row.
#[derive(Debug)]
pub struct Buffer {
    width: u32,
    height: u32,
    handle: u32,
    stride: u32,
    bpp: u32,
    format: PixelFormat,
}

impl Buffer {
    pub closed spec fn spec_width(&self) -> nat {
        self.width as nat
    }

    pub closed spec fn spec_height(&self) -> nat {
        self.height as nat
    }

    pub closed spec fn spec_handle(&self) -> u32 {
        self.handle
    }

    pub closed spec fn spec_stride(&self) -> u32 {
        self.stride
    }

    pub closed spec fn spec_bpp(&self) -> u32 {
        self.bpp
    }

    pub closed spec fn spec_format(&self) -> PixelFormat {
        self.format
    }

    /// Words from the start of one row to the start of the next.
    pub open spec fn pitch(&self) -> nat {
        self.spec_stride() as nat / 4
    }

    /// Each row fits within its stride.
    pub open spec fn wf(&self) -> bool {
        4 * self.spec_width() <= self.spec_stride()
    }

    /// A row of a well-formed buffer fits in its pitch.
    pub proof fn lemma_row_fits(&self)
        requires
            self.wf(),
        ensures
            self.spec_width() <= self.pitch(),
    {
        lemma_fundamental_div_mod(self.spec_stride() as int, 4);
    }

    /// Words of mapped memory the whole buffer spans.
    pub open spec fn mapped_len(&self) -> nat {
        self.pitch() * self.spec_height()
    }

    /// Whether a write of `w` x `h` pixels at (`x`, `y`) lies in the buffer.
    pub open spec fn fits(&self, x: nat, y: nat, w: nat, h: nat) -> bool {
        x + w <= self.spec_width() && y + h <= self.spec_height()
    }

    /// The outcome of checking a write of `count` pixels as `w` x `h` at
    /// (`x`, `y`): a pixel-count mismatch first, then the bounds.
    pub open spec fn write_check(&self, x: nat, y: nat, w: nat, h: nat, count: nat) -> Result<
        (),
        ErrorKind,
    > {
        if count != w * h {
            Err(ErrorKind::BUFFER_INVALID_PIXELS)
        } else if !self.fits(x, y, w, h) {
            Err(ErrorKind::BUFFER_OUT_OF_BOUNDS)
        } else {
            Ok(())
        }
    }

    /// A buffer of `width` x `height` pixels that the hardware allocated with
    /// the given handle, stride and bits per pixel; `None` where allocation
    /// failed. A stride too small for a row is refused too.
    pub fn new(
        width: u32,
        height: u32,
        format: PixelFormat,
        allocation: Option<(u32, u32, u32)>,
    ) -> (r: Result<Buffer, ErrorKind>)
        ensures
            match allocation {
                None => r == Err::<Buffer, ErrorKind>(ErrorKind::BUFFER_CREATE_FAILED),
                Some((handle, stride, bpp)) => if 4 * (width as int) <= stride {
                    (r matches Ok(b) && b.wf() && b.spec_width() == width && b.spec_height()
                        == height && b.spec_handle() == handle && b.spec_stride() == stride
                        && b.spec_bpp() == bpp && b.spec_format() == format)
                } else {
                    r == Err::<Buffer, ErrorKind>(ErrorKind::BUFFER_CREATE_FAILED)
                },
            },
    {
        match allocation {
            None => Err(ErrorKind::BUFFER_CREATE_FAILED),
            Some((handle, stride, bpp)) => {
                if (width as u64) * 4 <= stride as u64 {
                    Ok(Buffer { width, height, handle, stride, bpp, format })
                } else {
                    Err(ErrorKind::BUFFER_CREATE_FAILED)
                }
            },
        }
    }

    pub fn width(&self) -> (r: u32)
        ensures
            r == self.spec_width(),
    {
        self.width
    }

    pub fn height(&self) -> (r: u32)
        ensures
            r == self.spec_height(),
    {
        self.height
    }

    pub fn handle(&self) -> (r: u32)
        ensures
            r == self.spec_handle(),
    {
        self.handle
    }

    pub fn stride(&self) -> (r: u32)
        ensures
            r == self.spec_stride(),
    {
        self.stride
    }

    pub fn bpp(&self) -> (r: u32)
        ensures
            r == self.spec_bpp(),
    {
        self.bpp
    }

    pub fn format(&self) -> (r: PixelFormat)
        ensures
            r == self.spec_format(),
    {
        self.format
    }

    /// Checks a write of `count` pixels as `w` x `h` at (`x`, `y`).
    pub fn check_write(&self, x: u32, y: u32, w: u32, h: u32, count: usize) -> (r: Result<
        (),
        ErrorKind,
    >)
        ensures
            r == self.write_check(x as nat, y as nat, w as nat, h as nat, count as nat),
    {
        assert((w as int) * (h as int) <= 0xffff_ffffint * 0xffff_ffffint) by (nonlinear_arith)
            requires
                0 <= w <= 0xffff_ffff,
                0 <= h <= 0xffff_ffff,
        ;
        if count as u64 != (w as u64) * (h as u64) {
            Err(ErrorKind::BUFFER_INVALID_PIXELS)
        } else if (x as u64) + (w as u64) > self.width as u64 || (y as u64) + (h as u64)
            > self.height as u64 {
            Err(ErrorKind::BUFFER_OUT_OF_BOUNDS)
        } else {
            Ok(())
        }
    }

    /// Copies `pixels`, `w` per row, into the rectangle at (`x`, `y`) of the
    /// mapped memory, row by row at stride-aligned offsets. A pixel count
    /// other than `w * h`, or a rectangle reaching past the buffer, is
    /// refused and leaves the memory as it was.
    pub fn write(&self, x: u32, y: u32, w: u32, h: u32, pixels: &[u32], mapped: &mut [u32]) -> (r:
        Result<(), ErrorKind>)
        requires
            self.wf(),
            old(mapped)@.len() >= self.mapped_len(),
        ensures
            r == self.write_check(x as nat, y as nat, w as nat, h as nat, pixels@.len()),
            r is Ok ==> final(mapped)@ == rect_written(
                old(mapped)@,
                self.pitch() as int,
                x as int,
                y as int,
                w as int,
                h as int,
                pixels@,
            ),
            r is Err ==> final(mapped)@ == old(mapped)@,
    {
        let checked = self.check_write(x, y, w, h, pixels.len());
        if checked.is_err() {
            return checked;
        }
        let pitch = (self.stride / 4) as usize;
        proof {
            self.lemma_row_fits();
        }
        let mapped_len = mapped.len();
        let pixels_len = pixels.len();
        let ghost mem0 = mapped@;
        let ghost pi = pitch as int;
        let x = x as usize;
        let y = y as usize;
        let w = w as usize;
        let h = h as usize;
        let mut r: usize = 0;
        while r < h
            invariant
                self.wf(),
                pitch == self.pitch(),
                pi == pitch,
                x + w <= pitch,
                x + w <= self.spec_width(),
                y + h <= self.spec_height(),
                pixels@.len() == w * h,
                pixels@.len() == pixels_len,
                mapped@.len() == mem0.len(),
                mem0.len() >= pitch * self.spec_height(),
                mem0.len() == mapped_len,
                r <= h,
                mapped@ == painted(mem0, pi, x as int, y as int, w as int, h as int, pixels@, r * w),
            decreases h - r,
        {
            let mut c: usize = 0;
            while c < w
                invariant
                    self.wf(),
                    pitch == self.pitch(),
                    pi == pitch,
                    x + w <= pitch,
                    x + w <= self.spec_width(),
                    y + h <= self.spec_height(),
                    pixels@.len() == w * h,
                    pixels@.len() == pixels_len,
                    mapped@.len() == mem0.len(),
                    mem0.len() >= pitch * self.spec_height(),
                    mem0.len() == mapped_len,
                    r < h,
                    c <= w,
                    mapped@ == painted(
                        mem0,
                        pi,
                        x as int,
                        y as int,
                        w as int,
                        h as int,
                        pixels@,
                        r * w + c,
                    ),
                decreases w - c,
            {
                assert((y + r) * pitch + x + c < pitch * self.spec_height()) by (nonlinear_arith)
                    requires
                        x + c < pitch,
                        y + r < self.spec_height(),
                ;
                assert(r * w + c < w * h) by (nonlinear_arith)
                    requires
                        r < h,
                        c < w,
                ;
                let i = (y + r) * pitch + x + c;
                let k = r * w + c;
                mapped[i] = pixels[k];
                proof {
                    lemma_paint_step(mem0, pi, x as int, y as int, w as int, h as int, pixels@, r as int, c as int);
                }
                c = c + 1;
            }
            assert(r * w + w == (r + 1) * w) by (nonlinear_arith);
            r = r + 1;
        }
        assert(r * w == w * h) by (nonlinear_arith)
            requires
                r == h,
        ;
        Ok(())
    }

    /// Fills the whole buffer in the mapped memory with 0.
    pub fn clear(&self, mapped: &mut [u32]) -> (r: Result<(), ErrorKind>)
        requires
            self.wf(),
            old(mapped)@.len() >= self.mapped_len(),
        ensures
            r is Ok,
            final(mapped)@ == rect_written(
                old(mapped)@,
                self.pitch() as int,
                0,
                0,
                self.spec_width() as int,
                self.spec_height() as int,
                Seq::new(self.spec_width() * self.spec_height(), |i: int| 0u32),
            ),
    {
        proof {
            self.lemma_row_fits();
        }
        let n = mapped.len();
        assert(self.spec_width() * self.spec_height() <= self.pitch() * self.spec_height()) by (nonlinear_arith)
            requires
                self.spec_width() <= self.pitch(),
        ;
        let count = (self.width as usize) * (self.height as usize);
        let zeros: Vec<u32> = vec![0u32; count];
        proof {
            assert(zeros@ =~= Seq::new(self.spec_width() * self.spec_height(), |i: int| 0u32));
        }
        self.write(0, 0, self.width, self.height, zeros.as_slice(), mapped)
    }

    /// The `w` x `h` rectangle at (`x`, `y`) of the mapped memory, row-major.
    /// A rectangle reaching past the buffer is refused.
    pub fn read(&self, x: u32, y: u32, w: u32, h: u32, mapped: &[u32]) -> (r: Result<
        Vec<u32>,
        ErrorKind,
    >)
        requires
            self.wf(),
            mapped@.len() >= self.mapped_len(),
        ensures
            self.fits(x as nat, y as nat, w as nat, h as nat) ==> (r matches Ok(v) && v@ == rect_read(
                mapped@,
                self.pitch() as int,
                x as int,
                y as int,
                w as int,
                h as int,
            )),
            !self.fits(x as nat, y as nat, w as nat, h as nat) ==> r == Err::<Vec<u32>, ErrorKind>(
                ErrorKind::BUFFER_OUT_OF_BOUNDS,
            ),
    {
        if (x as u64) + (w as u64) > self.width as u64 || (y as u64) + (h as u64)
            > self.height as u64 {
            return Err(ErrorKind::BUFFER_OUT_OF_BOUNDS);
        }
        let pitch = (self.stride / 4) as usize;
        proof {
            self.lemma_row_fits();
        }
        let mapped_len = mapped.len();
        let ghost pi = pitch as int;
        let x = x as usize;
        let y = y as usize;
        let w = w as usize;
        let h = h as usize;
        let ghost want = rect_read(mapped@, pi, x as int, y as int, w as int, h as int);
        assert(want.len() == w * h);
        let mut out: Vec<u32> = Vec::new();
        let mut r: usize = 0;
        while r < h
            invariant
                self.wf(),
                pitch == self.pitch(),
                pi == pitch,
                x + w <= pitch,
                x + w <= self.spec_width(),
                y + h <= self.spec_height(),
                mapped@.len() >= pitch * self.spec_height(),
                mapped@.len() == mapped_len,
                want == rect_read(mapped@, pi, x as int, y as int, w as int, h as int),
                want.len() == w * h,
                r <= h,
                out@ == want.subrange(0, r * w),
            decreases h - r,
        {
            let mut c: usize = 0;
            while c < w
                invariant
                    self.wf(),
                    pitch == self.pitch(),
                    pi == pitch,
                    x + w <= pitch,
                    x + w <= self.spec_width(),
                    y + h <= self.spec_height(),
                    mapped@.len() >= pitch * self.spec_height(),
                    mapped@.len() == mapped_len,
                    want == rect_read(mapped@, pi, x as int, y as int, w as int, h as int),
                    want.len() == w * h,
                    r < h,
                    c <= w,
                    out@ == want.subrange(0, r * w + c),
                decreases w - c,
            {
                assert((y + r) * pitch + x + c < pitch * self.spec_height()) by (nonlinear_arith)
                    requires
                        x + c < pitch,
                        y + r < self.spec_height(),
                ;
                assert(r * w + c < w * h) by (nonlinear_arith)
                    requires
                        r < h,
                        c < w,
                ;
                let v = mapped[(y + r) * pitch + x + c];
                proof {
                    let k: int = r * w + c;
                    lemma_split(k, w as int, r as int, c as int);
                    assert(want[k] == v);
                }
                out.push(v);
                proof {
                    assert(out@ =~= want.subrange(0, r * w + c + 1));
                }
                c = c + 1;
            }
            assert(r * w + w == (r + 1) * w) by (nonlinear_arith);
            r = r + 1;
        }
        assert(r * w == w * h) by (nonlinear_arith)
            requires
                r == h,
        ;
        assert(out@ =~= want);
        Ok(out)
    }
}

/// Writing a rectangle into a buffer's mapped memory and then reading the
/// same rectangle gives back the pixels written, for every write the buffer
/// accepts.
pub proof fn lemma_buffer_round_trip(
    b: Buffer,
    mem: Seq<u32>,
    x: nat,
    y: nat,
    w: nat,
    h: nat,
    pixels: Seq<u32>,
)
    requires
        b.wf(),
        mem.len() >= b.mapped_len(),
        b.write_check(x, y, w, h, pixels.len()) is Ok,
    ensures
        rect_read(
            rect_written(mem, b.pitch() as int, x as int, y as int, w as int, h as int, pixels),
            b.pitch() as int,
            x as int,
            y as int,
            w as int,
            h as int,
        ) == pixels,
{
    let p = b.pitch() as int;
    let written = rect_written(mem, p, x as int, y as int, w as int, h as int, pixels);
    if w == 0 {
        assert(w * h == 0) by (nonlinear_arith)
            requires
                w == 0,
        ;
        assert(rect_read(written, p, x as int, y as int, w as int, h as int) =~= pixels);
    } else {
        b.lemma_row_fits();
        assert((y + h) * p <= b.spec_height() * p) by (nonlinear_arith)
            requires
                y + h <= b.spec_height(),
                0 <= p,
        ;
        assert(b.spec_height() * p == b.mapped_len()) by (nonlinear_arith)
            requires
                p == b.pitch(),
        ;
        lemma_write_read_round_trip(mem, p, x as int, y as int, w as int, h as int, pixels);
    }
}

} // verus!
