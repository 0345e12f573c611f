//! The frame of a render: its size, its samples, and its bytes in memory.
use crate::scalar::{spec_abs, spec_clamp, spec_is_number, spec_le, spec_same, Scalar};
use crate::util::clamp;
use crate::vector::Color;
use vstd::arithmetic::div_mod::{
    lemma_basic_div, lemma_div_denominator, lemma_div_is_ordered,
    lemma_div_is_ordered_by_denominator, lemma_fundamental_div_mod,
};
use vstd::arithmetic::power2::{
    lemma2_to64_rest, lemma_pow2_pos, lemma_pow2_strictly_increases, lemma_pow2_unfold, pow2,
};
use vstd::bits::lemma_u64_shr_is_div;
use vstd::prelude::*;

verus! {

/// The pattern of the brightest channel that is written down, 0.999.
pub const BRIGHTEST_BITS: u64 = 0x3FEF_F7CE_D916_872B;

/// Two to the power 52: the leading bit of a significand, one above the 52
/// bits that a pattern stores of it.
pub const LEADING_BIT: u64 = 0x0010_0000_0000_0000;

/// What is fixed for the whole of one render.
#[derive(Clone, Copy, Debug, PartialEq, Eq, Structural)]
pub struct Renderer {
    pub image_width: i32,
    pub image_height: i32,
    pub samples_per_pixel: i32,
    pub max_depth: i32,
}

/// The height of a frame three wide for every two high: two thirds of the
/// width, rounded toward zero.
pub open spec fn spec_image_height(image_width: int) -> int {
    if image_width >= 0 {
        2 * image_width / 3
    } else {
        -(2 * (-image_width) / 3)
    }
}

/// The byte that stands for a channel between zero and 0.999: the whole part
/// of 256 times its value. A pattern with exponent field `e` above zero and
/// fraction field `f` has the value `(2^52 + f) * 2^(e - 1075)`; with the
/// exponent field zero the value is smaller still, and far below 1/256.
pub open spec fn spec_channel_byte(x: Scalar) -> int {
    let magnitude = spec_abs(x).bits;
    ((LEADING_BIT + magnitude % LEADING_BIT) / (pow2((1067 - magnitude / LEADING_BIT) as nat)
        as int))
}

/// The byte that stands for a channel after gamma correction: that of the
/// channel held to the interval from zero to 0.999, and zero for a channel
/// that is no number.
pub open spec fn spec_pixel_byte(x: Scalar) -> int {
    if spec_is_number(x) {
        spec_channel_byte(spec_clamp(x, Scalar { bits: 0 }, Scalar { bits: BRIGHTEST_BITS }))
    } else {
        0
    }
}

/// The three bytes of a pixel whose colour after gamma correction is `corrected`.
pub open spec fn spec_pixel_to_rgb(corrected: Color) -> Seq<u8> {
    seq![
        spec_pixel_byte(corrected.x) as u8,
        spec_pixel_byte(corrected.y) as u8,
        spec_pixel_byte(corrected.z) as u8,
    ]
}

/// The frame in which pixel `slot` of `frame` has become `pixel`: three bytes
/// change, from place `3 * slot` on.
pub open spec fn spec_store(frame: Seq<u8>, slot: int, pixel: Seq<u8>) -> Seq<u8> {
    frame.update(3 * slot, pixel[0]).update(3 * slot + 1, pixel[1]).update(3 * slot + 2, pixel[2])
}

/// The frame after the pixels were stored one by one, slot `order[0]` first.
pub open spec fn spec_store_all(frame: Seq<u8>, order: Seq<int>, pixels: Seq<Seq<u8>>) -> Seq<u8>
    decreases order.len(),
{
    if order.len() == 0 {
        frame
    } else {
        spec_store(
            spec_store_all(frame, order.drop_last(), pixels),
            order.last(),
            pixels[order.last()],
        )
    }
}

/// Whether pixel `slot` is among those stored in `order`.
pub open spec fn spec_was_stored(order: Seq<int>, slot: int) -> bool {
    exists|k: int| 0 <= k < order.len() && order[k] == slot
}

/// The bytes of a frame whose pixels are `pixels`: red, green and blue of
/// pixel 0, then of pixel 1, and so on.
pub open spec fn spec_frame(pixels: Seq<Seq<u8>>) -> Seq<u8> {
    Seq::new(3 * pixels.len(), |i: int| pixels[i / 3][i % 3])
}

impl Renderer {
    /// The number of pixels of the frame; a frame without width or height has none.
    pub open spec fn spec_pixels(&self) -> int {
        if self.image_width > 0 && self.image_height > 0 {
            self.image_width * self.image_height
        } else {
            0
        }
    }

    /// The column and the line of the pixel that task `slot` renders.
    pub open spec fn spec_pixel_of(&self, slot: int) -> (int, int) {
        (slot % self.image_width as int, self.image_height - 1 - slot / self.image_width as int)
    }

    /// The settings of a render of the given width, three wide for every two high.
    pub fn sample(image_width: i32, samples_per_pixel: i32, max_depth: i32) -> (r: Renderer)
        ensures
            r.image_width == image_width,
            r.image_height == spec_image_height(image_width as int),
            r.samples_per_pixel == samples_per_pixel,
            r.max_depth == max_depth,
    {
        let wide: i64 = image_width as i64;
        let high: i64 = (2 * wide) / 3;
        Renderer { image_width, image_height: high as i32, samples_per_pixel, max_depth }
    }

    /// The number of pixels of the frame.
    pub fn pixels(&self) -> (n: u64)
        ensures
            n == self.spec_pixels(),
            3 * n <= u64::MAX,
    {
        if self.image_width > 0 && self.image_height > 0 {
            let w: u64 = self.image_width as u64;
            let h: u64 = self.image_height as u64;
            assert(w * h <= 0x7fff_ffff * 0x7fff_ffff) by (nonlinear_arith)
                requires
                    0 < w <= 0x7fff_ffff,
                    0 < h <= 0x7fff_ffff,
            ;
            w * h
        } else {
            0
        }
    }

    /// The number of bytes of the frame: three to a pixel.
    pub fn buffer_len(&self) -> (n: u64)
        ensures
            n == 3 * self.spec_pixels(),
    {
        3 * self.pixels()
    }

    /// The frame before anything is drawn: three zero bytes to a pixel.
    pub fn blank(&self) -> (frame: Vec<u8>)
        requires
            3 * self.spec_pixels() <= usize::MAX,
        ensures
            frame@.len() == 3 * self.spec_pixels(),
            forall|i: int| 0 <= i < frame@.len() ==> frame@[i] == 0,
    {
        let n: u64 = self.buffer_len();
        vec![0u8; n as usize]
    }

    /// The pixel that task `slot` renders, as its column and its line. The
    /// slots run along the rows of the image from its top row down, and the
    /// lines of the camera are counted upward from zero, so slot 0 has the
    /// highest line, one below the height.
    pub fn pixel_of(&self, slot: u64) -> (r: (i32, i32))
        requires
            slot < self.spec_pixels(),
        ensures
            (r.0 as int, r.1 as int) == self.spec_pixel_of(slot as int),
            0 <= r.0 < self.image_width,
            0 <= r.1 < self.image_height,
            r.1 == self.image_height - 1 - slot as int / self.image_width as int,
    {
        let w: u64 = self.image_width as u64;
        let x: u64 = slot % w;
        let y: u64 = slot / w;
        assert(y < self.image_height) by (nonlinear_arith)
            requires
                w > 0,
                slot < w * self.image_height,
                y == slot / w,
        ;
        (x as i32, self.image_height - 1 - y as i32)
    }

    /// The camera line that row `row` of the image shows, rows counted from the
    /// top of the image and lines from its bottom.
    pub fn line_of(&self, row: i32) -> (line: i32)
        requires
            0 <= row < self.image_height,
        ensures
            line == self.image_height - 1 - row,
            0 <= line < self.image_height,
    {
        self.image_height - 1 - row
    }

    /// The byte of one channel between zero and 0.999.
    fn channel_byte(x: Scalar) -> (b: u8)
        requires
            spec_le(Scalar { bits: 0 }, x),
            spec_le(x, Scalar { bits: BRIGHTEST_BITS }),
        ensures
            b == spec_channel_byte(x),
    {
        let magnitude: u64 = x.abs().to_bits();
        let exponent: u64 = magnitude / LEADING_BIT;
        let significand: u64 = LEADING_BIT + magnitude % LEADING_BIT;
        assert(exponent <= 1022);
        if exponent < 1014 {
            proof {
                let shift = (1067 - exponent) as nat;
                lemma2_to64_rest();
                if shift > 53 {
                    lemma_pow2_strictly_increases(53, shift);
                }
                assert(significand < pow2(shift));
                lemma_basic_div(significand as int, pow2(shift) as int);
            }
            0
        } else {
            let shift: u64 = 1067 - exponent;
            let byte: u64 = significand >> shift;
            proof {
                lemma_u64_shr_is_div(significand, shift);
                assert(significand >> shift <= 255) by (bit_vector)
                    requires
                        significand < 0x0020_0000_0000_0000,
                        45 <= shift <= 53,
                ;
            }
            byte as u8
        }
    }

    /// The byte of one channel after gamma correction.
    fn pixel_byte(x: Scalar) -> (b: u8)
        ensures
            b == spec_pixel_byte(x),
    {
        if x.is_number() {
            let low = Scalar::zero();
            let high = Scalar::from_bits(BRIGHTEST_BITS);
            Renderer::channel_byte(clamp(x, low, high))
        } else {
            0
        }
    }

    /// The three bytes of a pixel, from its colour after gamma correction:
    /// each channel is held to the interval from zero to 0.999, multiplied by
    /// 256 and cut down to a whole number. A channel that is no number gives
    /// zero.
    pub fn pixel_to_rgb(corrected: &Color) -> (rgb: Vec<u8>)
        ensures
            rgb@ == spec_pixel_to_rgb(*corrected),
    {
        let r = Renderer::pixel_byte(corrected.x);
        let g = Renderer::pixel_byte(corrected.y);
        let b = Renderer::pixel_byte(corrected.z);
        let rgb = vec![r, g, b];
        proof {
            assert(rgb@ =~= spec_pixel_to_rgb(*corrected));
        }
        rgb
    }

    /// Stores the three bytes of a pixel in its slot of the frame. No byte
    /// outside the slot changes.
    pub fn store(frame: &mut Vec<u8>, slot: usize, pixel: &Vec<u8>)
        requires
            pixel@.len() == 3,
            3 * slot + 3 <= old(frame)@.len(),
        ensures
            final(frame)@ == spec_store(old(frame)@, slot as int, pixel@),
    {
        let len: usize = frame.len();
        let at: usize = 3 * slot;
        frame.set(at, pixel[0]);
        frame.set(at + 1, pixel[1]);
        frame.set(at + 2, pixel[2]);
    }

    /// The bytes of the frame whose pixels are `pixels`, in their order.
    pub fn assemble(pixels: &Vec<Vec<u8>>) -> (frame: Vec<u8>)
        requires
            forall|i: int| 0 <= i < pixels@.len() ==> (#[trigger] pixels@[i])@.len() == 3,
        ensures
            frame@ == spec_frame(pixels.deep_view()),
            frame@.len() == 3 * pixels@.len(),
    {
        let mut frame: Vec<u8> = Vec::new();
        let mut i: usize = 0;
        while i < pixels.len()
            invariant
                i <= pixels@.len(),
                forall|k: int| 0 <= k < pixels@.len() ==> (#[trigger] pixels@[k])@.len() == 3,
                frame@.len() == 3 * i,
                forall|j: int| 0 <= j < 3 * i ==> frame@[j] == pixels@[j / 3]@[j % 3],
            decreases pixels@.len() - i,
        {
            let pixel = &pixels[i];
            frame.push(pixel[0]);
            frame.push(pixel[1]);
            frame.push(pixel[2]);
            i += 1;
        }
        proof {
            let deep = pixels.deep_view();
            assert(deep.len() == pixels@.len());
            assert forall|j: int| 0 <= j < frame@.len() implies frame@[j] == spec_frame(deep)[j] by {
                assert(deep[j / 3] == pixels@[j / 3]@);
            }
            assert(frame@ =~= spec_frame(deep));
        }
        frame
    }
}

/// A channel at or above 0.999 is written down as 255, one at or below zero
/// as 0, and so is one that is no number.
pub proof fn brightest_and_darkest_bytes(x: Scalar)
    ensures
        spec_le(Scalar { bits: BRIGHTEST_BITS }, x) ==> spec_pixel_byte(x) == 255,
        spec_le(x, Scalar { bits: 0 }) ==> spec_pixel_byte(x) == 0,
        !spec_is_number(x) ==> spec_pixel_byte(x) == 0,
{
    lemma2_to64_rest();
    if spec_is_number(x) && x@ >= BRIGHTEST_BITS {
        let top = Scalar { bits: BRIGHTEST_BITS };
        assert(spec_clamp(x, Scalar { bits: 0 }, top) == top);
        assert(spec_abs(top).bits == BRIGHTEST_BITS);
        assert(BRIGHTEST_BITS / LEADING_BIT == 1022);
        assert(BRIGHTEST_BITS % LEADING_BIT == 0xF_F7CE_D916_872B);
        assert(pow2(45) == 0x2000_0000_0000);
        assert(0x1F_F7CE_D916_872Bint / 0x2000_0000_0000int == 255int);
    }
    if spec_is_number(x) && x@ <= 0 {
        lemma_pow2_strictly_increases(53, 1067);
        lemma_basic_div(LEADING_BIT as int, pow2(1067) as int);
    }
}

/// The byte of a channel never goes down as the channel goes up, and it is a byte.
pub proof fn brighter_channel_has_no_lesser_byte(a: Scalar, b: Scalar)
    requires
        spec_le(a, b),
    ensures
        0 <= spec_pixel_byte(a) <= spec_pixel_byte(b) <= 255,
{
    let low = Scalar { bits: 0 };
    let high = Scalar { bits: BRIGHTEST_BITS };
    let ca = spec_clamp(a, low, high);
    let cb = spec_clamp(b, low, high);
    let top = Scalar { bits: BRIGHTEST_BITS };
    brightest_and_darkest_bytes(top);
    brightest_and_darkest_bytes(low);
    channel_bytes_are_ordered(low, ca);
    channel_bytes_are_ordered(ca, cb);
    channel_bytes_are_ordered(cb, top);
}

/// Between zero and 0.999 the byte of a channel never goes down as the channel goes up.
proof fn channel_bytes_are_ordered(a: Scalar, b: Scalar)
    requires
        spec_is_number(a),
        spec_is_number(b),
        0 <= a@ <= b@ <= BRIGHTEST_BITS,
    ensures
        spec_channel_byte(a) <= spec_channel_byte(b),
{
    let ma = spec_abs(a).bits;
    let mb = spec_abs(b).bits;
    let ea = ma / LEADING_BIT;
    let eb = mb / LEADING_BIT;
    let sa = (LEADING_BIT + ma % LEADING_BIT) as int;
    let sb = (LEADING_BIT + mb % LEADING_BIT) as int;
    let shift_a = (1067 - ea) as nat;
    let shift_b = (1067 - eb) as nat;
    lemma_pow2_pos(shift_a);
    lemma_pow2_pos(shift_b);
    lemma_fundamental_div_mod(ma as int, LEADING_BIT as int);
    lemma_fundamental_div_mod(mb as int, LEADING_BIT as int);
    if ea == eb {
        lemma_div_is_ordered(sa, sb, pow2(shift_b) as int);
    } else {
        assert(ea < eb) by (nonlinear_arith)
            requires
                ma <= mb,
                ea != eb,
                ma == LEADING_BIT * ea + ma % LEADING_BIT,
                mb == LEADING_BIT * eb + mb % LEADING_BIT,
                0 <= ma % LEADING_BIT < LEADING_BIT,
                0 <= mb % LEADING_BIT < LEADING_BIT,
        ;
        let d = pow2(shift_b) as int;
        lemma_pow2_unfold(shift_b + 1);
        if shift_a > shift_b + 1 {
            lemma_pow2_strictly_increases(shift_b + 1, shift_a);
        }
        assert(pow2(shift_a) >= 2 * d);
        lemma_div_is_ordered_by_denominator(sa, 2 * d, pow2(shift_a) as int);
        lemma_div_is_ordered(sa, 2 * LEADING_BIT, 2 * d);
        lemma_div_denominator(2 * LEADING_BIT, 2, d);
        lemma_div_is_ordered(LEADING_BIT as int, sb, d);
    }
}

/// The bytes of a pixel are fixed by its colour: two tasks that arrive at the
/// same colour write the same bytes, and it is the numbers that count, so a
/// zero of either sign gives the same byte.
pub proof fn same_colour_same_bytes(a: Color, b: Color)
    requires
        a.x == b.x || spec_same(a.x, b.x),
        a.y == b.y || spec_same(a.y, b.y),
        a.z == b.z || spec_same(a.z, b.z),
    ensures
        spec_pixel_to_rgb(a) == spec_pixel_to_rgb(b),
{
    same_channel_same_byte(a.x, b.x);
    same_channel_same_byte(a.y, b.y);
    same_channel_same_byte(a.z, b.z);
}

/// Two channels that are the same number have the same byte.
proof fn same_channel_same_byte(a: Scalar, b: Scalar)
    requires
        a == b || spec_same(a, b),
    ensures
        spec_pixel_byte(a) == spec_pixel_byte(b),
{
    if a != b {
        let low = Scalar { bits: 0 };
        let high = Scalar { bits: BRIGHTEST_BITS };
        let ca = spec_clamp(a, low, high);
        let cb = spec_clamp(b, low, high);
        assert(spec_abs(ca).bits == spec_abs(cb).bits);
    }
}

/// Storing a pixel changes the three bytes of its slot and no other.
pub proof fn store_touches_only_its_slot(frame: Seq<u8>, slot: int, pixel: Seq<u8>)
    requires
        0 <= slot,
        3 * slot + 3 <= frame.len(),
    ensures
        spec_store(frame, slot, pixel).len() == frame.len(),
        forall|j: int|
            0 <= j < frame.len() ==> #[trigger] spec_store(frame, slot, pixel)[j] == if 3 * slot
                <= j < 3 * slot + 3 {
                pixel[j - 3 * slot]
            } else {
                frame[j]
            },
{
}

/// Two tasks that render different pixels may finish in either order: their
/// stores do not meet.
pub proof fn stores_to_different_slots_commute(
    frame: Seq<u8>,
    slot_a: int,
    pixel_a: Seq<u8>,
    slot_b: int,
    pixel_b: Seq<u8>,
)
    requires
        0 <= slot_a,
        0 <= slot_b,
        slot_a != slot_b,
        3 * slot_a + 3 <= frame.len(),
        3 * slot_b + 3 <= frame.len(),
    ensures
        spec_store(spec_store(frame, slot_a, pixel_a), slot_b, pixel_b) == spec_store(
            spec_store(frame, slot_b, pixel_b),
            slot_a,
            pixel_a,
        ),
{
    assert(spec_store(spec_store(frame, slot_a, pixel_a), slot_b, pixel_b) =~= spec_store(
        spec_store(frame, slot_b, pixel_b),
        slot_a,
        pixel_a,
    ));
}

/// What a frame holds after some of its pixels were stored: the bytes of
/// those pixels in their slots, and elsewhere what it held before.
pub proof fn stored_frame_bytes(frame: Seq<u8>, order: Seq<int>, pixels: Seq<Seq<u8>>)
    requires
        frame.len() == 3 * pixels.len(),
        forall|k: int| 0 <= k < order.len() ==> 0 <= #[trigger] order[k] < pixels.len(),
    ensures
        spec_store_all(frame, order, pixels).len() == frame.len(),
        forall|j: int|
            0 <= j < frame.len() ==> #[trigger] spec_store_all(frame, order, pixels)[j]
                == if spec_was_stored(order, j / 3) {
                pixels[j / 3][j % 3]
            } else {
                frame[j]
            },
    decreases order.len(),
{
    if order.len() > 0 {
        let front = order.drop_last();
        let slot = order.last();
        stored_frame_bytes(frame, front, pixels);
        let before = spec_store_all(frame, front, pixels);
        store_touches_only_its_slot(before, slot, pixels[slot]);
        assert forall|j: int| 0 <= j < frame.len() implies #[trigger] spec_store_all(
            frame,
            order,
            pixels,
        )[j] == if spec_was_stored(order, j / 3) {
            pixels[j / 3][j % 3]
        } else {
            frame[j]
        } by {
            if 3 * slot <= j < 3 * slot + 3 {
                assert(order[order.len() - 1] == j / 3);
            } else if spec_was_stored(front, j / 3) {
                let k = choose|k: int| 0 <= k < front.len() && front[k] == j / 3;
                assert(order[k] == j / 3);
            } else {
                if spec_was_stored(order, j / 3) {
                    let k = choose|k: int| 0 <= k < order.len() && order[k] == j / 3;
                    if k < front.len() {
                        assert(front[k] == j / 3);
                    }
                }
            }
        }
    }
}

/// The frame does not depend on the order in which the tasks finish: once
/// every pixel was stored, in whatever order, the frame holds the pixels in
/// the order of their slots.
pub proof fn any_order_gives_the_same_frame(frame: Seq<u8>, order: Seq<int>, pixels: Seq<Seq<u8>>)
    requires
        frame.len() == 3 * pixels.len(),
        forall|k: int| 0 <= k < order.len() ==> 0 <= #[trigger] order[k] < pixels.len(),
        forall|slot: int| 0 <= slot < pixels.len() ==> #[trigger] spec_was_stored(order, slot),
    ensures
        spec_store_all(frame, order, pixels) == spec_frame(pixels),
{
    stored_frame_bytes(frame, order, pixels);
    assert forall|j: int| 0 <= j < frame.len() implies spec_store_all(frame, order, pixels)[j]
        == spec_frame(pixels)[j] by {
        assert(spec_was_stored(order, j / 3));
    }
    assert(spec_store_all(frame, order, pixels) =~= spec_frame(pixels));
}

/// No two tasks render the same pixel, and every pixel has its task: the slots
/// of a frame and its pixels match one to one.
pub proof fn slots_and_pixels_match(renderer: Renderer, a: int, b: int)
    requires
        0 <= a < renderer.spec_pixels(),
        0 <= b < renderer.spec_pixels(),
    ensures
        renderer.spec_pixel_of(a) == renderer.spec_pixel_of(b) ==> a == b,
        a == (renderer.image_height - 1 - renderer.spec_pixel_of(a).1) * renderer.image_width
            + renderer.spec_pixel_of(a).0,
        0 <= renderer.spec_pixel_of(a).0 < renderer.image_width,
        0 <= renderer.spec_pixel_of(a).1 < renderer.image_height,
        renderer.spec_pixel_of(0).1 == renderer.image_height - 1,
{
    let w = renderer.image_width as int;
    lemma_fundamental_div_mod(a, w);
    lemma_fundamental_div_mod(b, w);
    assert(w * (a / w) == (a / w) * w) by (nonlinear_arith);
    let h = renderer.image_height as int;
    assert(0 <= a / w < h) by (nonlinear_arith)
        requires
            w > 0,
            0 <= a < w * h,
    ;
}

} // verus!
