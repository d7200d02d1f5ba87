//! The drawing surface over the driver: points, clipped rectangle fills and
//! clearing the panel.

use vstd::prelude::*;
use crate::bus::{
    be_bytes, buffered_writes, buffered_writes_law, payload, payload_of_concat, BusOp, Signal,
};
use crate::color::{raw_color, wire_word, Color};
use crate::display::{
    memory_write_payload, memory_write_trace, pixel_trace, window_trace, ST7735,
};
use crate::geometry::{points_left, rect_contains, rect_intersection, rect_points, points_next, Rect};

verus! {

/// A color at a coordinate.
#[derive(Clone, Copy, Debug, PartialEq, Eq, Structural)]
pub struct Pixel {
    pub x: i32,
    pub y: i32,
    pub color: Color,
}

/// The color words of the first `n` colors whose point lies in `clip`, where
/// color `k` belongs to point `k` of `area`.
pub open spec fn clipped_words(area: Rect, clip: Rect, colors: Seq<Color>, n: nat) -> Seq<u16>
    recommends
        n <= colors.len(),
        n <= area.points().len(),
    decreases n,
{
    if n == 0 {
        Seq::empty()
    } else {
        let before = clipped_words(area, clip, colors, (n - 1) as nat);
        let point = area.points()[n - 1];
        if clip.has(point.0, point.1) {
            before.push(wire_word(colors[n - 1]))
        } else {
            before
        }
    }
}

/// A pixel one column beyond the right edge sends nothing. The pixel in the
/// last column of the last row sends one window and one color word.
pub proof fn draw_at_the_edge(display: ST7735, color: Color)
    requires
        1 <= display@.width <= i32::MAX,
        1 <= display@.height <= i32::MAX,
    ensures
        display.draw_trace(seq![Pixel { x: display@.width as i32, y: 0, color }]) == Seq::<
            Signal,
        >::empty(),
        display.draw_trace(
            seq![Pixel { x: (display@.width - 1) as i32, y: (display@.height - 1) as i32, color }],
        ) == pixel_trace(
            display@.dx,
            display@.dy,
            ((display@.width - 1) as i32) as u16,
            ((display@.height - 1) as i32) as u16,
            wire_word(color),
        ),
{
    let outside = seq![Pixel { x: display@.width as i32, y: 0, color }];
    let inside = seq![
        Pixel { x: (display@.width - 1) as i32, y: (display@.height - 1) as i32, color },
    ];
    assert(outside.drop_last() =~= Seq::<Pixel>::empty());
    assert(inside.drop_last() =~= Seq::<Pixel>::empty());
    assert(display.draw_trace(Seq::<Pixel>::empty()) =~= Seq::<Signal>::empty());
    assert(display.draw_trace(outside) =~= Seq::<Signal>::empty());
    assert(display.draw_trace(inside) =~= display.point_trace(inside.last()));
}

/// Clearing a panel with at least one pixel puts on the bus the window of
/// the whole panel, the memory-write opcode and then the color word once for
/// every pixel, width times height in all, each high byte first.
pub proof fn clear_law(display: ST7735, color: Color)
    requires
        display@.width >= 1,
        display@.height >= 1,
    ensures
        payload(display.clear_trace(color)) == payload(
            window_trace(
                display@.dx,
                display@.dy,
                0,
                0,
                (display@.width - 1) as u16,
                (display@.height - 1) as u16,
            ),
        ) + seq![0x2Cu8] + be_bytes(
            Seq::new((display@.width * display@.height) as nat, |k: int| wire_word(color)),
        ),
{
    let window = window_trace(
        display@.dx,
        display@.dy,
        0,
        0,
        (display@.width - 1) as u16,
        (display@.height - 1) as u16,
    );
    let words = Seq::new((display@.width * display@.height) as nat, |k: int| wire_word(color));
    assert(display@.width * display@.height >= 1) by (nonlinear_arith)
        requires
            display@.width >= 1,
            display@.height >= 1,
    ;
    buffered_writes_law(words);
    memory_write_payload();
    payload_of_concat(window, memory_write_trace());
    payload_of_concat(window + memory_write_trace(), buffered_writes(words));
}

impl ST7735 {
    /// Every pixel of the panel, shifted by the offset, has 16-bit coordinates.
    pub open spec fn addressable(self) -> bool {
        &&& self@.width + self@.dx <= 0x1_0000
        &&& self@.height + self@.dy <= 0x1_0000
    }

    /// The panel as a rectangle at the origin.
    pub open spec fn bounds(self) -> Rect {
        Rect { x: 0, y: 0, width: self@.width, height: self@.height }
    }

    /// Whether `(x, y)` is a pixel of the panel.
    pub open spec fn on_screen(self, x: int, y: int) -> bool {
        0 <= x < self@.width && 0 <= y < self@.height
    }

    /// What drawing one pixel sends: nothing when it is off the panel.
    pub open spec fn point_trace(self, pixel: Pixel) -> Seq<Signal> {
        if self.on_screen(pixel.x as int, pixel.y as int) {
            pixel_trace(self@.dx, self@.dy, pixel.x as u16, pixel.y as u16, wire_word(pixel.color))
        } else {
            Seq::empty()
        }
    }

    /// What drawing a sequence of pixels sends: each pixel in turn.
    pub open spec fn draw_trace(self, pixels: Seq<Pixel>) -> Seq<Signal>
        decreases pixels.len(),
    {
        if pixels.len() == 0 {
            Seq::empty()
        } else {
            self.draw_trace(pixels.drop_last()) + self.point_trace(pixels.last())
        }
    }

    /// What filling `area` with `colors` sends: nothing when no part of the
    /// area is on the panel; else the window of the visible part and the
    /// buffered color words of the points in it.
    pub open spec fn fill_trace(self, area: Rect, colors: Seq<Color>) -> Seq<Signal> {
        let clip = area.intersect(self.bounds());
        let n = if colors.len() <= area.points().len() {
            colors.len()
        } else {
            area.points().len()
        };
        if clip.is_empty() {
            Seq::empty()
        } else {
            window_trace(
                self@.dx,
                self@.dy,
                clip.x as u16,
                clip.y as u16,
                clip.right() as u16,
                clip.bottom() as u16,
            ) + memory_write_trace() + buffered_writes(clipped_words(area, clip, colors, n))
        }
    }

    /// What clearing the panel sends: the window of the whole panel and one
    /// color word for every pixel.
    pub open spec fn clear_trace(self, color: Color) -> Seq<Signal> {
        window_trace(
            self@.dx,
            self@.dy,
            0,
            0,
            (self@.width - 1) as u16,
            (self@.height - 1) as u16,
        ) + memory_write_trace() + buffered_writes(
            Seq::new((self@.width * self@.height) as nat, |k: int| wire_word(color)),
        )
    }

    /// Draws individual pixels. Pixels off the panel are skipped.
    pub fn draw_iter(&self, pixels: &[Pixel]) -> (ops: Vec<BusOp>)
        requires
            self.addressable(),
        ensures
            ops.deep_view() == self.draw_trace(pixels@),
    {
        let (width, height) = self.size();
        let mut ops: Vec<BusOp> = Vec::new();
        let mut i: usize = 0;
        assert(pixels@.subrange(0, 0) =~= Seq::<Pixel>::empty());
        while i < pixels.len()
            invariant
                i <= pixels.len(),
                self.addressable(),
                width == self@.width,
                height == self@.height,
                ops.deep_view() =~= self.draw_trace(pixels@.subrange(0, i as int)),
            decreases pixels.len() - i,
        {
            let pixel = pixels[i];
            proof {
                let next = pixels@.subrange(0, i + 1);
                assert(next.drop_last() =~= pixels@.subrange(0, i as int));
                assert(next.last() == pixel);
            }
            if pixel.x >= 0 && pixel.y >= 0 && (pixel.x as u32) < width && (pixel.y as u32)
                < height {
                self.emit_pixel(&mut ops, pixel.x as u16, pixel.y as u16, raw_color(pixel.color));
            }
            i += 1;
        }
        assert(pixels@.subrange(0, i as int) =~= pixels@);
        ops
    }

    /// Fills `area` with `colors`, given row by row, clipped to the panel.
    /// Colors of points off the panel are passed over.
    pub fn fill_contiguous(&self, area: &Rect, colors: &[Color]) -> (ops: Vec<BusOp>)
        requires
            self.addressable(),
            area.representable(),
        ensures
            ops.deep_view() == self.fill_trace(*area, colors@),
            (forall|x: int, y: int| #![trigger area.has(x, y)] !(area.has(x, y) && self.on_screen(x, y)))
                ==> ops@.len() == 0,
    {
        let (width, height) = self.size();
        let bounds = Rect { x: 0, y: 0, width, height };
        let clip = rect_intersection(area, &bounds);
        if clip.width == 0 || clip.height == 0 {
            let ops: Vec<BusOp> = Vec::new();
            assert(ops.deep_view() =~= self.fill_trace(*area, colors@));
            return ops;
        }
        assert(area.has(clip.x as int, clip.y as int) && self.on_screen(clip.x as int, clip.y as int));
        let mut points = rect_points(area);
        let mut words: Vec<u16> = Vec::new();
        let mut k: usize = 0;
        let mut more = true;
        assert(area.points().skip(0) =~= area.points());
        while more && k < colors.len()
            invariant
                k <= colors.len(),
                k <= area.points().len(),
                clip.representable(),
                points_left(points) == area.points().skip(k as int),
                words@ == clipped_words(*area, clip, colors@, k as nat),
                !more ==> k == area.points().len(),
            decreases (if more { 1int } else { 0int }) + colors.len() - k,
        {
            let ghost left = points_left(points);
            match points_next(&mut points) {
                Some((x, y)) => {
                    assert(left[0] == area.points()[k as int]);
                    assert(left.drop_first() =~= area.points().skip(k + 1));
                    if rect_contains(&clip, x, y) {
                        words.push(raw_color(colors[k]));
                    }
                    k += 1;
                },
                None => {
                    more = false;
                },
            }
        }
        let sx = clip.x as u16;
        let sy = clip.y as u16;
        let ex = (clip.x as u32 + (clip.width - 1)) as u16;
        let ey = (clip.y as u32 + (clip.height - 1)) as u16;
        self.set_pixels_buffered(sx, sy, ex, ey, words.as_slice())
    }

    /// Fills the whole panel with one color.
    pub fn clear(&self, color: Color) -> (ops: Vec<BusOp>)
        requires
            self.addressable(),
            self@.width >= 1,
            self@.height >= 1,
        ensures
            ops.deep_view() == self.clear_trace(color),
    {
        let (width, height) = self.size();
        let word: u16 = raw_color(color);
        assert(width * height <= 0x1_0000 * 0x1_0000) by (nonlinear_arith)
            requires
                width <= 0x1_0000,
                height <= 0x1_0000,
        ;
        let total: u64 = (width as u64) * (height as u64);
        let mut words: Vec<u16> = Vec::new();
        let mut n: u64 = 0;
        while n < total
            invariant
                n <= total,
                words@ =~= Seq::new(n as nat, |k: int| word),
            decreases total - n,
        {
            words.push(word);
            n += 1;
        }
        self.set_pixels_buffered(0, 0, (width - 1) as u16, (height - 1) as u16, words.as_slice())
    }
}

} // verus!
