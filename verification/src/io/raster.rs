use vstd::prelude::*;
use crate::domain::graphic::{bytes_for, size_code, Graphic, GraphicModel};
use crate::error::{outcome, Failure, PrinterError};
use crate::io::constants::IMAGE_HEADER;
use crate::io::protocol::Protocol;
use crate::io::wire::{le16, u16_le};

verus! {

/// The luminance up to which a pixel is printed.
pub const DARK_THRESHOLD: u8 = 128;

/// The bit of a pixel: one where it is dark enough to mark.
pub open spec fn mark(luminance: u8) -> nat {
    if luminance <= DARK_THRESHOLD {
        1
    } else {
        0
    }
}

/// The number made of the bits of `count` pixels of row `y` from column
/// `x` on, the leftmost pixel in the highest place.
pub open spec fn packed(graphic: GraphicModel, x: int, y: int, count: nat) -> nat
    decreases count,
{
    if count == 0 {
        0
    } else {
        2 * packed(graphic, x, y, (count - 1) as nat) + mark(
            graphic.luminance(x + count - 1, y),
        )
    }
}

/// How many pixels go into the byte that starts at column `x`: eight, or
/// as many as the row has left.
pub open spec fn span(graphic: GraphicModel, x: int) -> nat {
    if graphic.width - x >= 8 {
        8
    } else if graphic.width > x {
        (graphic.width - x) as nat
    } else {
        0
    }
}

/// The byte that starts at column `x` of row `y`.
pub open spec fn group_byte(graphic: GraphicModel, x: int, y: int) -> u8 {
    packed(graphic, x, y, span(graphic, x)) as u8
}

/// The number of bytes a row goes out as: one for each multiple of the
/// density below the width.
pub open spec fn groups(graphic: GraphicModel) -> int {
    (graphic.width + graphic.density - 1) / (graphic.density as int)
}

/// The first `count` bytes of row `y`.
pub open spec fn row_bytes(graphic: GraphicModel, y: int, count: nat) -> Seq<u8>
    decreases count,
{
    if count == 0 {
        Seq::empty()
    } else {
        row_bytes(graphic, y, (count - 1) as nat).push(
            group_byte(graphic, (count - 1) * graphic.density, y),
        )
    }
}

/// The bytes of the first `count` rows, from the top.
pub open spec fn rows_bytes(graphic: GraphicModel, count: nat) -> Seq<u8>
    decreases count,
{
    if count == 0 {
        Seq::empty()
    } else {
        rows_bytes(graphic, (count - 1) as nat) + row_bytes(
            graphic,
            count - 1,
            groups(graphic) as nat,
        )
    }
}

/// The eight bytes before the pixels: the image command, the size mode,
/// the bytes a row of the image takes, and the number of rows, both as
/// sixteen-bit numbers with the low byte first.
pub open spec fn graphic_header(graphic: GraphicModel) -> Seq<u8> {
    IMAGE_HEADER@.push(size_code(graphic.size)) + le16(bytes_for(graphic.width) as u16) + le16(
        graphic.height as u16,
    )
}

/// What a graphic is on the wire: the header, then every row from the
/// top, each as its bytes from the left.
pub open spec fn graphic_frame(graphic: GraphicModel) -> Seq<u8> {
    graphic_header(graphic) + rows_bytes(graphic, graphic.height as nat)
}

/// The least number that `count` bits cannot make.
pub open spec fn ceiling(count: nat) -> nat {
    if count == 0 {
        1
    } else if count == 1 {
        2
    } else if count == 2 {
        4
    } else if count == 3 {
        8
    } else if count == 4 {
        16
    } else if count == 5 {
        32
    } else if count == 6 {
        64
    } else if count == 7 {
        128
    } else {
        256
    }
}

/// A row cut after `count` bytes has `count` bytes.
pub proof fn lemma_row_len(graphic: GraphicModel, y: int, count: nat)
    ensures
        row_bytes(graphic, y, count).len() == count,
    decreases count,
{
    if count > 0 {
        lemma_row_len(graphic, y, (count - 1) as nat);
    }
}

/// The first `count` rows take `count` times the bytes of one row.
pub proof fn lemma_rows_len(graphic: GraphicModel, count: nat)
    requires
        graphic.wf(),
    ensures
        groups(graphic) >= 0,
        rows_bytes(graphic, count).len() == count * groups(graphic),
    decreases count,
{
    lemma_groups(graphic.width, graphic.density as int);
    let each = groups(graphic);
    if count == 0 {
        assert(count * each == 0) by (nonlinear_arith)
            requires
                count == 0,
        ;
    } else {
        lemma_rows_len(graphic, (count - 1) as nat);
        lemma_row_len(graphic, count - 1, each as nat);
        assert(count * each == (count - 1) * each + each) by (nonlinear_arith);
    }
}

/// The quotient of `width + step - 1` by `step` counts the multiples of
/// `step` below `width`: that many steps reach the width, one fewer does
/// not.
pub proof fn lemma_groups(width: int, step: int)
    requires
        0 <= width,
        0 < step,
    ensures
        0 <= (width + step - 1) / step,
        ((width + step - 1) / step) * step >= width,
        width > 0 ==> ((width + step - 1) / step - 1) * step < width,
        width == 0 ==> (width + step - 1) / step == 0,
{
    let q = (width + step - 1) / step;
    vstd::arithmetic::div_mod::lemma_fundamental_div_mod(width + step - 1, step);
    vstd::arithmetic::div_mod::lemma_mod_bound(width + step - 1, step);
    vstd::arithmetic::div_mod::lemma_div_pos_is_pos(width + step - 1, step);
    assert(step * q == q * step) by (nonlinear_arith);
    assert((q - 1) * step == q * step - step) by (nonlinear_arith);
    if width == 0 {
        vstd::arithmetic::div_mod::lemma_basic_div(step - 1, step);
    }
}

/// Where a count of steps has just reached the width, it is the number
/// of groups.
pub proof fn lemma_groups_reached(width: int, step: int, count: int)
    requires
        0 <= width,
        0 < step,
        0 <= count,
        count * step >= width,
        count > 0 ==> (count - 1) * step < width,
    ensures
        count == (width + step - 1) / step,
{
    let q = (width + step - 1) / step;
    lemma_groups(width, step);
    if count < q {
        assert(count * step <= (q - 1) * step) by (nonlinear_arith)
            requires
                count <= q - 1,
                0 < step,
        ;
    } else if count > q {
        assert(q * step <= (count - 1) * step) by (nonlinear_arith)
            requires
                q <= count - 1,
                0 < step,
        ;
    }
}

impl Protocol {
    pub fn graphic(&mut self, graphic: Graphic) -> (r: Result<Vec<u8>, PrinterError>)
        ensures
            outcome(r) == Ok::<Seq<u8>, Failure>(graphic_frame(graphic@)),
            *final(self) == *old(self),
    {
        graphic.validate();
        let mut buffer: Vec<u8> = Vec::new();

        // write command header
        buffer.extend_from_slice(&IMAGE_HEADER);
        buffer.push(u8::from(graphic.size()));

        // set the width and height
        buffer.extend_from_slice(&u16_le(graphic.width_bytes()));
        buffer.extend_from_slice(&u16_le(graphic.height()));
        assert(buffer@ =~= graphic_header(graphic@));

        let density: u32 = graphic.density() as u32;
        let (wide, high) = graphic.dimensions();
        let width: u32 = wide as u32;
        let height: u32 = high as u32;

        proof {
            lemma_groups(width as int, density as int);
        }

        let mut y: u32 = 0;
        while y < height
            invariant
                graphic@.wf(),
                width == graphic@.width,
                height == graphic@.height,
                density == graphic@.density,
                0 <= y <= height,
                buffer@ == graphic_header(graphic@) + rows_bytes(graphic@, y as nat),
            decreases height - y,
        {
            let ghost before = buffer@;
            let mut x: u32 = 0;
            let mut k: u32 = 0;
            while x < width
                invariant
                    graphic@.wf(),
                    width == graphic@.width,
                    height == graphic@.height,
                    density == graphic@.density,
                    0 <= y < height,
                    x == k * density,
                    k <= width,
                    k > 0 ==> (k - 1) * density < width,
                    buffer@ == before + row_bytes(graphic@, y as int, k as nat),
                decreases width + density - x,
            {
                let mut byte: u8 = 0;
                let mut bit: u32 = 0;
                while bit < 8 && x + bit < width
                    invariant
                        graphic@.wf(),
                        width == graphic@.width,
                        height == graphic@.height,
                        0 <= y < height,
                        0 <= x < width,
                        0 <= bit <= 8,
                        x + bit <= width,
                        byte == packed(graphic@, x as int, y as int, bit as nat),
                        byte < ceiling(bit as nat),
                    decreases 8 - bit,
                {
                    let is_black = graphic.pixel(x + bit, y) <= DARK_THRESHOLD;
                    let dot: u8 = if is_black {
                        1
                    } else {
                        0
                    };
                    byte = byte * 2 + dot;
                    bit = bit + 1;
                }
                assert(bit == span(graphic@, x as int));

                // write the constructed byte to the buffer
                buffer.push(byte);
                proof {
                    assert((k + 1) * density == k * density + density) by (nonlinear_arith);
                    assert(k * density >= k) by (nonlinear_arith)
                        requires
                            density >= 1,
                            k >= 0,
                    ;
                    assert(buffer@ =~= before + row_bytes(graphic@, y as int, (k + 1) as nat));
                }
                x = x + density;
                k = k + 1;
            }
            proof {
                lemma_groups_reached(width as int, density as int, k as int);
                assert(buffer@ =~= graphic_header(graphic@) + rows_bytes(
                    graphic@,
                    (y + 1) as nat,
                ));
            }
            y = y + 1;
        }
        Ok(buffer)
    }
}

/// The frame of a graphic opens with the image command and the size mode,
/// then the bytes a row of the image takes and the number of rows, low
/// byte first; what follows is one byte for each row and each multiple of
/// the density below the width.
pub proof fn lemma_graphic_layout(graphic: GraphicModel)
    requires
        graphic.wf(),
    ensures
        graphic_frame(graphic).subrange(0, 3) == IMAGE_HEADER@,
        graphic_frame(graphic)[3] == size_code(graphic.size),
        graphic_frame(graphic).subrange(4, 6) == le16(bytes_for(graphic.width) as u16),
        graphic_frame(graphic).subrange(6, 8) == le16(graphic.height as u16),
        graphic_frame(graphic).len() == 8 + graphic.height * groups(graphic),
{
    lemma_rows_len(graphic, graphic.height as nat);
    let frame = graphic_frame(graphic);
    assert(frame.subrange(0, 3) =~= IMAGE_HEADER@);
    assert(frame.subrange(4, 6) =~= le16(bytes_for(graphic.width) as u16));
    assert(frame.subrange(6, 8) =~= le16(graphic.height as u16));
}

/// At the density of eight pixels to the byte, the pixels of a graphic
/// take as many bytes as the header announces: the rows times the bytes
/// of a row.
pub proof fn lemma_graphic_payload(graphic: GraphicModel)
    requires
        graphic.wf(),
        groups(graphic) == bytes_for(graphic.width) || graphic.height == 0,
    ensures
        graphic.density == 8 ==> groups(graphic) == bytes_for(graphic.width),
        graphic_frame(graphic).len() == 8 + graphic.height * bytes_for(graphic.width),
{
    lemma_graphic_layout(graphic);
    if graphic.height == 0 {
        assert(graphic.height * groups(graphic) == 0) by (nonlinear_arith)
            requires
                graphic.height == 0,
        ;
        assert(graphic.height * bytes_for(graphic.width) == 0) by (nonlinear_arith)
            requires
                graphic.height == 0,
        ;
    }
}

} // verus!
