//! The video hardware of the arcade machines: a 256 by 224 bitmap, one bit
//! per pixel, in memory from 0x2400, shown on a screen that may be turned
//! by a multiple of 90 degrees.
use vstd::prelude::*;

use crate::bit_operations::{self, bit_of};
use crate::State;

verus! {

pub const ORIGINAL_SCREEN_WIDTH: u32 = 256;

pub const ORIGINAL_SCREEN_HEIGHT: u32 = 224;

pub const NUM_PIXEL_COMPONENTS: usize = 3;

/// Bytes of an RGB frame: 256 * 224 pixels of three components.
pub const SCREEN_DATA_SIZE: usize = 172032;

pub const VIDEO_MEMORY_START: u16 = 0x2400;

/// How many quarter turns the screen is turned by.
pub open spec fn quarter_turns(orientation: u32) -> int {
    (orientation % 360 / 90) as int
}

/// Width and height of the screen as shown: swapped when it is turned by
/// an odd number of quarter turns.
pub open spec fn screen_size(orientation: u32) -> (int, int) {
    if quarter_turns(orientation) % 2 == 1 {
        (224, 256)
    } else {
        (256, 224)
    }
}

/// Where a pixel of the bitmap lands on a screen of the given width and
/// height, turned by the given number of quarter turns.
pub open spec fn turned_position(width: int, height: int, turns: int, column: int, row: int) -> (int, int) {
    if turns == 0 {
        (column, row)
    } else if turns == 1 {
        (width - 1 - row, column)
    } else if turns == 2 {
        (width - 1 - column, height - 1 - row)
    } else {
        (row, height - 1 - column)
    }
}

/// Where a pixel of the bitmap lands on the turned screen.
pub open spec fn screen_position(orientation: u32, column: int, row: int) -> (int, int) {
    turned_position(
        screen_size(orientation).0,
        screen_size(orientation).1,
        quarter_turns(orientation),
        column,
        row,
    )
}

/// The offset in the frame of the first component of a bitmap pixel.
pub open spec fn pixel_offset(orientation: u32, column: int, row: int) -> int {
    let (x, y) = screen_position(orientation, column, row);
    (y * screen_size(orientation).0 + x) * 3
}

pub open spec fn is_in_bitmap(column: int, row: int) -> bool {
    0 <= column < 256 && 0 <= row < 224
}

/// Whether a pixel of the bitmap is lit: bit `column % 8` of the byte for
/// its row and column group.
pub open spec fn is_lit(memory: Seq<u8>, column: int, row: int) -> bool {
    bit_of(memory[0x2400 + row * 32 + column / 8], (column % 8) as u8)
}

/// A bitmap pixel as the frame shows it: its three components are a color
/// that the color function gives for its screen position where it is lit,
/// and black where it is not.
pub open spec fn is_pixel_drawn<F: Fn(u32, u32) -> (u8, u8, u8)>(
    frame: Seq<u8>,
    memory: Seq<u8>,
    orientation: u32,
    pixel_color: F,
    column: int,
    row: int,
) -> bool {
    let offset = pixel_offset(orientation, column, row);
    let (x, y) = screen_position(orientation, column, row);
    if is_lit(memory, column, row) {
        call_ensures(
            pixel_color,
            (x as u32, y as u32),
            (frame[offset], frame[offset + 1], frame[offset + 2]),
        )
    } else {
        frame[offset] == 0 && frame[offset + 1] == 0 && frame[offset + 2] == 0
    }
}

pub open spec fn is_still_black(frame: Seq<u8>, orientation: u32, column: int, row: int) -> bool {
    let offset = pixel_offset(orientation, column, row);
    frame[offset] == 0 && frame[offset + 1] == 0 && frame[offset + 2] == 0
}

/// Width and height of the screen for the given orientation in degrees.
pub fn get_screen_dimensions(orientation: u32) -> (dimensions: (u32, u32))
    ensures
        dimensions.0 == screen_size(orientation).0,
        dimensions.1 == screen_size(orientation).1,
{
    let is_screen_rotated = (orientation % 360 / 90) % 2 == 1;
    let screen_width = if is_screen_rotated {
        ORIGINAL_SCREEN_HEIGHT
    } else {
        ORIGINAL_SCREEN_WIDTH
    };
    let screen_height = if is_screen_rotated {
        ORIGINAL_SCREEN_WIDTH
    } else {
        ORIGINAL_SCREEN_HEIGHT
    };
    (screen_width, screen_height)
}

/// Each bitmap pixel lands inside the frame.
pub proof fn lemma_pixel_offset_in_frame(orientation: u32, column: int, row: int)
    requires
        is_in_bitmap(column, row),
    ensures
        0 <= screen_position(orientation, column, row).0 < screen_size(orientation).0,
        0 <= screen_position(orientation, column, row).1 < screen_size(orientation).1,
        0 <= pixel_offset(orientation, column, row),
        pixel_offset(orientation, column, row) + 3 <= SCREEN_DATA_SIZE,
        pixel_offset(orientation, column, row) % 3 == 0,
{
    let (width, height) = screen_size(orientation);
    let (x, y) = screen_position(orientation, column, row);
    assert(0 <= x < width && 0 <= y < height);
    assert(0 <= y * width + x < width * height) by (nonlinear_arith)
        requires
            0 <= x < width,
            0 <= y < height,
    ;
}

/// Two distinct positions on a screen of the given width never share a
/// component of the frame.
pub proof fn lemma_frame_offsets_apart(width: int, x1: int, y1: int, x2: int, y2: int)
    requires
        0 <= x1 < width,
        0 <= x2 < width,
        x1 != x2 || y1 != y2,
    ensures
        (y1 * width + x1) * 3 + 3 <= (y2 * width + x2) * 3 || (y2 * width + x2) * 3 + 3 <= (y1
            * width + x1) * 3,
{
    assert(y1 * width + x1 != y2 * width + x2) by (nonlinear_arith)
        requires
            0 <= x1 < width,
            0 <= x2 < width,
            x1 != x2 || y1 != y2,
    {
        if y1 > y2 {
            assert((y1 - y2) * width >= width);
        } else if y1 < y2 {
            assert((y2 - y1) * width >= width);
        }
    }
}

/// Two bitmap pixels never share a component of the frame.
pub proof fn lemma_pixel_offsets_apart(
    orientation: u32,
    column_1: int,
    row_1: int,
    column_2: int,
    row_2: int,
)
    requires
        is_in_bitmap(column_1, row_1),
        is_in_bitmap(column_2, row_2),
        column_1 != column_2 || row_1 != row_2,
    ensures
        pixel_offset(orientation, column_1, row_1) + 3 <= pixel_offset(orientation, column_2, row_2)
            || pixel_offset(orientation, column_2, row_2) + 3 <= pixel_offset(
            orientation,
            column_1,
            row_1,
        ),
{
    let width = screen_size(orientation).0;
    let (x1, y1) = screen_position(orientation, column_1, row_1);
    let (x2, y2) = screen_position(orientation, column_2, row_2);
    assert(x1 != x2 || y1 != y2);
    assert(0 <= x1 < width && 0 <= x2 < width);
    lemma_frame_offsets_apart(width, x1, y1, x2, y2);
}

/// Writes the pixel color for a screen position into its three components.
fn set_pixel<F: Fn(u32, u32) -> (u8, u8, u8)>(
    pixel_color: &F,
    screen_pixel_data: &mut [u8; 172032],
    index: usize,
    x: u32,
    y: u32,
)
    requires
        forall|x: u32, y: u32| pixel_color.requires((x, y)),
        index + 3 <= SCREEN_DATA_SIZE,
    ensures
        call_ensures(
            *pixel_color,
            (x, y),
            (final(screen_pixel_data)@[index as int], final(screen_pixel_data)@[index + 1], final(screen_pixel_data)@[index + 2]),
        ),
        forall|i: int|
            0 <= i < SCREEN_DATA_SIZE && (i < index || i >= index + 3) ==> final(screen_pixel_data)@[i] == old(screen_pixel_data)@[i],
{
    let color = pixel_color(x, y);
    screen_pixel_data[index] = color.0;
    screen_pixel_data[index + 1] = color.1;
    screen_pixel_data[index + 2] = color.2;
}

/// Where bit `bit` of the bitmap byte at `column_byte` and `row` lands on a
/// screen of the given width and height in the given orientation.
pub open spec fn bit_position(
    width: u32,
    height: u32,
    orientation: u32,
    column_byte: u32,
    row: u32,
    bit: int,
) -> (int, int) {
    turned_position(
        width as int,
        height as int,
        quarter_turns(orientation),
        column_byte * 8 + bit,
        row as int,
    )
}

/// The offset in the frame of the first component of that pixel.
pub open spec fn bit_offset(
    width: u32,
    height: u32,
    orientation: u32,
    column_byte: u32,
    row: u32,
    bit: int,
) -> int {
    let (x, y) = bit_position(width, height, orientation, column_byte, row, bit);
    (y * width + x) * 3
}

/// Whether bit `bit` of a byte is set.
pub open spec fn is_set_bit(value: u8, bit: int) -> bool {
    0 <= bit < 8 && bit_of(value, bit as u8)
}

/// Whether a position lies on a screen of the given width and height whose
/// pixels all fit in the frame.
pub open spec fn lands_in_frame(width: u32, height: u32, position: (int, int)) -> bool {
    &&& 0 <= position.0 < width
    &&& 0 <= position.1 < height
    &&& (position.1 * width + position.0) * 3 + 3 <= SCREEN_DATA_SIZE
}

/// Whether the pixel of a bit has the color that the color function gives
/// for its position.
pub open spec fn is_bit_pixel_drawn<F: Fn(u32, u32) -> (u8, u8, u8)>(
    frame: Seq<u8>,
    pixel_color: F,
    width: u32,
    height: u32,
    orientation: u32,
    column_byte: u32,
    row: u32,
    bit: int,
) -> bool {
    let (x, y) = bit_position(width, height, orientation, column_byte, row, bit);
    let offset = bit_offset(width, height, orientation, column_byte, row, bit);
    call_ensures(pixel_color, (x as u32, y as u32), (frame[offset], frame[offset + 1], frame[offset + 2]))
}

/// The pixels of two different bits of a byte never share a component of
/// the frame.
proof fn lemma_bit_offsets_apart(
    width: u32,
    height: u32,
    orientation: u32,
    column_byte: u32,
    row: u32,
    bit_1: int,
    bit_2: int,
)
    requires
        0 <= bit_1 < 8,
        0 <= bit_2 < 8,
        bit_1 != bit_2,
        lands_in_frame(width, height, bit_position(width, height, orientation, column_byte, row, bit_1)),
        lands_in_frame(width, height, bit_position(width, height, orientation, column_byte, row, bit_2)),
    ensures
        bit_offset(width, height, orientation, column_byte, row, bit_1) + 3 <= bit_offset(
            width,
            height,
            orientation,
            column_byte,
            row,
            bit_2,
        ) || bit_offset(width, height, orientation, column_byte, row, bit_2) + 3 <= bit_offset(
            width,
            height,
            orientation,
            column_byte,
            row,
            bit_1,
        ),
{
    let (x1, y1) = bit_position(width, height, orientation, column_byte, row, bit_1);
    let (x2, y2) = bit_position(width, height, orientation, column_byte, row, bit_2);
    assert(x1 != x2 || y1 != y2);
    lemma_frame_offsets_apart(width as int, x1, y1, x2, y2);
}

/// On the screen of an orientation, the pixel of bit `bit` of a bitmap byte
/// is the bitmap pixel of its column, and it lands in the frame.
proof fn lemma_bit_is_bitmap_pixel(orientation: u32, column_byte: u32, row: u32, bit: int)
    requires
        column_byte < 32,
        row < 224,
        0 <= bit < 8,
    ensures
        bit_position(
            screen_size(orientation).0 as u32,
            screen_size(orientation).1 as u32,
            orientation,
            column_byte,
            row,
            bit,
        ) == screen_position(orientation, column_byte * 8 + bit, row as int),
        bit_offset(
            screen_size(orientation).0 as u32,
            screen_size(orientation).1 as u32,
            orientation,
            column_byte,
            row,
            bit,
        ) == pixel_offset(orientation, column_byte * 8 + bit, row as int),
        lands_in_frame(
            screen_size(orientation).0 as u32,
            screen_size(orientation).1 as u32,
            screen_position(orientation, column_byte * 8 + bit, row as int),
        ),
{
    lemma_pixel_offset_in_frame(orientation, column_byte * 8 + bit, row as int);
}

/// Draws the pixels of the set bits of one byte of the bitmap; the pixels
/// of its clear bits, and every other byte of the frame, stay as they were.
#[verifier::rlimit(60)]
fn set_original_column_byte_pixels<F: Fn(u32, u32) -> (u8, u8, u8)>(
    pixel_color: &F,
    screen_pixel_data: &mut [u8; 172032],
    screen_width: u32,
    screen_height: u32,
    screen_orientation: u32,
    original_screen_column_byte: u32,
    original_screen_row: u32,
    memory_value: u8,
)
    requires
        forall|x: u32, y: u32| pixel_color.requires((x, y)),
        forall|bit: int|
            is_set_bit(memory_value, bit) ==> lands_in_frame(
                screen_width,
                screen_height,
                #[trigger] bit_position(
                    screen_width,
                    screen_height,
                    screen_orientation,
                    original_screen_column_byte,
                    original_screen_row,
                    bit,
                ),
            ),
    ensures
        forall|bit: int|
            is_set_bit(memory_value, bit) ==> #[trigger] is_bit_pixel_drawn(
                final(screen_pixel_data)@,
                *pixel_color,
                screen_width,
                screen_height,
                screen_orientation,
                original_screen_column_byte,
                original_screen_row,
                bit,
            ),
        forall|i: int|
            0 <= i < SCREEN_DATA_SIZE && (forall|bit: int|
                is_set_bit(memory_value, bit) ==> #[trigger] bit_offset(
                    screen_width,
                    screen_height,
                    screen_orientation,
                    original_screen_column_byte,
                    original_screen_row,
                    bit,
                ) > i || i >= bit_offset(
                    screen_width,
                    screen_height,
                    screen_orientation,
                    original_screen_column_byte,
                    original_screen_row,
                    bit,
                ) + 3) ==> final(screen_pixel_data)@[i] == old(screen_pixel_data)@[i],
{
    let num_screen_turns = screen_orientation % 360 / 90;
    let ghost column_byte = original_screen_column_byte;
    let ghost row = original_screen_row;
    let ghost width = screen_width;
    let ghost height = screen_height;
    let ghost orientation = screen_orientation;
    let mut bit_index: u8 = 0;
    while bit_index <= 7
        invariant
            forall|x: u32, y: u32| pixel_color.requires((x, y)),
            num_screen_turns == quarter_turns(screen_orientation),
            column_byte == original_screen_column_byte,
            row == original_screen_row,
            width == screen_width,
            height == screen_height,
            orientation == screen_orientation,
            bit_index <= 8,
            forall|bit: int|
                is_set_bit(memory_value, bit) ==> lands_in_frame(
                    width,
                    height,
                    #[trigger] bit_position(width, height, orientation, column_byte, row, bit),
                ),
            forall|bit: int|
                is_set_bit(memory_value, bit) && bit < bit_index ==> #[trigger] is_bit_pixel_drawn(
                    screen_pixel_data@,
                    *pixel_color,
                    width,
                    height,
                    orientation,
                    column_byte,
                    row,
                    bit,
                ),
            forall|i: int|
                0 <= i < SCREEN_DATA_SIZE && (forall|bit: int|
                    is_set_bit(memory_value, bit) && bit < bit_index ==> #[trigger] bit_offset(
                        width,
                        height,
                        orientation,
                        column_byte,
                        row,
                        bit,
                    ) > i || i >= bit_offset(width, height, orientation, column_byte, row, bit) + 3)
                    ==> screen_pixel_data@[i] == old(screen_pixel_data)@[i],
        decreases 8 - bit_index,
    {
        let is_bit_set = bit_operations::is_bit_set(memory_value, bit_index);
        let ghost bit = bit_index as int;
        let ghost before = screen_pixel_data@;
        assert(is_set_bit(memory_value, bit) == is_bit_set);
        if is_bit_set {
            let ghost position = bit_position(width, height, orientation, column_byte, row, bit);
            assert(lands_in_frame(width, height, position));
            assert(original_screen_column_byte * 8 + bit_index < 0x1_0000_0000);
            let original_screen_column = original_screen_column_byte * 8 + bit_index as u32;
            let (x, y) = if num_screen_turns == 0 {
                (original_screen_column, original_screen_row)
            } else if num_screen_turns == 1 {
                ((screen_width - 1) - original_screen_row, original_screen_column)
            } else if num_screen_turns == 2 {
                ((screen_width - 1) - original_screen_column, (screen_height - 1)
                    - original_screen_row)
            } else {
                (original_screen_row, (screen_height - 1) - original_screen_column)
            };
            assert(x == position.0 && y == position.1);
            assert(y * screen_width + x < 0x1_0000_0000) by (nonlinear_arith)
                requires
                    (y * screen_width + x) * 3 + 3 <= SCREEN_DATA_SIZE,
            ;
            let index = (y * screen_width + x) as usize * NUM_PIXEL_COMPONENTS;
            assert(index == bit_offset(width, height, orientation, column_byte, row, bit));
            set_pixel(pixel_color, screen_pixel_data, index, x, y);
            proof {
                let after = screen_pixel_data@;
                assert forall|other: int|
                    is_set_bit(memory_value, other) && other < bit_index + 1 implies #[trigger] is_bit_pixel_drawn(
                    after,
                    *pixel_color,
                    width,
                    height,
                    orientation,
                    column_byte,
                    row,
                    other,
                ) by {
                    if other != bit {
                        assert(is_bit_pixel_drawn(
                            before,
                            *pixel_color,
                            width,
                            height,
                            orientation,
                            column_byte,
                            row,
                            other,
                        ));
                        assert(lands_in_frame(width, height, bit_position(width, height, orientation, column_byte, row, other)));
                        lemma_bit_offsets_apart(width, height, orientation, column_byte, row, bit, other);
                        let other_offset = bit_offset(width, height, orientation, column_byte, row, other);
                        assert(after[other_offset] == before[other_offset]);
                        assert(after[other_offset + 1] == before[other_offset + 1]);
                        assert(after[other_offset + 2] == before[other_offset + 2]);
                    }
                }
                assert forall|i: int|
                    0 <= i < SCREEN_DATA_SIZE && (forall|b: int|
                        is_set_bit(memory_value, b) && b < bit_index + 1 ==> #[trigger] bit_offset(
                            width,
                            height,
                            orientation,
                            column_byte,
                            row,
                            b,
                        ) > i || i >= bit_offset(width, height, orientation, column_byte, row, b) + 3)
                        implies after[i] == old(screen_pixel_data)@[i] by {
                    assert(bit_offset(width, height, orientation, column_byte, row, bit) > i || i
                        >= index + 3);
                }
            }
        }
        bit_index = bit_index + 1;
    }
}

/// The frame for the bitmap in memory: every lit pixel in the color that
/// `pixel_color` gives for its screen position, every other pixel black.
#[verifier::rlimit(60)]
pub fn get_screen_pixel_data<F: Fn(u32, u32) -> (u8, u8, u8)>(
    state: &State,
    screen_orientation: u32,
    pixel_color: &F,
) -> (screen_pixel_data: [u8; 172032])
    requires
        forall|x: u32, y: u32| pixel_color.requires((x, y)),
    ensures
        forall|column: int, row: int|
            is_in_bitmap(column, row) ==> is_pixel_drawn(
                screen_pixel_data@,
                state@.memory,
                screen_orientation,
                *pixel_color,
                column,
                row,
            ),
{
    let num_bytes_per_original_row: u32 = ORIGINAL_SCREEN_WIDTH / 8;
    let mut screen_pixel_data = [0b0000_0000u8; 172032];
    let (screen_width, screen_height) = get_screen_dimensions(screen_orientation);
    let ghost memory = state@.memory;
    let mut original_screen_row: u32 = 0;
    while original_screen_row < ORIGINAL_SCREEN_HEIGHT
        invariant
            forall|x: u32, y: u32| pixel_color.requires((x, y)),
            num_bytes_per_original_row == 32,
            screen_width == screen_size(screen_orientation).0,
            screen_height == screen_size(screen_orientation).1,
            memory == state@.memory,
            memory.len() == 65536,
            original_screen_row <= 224,
            forall|column: int, row: int|
                is_in_bitmap(column, row) && row < original_screen_row ==> is_pixel_drawn(
                    screen_pixel_data@,
                    memory,
                    screen_orientation,
                    *pixel_color,
                    column,
                    row,
                ),
            forall|column: int, row: int|
                is_in_bitmap(column, row) && row >= original_screen_row ==> is_still_black(
                    screen_pixel_data@,
                    screen_orientation,
                    column,
                    row,
                ),
        decreases 224 - original_screen_row,
    {
        let mut original_screen_column_byte: u32 = 0;
        while original_screen_column_byte < num_bytes_per_original_row
            invariant
                forall|x: u32, y: u32| pixel_color.requires((x, y)),
                num_bytes_per_original_row == 32,
                screen_width == screen_size(screen_orientation).0,
                screen_height == screen_size(screen_orientation).1,
                memory == state@.memory,
                memory.len() == 65536,
                original_screen_row < 224,
                original_screen_column_byte <= 32,
                forall|column: int, row: int|
                    is_in_bitmap(column, row) && (row < original_screen_row || (row
                        == original_screen_row && column < original_screen_column_byte * 8))
                        ==> is_pixel_drawn(
                        screen_pixel_data@,
                        memory,
                        screen_orientation,
                        *pixel_color,
                        column,
                        row,
                    ),
                forall|column: int, row: int|
                    is_in_bitmap(column, row) && (row > original_screen_row || (row
                        == original_screen_row && column >= original_screen_column_byte * 8))
                        ==> is_still_black(screen_pixel_data@, screen_orientation, column, row),
            decreases 32 - original_screen_column_byte,
        {
            let memory_address = VIDEO_MEMORY_START + (original_screen_row
                * num_bytes_per_original_row + original_screen_column_byte) as u16;
            let memory_value = state.memory_value_at(memory_address);
            let ghost before = screen_pixel_data@;
            let ghost first_column = original_screen_column_byte * 8;
            let ghost row = original_screen_row as int;
            assert(memory_address as int == 0x2400 + row * 32 + original_screen_column_byte);
            assert forall|column: int|
                first_column <= column < first_column + 8 implies is_still_black(
                screen_pixel_data@,
                screen_orientation,
                column,
                row,
            ) by {
                assert(is_in_bitmap(column, row));
            }
            if memory_value != 0b0000_0000 {
                proof {
                    assert forall|bit: int| is_set_bit(memory_value, bit) implies lands_in_frame(
                        screen_width,
                        screen_height,
                        #[trigger] bit_position(
                            screen_width,
                            screen_height,
                            screen_orientation,
                            original_screen_column_byte,
                            original_screen_row,
                            bit,
                        ),
                    ) by {
                        lemma_bit_is_bitmap_pixel(
                            screen_orientation,
                            original_screen_column_byte,
                            original_screen_row,
                            bit,
                        );
                    }
                }
                set_original_column_byte_pixels(
                    pixel_color,
                    &mut screen_pixel_data,
                    screen_width,
                    screen_height,
                    screen_orientation,
                    original_screen_column_byte,
                    original_screen_row,
                    memory_value,
                );
                proof {
                    let after = screen_pixel_data@;
                    assert forall|column: int, other_row: int|
                        is_in_bitmap(column, other_row) && !(other_row == row && first_column
                            <= column < first_column + 8 && is_set_bit(
                            memory_value,
                            column - first_column,
                        )) implies after[pixel_offset(screen_orientation, column, other_row)]
                        == before[pixel_offset(screen_orientation, column, other_row)]
                        && after[pixel_offset(screen_orientation, column, other_row) + 1]
                        == before[pixel_offset(screen_orientation, column, other_row) + 1]
                        && after[pixel_offset(screen_orientation, column, other_row) + 2]
                        == before[pixel_offset(screen_orientation, column, other_row) + 2] by {
                        lemma_pixel_offset_in_frame(screen_orientation, column, other_row);
                        let offset = pixel_offset(screen_orientation, column, other_row);
                        assert forall|bit: int| is_set_bit(memory_value, bit) implies #[trigger] bit_offset(
                            screen_width,
                            screen_height,
                            screen_orientation,
                            original_screen_column_byte,
                            original_screen_row,
                            bit,
                        ) > offset + 2 || offset >= bit_offset(
                            screen_width,
                            screen_height,
                            screen_orientation,
                            original_screen_column_byte,
                            original_screen_row,
                            bit,
                        ) + 3 by {
                            lemma_bit_is_bitmap_pixel(
                                screen_orientation,
                                original_screen_column_byte,
                                original_screen_row,
                                bit,
                            );
                            lemma_pixel_offsets_apart(
                                screen_orientation,
                                first_column + bit,
                                row,
                                column,
                                other_row,
                            );
                        }
                    }
                    assert forall|column: int|
                        first_column <= column < first_column + 8 implies is_pixel_drawn(
                        after,
                        memory,
                        screen_orientation,
                        *pixel_color,
                        column,
                        row,
                    ) by {
                        let bit = column - first_column;
                        assert(column / 8 == original_screen_column_byte && column % 8 == bit);
                        assert(is_in_bitmap(column, row));
                        lemma_bit_is_bitmap_pixel(
                            screen_orientation,
                            original_screen_column_byte,
                            original_screen_row,
                            bit,
                        );
                        if is_set_bit(memory_value, bit) {
                            assert(is_bit_pixel_drawn(
                                after,
                                *pixel_color,
                                screen_width,
                                screen_height,
                                screen_orientation,
                                original_screen_column_byte,
                                original_screen_row,
                                bit,
                            ));
                        } else {
                            assert(is_still_black(before, screen_orientation, column, row));
                        }
                    }
                }
            } else {
                proof {
                    assert forall|column: int|
                        first_column <= column < first_column + 8 implies is_pixel_drawn(
                        screen_pixel_data@,
                        memory,
                        screen_orientation,
                        *pixel_color,
                        column,
                        row,
                    ) by {
                        assert(column / 8 == original_screen_column_byte);
                        let bit = (column % 8) as u8;
                        assert(bit_of(0u8, bit) == false) by (bit_vector);
                        assert(is_still_black(screen_pixel_data@, screen_orientation, column, row));
                    }
                }
            }
            original_screen_column_byte = original_screen_column_byte + 1;
        }
        original_screen_row = original_screen_row + 1;
    }
    screen_pixel_data
}

/// A bitmap pixel turned by one more quarter turn lands where a quarter turn
/// of the screen it was on takes it: the point (x, y) of a screen of height
/// h goes to (h - 1 - y, x). With no turn a pixel stays where it is; so
/// turning by 180 degrees mirrors the unturned screen through its centre,
/// and turning by 270 degrees mirrors the 90-degree screen.
pub proof fn lemma_quarter_turns_rotate_the_screen(column: int, row: int)
    requires
        is_in_bitmap(column, row),
    ensures
        screen_position(0, column, row) == (column, row),
        screen_position(90, column, row) == (
            screen_size(0).1 - 1 - screen_position(0, column, row).1,
            screen_position(0, column, row).0,
        ),
        screen_position(180, column, row) == (
            screen_size(90).1 - 1 - screen_position(90, column, row).1,
            screen_position(90, column, row).0,
        ),
        screen_position(270, column, row) == (
            screen_size(180).1 - 1 - screen_position(180, column, row).1,
            screen_position(180, column, row).0,
        ),
        screen_position(180, column, row) == (
            screen_size(0).0 - 1 - screen_position(0, column, row).0,
            screen_size(0).1 - 1 - screen_position(0, column, row).1,
        ),
        screen_position(270, column, row) == (
            screen_size(90).0 - 1 - screen_position(90, column, row).0,
            screen_size(90).1 - 1 - screen_position(90, column, row).1,
        ),
        forall|orientation: u32|
            #[trigger] screen_position(orientation, column, row) == screen_position(
                (orientation % 360) as u32,
                column,
                row,
            ),
{
}

} // verus!
