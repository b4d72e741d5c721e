//! Grids of tile indices: reading them from comma-separated text, and
//! finding the cells that hold a tile.

use vstd::prelude::*;
use vstd::string::StrSliceExecFns;
use crate::math::{confine, confine_spec, Vec3};

verus! {

/// The tile index that marks an empty cell.
pub const NO_TILE: i32 = -1;

/// Why a grid could not be read.
#[derive(Clone, Copy, Debug, PartialEq, Eq, Structural)]
pub enum GridError {
    /// The text is not well-formed comma-separated text.
    Malformed,
    /// A cell does not hold a whole number that fits in 32 bits.
    NotANumber,
    /// The text holds no row after its heading row.
    NoRows,
    /// The grid holds more tiles than there are handles left to give them.
    TooLarge,
}

/// The error of the reader of comma-separated text.
#[verifier::external_type_specification]
#[verifier::external_body]
pub struct ExCsvError(csv::Error);

/// The records that the reader of the `csv` crate, as it is configured by
/// default, finds in `data` after the heading row, each as the texts of its
/// fields; or nothing, if the reader reports an error for any record.
pub uninterp spec fn csv_records(data: Seq<u8>) -> Option<Seq<Seq<Seq<char>>>>;

/// Calls `csv::Reader::from_reader` on `data` and walks `Reader::records` to
/// the end or to the first error. The claim is only that what comes back is
/// what `csv_records` names: the records in order, each field as text, or
/// the first error.
#[verifier::external_body]
fn read_records(data: &[u8]) -> (result: Result<Vec<Vec<String>>, csv::Error>)
    ensures
        match result {
            Ok(rows) => csv_records(data@) == Some(rows.deep_view()),
            Err(_) => csv_records(data@) is None,
        },
{
    let mut reader = csv::Reader::from_reader(data);
    let mut rows: Vec<Vec<String>> = Vec::new();
    for record in reader.records() {
        rows.push(record?.iter().map(|field| field.to_string()).collect());
    }
    Ok(rows)
}

/// The value of a decimal digit, or nothing for any other character.
pub open spec fn digit_spec(c: char) -> Option<int> {
    if c == '0' {
        Some(0)
    } else if c == '1' {
        Some(1)
    } else if c == '2' {
        Some(2)
    } else if c == '3' {
        Some(3)
    } else if c == '4' {
        Some(4)
    } else if c == '5' {
        Some(5)
    } else if c == '6' {
        Some(6)
    } else if c == '7' {
        Some(7)
    } else if c == '8' {
        Some(8)
    } else if c == '9' {
        Some(9)
    } else {
        None
    }
}

/// Whether every character of `text` from `from` on is a decimal digit.
pub open spec fn all_digits(text: Seq<char>, from: int) -> bool {
    forall|i: int| from <= i < text.len() ==> digit_spec(#[trigger] text[i]) is Some
}

/// The number that the digits of `text` from `from` up to, but not
/// including, `to` spell.
pub open spec fn digits_value(text: Seq<char>, from: int, to: int) -> int
    decreases to - from,
{
    if to <= from {
        0
    } else {
        digits_value(text, from, to - 1) * 10 + match digit_spec(text[to - 1]) {
            Some(d) => d,
            None => 0,
        }
    }
}

/// The whole number that `text` spells: an optional sign, then one or more
/// decimal digits and nothing else, with a value that fits in 32 bits.
pub open spec fn parse_i32_spec(text: Seq<char>) -> Option<i32> {
    let signed = text.len() > 0 && (text[0] == '-' || text[0] == '+');
    let from: int = if signed {
        1
    } else {
        0
    };
    let magnitude = digits_value(text, from, text.len() as int);
    let value = if text.len() > 0 && text[0] == '-' {
        -magnitude
    } else {
        magnitude
    };
    if text.len() <= from || !all_digits(text, from) || value < i32::MIN || value > i32::MAX {
        None
    } else {
        Some(value as i32)
    }
}

/// The number spelled by digits grows with every digit read.
pub proof fn lemma_digits_value_grows(text: Seq<char>, from: int, mid: int, to: int)
    requires
        0 <= from <= mid <= to <= text.len(),
    ensures
        0 <= digits_value(text, from, mid) <= digits_value(text, from, to),
    decreases to - mid,
{
    if mid < to {
        lemma_digits_value_grows(text, from, mid, to - 1);
    } else {
        lemma_digits_value_nonnegative(text, from, mid);
    }
}

/// The number spelled by digits is not negative.
pub proof fn lemma_digits_value_nonnegative(text: Seq<char>, from: int, to: int)
    ensures
        0 <= digits_value(text, from, to),
    decreases to - from,
{
    if from < to {
        lemma_digits_value_nonnegative(text, from, to - 1);
    }
}

/// Reads a decimal digit.
pub fn digit(c: char) -> (d: Option<u8>)
    ensures
        match d {
            Some(v) => digit_spec(c) == Some(v as int),
            None => digit_spec(c) is None,
        },
{
    if c == '0' {
        Some(0)
    } else if c == '1' {
        Some(1)
    } else if c == '2' {
        Some(2)
    } else if c == '3' {
        Some(3)
    } else if c == '4' {
        Some(4)
    } else if c == '5' {
        Some(5)
    } else if c == '6' {
        Some(6)
    } else if c == '7' {
        Some(7)
    } else if c == '8' {
        Some(8)
    } else if c == '9' {
        Some(9)
    } else {
        None
    }
}

/// Reads the whole number that `text` spells.
pub fn parse_i32(text: &str) -> (value: Option<i32>)
    ensures
        value == parse_i32_spec(text@),
{
    let n = text.unicode_len();
    if n == 0 {
        return None;
    }
    let first = text.get_char(0);
    let negative = first == '-';
    let from: usize = if first == '-' || first == '+' {
        1
    } else {
        0
    };
    if n <= from {
        return None;
    }
    let mut magnitude: i64 = 0;
    let mut i: usize = from;
    while i < n
        invariant
            from <= i <= n,
            n == text@.len(),
            n > 0,
            negative == (text@[0] == '-'),
            from == if text@[0] == '-' || text@[0] == '+' {
                1int
            } else {
                0int
            },
            forall|j: int| from <= j < i ==> digit_spec(#[trigger] text@[j]) is Some,
            magnitude == digits_value(text@, from as int, i as int),
            0 <= magnitude <= 2147483648,
        decreases n - i,
    {
        let c = text.get_char(i);
        match digit(c) {
            None => {
                assert(digit_spec(text@[i as int]) is None);
                return None;
            },
            Some(d) => {
                magnitude = magnitude * 10 + d as i64;
                if magnitude > 2147483648 {
                    proof {
                        if all_digits(text@, from as int) {
                            lemma_digits_value_grows(text@, from as int, i + 1, n as int);
                        }
                    }
                    return None;
                }
            },
        }
        i += 1;
    }
    assert(all_digits(text@, from as int));
    if negative {
        Some((-magnitude) as i32)
    } else if magnitude > 2147483647 {
        None
    } else {
        Some(magnitude as i32)
    }
}

/// The numbers that the cells of `rows` spell, if every cell spells one.
pub open spec fn parse_grid_spec(rows: Seq<Seq<Seq<char>>>) -> Option<Seq<Seq<i32>>> {
    if forall|y: int, x: int|
        0 <= y < rows.len() && 0 <= x < rows[y].len() ==> parse_i32_spec(#[trigger] rows[y][x])
            is Some {
        Some(
            Seq::new(
                rows.len(),
                |y: int| Seq::new(rows[y].len(), |x: int| parse_i32_spec(rows[y][x]).unwrap()),
            ),
        )
    } else {
        None
    }
}

/// Reads the number in every cell of `rows`.
pub fn parse_grid(rows: &Vec<Vec<String>>) -> (grid: Result<Vec<Vec<i32>>, GridError>)
    ensures
        match grid {
            Ok(cells) => parse_grid_spec(rows.deep_view()) == Some(cells.deep_view()),
            Err(error) => error == GridError::NotANumber && parse_grid_spec(rows.deep_view())
                is None,
        },
{
    let ghost texts = rows.deep_view();
    let mut grid: Vec<Vec<i32>> = Vec::new();
    let mut y: usize = 0;
    while y < rows.len()
        invariant
            y <= rows.len(),
            texts == rows.deep_view(),
            grid@.len() == y,
            forall|v: int, u: int|
                0 <= v < y && 0 <= u < texts[v].len() ==> parse_i32_spec(#[trigger] texts[v][u])
                    is Some,
            forall|v: int|
                0 <= v < y ==> (#[trigger] grid@[v])@ == Seq::new(
                    texts[v].len(),
                    |x: int| parse_i32_spec(texts[v][x]).unwrap(),
                ),
        decreases rows.len() - y,
    {
        let row = &rows[y];
        assert(texts[y as int] == row.deep_view());
        let mut cells: Vec<i32> = Vec::new();
        let mut x: usize = 0;
        while x < row.len()
            invariant
                x <= row.len(),
                y < rows.len(),
                texts == rows.deep_view(),
                texts[y as int] == row.deep_view(),
                cells@.len() == x,
                forall|u: int|
                    0 <= u < x ==> parse_i32_spec(#[trigger] texts[y as int][u]) == Some(cells@[u]),
            decreases row.len() - x,
        {
            assert(texts[y as int][x as int] == row[x as int]@);
            match parse_i32(row[x].as_str()) {
                Some(value) => {
                    cells.push(value);
                },
                None => {
                    return Err(GridError::NotANumber);
                },
            }
            x += 1;
        }
        assert(cells@ == Seq::new(
            texts[y as int].len(),
            |x: int| parse_i32_spec(texts[y as int][x]).unwrap(),
        ));
        grid.push(cells);
        y += 1;
    }
    assert(grid.deep_view() =~~= parse_grid_spec(texts).unwrap());
    Ok(grid)
}

/// What `read_grid` returns for a text whose records are `records`.
pub open spec fn grid_of(records: Option<Seq<Seq<Seq<char>>>>) -> Result<Seq<Seq<i32>>, GridError> {
    match records {
        None => Err(GridError::Malformed),
        Some(rows) => match parse_grid_spec(rows) {
            None => Err(GridError::NotANumber),
            Some(cells) => Ok(cells),
        },
    }
}

/// Reads a grid of tile indices from comma-separated text. The first row is
/// a heading and is not part of the grid.
pub fn read_grid(data: &[u8]) -> (grid: Result<Vec<Vec<i32>>, GridError>)
    ensures
        match grid {
            Ok(cells) => grid_of(csv_records(data@)) == Ok::<Seq<Seq<i32>>, GridError>(
                cells.deep_view(),
            ),
            Err(error) => grid_of(csv_records(data@)) == Err::<Seq<Seq<i32>>, GridError>(error),
        },
{
    match read_records(data) {
        Err(_) => Err(GridError::Malformed),
        Ok(rows) => parse_grid(&rows),
    }
}

/// The cells of the first `x_end` columns of row `y` that hold a tile, as
/// pairs of column and row, from left to right.
pub open spec fn row_slots(row: Seq<i32>, y: int, x_end: int) -> Seq<(int, int)>
    decreases x_end,
{
    if x_end <= 0 {
        Seq::empty()
    } else if row[x_end - 1] != NO_TILE {
        row_slots(row, y, x_end - 1).push((x_end - 1, y))
    } else {
        row_slots(row, y, x_end - 1)
    }
}

/// The cells of the first `y_end` rows that hold a tile, row by row from the
/// top, each row from left to right.
pub open spec fn grid_slots(grid: Seq<Seq<i32>>, y_end: int) -> Seq<(int, int)>
    decreases y_end,
{
    if y_end <= 0 {
        Seq::empty()
    } else {
        grid_slots(grid, y_end - 1) + row_slots(
            grid[y_end - 1],
            y_end - 1,
            grid[y_end - 1].len() as int,
        )
    }
}

/// The cells of a grid as a sequence of pairs of integers.
pub open spec fn slots_view(slots: Seq<(usize, usize)>) -> Seq<(int, int)> {
    Seq::new(slots.len(), |k: int| (slots[k].0 as int, slots[k].1 as int))
}

/// Lists the cells of `grid` that hold a tile, in reading order.
pub fn occupied_cells(grid: &Vec<Vec<i32>>) -> (slots: Vec<(usize, usize)>)
    ensures
        slots_view(slots@) == grid_slots(grid.deep_view(), grid@.len() as int),
{
    let ghost cells = grid.deep_view();
    let mut slots: Vec<(usize, usize)> = Vec::new();
    let mut y: usize = 0;
    while y < grid.len()
        invariant
            y <= grid.len(),
            cells == grid.deep_view(),
            slots_view(slots@) == grid_slots(cells, y as int),
        decreases grid.len() - y,
    {
        let row = &grid[y];
        assert(cells[y as int] == row@);
        let ghost before = slots_view(slots@);
        let mut x: usize = 0;
        while x < row.len()
            invariant
                x <= row.len(),
                cells[y as int] == row@,
                slots_view(slots@) == before + row_slots(row@, y as int, x as int),
            decreases row.len() - x,
        {
            let ghost listed = slots_view(slots@);
            if row[x] != NO_TILE {
                slots.push((x, y));
                assert(slots_view(slots@) == listed.push((x as int, y as int)));
            }
            x += 1;
        }
        y += 1;
    }
    slots
}

/// The place of the tile in column `x` of row `y` of a grid of `width` by
/// `height` tiles that is centred on the origin, on layer `z_index`. Rows
/// count downward from the top.
pub open spec fn tile_translation_spec(x: int, y: int, width: int, height: int, z_index: i64) -> Vec3 {
    Vec3 {
        x: confine_spec(x * 16_000 - width * 8_000) as i64,
        y: confine_spec(height * 8_000 - y * 16_000) as i64,
        z: z_index,
    }
}

/// Computes the place of a tile of a grid that is centred on the origin.
pub fn tile_translation(x: usize, y: usize, width: usize, height: usize, z_index: i64) -> (place: Vec3)
    ensures
        place == tile_translation_spec(x as int, y as int, width as int, height as int, z_index),
{
    Vec3 {
        x: confine(x as i128 * 16_000 - width as i128 * 8_000),
        y: confine(height as i128 * 8_000 - y as i128 * 16_000),
        z: z_index,
    }
}

} // verus!
