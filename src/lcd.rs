use vstd::prelude::*;

verus! {

pub const GAMEBOY_SCREEN_WIDTH: usize = 160;
pub const GAMEBOY_SCREEN_HEIGHT: usize = 144;

/// A red, green, blue colour.
pub type Pixel = (u8, u8, u8);

/// The picture: one column of `GAMEBOY_SCREEN_HEIGHT` pixels for each of the
/// `GAMEBOY_SCREEN_WIDTH` horizontal positions.
#[derive(Debug)]
pub struct LCD {
    pub image: Vec<Vec<Pixel>>,
}

impl LCD {
    pub open spec fn wf(&self) -> bool {
        &&& self.image@.len() == GAMEBOY_SCREEN_WIDTH
        &&& forall|x: int|
            0 <= x < GAMEBOY_SCREEN_WIDTH ==> #[trigger] self.image@[x]@.len()
                == GAMEBOY_SCREEN_HEIGHT
    }

    /// A black screen.
    pub fn new() -> (r: Self)
        ensures
            r.wf(),
            forall|x: int, y: int|
                0 <= x < GAMEBOY_SCREEN_WIDTH && 0 <= y < GAMEBOY_SCREEN_HEIGHT
                    ==> #[trigger] r.image@[x]@[y] == (0u8, 0u8, 0u8),
    {
        let mut image: Vec<Vec<Pixel>> = Vec::with_capacity(GAMEBOY_SCREEN_WIDTH);
        let mut x: usize = 0;
        while x < GAMEBOY_SCREEN_WIDTH
            invariant
                x <= GAMEBOY_SCREEN_WIDTH,
                image@.len() == x,
                forall|i: int| 0 <= i < x ==> #[trigger] image@[i]@.len() == GAMEBOY_SCREEN_HEIGHT,
                forall|i: int, j: int|
                    0 <= i < x && 0 <= j < GAMEBOY_SCREEN_HEIGHT ==> #[trigger] image@[i]@[j] == (
                    0u8,
                    0u8,
                    0u8,
                ),
            decreases GAMEBOY_SCREEN_WIDTH - x,
        {
            let mut column: Vec<Pixel> = Vec::with_capacity(GAMEBOY_SCREEN_HEIGHT);
            let mut y: usize = 0;
            while y < GAMEBOY_SCREEN_HEIGHT
                invariant
                    y <= GAMEBOY_SCREEN_HEIGHT,
                    column@.len() == y,
                    forall|j: int| 0 <= j < y ==> #[trigger] column@[j] == (0u8, 0u8, 0u8),
                decreases GAMEBOY_SCREEN_HEIGHT - y,
            {
                column.push((0, 0, 0));
                y = y + 1;
            }
            image.push(column);
            x = x + 1;
        }
        LCD { image }
    }

    /// The pixel at column `x`, row `y`.
    pub fn pixel(&self, x: usize, y: usize) -> (r: Pixel)
        requires
            self.wf(),
            x < GAMEBOY_SCREEN_WIDTH,
            y < GAMEBOY_SCREEN_HEIGHT,
        ensures
            r == self.image@[x as int]@[y as int],
    {
        self.image[x][y]
    }
}

} // verus!
