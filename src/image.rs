use vstd::prelude::*;

verus! {

/// A `width` x `height` grid of pixels, stored row by row.
pub struct Image<T> {
    pub width: usize,
    pub height: usize,
    pub pixels: Vec<T>,
}

/// Position in the row-major pixel vector of the pixel at (`row`, `col`).
pub open spec fn flat_index(width: int, row: int, col: int) -> int {
    row * width + col
}

/// A pixel at (`row`, `col`) of a `width` x `height` grid has its place in the
/// pixel vector.
pub proof fn lemma_flat_index_in_bounds(width: int, height: int, row: int, col: int)
    requires
        0 <= row < height,
        0 <= col < width,
    ensures
        0 <= flat_index(width, row, col) < width * height,
{
    assert(row * width + col < width * height) by (nonlinear_arith)
        requires
            0 <= row < height,
            0 <= col < width,
    ;
}

impl<T> Image<T> {
    /// The pixel vector holds exactly one pixel per grid position.
    pub open spec fn wf(&self) -> bool {
        self.pixels.len() == self.width * self.height
    }

    /// The pixel at (`row`, `col`).
    pub open spec fn at(&self, row: int, col: int) -> T {
        self.pixels@[flat_index(self.width as int, row, col)]
    }

    /// A grid with every pixel set to `fill`.
    pub fn new(width: usize, height: usize, fill: T) -> (r: Image<T>)
        where
            T: Copy,
        requires
            width * height <= usize::MAX,
        ensures
            r.width == width,
            r.height == height,
            r.wf(),
            forall|i: int| 0 <= i < r.pixels.len() ==> r.pixels@[i] == fill,
    {
        let n: usize = width * height;
        let mut pixels: Vec<T> = Vec::with_capacity(n);
        let mut k: usize = 0;
        while k < n
            invariant
                k <= n,
                pixels.len() == k,
                forall|i: int| 0 <= i < k ==> pixels@[i] == fill,
            decreases n - k,
        {
            pixels.push(fill);
            k = k + 1;
        }
        Image { width, height, pixels }
    }

    /// A grid over `pixels`, given row by row; `None` unless there is exactly
    /// one pixel per grid position.
    pub fn from_pixels(width: usize, height: usize, pixels: Vec<T>) -> (r: Option<Image<T>>)
        ensures
            r is Some <==> pixels.len() == width * height,
            r matches Some(img) ==> img.width == width && img.height == height && img.pixels@
                == pixels@ && img.wf(),
    {
        match width.checked_mul(height) {
            Some(n) => {
                if pixels.len() == n {
                    Some(Image { width, height, pixels })
                } else {
                    None
                }
            },
            None => None,
        }
    }

    /// Position of the pixel at (`row`, `col`) in the pixel vector.
    pub fn index_of(&self, row: usize, col: usize) -> (r: usize)
        requires
            self.wf(),
            row < self.height,
            col < self.width,
        ensures
            r == flat_index(self.width as int, row as int, col as int),
            r < self.pixels.len(),
    {
        proof {
            lemma_flat_index_in_bounds(self.width as int, self.height as int, row as int, col as int);
        }
        row * self.width + col
    }

    /// The pixel at (`row`, `col`).
    pub fn get(&self, row: usize, col: usize) -> (r: &T)
        requires
            self.wf(),
            row < self.height,
            col < self.width,
        ensures
            *r == self.at(row as int, col as int),
    {
        let i = self.index_of(row, col);
        &self.pixels[i]
    }

    /// Sets the pixel at (`row`, `col`) to `value` and leaves every other pixel
    /// as it was.
    pub fn set(&mut self, row: usize, col: usize, value: T)
        requires
            old(self).wf(),
            row < old(self).height,
            col < old(self).width,
        ensures
            final(self).width == old(self).width,
            final(self).height == old(self).height,
            final(self).pixels@ == old(self).pixels@.update(
                flat_index(old(self).width as int, row as int, col as int),
                value,
            ),
            final(self).wf(),
    {
        let i = self.index_of(row, col);
        self.pixels.set(i, value);
    }
}

} // verus!
