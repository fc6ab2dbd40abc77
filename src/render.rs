use itertools::Itertools;
use rayon::iter::IndexedParallelIterator;
use rayon::iter::IntoParallelRefIterator;
use rayon::iter::ParallelIterator;
use vstd::prelude::*;

use crate::image::Image;
use crate::scene::Scene;

verus! {

/// Why a render cannot start.
#[derive(Debug, Clone, Copy, PartialEq, Eq, Structural)]
pub enum RenderError {
    /// The scene holds no object.
    EmptyScene,
    /// The image is to be zero pixels wide.
    ZeroWidth,
    /// The image is to be zero pixels high.
    ZeroHeight,
}

/// The error a render with these parameters fails with, checked in this order,
/// or `None` where it can run.
pub open spec fn render_error(width: usize, height: usize, n_objects: usize) -> Option<
    RenderError,
> {
    if n_objects == 0 {
        Some(RenderError::EmptyScene)
    } else if width == 0 {
        Some(RenderError::ZeroWidth)
    } else if height == 0 {
        Some(RenderError::ZeroHeight)
    } else {
        None
    }
}

/// Checks the parameters of a render before any pixel is computed.
pub fn check_render(width: usize, height: usize, n_objects: usize) -> (r: Result<(), RenderError>)
    ensures
        r is Ok <==> render_error(width, height, n_objects) is None,
        r matches Err(e) ==> render_error(width, height, n_objects) == Some(e),
{
    if n_objects == 0 {
        Err(RenderError::EmptyScene)
    } else if width == 0 {
        Err(RenderError::ZeroWidth)
    } else if height == 0 {
        Err(RenderError::ZeroHeight)
    } else {
        Ok(())
    }
}

/// The (row, column) of the pixel at position `i` of a row-major grid of the
/// given width.
pub open spec fn pixel_at(width: usize, i: int) -> (usize, usize) {
    ((i / width as int) as usize, (i % width as int) as usize)
}

/// Relies on itertools' `cartesian_product` and `collect_vec`: every pair of a
/// row below `height` and a column below `width`, rows outermost, so that the
/// pairs come in row-major order.
#[verifier::external_body]
fn pixel_coords(width: usize, height: usize) -> (r: Vec<(usize, usize)>)
    requires
        width > 0,
        width * height <= usize::MAX,
    ensures
        r.len() == width * height,
        forall|i: int| 0 <= i < r.len() ==> r@[i] == pixel_at(width, i),
{
    (0..height).cartesian_product(0..width).collect_vec()
}

/// Relies on rayon's `par_iter`, `map` and `collect_into_vec`: `shade` is
/// applied to every pair, on any number of threads, and the results are
/// gathered in the order of the pairs.
#[verifier::external_body]
fn par_shade<C: Send, F: Fn((usize, usize)) -> C + Sync>(coords: &Vec<(usize, usize)>, shade: F) -> (r: Vec<C>)
    requires
        forall|i: int| 0 <= i < coords.len() ==> shade.requires((coords@[i],)),
    ensures
        r.len() == coords.len(),
        forall|i: int| 0 <= i < coords.len() ==> shade.ensures((coords@[i],), #[trigger] r@[i]),
{
    let mut r = Vec::new();
    coords.par_iter().map(|c| shade(*c)).collect_into_vec(&mut r);
    r
}

/// `img` is a `width` x `height` grid whose every pixel is a result of
/// `shade` on its own (row, column).
pub open spec fn shaded_by<C, F: Fn((usize, usize)) -> C>(
    img: Image<C>,
    width: usize,
    height: usize,
    shade: F,
) -> bool {
    &&& img.width == width
    &&& img.height == height
    &&& img.wf()
    &&& forall|i: int|
        0 <= i < img.pixels.len() ==> shade.ensures((pixel_at(width, i),), #[trigger] img.pixels@[i])
}

/// Where shading a pixel has one possible result, two renders of the same
/// parameters give the same pixels, however the work was spread over threads.
pub proof fn lemma_render_repeatable<C, F: Fn((usize, usize)) -> C>(
    a: Image<C>,
    b: Image<C>,
    width: usize,
    height: usize,
    shade: F,
)
    requires
        shaded_by(a, width, height, shade),
        shaded_by(b, width, height, shade),
        forall|p: (usize, usize), x: C, y: C|
            shade.ensures((p,), x) && shade.ensures((p,), y) ==> x == y,
    ensures
        a.pixels@ == b.pixels@,
{
    assert forall|i: int| 0 <= i < a.pixels.len() implies a.pixels@[i] == b.pixels@[i] by {
        assert(shade.ensures((pixel_at(width, i),), a.pixels@[i]));
        assert(shade.ensures((pixel_at(width, i),), b.pixels@[i]));
    }
    assert(a.pixels@ =~= b.pixels@);
}

impl<O> Scene<O> {
    /// Renders a `width` x `height` image, the pixel at (row, column) being
    /// `shade((row, column))`; pixels are shaded independently, possibly in
    /// parallel, and stored row by row. Fails, before shading anything, on an
    /// empty scene or an image without pixels.
    pub fn render_with<C: Send, F: Fn((usize, usize)) -> C + Sync>(
        &self,
        width: usize,
        height: usize,
        shade: F,
    ) -> (r: Result<Image<C>, RenderError>)
        requires
            width * height <= usize::MAX,
            forall|row: usize, col: usize|
                row < height && col < width ==> shade.requires(((row, col),)),
        ensures
            r is Ok <==> render_error(width, height, self.objects.len()) is None,
            r matches Err(e) ==> render_error(width, height, self.objects.len()) == Some(e),
            r matches Ok(img) ==> shaded_by(img, width, height, shade),
    {
        match check_render(width, height, self.objects.len()) {
            Err(e) => Err(e),
            Ok(()) => {
                let coords = pixel_coords(width, height);
                assert forall|i: int| 0 <= i < coords.len() implies shade.requires(
                    (coords@[i],),
                ) by {
                    assert(coords@[i] == pixel_at(width, i));
                    lemma_pixel_at_in_bounds(width, height, i);
                }
                let pixels = par_shade(&coords, shade);
                let img = Image { width, height, pixels };
                assert forall|i: int| 0 <= i < img.pixels.len() implies shade.ensures(
                    (pixel_at(width, i),),
                    #[trigger] img.pixels@[i],
                ) by {
                    assert(coords@[i] == pixel_at(width, i));
                }
                Ok(img)
            },
        }
    }
}

/// Every position of a `width` x `height` grid names a pixel inside it.
pub proof fn lemma_pixel_at_in_bounds(width: usize, height: usize, i: int)
    requires
        width > 0,
        0 <= i < width * height,
    ensures
        pixel_at(width, i).0 < height,
        pixel_at(width, i).1 < width,
        i == flat_index_of(width, pixel_at(width, i)),
{
    let w = width as int;
    let h = height as int;
    assert(0 <= i / w < h && 0 <= i % w < w && i == (i / w) * w + i % w) by (nonlinear_arith)
        requires
            w > 0,
            0 <= i < w * h,
    ;
}

/// Position in a row-major grid of the given width of the pixel `p`.
pub open spec fn flat_index_of(width: usize, p: (usize, usize)) -> int {
    crate::image::flat_index(width as int, p.0 as int, p.1 as int)
}

} // verus!
