use raymarch::render::{check_render, RenderError};
use raymarch::scene::Scene;

fn one_object() -> Scene<u8> {
    let mut s = Scene::new();
    s.add(1u8);
    s
}

#[test]
fn check_render_accepts() {
    assert_eq!(check_render(4, 4, 1), Ok(()));
}

#[test]
fn check_render_errors() {
    assert_eq!(check_render(4, 4, 0), Err(RenderError::EmptyScene));
    assert_eq!(check_render(0, 4, 2), Err(RenderError::ZeroWidth));
    assert_eq!(check_render(4, 0, 2), Err(RenderError::ZeroHeight));
    assert_eq!(check_render(0, 0, 0), Err(RenderError::EmptyScene));
}

#[test]
fn render_one_by_one() {
    let img = one_object().render_with(1, 1, |(r, c)| (r, c)).unwrap();
    assert_eq!(img.width, 1);
    assert_eq!(img.height, 1);
    assert_eq!(img.pixels, vec![(0, 0)]);
}

#[test]
fn render_is_row_major() {
    let img = one_object().render_with(3, 2, |(r, c)| 10 * r + c).unwrap();
    assert_eq!(img.pixels, vec![0, 1, 2, 10, 11, 12]);
    assert_eq!(*img.get(1, 2), 12);
}

#[test]
fn render_large_in_order() {
    let img = one_object().render_with(64, 48, |(r, c)| (r, c)).unwrap();
    assert_eq!(img.pixels.len(), 64 * 48);
    for (i, p) in img.pixels.iter().enumerate() {
        assert_eq!(*p, (i / 64, i % 64));
    }
}

#[test]
fn render_twice_same_pixels() {
    let s = one_object();
    let a = s.render_with(17, 9, |(r, c)| r * 31 + c * 7).unwrap();
    let b = s.render_with(17, 9, |(r, c)| r * 31 + c * 7).unwrap();
    assert_eq!(a.pixels, b.pixels);
}

#[test]
fn render_refuses_before_shading() {
    let empty: Scene<u8> = Scene::new();
    assert_eq!(empty.render_with(2, 2, |_| 0u8).err(), Some(RenderError::EmptyScene));
    assert_eq!(one_object().render_with(0, 2, |_| 0u8).err(), Some(RenderError::ZeroWidth));
    assert_eq!(one_object().render_with(2, 0, |_| 0u8).err(), Some(RenderError::ZeroHeight));
}
