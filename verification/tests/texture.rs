use gl_framework::error::Error;
use gl_framework::texture::{
    Image, PixelLayout, Texture2D, TextureBuilder, CLAMP_TO_EDGE, LINEAR, RED, RG, RGB, RGBA,
};

fn image(width: u32, height: u32, layout: PixelLayout) -> Image {
    let bytes = width as usize * height as usize * layout.channels() as usize;
    Image { width, height, layout, data: (0..bytes).map(|i| i as u8).collect() }
}

#[test]
fn constants_are_those_of_opengl() {
    assert_eq!(LINEAR, gl::LINEAR);
    assert_eq!(CLAMP_TO_EDGE, gl::CLAMP_TO_EDGE);
    assert_eq!(RED, gl::RED);
    assert_eq!(RG, gl::RG);
    assert_eq!(RGB, gl::RGB);
    assert_eq!(RGBA, gl::RGBA);
}

#[test]
fn layouts_map_to_formats_by_channel_count() {
    let expected = [
        (PixelLayout::Luma8, 1, gl::RED),
        (PixelLayout::LumaA8, 2, gl::RG),
        (PixelLayout::Rgb8, 3, gl::RGB),
        (PixelLayout::Rgba8, 4, gl::RGBA),
        (PixelLayout::Bgr8, 3, gl::RGB),
        (PixelLayout::Bgra8, 4, gl::RGBA),
    ];
    for (layout, channels, format) in expected {
        assert_eq!(layout.channels(), channels);
        assert_eq!(layout.format(), format);
    }
}

#[test]
fn build2d_keeps_the_sampling_and_the_picture() {
    let picture = image(4, 2, PixelLayout::Rgb8);
    let bytes = picture.data.clone();
    let texture = TextureBuilder::new()
        .filter(gl::NEAREST)
        .wrap(gl::REPEAT)
        .build2d(picture)
        .expect("a texture");
    assert_eq!(texture.min_filter(), gl::NEAREST);
    assert_eq!(texture.mag_filter(), gl::NEAREST);
    assert_eq!(texture.wrap_s(), gl::REPEAT);
    assert_eq!(texture.wrap_t(), gl::REPEAT);
    assert!(!texture.generates_mipmap());
    assert_eq!(texture.width(), 4);
    assert_eq!(texture.height(), 2);
    assert_eq!(texture.format(), gl::RGB);
    assert_eq!(texture.data(), &bytes);
    assert_eq!(bytes.len(), 24);
}

#[test]
fn wrap_before_filter_gives_the_same_texture() {
    let one = TextureBuilder::new().filter(1).wrap(2).build2d(image(1, 1, PixelLayout::Luma8));
    let other = TextureBuilder::new().wrap(2).filter(1).build2d(image(1, 1, PixelLayout::Luma8));
    assert_eq!(one, other);
    assert!(one.is_ok());
}

#[test]
fn generate_mipmap_asks_for_mipmaps() {
    let builder = TextureBuilder::new().filter(LINEAR).wrap(CLAMP_TO_EDGE).generate_mipmap();
    let texture = builder.build2d(image(2, 2, PixelLayout::Rgba8)).expect("a texture");
    assert!(texture.generates_mipmap());
    let again = builder.generate_mipmap().build2d(image(2, 2, PixelLayout::Rgba8)).expect("a texture");
    assert_eq!(texture, again);
}

#[test]
fn builder_can_be_used_again() {
    let builder = TextureBuilder::new().filter(LINEAR).wrap(CLAMP_TO_EDGE);
    let first = builder.build2d(image(1, 2, PixelLayout::LumaA8)).expect("a texture");
    let second = builder.build2d(image(3, 1, PixelLayout::Bgra8)).expect("a texture");
    assert_eq!((first.width(), first.height(), first.format()), (1, 2, gl::RG));
    assert_eq!((second.width(), second.height(), second.format()), (3, 1, gl::RGBA));
}

#[test]
fn new_texture_takes_each_setting_by_itself() {
    let texture = Texture2D::new(image(2, 3, PixelLayout::Luma8), 11, 12, 13, 14, true).expect("a texture");
    assert_eq!(texture.min_filter(), 11);
    assert_eq!(texture.mag_filter(), 12);
    assert_eq!(texture.wrap_s(), 13);
    assert_eq!(texture.wrap_t(), 14);
    assert!(texture.generates_mipmap());
    assert_eq!(texture.format(), gl::RED);
    assert_eq!(texture.data().len(), 6);
}

#[test]
fn picture_with_too_few_bytes_is_refused() {
    let mut picture = image(4, 4, PixelLayout::Rgba8);
    picture.data.pop();
    assert!(!picture.is_loadable());
    let r = Texture2D::new(picture, LINEAR, LINEAR, CLAMP_TO_EDGE, CLAMP_TO_EDGE, false);
    assert!(matches!(r, Err(Error::ResourceLoadError(_))));
}

#[test]
fn picture_with_too_many_bytes_is_refused() {
    let mut picture = image(4, 4, PixelLayout::Rgb8);
    picture.data.push(0);
    let r = TextureBuilder::new().filter(LINEAR).wrap(CLAMP_TO_EDGE).build2d(picture);
    assert!(matches!(r, Err(Error::ResourceLoadError(_))));
}

#[test]
fn picture_wider_than_opengl_counts_is_refused() {
    let picture = Image { width: 0x8000_0000, height: 0, layout: PixelLayout::Luma8, data: Vec::new() };
    assert!(!picture.is_loadable());
    let r = Texture2D::new(picture, LINEAR, LINEAR, CLAMP_TO_EDGE, CLAMP_TO_EDGE, false);
    assert!(matches!(r, Err(Error::ResourceLoadError(_))));
    let picture = Image { width: 0, height: 0x8000_0000, layout: PixelLayout::Luma8, data: Vec::new() };
    assert!(!picture.is_loadable());
}

#[test]
fn empty_picture_is_loadable() {
    let picture = Image { width: 0x7fff_ffff, height: 0, layout: PixelLayout::Rgba8, data: Vec::new() };
    assert!(picture.is_loadable());
    let texture = Texture2D::new(picture, LINEAR, LINEAR, CLAMP_TO_EDGE, CLAMP_TO_EDGE, false).expect("a texture");
    assert_eq!((texture.width(), texture.height()), (0x7fff_ffff, 0));
    assert!(texture.data().is_empty());
}
