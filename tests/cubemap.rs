use rust_terrain_codex::cubemap::{workgroup_count, CubeTextureDesc, CubemapPlan, CUBE_FACES};

#[test]
fn workgroup_count_rounds_up() {
    assert_eq!(workgroup_count(0), 0);
    assert_eq!(workgroup_count(1), 1);
    assert_eq!(workgroup_count(15), 1);
    assert_eq!(workgroup_count(16), 1);
    assert_eq!(workgroup_count(17), 2);
    assert_eq!(workgroup_count(512), 32);
    assert_eq!(workgroup_count(1080), 68);
    assert_eq!(workgroup_count(u32::MAX), 268_435_456);
}

#[test]
fn cube_texture_has_six_single_mip_layers() {
    let d = CubeTextureDesc::create_2d(64, 32);
    assert_eq!((d.width, d.height), (64, 32));
    assert_eq!(d.array_layers, 6);
    assert_eq!(d.mip_level_count, 1);
    assert_eq!(d.sample_count, 1);
}

#[test]
fn plan_is_square_with_six_faces() {
    let p = CubemapPlan::new(1080);
    assert_eq!((p.texture.width, p.texture.height), (1080, 1080));
    assert_eq!(p.texture.array_layers, CUBE_FACES);
    assert_eq!((p.dispatch.x, p.dispatch.y, p.dispatch.z), (68, 68, 6));
}

#[test]
fn plan_for_multiple_of_sixteen_uses_full_workgroups() {
    let p = CubemapPlan::new(256);
    assert_eq!((p.dispatch.x, p.dispatch.y, p.dispatch.z), (16, 16, 6));
    assert_eq!(p.dispatch.x * 16, 256);
}

#[test]
fn plan_for_one_texel() {
    let p = CubemapPlan::new(1);
    assert_eq!((p.dispatch.x, p.dispatch.y, p.dispatch.z), (1, 1, 6));
}

use rust_terrain_codex::cubemap::{prepare_cubemap, prepare_from_rgba8, CubemapError, SourceImage};

fn solid_png(width: u32, height: u32, rgba: [u8; 4]) -> Vec<u8> {
    let img = image::DynamicImage::ImageRgba8(image::RgbaImage::from_pixel(
        width,
        height,
        image::Rgba(rgba),
    ));
    let mut bytes = Vec::new();
    img.write_to(&mut std::io::Cursor::new(&mut bytes), image::ImageFormat::Png)
        .expect("encoding a PNG in memory");
    bytes
}

#[test]
fn prepare_decodes_a_solid_equirect_image() {
    let png = solid_png(8, 4, [10, 20, 30, 255]);
    let prepared = match prepare_cubemap(&png, 32) {
        Ok(p) => p,
        Err(_) => panic!("a valid PNG must decode"),
    };
    let src = &prepared.source;
    assert_eq!((src.width(), src.height(), src.bytes_per_row()), (8, 4, 32));
    assert_eq!(src.rgba().len(), 8 * 4 * 4);
    assert!(src.rgba().chunks(4).all(|p| p == [10, 20, 30, 255]));
    assert_eq!(prepared.plan, CubemapPlan::new(32));
    assert_eq!(
        (prepared.plan.texture.width, prepared.plan.texture.height, prepared.plan.texture.array_layers),
        (32, 32, 6)
    );
}

#[test]
fn prepare_rejects_bytes_that_are_not_an_image() {
    match prepare_cubemap(b"definitely not an image", 16) {
        Err(CubemapError::Decode(_)) => {}
        _ => panic!("undecodable bytes must give a decode error"),
    }
    match prepare_cubemap(&[], 16) {
        Err(CubemapError::Decode(_)) => {}
        _ => panic!("empty input must give a decode error"),
    }
}

#[test]
fn source_keeps_only_whole_rows() {
    let img = match SourceImage::from_rgba8(2, 1, vec![1, 2, 3, 4, 5, 6, 7, 8, 9, 10]) {
        Ok(img) => img,
        Err(_) => panic!("a 2x1 image fits"),
    };
    assert_eq!(img.bytes_per_row(), 8);
    assert_eq!((img.width(), img.height()), (2, 1));
    assert_eq!(img.rgba(), &[1, 2, 3, 4, 5, 6, 7, 8]);
}

#[test]
fn source_with_too_wide_rows_is_refused() {
    match SourceImage::from_rgba8(u32::MAX / 4 + 1, 0, Vec::new()) {
        Err(CubemapError::SourceTooWide) => {}
        _ => panic!("a row wider than 32 bits of bytes must be refused"),
    }
    assert!(SourceImage::from_rgba8(u32::MAX / 4, 0, Vec::new()).is_ok());
}

#[test]
fn dispatch_reaches_the_last_texel_of_every_face() {
    for size in [1u32, 15, 16, 17, 100, 1024] {
        let d = CubemapPlan::new(size).dispatch;
        let last = size - 1;
        assert!(last / 16 < d.x && last / 16 < d.y);
        assert!(CUBE_FACES - 1 < d.z);
        assert!((d.x - 1) * 16 < size);
    }
}

#[test]
fn prepare_from_decoded_pixels_plans_a_square_cube() {
    let p = match prepare_from_rgba8(3, 2, vec![7u8; 30], 48) {
        Ok(p) => p,
        Err(_) => panic!("a 3x2 image fits"),
    };
    assert_eq!((p.source.width(), p.source.height(), p.source.bytes_per_row()), (3, 2, 12));
    assert_eq!(p.source.rgba(), &[7u8; 24][..]);
    assert_eq!(p.plan.texture, CubeTextureDesc::create_2d(48, 48));
    assert_eq!((p.plan.dispatch.x, p.plan.dispatch.y, p.plan.dispatch.z), (3, 3, 6));
}

#[test]
fn prepare_from_decoded_pixels_refuses_too_wide_rows() {
    match prepare_from_rgba8(u32::MAX / 4 + 1, 0, Vec::new(), 16) {
        Err(CubemapError::SourceTooWide) => {}
        _ => panic!("a row wider than 32 bits of bytes must be refused"),
    }
}
