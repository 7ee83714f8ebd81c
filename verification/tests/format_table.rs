use blade_graphics::{TexelAspects, TextureFormat};

fn all_formats() -> Vec<TextureFormat> {
    vec![
        TextureFormat::R8Unorm,
        TextureFormat::Rg8Unorm,
        TextureFormat::Rg8Snorm,
        TextureFormat::Rgba8Unorm,
        TextureFormat::Rgba8UnormSrgb,
        TextureFormat::Bgra8Unorm,
        TextureFormat::Bgra8UnormSrgb,
        TextureFormat::Rgba8Snorm,
        TextureFormat::R16Float,
        TextureFormat::Rg16Float,
        TextureFormat::Rgba16Float,
        TextureFormat::R32Float,
        TextureFormat::Rg32Float,
        TextureFormat::Rgba32Float,
        TextureFormat::R32Uint,
        TextureFormat::Rg32Uint,
        TextureFormat::Rgba32Uint,
        TextureFormat::Depth32Float,
        TextureFormat::Depth32FloatStencil8Uint,
        TextureFormat::Stencil8Uint,
        TextureFormat::Bc1Unorm,
        TextureFormat::Bc1UnormSrgb,
        TextureFormat::Bc2Unorm,
        TextureFormat::Bc2UnormSrgb,
        TextureFormat::Bc3Unorm,
        TextureFormat::Bc3UnormSrgb,
        TextureFormat::Bc4Unorm,
        TextureFormat::Bc4Snorm,
        TextureFormat::Bc5Unorm,
        TextureFormat::Bc5Snorm,
        TextureFormat::Bc6hUfloat,
        TextureFormat::Bc6hFloat,
        TextureFormat::Bc7Unorm,
        TextureFormat::Bc7UnormSrgb,
        TextureFormat::Rgb10a2Unorm,
        TextureFormat::Rg11b10Ufloat,
        TextureFormat::Rgb9e5Ufloat,
    ]
}

fn bc_formats() -> Vec<TextureFormat> {
    vec![
        TextureFormat::Bc1Unorm,
        TextureFormat::Bc1UnormSrgb,
        TextureFormat::Bc2Unorm,
        TextureFormat::Bc2UnormSrgb,
        TextureFormat::Bc3Unorm,
        TextureFormat::Bc3UnormSrgb,
        TextureFormat::Bc4Unorm,
        TextureFormat::Bc4Snorm,
        TextureFormat::Bc5Unorm,
        TextureFormat::Bc5Snorm,
        TextureFormat::Bc6hUfloat,
        TextureFormat::Bc6hFloat,
        TextureFormat::Bc7Unorm,
        TextureFormat::Bc7UnormSrgb,
    ]
}

#[test]
fn block_info_dimensions_and_size() {
    for format in all_formats() {
        let info = format.block_info();
        assert!(
            info.dimensions == (1, 1) || info.dimensions == (4, 4),
            "unexpected block dimensions for {:?}",
            format
        );
        assert!(info.size > 0, "zero block size for {:?}", format);
    }
    for format in bc_formats() {
        assert_eq!(format.block_info().dimensions, (4, 4), "{:?}", format);
    }
}

#[test]
fn block_info_exact_values() {
    assert_eq!(TextureFormat::R8Unorm.block_info().size, 1);
    assert_eq!(TextureFormat::Rgba8Unorm.block_info().size, 4);
    assert_eq!(TextureFormat::Rgba8Unorm.block_info().dimensions, (1, 1));
    assert_eq!(TextureFormat::Rgba16Float.block_info().size, 8);
    assert_eq!(TextureFormat::Rgba32Float.block_info().size, 16);
    assert_eq!(TextureFormat::Depth32Float.block_info().size, 4);
    assert_eq!(TextureFormat::Depth32FloatStencil8Uint.block_info().size, 5);
    assert_eq!(TextureFormat::Stencil8Uint.block_info().size, 1);
    assert_eq!(TextureFormat::Bc1Unorm.block_info().size, 8);
    assert_eq!(TextureFormat::Bc1Unorm.block_info().dimensions, (4, 4));
    assert_eq!(TextureFormat::Bc7UnormSrgb.block_info().size, 16);
    assert_eq!(TextureFormat::Rgb9e5Ufloat.block_info().size, 4);
}

#[test]
fn aspects_channel_kind_is_exclusive() {
    for format in all_formats() {
        let a = format.aspects();
        if format == TextureFormat::Depth32FloatStencil8Uint {
            assert!(a.depth && a.stencil && !a.color, "{:?}", format);
        } else {
            let kinds = [a.color, a.depth, a.stencil];
            let set = kinds.iter().filter(|&&k| k).count();
            assert_eq!(set, 1, "channel kind not exclusive for {:?}", format);
        }
    }
}

#[test]
fn aspects_numeric_class_is_exclusive() {
    for format in all_formats() {
        let a = format.aspects();
        let classes = [a.float, a.sint, a.uint];
        let set = classes.iter().filter(|&&k| k).count();
        assert_eq!(set, 1, "numeric class not exclusive for {:?}", format);
    }
}

#[test]
fn aspects_exact_values() {
    let depth = TextureFormat::Depth32Float.aspects();
    assert!(depth.depth && !depth.stencil && !depth.color && depth.float);
    let stencil = TextureFormat::Stencil8Uint.aspects();
    assert!(stencil.stencil && !stencil.depth && !stencil.color && stencil.uint);
    let unorm = TextureFormat::Rgba8Unorm.aspects();
    assert!(unorm.color && !unorm.depth && !unorm.stencil && unorm.float && !unorm.srgb);
    let snorm = TextureFormat::Rg8Snorm.aspects();
    assert!(snorm.color && snorm.sint);
    let storage = TextureFormat::R32Uint.aspects();
    assert!(storage.color && storage.uint && !storage.float && !storage.sint);
    let packed = TextureFormat::Rg11b10Ufloat.aspects();
    assert!(packed.color && packed.float);
}

#[test]
fn is_srgb_matches_aspects() {
    for format in all_formats() {
        let a = format.aspects();
        assert_eq!(format.is_srgb(), a.srgb, "{:?}", format);
        assert_eq!(
            format.is_srgb(),
            a.contains(TexelAspects::srgb_flag()),
            "{:?}",
            format
        );
    }
}

#[test]
fn srgb_formats_are_exactly_six() {
    let srgb: Vec<TextureFormat> = all_formats()
        .into_iter()
        .filter(|f| f.is_srgb())
        .collect();
    assert_eq!(
        srgb,
        vec![
            TextureFormat::Rgba8UnormSrgb,
            TextureFormat::Bgra8UnormSrgb,
            TextureFormat::Bc1UnormSrgb,
            TextureFormat::Bc2UnormSrgb,
            TextureFormat::Bc3UnormSrgb,
            TextureFormat::Bc7UnormSrgb,
        ]
    );
    for format in all_formats() {
        if format.is_srgb() {
            let a = format.aspects();
            assert!(a.color && !a.depth && !a.stencil, "{:?}", format);
        }
    }
}

#[test]
fn aspect_set_operations() {
    let empty = TexelAspects::empty();
    assert!(!empty.color && !empty.depth && !empty.stencil);
    assert!(!empty.float && !empty.sint && !empty.uint && !empty.srgb);
    let both = TexelAspects::depth_flag().union(TexelAspects::stencil_flag());
    assert!(both.depth && both.stencil && !both.color);
    assert!(both.contains(TexelAspects::depth_flag()));
    assert!(both.contains(TexelAspects::stencil_flag()));
    assert!(!both.contains(TexelAspects::color_flag()));
    assert!(both.contains(TexelAspects::empty()));
}
