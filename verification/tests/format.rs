use erupt::vk1_0;
use sierra::format::{Channels, ConstBits, Format, FormatDescription, StaticFormat, Type, BGRA, DS, R, Srgb, Uint, Unorm};

fn all_formats() -> Vec<(Format, vk1_0::Format)> {
    vec![
        (Format::R8Unorm, vk1_0::Format::R8_UNORM),
        (Format::R8Snorm, vk1_0::Format::R8_SNORM),
        (Format::R8Uscaled, vk1_0::Format::R8_USCALED),
        (Format::R8Sscaled, vk1_0::Format::R8_SSCALED),
        (Format::R8Uint, vk1_0::Format::R8_UINT),
        (Format::R8Sint, vk1_0::Format::R8_SINT),
        (Format::R8Srgb, vk1_0::Format::R8_SRGB),
        (Format::RG8Unorm, vk1_0::Format::R8G8_UNORM),
        (Format::RG8Snorm, vk1_0::Format::R8G8_SNORM),
        (Format::RG8Uscaled, vk1_0::Format::R8G8_USCALED),
        (Format::RG8Sscaled, vk1_0::Format::R8G8_SSCALED),
        (Format::RG8Uint, vk1_0::Format::R8G8_UINT),
        (Format::RG8Sint, vk1_0::Format::R8G8_SINT),
        (Format::RG8Srgb, vk1_0::Format::R8G8_SRGB),
        (Format::RGB8Unorm, vk1_0::Format::R8G8B8_UNORM),
        (Format::RGB8Snorm, vk1_0::Format::R8G8B8_SNORM),
        (Format::RGB8Uscaled, vk1_0::Format::R8G8B8_USCALED),
        (Format::RGB8Sscaled, vk1_0::Format::R8G8B8_SSCALED),
        (Format::RGB8Uint, vk1_0::Format::R8G8B8_UINT),
        (Format::RGB8Sint, vk1_0::Format::R8G8B8_SINT),
        (Format::RGB8Srgb, vk1_0::Format::R8G8B8_SRGB),
        (Format::BGR8Unorm, vk1_0::Format::B8G8R8_UNORM),
        (Format::BGR8Snorm, vk1_0::Format::B8G8R8_SNORM),
        (Format::BGR8Uscaled, vk1_0::Format::B8G8R8_USCALED),
        (Format::BGR8Sscaled, vk1_0::Format::B8G8R8_SSCALED),
        (Format::BGR8Uint, vk1_0::Format::B8G8R8_UINT),
        (Format::BGR8Sint, vk1_0::Format::B8G8R8_SINT),
        (Format::BGR8Srgb, vk1_0::Format::B8G8R8_SRGB),
        (Format::RGBA8Unorm, vk1_0::Format::R8G8B8A8_UNORM),
        (Format::RGBA8Snorm, vk1_0::Format::R8G8B8A8_SNORM),
        (Format::RGBA8Uscaled, vk1_0::Format::R8G8B8A8_USCALED),
        (Format::RGBA8Sscaled, vk1_0::Format::R8G8B8A8_SSCALED),
        (Format::RGBA8Uint, vk1_0::Format::R8G8B8A8_UINT),
        (Format::RGBA8Sint, vk1_0::Format::R8G8B8A8_SINT),
        (Format::RGBA8Srgb, vk1_0::Format::R8G8B8A8_SRGB),
        (Format::BGRA8Unorm, vk1_0::Format::B8G8R8A8_UNORM),
        (Format::BGRA8Snorm, vk1_0::Format::B8G8R8A8_SNORM),
        (Format::BGRA8Uscaled, vk1_0::Format::B8G8R8A8_USCALED),
        (Format::BGRA8Sscaled, vk1_0::Format::B8G8R8A8_SSCALED),
        (Format::BGRA8Uint, vk1_0::Format::B8G8R8A8_UINT),
        (Format::BGRA8Sint, vk1_0::Format::B8G8R8A8_SINT),
        (Format::BGRA8Srgb, vk1_0::Format::B8G8R8A8_SRGB),
        (Format::R16Unorm, vk1_0::Format::R16_UNORM),
        (Format::R16Snorm, vk1_0::Format::R16_SNORM),
        (Format::R16Uscaled, vk1_0::Format::R16_USCALED),
        (Format::R16Sscaled, vk1_0::Format::R16_SSCALED),
        (Format::R16Uint, vk1_0::Format::R16_UINT),
        (Format::R16Sint, vk1_0::Format::R16_SINT),
        (Format::R16Sfloat, vk1_0::Format::R16_SFLOAT),
        (Format::RG16Unorm, vk1_0::Format::R16G16_UNORM),
        (Format::RG16Snorm, vk1_0::Format::R16G16_SNORM),
        (Format::RG16Uscaled, vk1_0::Format::R16G16_USCALED),
        (Format::RG16Sscaled, vk1_0::Format::R16G16_SSCALED),
        (Format::RG16Uint, vk1_0::Format::R16G16_UINT),
        (Format::RG16Sint, vk1_0::Format::R16G16_SINT),
        (Format::RG16Sfloat, vk1_0::Format::R16G16_SFLOAT),
        (Format::RGB16Unorm, vk1_0::Format::R16G16B16_UNORM),
        (Format::RGB16Snorm, vk1_0::Format::R16G16B16_SNORM),
        (Format::RGB16Uscaled, vk1_0::Format::R16G16B16_USCALED),
        (Format::RGB16Sscaled, vk1_0::Format::R16G16B16_SSCALED),
        (Format::RGB16Uint, vk1_0::Format::R16G16B16_UINT),
        (Format::RGB16Sint, vk1_0::Format::R16G16B16_SINT),
        (Format::RGB16Sfloat, vk1_0::Format::R16G16B16_SFLOAT),
        (Format::RGBA16Unorm, vk1_0::Format::R16G16B16A16_UNORM),
        (Format::RGBA16Snorm, vk1_0::Format::R16G16B16A16_SNORM),
        (Format::RGBA16Uscaled, vk1_0::Format::R16G16B16A16_USCALED),
        (Format::RGBA16Sscaled, vk1_0::Format::R16G16B16A16_SSCALED),
        (Format::RGBA16Uint, vk1_0::Format::R16G16B16A16_UINT),
        (Format::RGBA16Sint, vk1_0::Format::R16G16B16A16_SINT),
        (Format::RGBA16Sfloat, vk1_0::Format::R16G16B16A16_SFLOAT),
        (Format::R32Uint, vk1_0::Format::R32_UINT),
        (Format::R32Sint, vk1_0::Format::R32_SINT),
        (Format::R32Sfloat, vk1_0::Format::R32_SFLOAT),
        (Format::RG32Uint, vk1_0::Format::R32G32_UINT),
        (Format::RG32Sint, vk1_0::Format::R32G32_SINT),
        (Format::RG32Sfloat, vk1_0::Format::R32G32_SFLOAT),
        (Format::RGB32Uint, vk1_0::Format::R32G32B32_UINT),
        (Format::RGB32Sint, vk1_0::Format::R32G32B32_SINT),
        (Format::RGB32Sfloat, vk1_0::Format::R32G32B32_SFLOAT),
        (Format::RGBA32Uint, vk1_0::Format::R32G32B32A32_UINT),
        (Format::RGBA32Sint, vk1_0::Format::R32G32B32A32_SINT),
        (Format::RGBA32Sfloat, vk1_0::Format::R32G32B32A32_SFLOAT),
        (Format::R64Uint, vk1_0::Format::R64_UINT),
        (Format::R64Sint, vk1_0::Format::R64_SINT),
        (Format::R64Sfloat, vk1_0::Format::R64_SFLOAT),
        (Format::RG64Uint, vk1_0::Format::R64G64_UINT),
        (Format::RG64Sint, vk1_0::Format::R64G64_SINT),
        (Format::RG64Sfloat, vk1_0::Format::R64G64_SFLOAT),
        (Format::RGB64Uint, vk1_0::Format::R64G64B64_UINT),
        (Format::RGB64Sint, vk1_0::Format::R64G64B64_SINT),
        (Format::RGB64Sfloat, vk1_0::Format::R64G64B64_SFLOAT),
        (Format::RGBA64Uint, vk1_0::Format::R64G64B64A64_UINT),
        (Format::RGBA64Sint, vk1_0::Format::R64G64B64A64_SINT),
        (Format::RGBA64Sfloat, vk1_0::Format::R64G64B64A64_SFLOAT),
        (Format::D16Unorm, vk1_0::Format::D16_UNORM),
        (Format::D32Sfloat, vk1_0::Format::D32_SFLOAT),
        (Format::S8Uint, vk1_0::Format::S8_UINT),
        (Format::D16UnormS8Uint, vk1_0::Format::D16_UNORM_S8_UINT),
        (Format::D24UnormS8Uint, vk1_0::Format::D24_UNORM_S8_UINT),
        (Format::D32SfloatS8Uint, vk1_0::Format::D32_SFLOAT_S8_UINT),
    ]
}

#[test]
fn format_vk_codes_match_vulkan() {
    for (format, vk) in all_formats() {
        assert_eq!(format.vk_code(), vk.0, "{:?}", format);
    }
}

#[test]
fn format_from_vk_code_round_trips() {
    for (format, vk) in all_formats() {
        assert_eq!(Format::from_vk_code(vk.0), Some(format));
    }
}

#[test]
fn format_from_unknown_vk_code_is_none() {
    assert_eq!(Format::from_vk_code(vk1_0::Format::UNDEFINED.0), None);
    assert_eq!(Format::from_vk_code(vk1_0::Format::BC1_RGB_UNORM_BLOCK.0), None);
    assert_eq!(Format::from_vk_code(-5), None);
}

#[test]
fn format_vk_codes_are_distinct() {
    let formats = all_formats();
    for (i, (a, _)) in formats.iter().enumerate() {
        for (b, _) in formats.iter().skip(i + 1) {
            assert_ne!(a.vk_code(), b.vk_code());
        }
    }
}

#[test]
fn format_aspects() {
    assert!(Format::RGBA8Srgb.is_color());
    assert!(!Format::RGBA8Srgb.is_depth());
    assert!(!Format::RGBA8Srgb.is_stencil());
    assert!(Format::D16Unorm.is_depth() && !Format::D16Unorm.is_stencil() && !Format::D16Unorm.is_color());
    assert!(Format::S8Uint.is_stencil() && !Format::S8Uint.is_depth());
    assert!(Format::D24UnormS8Uint.is_depth() && Format::D24UnormS8Uint.is_stencil());
    assert_eq!(Format::R8Unorm.aspect_flags().bits(), 1);
    assert_eq!(Format::D32Sfloat.aspect_flags().bits(), 2);
    assert_eq!(Format::S8Uint.aspect_flags().bits(), 4);
    assert_eq!(Format::D32SfloatS8Uint.aspect_flags().bits(), 6);
}

#[test]
fn format_color_iff_no_depth_or_stencil() {
    for (format, _) in all_formats() {
        assert_eq!(format.is_color(), !(format.is_depth() || format.is_stencil()));
    }
}

#[test]
fn format_descriptions() {
    let d = Format::RGBA8Srgb.description();
    assert_eq!((d.channels, d.bits, d.ty), (Channels::RGBA, 8, Type::Srgb));
    let d = Format::RG32Sfloat.description();
    assert_eq!((d.channels, d.bits, d.ty), (Channels::RG, 32, Type::Sfloat));
    let d = Format::D24UnormS8Uint.description();
    assert_eq!((d.channels, d.bits, d.ty), (Channels::DS, 24, Type::Unorm));
    let d = Format::BGR8Snorm.description();
    assert_eq!((d.channels, d.bits, d.ty), (Channels::BGR, 8, Type::Snorm));
}

#[test]
fn format_descriptions_are_distinct() {
    let formats = all_formats();
    for (i, (a, _)) in formats.iter().enumerate() {
        for (b, _) in formats.iter().skip(i + 1) {
            let (x, y) = (a.description(), b.description());
            assert!((x.channels, x.bits, x.ty) != (y.channels, y.bits, y.ty));
        }
    }
}

#[test]
fn static_format_tags_name_their_format() {
    use_static_formats();
}

fn description_of<F: StaticFormat>() -> (Channels, u32, Type) {
    let d = F::FORMAT.description();
    (d.channels, d.bits, d.ty)
}

fn use_static_formats() {
    assert_eq!(description_of::<FormatDescription<BGRA, ConstBits<8>, Srgb>>(), (Channels::BGRA, 8, Type::Srgb));
    assert_eq!(
        <FormatDescription<DS, ConstBits<24>, Unorm> as StaticFormat>::FORMAT,
        Format::D24UnormS8Uint
    );
    assert_eq!(description_of::<FormatDescription<DS, ConstBits<24>, Unorm>>(), (Channels::DS, 24, Type::Unorm));
    assert_eq!(description_of::<FormatDescription<R, ConstBits<8>, Uint>>(), (Channels::R, 8, Type::Uint));
}
