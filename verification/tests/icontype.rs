use icns::IconType;
use icns::OSType;

const ALL_ICON_TYPES: [IconType; 10] = [
    IconType::RGB24_16x16,
    IconType::Mask8_16x16,
    IconType::RGB24_32x32,
    IconType::Mask8_32x32,
    IconType::RGB24_128x128,
    IconType::Mask8_128x128,
    IconType::RGBA32_256x256,
    IconType::RGBA32_256x256_2x,
    IconType::RGBA32_512x512,
    IconType::RGBA32_512x512_2x,
];

#[test]
fn icon_type_ostype_round_trip() {
    let icon_types = [
        IconType::RGB24_16x16,
        IconType::Mask8_16x16,
        IconType::RGB24_32x32,
        IconType::Mask8_32x32,
        IconType::RGB24_128x128,
        IconType::Mask8_128x128,
        IconType::RGBA32_256x256,
        IconType::RGBA32_256x256_2x,
        IconType::RGBA32_512x512,
        IconType::RGBA32_512x512_2x,
    ];
    for icon_type in &icon_types {
        let ostype = icon_type.ostype();
        let from = IconType::from_ostype(ostype);
        assert_eq!(Some(*icon_type), from);
    }
}

#[test]
fn ostype_table_is_exact() {
    assert_eq!(IconType::RGB24_16x16.ostype(), OSType(*b"is32"));
    assert_eq!(IconType::Mask8_16x16.ostype(), OSType(*b"s8mk"));
    assert_eq!(IconType::RGB24_32x32.ostype(), OSType(*b"il32"));
    assert_eq!(IconType::Mask8_32x32.ostype(), OSType(*b"l8mk"));
    assert_eq!(IconType::RGB24_128x128.ostype(), OSType(*b"it32"));
    assert_eq!(IconType::Mask8_128x128.ostype(), OSType(*b"t8mk"));
    assert_eq!(IconType::RGBA32_256x256.ostype(), OSType(*b"ic08"));
    assert_eq!(IconType::RGBA32_256x256_2x.ostype(), OSType(*b"ic14"));
    assert_eq!(IconType::RGBA32_512x512.ostype(), OSType(*b"ic09"));
    assert_eq!(IconType::RGBA32_512x512_2x.ostype(), OSType(*b"ic10"));
}

#[test]
fn widths_table_is_exact() {
    let expected: [(IconType, u32, u32); 10] = [
        (IconType::RGB24_16x16, 16, 16),
        (IconType::Mask8_16x16, 16, 16),
        (IconType::RGB24_32x32, 32, 32),
        (IconType::Mask8_32x32, 32, 32),
        (IconType::RGB24_128x128, 128, 128),
        (IconType::Mask8_128x128, 128, 128),
        (IconType::RGBA32_256x256, 256, 256),
        (IconType::RGBA32_256x256_2x, 512, 256),
        (IconType::RGBA32_512x512, 512, 512),
        (IconType::RGBA32_512x512_2x, 1024, 512),
    ];
    for &(icon_type, pixel, screen) in &expected {
        assert_eq!(icon_type.pixel_width(), pixel);
        assert_eq!(icon_type.screen_width(), screen);
    }
}

#[test]
fn pixel_width_is_screen_width_or_double() {
    for icon_type in &ALL_ICON_TYPES {
        let pixel = icon_type.pixel_width();
        let screen = icon_type.screen_width();
        assert!(pixel == screen || pixel == 2 * screen);
    }
}

#[test]
fn unknown_tags_are_absent() {
    assert_eq!(IconType::from_ostype(OSType(*b"xxxx")), None);
    assert_eq!(IconType::from_ostype(OSType(*b"zzzz")), None);
    assert_eq!(IconType::from_ostype(OSType(*b"ic07")), None);
    assert_eq!(IconType::from_ostype(OSType([0x00, 0x00, 0x00, 0x00])), None);
    assert_eq!(IconType::from_ostype(OSType([0xff, 0xfe, 0x80, 0x01])), None);
}

#[test]
fn tags_are_pairwise_distinct() {
    for (i, a) in ALL_ICON_TYPES.iter().enumerate() {
        for (j, b) in ALL_ICON_TYPES.iter().enumerate() {
            if i != j {
                assert_ne!(a.ostype(), b.ostype());
            }
        }
    }
}

#[test]
fn scenario_is32_sixteen_pixel_color_image() {
    let found = IconType::from_ostype(OSType(*b"is32"));
    assert_eq!(found, Some(IconType::RGB24_16x16));
    assert_eq!(IconType::RGB24_16x16.pixel_width(), 16);
    assert_eq!(IconType::RGB24_16x16.screen_width(), 16);
}

#[test]
fn scenario_ic14_retina_256_class() {
    let found = IconType::from_ostype(OSType(*b"ic14"));
    assert_eq!(found, Some(IconType::RGBA32_256x256_2x));
    assert_eq!(IconType::RGBA32_256x256_2x.pixel_width(), 512);
    assert_eq!(IconType::RGBA32_256x256_2x.screen_width(), 256);
}

#[test]
fn scenario_ic10_retina_512_class() {
    let found = IconType::from_ostype(OSType(*b"ic10"));
    assert_eq!(found, Some(IconType::RGBA32_512x512_2x));
    assert_eq!(IconType::RGBA32_512x512_2x.pixel_width(), 1024);
    assert_eq!(IconType::RGBA32_512x512_2x.screen_width(), 512);
}

#[test]
fn scenario_mask_128_has_tag_t8mk() {
    assert_eq!(IconType::Mask8_128x128.ostype(), OSType(*b"t8mk"));
}

#[test]
fn display_renders_printable_tag_verbatim() {
    let text = OSType([0x69, 0x63, 0x30, 0x38]).display_string();
    assert_eq!(text, "ic08");
}

#[test]
fn display_renders_high_bytes_as_latin_1() {
    let text = OSType([0x69, 0x63, 0xff, 0x38]).display_string();
    assert_eq!(text, "ic\u{ff}8");
    let text = OSType([0x80, 0x81, 0xfe, 0xff]).display_string();
    assert_eq!(text, "\u{80}\u{81}\u{fe}\u{ff}");
}

#[test]
fn ostype_equality_and_order_are_bytewise() {
    assert_eq!(OSType(*b"is32"), OSType(*b"is32"));
    assert_ne!(OSType(*b"is32"), OSType(*b"il32"));
    assert!(OSType(*b"ic08") < OSType(*b"ic09"));
    assert!(OSType(*b"ic10") < OSType(*b"ic14"));
    assert!(OSType([0x00, 0xff, 0xff, 0xff]) < OSType([0x01, 0x00, 0x00, 0x00]));
}
