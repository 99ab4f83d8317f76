use vstd::prelude::*;

verus! {

/// Types of icon elements that can be decoded as images or masks.
#[allow(non_camel_case_types)]
#[derive(Clone, Copy, Debug, Eq, Hash, PartialEq)]
pub enum IconType {
    /// 16x16 24-bit icon (without alpha).
    RGB24_16x16,
    /// 16x16 8-bit alpha mask.
    Mask8_16x16,
    /// 32x32 24-bit icon (without alpha).
    RGB24_32x32,
    /// 32x32 8-bit alpha mask.
    Mask8_32x32,
    /// 128x128 24-bit icon (without alpha).
    RGB24_128x128,
    /// 128x128 8-bit alpha mask.
    Mask8_128x128,
    /// 256x256 32-bit icon.
    RGBA32_256x256,
    /// 256x256 32-bit icon at 2x "retina" density (so, 512 by 512 pixels).
    RGBA32_256x256_2x,
    /// 512x512 32-bit icon.
    RGBA32_512x512,
    /// 512x512 32-bit icon at 2x "retina" density (so, 1024 by 1024 pixels).
    RGBA32_512x512_2x,
}

/// A Macintosh OSType (also known as a ResType), used in ICNS files to
/// identify the type of each icon element.  Exactly four raw bytes, not
/// required to be printable; equality, hashing and ordering are structural
/// over the bytes, with the derived ordering byte-lexicographic.
#[derive(Clone, Copy, Debug, Eq, Hash, Ord, PartialEq, PartialOrd)]
pub struct OSType(pub [u8; 4]);

impl View for OSType {
    type V = Seq<u8>;

    open spec fn view(&self) -> Seq<u8> {
        self.0@
    }
}

/// The diagnostic rendering of a tag: each of the four bytes becomes the
/// Unicode code point equal to that byte's numeric value (a Latin-1 style
/// mapping), in byte order, with no escaping.  Display-only: for bytes at
/// or above 0x80 this is not an inverse of any text encoding.
pub open spec fn display_of(os: OSType) -> Seq<char> {
    seq![os@[0] as char, os@[1] as char, os@[2] as char, os@[3] as char]
}

/// Relies on std's `String::push`, which appends the given character to the
/// end of the string.
#[verifier::external_body]
fn push_char(s: &mut String, c: char)
    ensures
        final(s)@ == old(s)@ + seq![c],
{
    s.push(c);
}

impl OSType {
    /// Renders this tag for diagnostics, one character per byte, each equal
    /// to the byte's numeric code point.  Not part of any wire format.
    pub fn display_string(&self) -> (text: String)
        ensures
            text@ == display_of(*self),
    {
        let mut text = String::new();
        push_char(&mut text, self.0[0] as char);
        push_char(&mut text, self.0[1] as char);
        push_char(&mut text, self.0[2] as char);
        push_char(&mut text, self.0[3] as char);
        proof {
            assert(text@ =~= display_of(*self));
        }
        text
    }
}

/// The unique four-byte OSType tag of each icon type.
pub open spec fn tag_of(t: IconType) -> Seq<u8> {
    match t {
        IconType::RGB24_16x16 => seq![0x69u8, 0x73u8, 0x33u8, 0x32u8],  // "is32"
        IconType::Mask8_16x16 => seq![0x73u8, 0x38u8, 0x6du8, 0x6bu8],  // "s8mk"
        IconType::RGB24_32x32 => seq![0x69u8, 0x6cu8, 0x33u8, 0x32u8],  // "il32"
        IconType::Mask8_32x32 => seq![0x6cu8, 0x38u8, 0x6du8, 0x6bu8],  // "l8mk"
        IconType::RGB24_128x128 => seq![0x69u8, 0x74u8, 0x33u8, 0x32u8],  // "it32"
        IconType::Mask8_128x128 => seq![0x74u8, 0x38u8, 0x6du8, 0x6bu8],  // "t8mk"
        IconType::RGBA32_256x256 => seq![0x69u8, 0x63u8, 0x30u8, 0x38u8],  // "ic08"
        IconType::RGBA32_256x256_2x => seq![0x69u8, 0x63u8, 0x31u8, 0x34u8],  // "ic14"
        IconType::RGBA32_512x512 => seq![0x69u8, 0x63u8, 0x30u8, 0x39u8],  // "ic09"
        IconType::RGBA32_512x512_2x => seq![0x69u8, 0x63u8, 0x31u8, 0x30u8],  // "ic10"
    }
}

/// The icon type identified by a four-byte tag: the matching entry of the
/// fixed table, or `None` for a tag outside it.
pub open spec fn type_of_tag(tag: Seq<u8>) -> Option<IconType> {
    if tag == tag_of(IconType::RGB24_16x16) {
        Some(IconType::RGB24_16x16)
    } else if tag == tag_of(IconType::Mask8_16x16) {
        Some(IconType::Mask8_16x16)
    } else if tag == tag_of(IconType::RGB24_32x32) {
        Some(IconType::RGB24_32x32)
    } else if tag == tag_of(IconType::Mask8_32x32) {
        Some(IconType::Mask8_32x32)
    } else if tag == tag_of(IconType::RGB24_128x128) {
        Some(IconType::RGB24_128x128)
    } else if tag == tag_of(IconType::Mask8_128x128) {
        Some(IconType::Mask8_128x128)
    } else if tag == tag_of(IconType::RGBA32_256x256) {
        Some(IconType::RGBA32_256x256)
    } else if tag == tag_of(IconType::RGBA32_256x256_2x) {
        Some(IconType::RGBA32_256x256_2x)
    } else if tag == tag_of(IconType::RGBA32_512x512) {
        Some(IconType::RGBA32_512x512)
    } else if tag == tag_of(IconType::RGBA32_512x512_2x) {
        Some(IconType::RGBA32_512x512_2x)
    } else {
        None
    }
}

/// The logical on-screen width, in points, of each icon type.
pub open spec fn spec_screen_width(t: IconType) -> u32 {
    match t {
        IconType::RGB24_16x16 => 16,
        IconType::Mask8_16x16 => 16,
        IconType::RGB24_32x32 => 32,
        IconType::Mask8_32x32 => 32,
        IconType::RGB24_128x128 => 128,
        IconType::Mask8_128x128 => 128,
        IconType::RGBA32_256x256 => 256,
        IconType::RGBA32_256x256_2x => 256,
        IconType::RGBA32_512x512 => 512,
        IconType::RGBA32_512x512_2x => 512,
    }
}

/// The stored raster width, in pixels, of each icon type: the screen width,
/// doubled for the 2x "retina" density types.
pub open spec fn spec_pixel_width(t: IconType) -> u32 {
    match t {
        IconType::RGB24_16x16 => 16,
        IconType::Mask8_16x16 => 16,
        IconType::RGB24_32x32 => 32,
        IconType::Mask8_32x32 => 32,
        IconType::RGB24_128x128 => 128,
        IconType::Mask8_128x128 => 128,
        IconType::RGBA32_256x256 => 256,
        IconType::RGBA32_256x256_2x => 512,
        IconType::RGBA32_512x512 => 512,
        IconType::RGBA32_512x512_2x => 1024,
    }
}

impl IconType {
    /// Get the icon type associated with the given OSType, if any.  A tag
    /// outside the fixed table yields `None`: an expected, benign outcome,
    /// not a failure.
    pub fn from_ostype(ostype: OSType) -> (found: Option<IconType>)
        ensures
            found == type_of_tag(ostype@),
    {
        let OSType(raw) = ostype;
        let b0 = raw[0];
        let b1 = raw[1];
        let b2 = raw[2];
        let b3 = raw[3];
        if b0 == 0x69 && b1 == 0x73 && b2 == 0x33 && b3 == 0x32 {
            proof {
                assert(ostype@ =~= tag_of(IconType::RGB24_16x16));
            }
            Some(IconType::RGB24_16x16)
        } else if b0 == 0x73 && b1 == 0x38 && b2 == 0x6d && b3 == 0x6b {
            proof {
                assert(ostype@ =~= tag_of(IconType::Mask8_16x16));
            }
            Some(IconType::Mask8_16x16)
        } else if b0 == 0x69 && b1 == 0x6c && b2 == 0x33 && b3 == 0x32 {
            proof {
                assert(ostype@ =~= tag_of(IconType::RGB24_32x32));
            }
            Some(IconType::RGB24_32x32)
        } else if b0 == 0x6c && b1 == 0x38 && b2 == 0x6d && b3 == 0x6b {
            proof {
                assert(ostype@ =~= tag_of(IconType::Mask8_32x32));
            }
            Some(IconType::Mask8_32x32)
        } else if b0 == 0x69 && b1 == 0x74 && b2 == 0x33 && b3 == 0x32 {
            proof {
                assert(ostype@ =~= tag_of(IconType::RGB24_128x128));
            }
            Some(IconType::RGB24_128x128)
        } else if b0 == 0x74 && b1 == 0x38 && b2 == 0x6d && b3 == 0x6b {
            proof {
                assert(ostype@ =~= tag_of(IconType::Mask8_128x128));
            }
            Some(IconType::Mask8_128x128)
        } else if b0 == 0x69 && b1 == 0x63 && b2 == 0x30 && b3 == 0x38 {
            proof {
                assert(ostype@ =~= tag_of(IconType::RGBA32_256x256));
            }
            Some(IconType::RGBA32_256x256)
        } else if b0 == 0x69 && b1 == 0x63 && b2 == 0x31 && b3 == 0x34 {
            proof {
                assert(ostype@ =~= tag_of(IconType::RGBA32_256x256_2x));
            }
            Some(IconType::RGBA32_256x256_2x)
        } else if b0 == 0x69 && b1 == 0x63 && b2 == 0x30 && b3 == 0x39 {
            proof {
                assert(ostype@ =~= tag_of(IconType::RGBA32_512x512));
            }
            Some(IconType::RGBA32_512x512)
        } else if b0 == 0x69 && b1 == 0x63 && b2 == 0x31 && b3 == 0x30 {
            proof {
                assert(ostype@ =~= tag_of(IconType::RGBA32_512x512_2x));
            }
            Some(IconType::RGBA32_512x512_2x)
        } else {
            None
        }
    }

    /// Get the OSType that represents this icon type.
    pub fn ostype(self) -> (ostype: OSType)
        ensures
            ostype@ == tag_of(self),
    {
        let raw: [u8; 4] = match self {
            IconType::RGB24_16x16 => [0x69, 0x73, 0x33, 0x32],
            IconType::Mask8_16x16 => [0x73, 0x38, 0x6d, 0x6b],
            IconType::RGB24_32x32 => [0x69, 0x6c, 0x33, 0x32],
            IconType::Mask8_32x32 => [0x6c, 0x38, 0x6d, 0x6b],
            IconType::RGB24_128x128 => [0x69, 0x74, 0x33, 0x32],
            IconType::Mask8_128x128 => [0x74, 0x38, 0x6d, 0x6b],
            IconType::RGBA32_256x256 => [0x69, 0x63, 0x30, 0x38],
            IconType::RGBA32_256x256_2x => [0x69, 0x63, 0x31, 0x34],
            IconType::RGBA32_512x512 => [0x69, 0x63, 0x30, 0x39],
            IconType::RGBA32_512x512_2x => [0x69, 0x63, 0x31, 0x30],
        };
        let ostype = OSType(raw);
        proof {
            assert(ostype@ =~= tag_of(self));
        }
        ostype
    }

    /// Returns the pixel data width of this icon type.  Normally this is the
    /// same as the screen width, but for 2x "retina" density icons, this will
    /// be twice that value.
    pub fn pixel_width(self) -> (width: u32)
        ensures
            width == spec_pixel_width(self),
            width == spec_screen_width(self) || width == 2 * spec_screen_width(self),
    {
        match self {
            IconType::RGB24_16x16 => 16,
            IconType::Mask8_16x16 => 16,
            IconType::RGB24_32x32 => 32,
            IconType::Mask8_32x32 => 32,
            IconType::RGB24_128x128 => 128,
            IconType::Mask8_128x128 => 128,
            IconType::RGBA32_256x256 => 256,
            IconType::RGBA32_256x256_2x => 512,
            IconType::RGBA32_512x512 => 512,
            IconType::RGBA32_512x512_2x => 1024,
        }
    }

    /// Returns the screen width of this icon type.  Normally this is the same
    /// as the pixel width, but for 2x "retina" density icons, this will be
    /// half that value.
    pub fn screen_width(self) -> (width: u32)
        ensures
            width == spec_screen_width(self),
    {
        match self {
            IconType::RGB24_16x16 => 16,
            IconType::Mask8_16x16 => 16,
            IconType::RGB24_32x32 => 32,
            IconType::Mask8_32x32 => 32,
            IconType::RGB24_128x128 => 128,
            IconType::Mask8_128x128 => 128,
            IconType::RGBA32_256x256 => 256,
            IconType::RGBA32_256x256_2x => 256,
            IconType::RGBA32_512x512 => 512,
            IconType::RGBA32_512x512_2x => 512,
        }
    }
}

/// Round-trip law: looking up the tag of any icon type finds exactly that
/// icon type again.
pub proof fn lemma_tag_round_trip(t: IconType)
    ensures
        type_of_tag(tag_of(t)) == Some(t),
{
}

/// Injectivity of the tag mapping: no two distinct icon types share a tag.
pub proof fn lemma_tag_injective(a: IconType, b: IconType)
    requires
        tag_of(a) == tag_of(b),
    ensures
        a == b,
{
    lemma_tag_round_trip(a);
    lemma_tag_round_trip(b);
}

/// A successful lookup only ever comes from the one tag of the icon type it
/// found: the lookup table holds no second tag for any icon type.
pub proof fn lemma_lookup_yields_tag(tag: Seq<u8>, t: IconType)
    requires
        type_of_tag(tag) == Some(t),
    ensures
        tag == tag_of(t),
{
}

/// Injectivity of the lookup: no two distinct known tags find the same icon
/// type.
pub proof fn lemma_lookup_injective(a: Seq<u8>, b: Seq<u8>, t: IconType)
    requires
        type_of_tag(a) == Some(t),
        type_of_tag(b) == Some(t),
    ensures
        a == b,
{
    lemma_lookup_yields_tag(a, t);
    lemma_lookup_yields_tag(b, t);
}

/// Unknown-tag law: a tag that is no icon type's tag is never matched to
/// one; the lookup reports it absent.
pub proof fn lemma_unknown_tag_absent(tag: Seq<u8>)
    requires
        forall|t: IconType| tag != #[trigger] tag_of(t),
    ensures
        type_of_tag(tag) is None,
{
}

/// Density law: the stored raster width of every icon type is its screen
/// width, or exactly twice it for the 2x density types.
pub proof fn lemma_pixel_width_vs_screen_width(t: IconType)
    ensures
        spec_pixel_width(t) == spec_screen_width(t) || spec_pixel_width(t) == 2
            * spec_screen_width(t),
{
}

} // verus!
