//! Formats of images and vertex data, by their native codes.

use vstd::prelude::*;

verus! {

/// The format.
#[derive(Clone, Copy, PartialEq, Eq, Structural, PartialOrd, Ord, Hash, Debug)]
pub struct HalaFormat(pub i32);

impl Default for HalaFormat {
    fn default() -> (value: Self)
        ensures
            value.0 == 0,
    {
        Self(0)
    }
}

impl HalaFormat {
    pub const UNDEFINED: i32 = 0;
    pub const R4G4_UNORM_PACK8: i32 = 1;
    pub const R4G4B4A4_UNORM_PACK16: i32 = 2;
    pub const B4G4R4A4_UNORM_PACK16: i32 = 3;
    pub const R5G6B5_UNORM_PACK16: i32 = 4;
    pub const B5G6R5_UNORM_PACK16: i32 = 5;
    pub const R5G5B5A1_UNORM_PACK16: i32 = 6;
    pub const B5G5R5A1_UNORM_PACK16: i32 = 7;
    pub const A1R5G5B5_UNORM_PACK16: i32 = 8;
    pub const R8_UNORM: i32 = 9;
    pub const R8_SNORM: i32 = 10;
    pub const R8_USCALED: i32 = 11;
    pub const R8_SSCALED: i32 = 12;
    pub const R8_UINT: i32 = 13;
    pub const R8_SINT: i32 = 14;
    pub const R8_SRGB: i32 = 15;
    pub const R8G8_UNORM: i32 = 16;
    pub const R8G8_SNORM: i32 = 17;
    pub const R8G8_USCALED: i32 = 18;
    pub const R8G8_SSCALED: i32 = 19;
    pub const R8G8_UINT: i32 = 20;
    pub const R8G8_SINT: i32 = 21;
    pub const R8G8_SRGB: i32 = 22;
    pub const R8G8B8_UNORM: i32 = 23;
    pub const R8G8B8_SNORM: i32 = 24;
    pub const R8G8B8_USCALED: i32 = 25;
    pub const R8G8B8_SSCALED: i32 = 26;
    pub const R8G8B8_UINT: i32 = 27;
    pub const R8G8B8_SINT: i32 = 28;
    pub const R8G8B8_SRGB: i32 = 29;
    pub const B8G8R8_UNORM: i32 = 30;
    pub const B8G8R8_SNORM: i32 = 31;
    pub const B8G8R8_USCALED: i32 = 32;
    pub const B8G8R8_SSCALED: i32 = 33;
    pub const B8G8R8_UINT: i32 = 34;
    pub const B8G8R8_SINT: i32 = 35;
    pub const B8G8R8_SRGB: i32 = 36;
    pub const R8G8B8A8_UNORM: i32 = 37;
    pub const R8G8B8A8_SNORM: i32 = 38;
    pub const R8G8B8A8_USCALED: i32 = 39;
    pub const R8G8B8A8_SSCALED: i32 = 40;
    pub const R8G8B8A8_UINT: i32 = 41;
    pub const R8G8B8A8_SINT: i32 = 42;
    pub const R8G8B8A8_SRGB: i32 = 43;
    pub const B8G8R8A8_UNORM: i32 = 44;
    pub const B8G8R8A8_SNORM: i32 = 45;
    pub const B8G8R8A8_USCALED: i32 = 46;
    pub const B8G8R8A8_SSCALED: i32 = 47;
    pub const B8G8R8A8_UINT: i32 = 48;
    pub const B8G8R8A8_SINT: i32 = 49;
    pub const B8G8R8A8_SRGB: i32 = 50;
    pub const A8B8G8R8_UNORM_PACK32: i32 = 51;
    pub const A8B8G8R8_SNORM_PACK32: i32 = 52;
    pub const A8B8G8R8_USCALED_PACK32: i32 = 53;
    pub const A8B8G8R8_SSCALED_PACK32: i32 = 54;
    pub const A8B8G8R8_UINT_PACK32: i32 = 55;
    pub const A8B8G8R8_SINT_PACK32: i32 = 56;
    pub const A8B8G8R8_SRGB_PACK32: i32 = 57;
    pub const A2R10G10B10_UNORM_PACK32: i32 = 58;
    pub const A2R10G10B10_SNORM_PACK32: i32 = 59;
    pub const A2R10G10B10_USCALED_PACK32: i32 = 60;
    pub const A2R10G10B10_SSCALED_PACK32: i32 = 61;
    pub const A2R10G10B10_UINT_PACK32: i32 = 62;
    pub const A2R10G10B10_SINT_PACK32: i32 = 63;
    pub const A2B10G10R10_UNORM_PACK32: i32 = 64;
    pub const A2B10G10R10_SNORM_PACK32: i32 = 65;
    pub const A2B10G10R10_USCALED_PACK32: i32 = 66;
    pub const A2B10G10R10_SSCALED_PACK32: i32 = 67;
    pub const A2B10G10R10_UINT_PACK32: i32 = 68;
    pub const A2B10G10R10_SINT_PACK32: i32 = 69;
    pub const R16_UNORM: i32 = 70;
    pub const R16_SNORM: i32 = 71;
    pub const R16_USCALED: i32 = 72;
    pub const R16_SSCALED: i32 = 73;
    pub const R16_UINT: i32 = 74;
    pub const R16_SINT: i32 = 75;
    pub const R16_SFLOAT: i32 = 76;
    pub const R16G16_UNORM: i32 = 77;
    pub const R16G16_SNORM: i32 = 78;
    pub const R16G16_USCALED: i32 = 79;
    pub const R16G16_SSCALED: i32 = 80;
    pub const R16G16_UINT: i32 = 81;
    pub const R16G16_SINT: i32 = 82;
    pub const R16G16_SFLOAT: i32 = 83;
    pub const R16G16B16_UNORM: i32 = 84;
    pub const R16G16B16_SNORM: i32 = 85;
    pub const R16G16B16_USCALED: i32 = 86;
    pub const R16G16B16_SSCALED: i32 = 87;
    pub const R16G16B16_UINT: i32 = 88;
    pub const R16G16B16_SINT: i32 = 89;
    pub const R16G16B16_SFLOAT: i32 = 90;
    pub const R16G16B16A16_UNORM: i32 = 91;
    pub const R16G16B16A16_SNORM: i32 = 92;
    pub const R16G16B16A16_USCALED: i32 = 93;
    pub const R16G16B16A16_SSCALED: i32 = 94;
    pub const R16G16B16A16_UINT: i32 = 95;
    pub const R16G16B16A16_SINT: i32 = 96;
    pub const R16G16B16A16_SFLOAT: i32 = 97;
    pub const R32_UINT: i32 = 98;
    pub const R32_SINT: i32 = 99;
    pub const R32_SFLOAT: i32 = 100;
    pub const R32G32_UINT: i32 = 101;
    pub const R32G32_SINT: i32 = 102;
    pub const R32G32_SFLOAT: i32 = 103;
    pub const R32G32B32_UINT: i32 = 104;
    pub const R32G32B32_SINT: i32 = 105;
    pub const R32G32B32_SFLOAT: i32 = 106;
    pub const R32G32B32A32_UINT: i32 = 107;
    pub const R32G32B32A32_SINT: i32 = 108;
    pub const R32G32B32A32_SFLOAT: i32 = 109;
    pub const R64_UINT: i32 = 110;
    pub const R64_SINT: i32 = 111;
    pub const R64_SFLOAT: i32 = 112;
    pub const R64G64_UINT: i32 = 113;
    pub const R64G64_SINT: i32 = 114;
    pub const R64G64_SFLOAT: i32 = 115;
    pub const R64G64B64_UINT: i32 = 116;
    pub const R64G64B64_SINT: i32 = 117;
    pub const R64G64B64_SFLOAT: i32 = 118;
    pub const R64G64B64A64_UINT: i32 = 119;
    pub const R64G64B64A64_SINT: i32 = 120;
    pub const R64G64B64A64_SFLOAT: i32 = 121;
    pub const B10G11R11_UFLOAT_PACK32: i32 = 122;
    pub const E5B9G9R9_UFLOAT_PACK32: i32 = 123;
    pub const D16_UNORM: i32 = 124;
    pub const X8_D24_UNORM_PACK32: i32 = 125;
    pub const D32_SFLOAT: i32 = 126;
    pub const S8_UINT: i32 = 127;
    pub const D16_UNORM_S8_UINT: i32 = 128;
    pub const D24_UNORM_S8_UINT: i32 = 129;
    pub const D32_SFLOAT_S8_UINT: i32 = 130;
    pub const BC1_RGB_UNORM_BLOCK: i32 = 131;
    pub const BC1_RGB_SRGB_BLOCK: i32 = 132;
    pub const BC1_RGBA_UNORM_BLOCK: i32 = 133;
    pub const BC1_RGBA_SRGB_BLOCK: i32 = 134;
    pub const BC2_UNORM_BLOCK: i32 = 135;
    pub const BC2_SRGB_BLOCK: i32 = 136;
    pub const BC3_UNORM_BLOCK: i32 = 137;
    pub const BC3_SRGB_BLOCK: i32 = 138;
    pub const BC4_UNORM_BLOCK: i32 = 139;
    pub const BC4_SNORM_BLOCK: i32 = 140;
    pub const BC5_UNORM_BLOCK: i32 = 141;
    pub const BC5_SNORM_BLOCK: i32 = 142;
    pub const BC6H_UFLOAT_BLOCK: i32 = 143;
    pub const BC6H_SFLOAT_BLOCK: i32 = 144;
    pub const BC7_UNORM_BLOCK: i32 = 145;
    pub const BC7_SRGB_BLOCK: i32 = 146;
    pub const ETC2_R8G8B8_UNORM_BLOCK: i32 = 147;
    pub const ETC2_R8G8B8_SRGB_BLOCK: i32 = 148;
    pub const ETC2_R8G8B8A1_UNORM_BLOCK: i32 = 149;
    pub const ETC2_R8G8B8A1_SRGB_BLOCK: i32 = 150;
    pub const ETC2_R8G8B8A8_UNORM_BLOCK: i32 = 151;
    pub const ETC2_R8G8B8A8_SRGB_BLOCK: i32 = 152;
    pub const EAC_R11_UNORM_BLOCK: i32 = 153;
    pub const EAC_R11_SNORM_BLOCK: i32 = 154;
    pub const EAC_R11G11_UNORM_BLOCK: i32 = 155;
    pub const EAC_R11G11_SNORM_BLOCK: i32 = 156;
    pub const ASTC_4X4_UNORM_BLOCK: i32 = 157;
    pub const ASTC_4X4_SRGB_BLOCK: i32 = 158;
    pub const ASTC_5X4_UNORM_BLOCK: i32 = 159;
    pub const ASTC_5X4_SRGB_BLOCK: i32 = 160;
    pub const ASTC_5X5_UNORM_BLOCK: i32 = 161;
    pub const ASTC_5X5_SRGB_BLOCK: i32 = 162;
    pub const ASTC_6X5_UNORM_BLOCK: i32 = 163;
    pub const ASTC_6X5_SRGB_BLOCK: i32 = 164;
    pub const ASTC_6X6_UNORM_BLOCK: i32 = 165;
    pub const ASTC_6X6_SRGB_BLOCK: i32 = 166;
    pub const ASTC_8X5_UNORM_BLOCK: i32 = 167;
    pub const ASTC_8X5_SRGB_BLOCK: i32 = 168;
    pub const ASTC_8X6_UNORM_BLOCK: i32 = 169;
    pub const ASTC_8X6_SRGB_BLOCK: i32 = 170;
    pub const ASTC_8X8_UNORM_BLOCK: i32 = 171;
    pub const ASTC_8X8_SRGB_BLOCK: i32 = 172;
    pub const ASTC_10X5_UNORM_BLOCK: i32 = 173;
    pub const ASTC_10X5_SRGB_BLOCK: i32 = 174;
    pub const ASTC_10X6_UNORM_BLOCK: i32 = 175;
    pub const ASTC_10X6_SRGB_BLOCK: i32 = 176;
    pub const ASTC_10X8_UNORM_BLOCK: i32 = 177;
    pub const ASTC_10X8_SRGB_BLOCK: i32 = 178;
    pub const ASTC_10X10_UNORM_BLOCK: i32 = 179;
    pub const ASTC_10X10_SRGB_BLOCK: i32 = 180;
    pub const ASTC_12X10_UNORM_BLOCK: i32 = 181;
    pub const ASTC_12X10_SRGB_BLOCK: i32 = 182;
    pub const ASTC_12X12_UNORM_BLOCK: i32 = 183;
    pub const ASTC_12X12_SRGB_BLOCK: i32 = 184;

    /// The value with the given raw code.
    pub fn from_raw(x: i32) -> (value: Self)
        ensures
            value.0 == x,
    {
        Self(x)
    }

    /// The raw code of the value.
    pub fn as_raw(self) -> (x: i32)
        ensures
            x == self.0,
    {
        self.0
    }
}

} // verus!
