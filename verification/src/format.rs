use vstd::prelude::*;

verus! {

/// The closed set of texture formats this layer understands. The set is
/// fixed at design time; every derivation below is a total match over it,
/// so an unhandled variant is a compile error rather than a silent default.
#[derive(Clone, Copy, Debug, PartialEq, Eq, Structural)]
pub enum TextureFormat {
    R8Unorm,
    Rg8Unorm,
    Rg8Snorm,
    Rgba8Unorm,
    Rgba8UnormSrgb,
    Bgra8Unorm,
    Bgra8UnormSrgb,
    Rgba8Snorm,
    R16Float,
    Rg16Float,
    Rgba16Float,
    R32Float,
    Rg32Float,
    Rgba32Float,
    R32Uint,
    Rg32Uint,
    Rgba32Uint,
    Depth32Float,
    Depth32FloatStencil8Uint,
    Stencil8Uint,
    Bc1Unorm,
    Bc1UnormSrgb,
    Bc2Unorm,
    Bc2UnormSrgb,
    Bc3Unorm,
    Bc3UnormSrgb,
    Bc4Unorm,
    Bc4Snorm,
    Bc5Unorm,
    Bc5Snorm,
    Bc6hUfloat,
    Bc6hFloat,
    Bc7Unorm,
    Bc7UnormSrgb,
    Rgb10a2Unorm,
    Rg11b10Ufloat,
    Rgb9e5Ufloat,
}

/// Storage granularity of one encoded texel block: the texel area it
/// covers and the bytes it occupies.
#[derive(Clone, Copy, Debug, PartialEq, Eq)]
pub struct TexelBlockInfo {
    /// (width, height) in texels covered by one encoded block.
    pub dimensions: (u8, u8),
    /// Bytes occupied by one encoded block.
    pub size: u8,
}

/// Flag set describing the semantic facets of a format: which channel
/// class it carries (color / depth / stencil), its numeric sample
/// representation (float / sint / uint), and whether it is sRGB-encoded.
#[derive(Clone, Copy, Debug, PartialEq, Eq, Structural)]
pub struct TexelAspects {
    pub color: bool,
    pub depth: bool,
    pub stencil: bool,
    pub float: bool,
    pub sint: bool,
    pub uint: bool,
    pub srgb: bool,
}

impl TexelAspects {
    /// The empty flag set.
    pub open spec fn spec_empty() -> TexelAspects {
        TexelAspects {
            color: false,
            depth: false,
            stencil: false,
            float: false,
            sint: false,
            uint: false,
            srgb: false,
        }
    }

    pub fn empty() -> (r: TexelAspects)
        ensures
            r == TexelAspects::spec_empty(),
    {
        TexelAspects {
            color: false,
            depth: false,
            stencil: false,
            float: false,
            sint: false,
            uint: false,
            srgb: false,
        }
    }

    /// The set holding every flag set in `self` or in `other`.
    pub open spec fn spec_union(self, other: TexelAspects) -> TexelAspects {
        TexelAspects {
            color: self.color || other.color,
            depth: self.depth || other.depth,
            stencil: self.stencil || other.stencil,
            float: self.float || other.float,
            sint: self.sint || other.sint,
            uint: self.uint || other.uint,
            srgb: self.srgb || other.srgb,
        }
    }

    pub fn union(self, other: TexelAspects) -> (r: TexelAspects)
        ensures
            r == self.spec_union(other),
    {
        TexelAspects {
            color: self.color || other.color,
            depth: self.depth || other.depth,
            stencil: self.stencil || other.stencil,
            float: self.float || other.float,
            sint: self.sint || other.sint,
            uint: self.uint || other.uint,
            srgb: self.srgb || other.srgb,
        }
    }

    /// Whether every flag set in `other` is also set in `self`.
    pub open spec fn spec_contains(self, other: TexelAspects) -> bool {
        &&& (other.color ==> self.color)
        &&& (other.depth ==> self.depth)
        &&& (other.stencil ==> self.stencil)
        &&& (other.float ==> self.float)
        &&& (other.sint ==> self.sint)
        &&& (other.uint ==> self.uint)
        &&& (other.srgb ==> self.srgb)
    }

    pub fn contains(self, other: TexelAspects) -> (r: bool)
        ensures
            r == self.spec_contains(other),
    {
        (!other.color || self.color) && (!other.depth || self.depth) && (!other.stencil
            || self.stencil) && (!other.float || self.float) && (!other.sint || self.sint) && (
        !other.uint || self.uint) && (!other.srgb || self.srgb)
    }

    pub open spec fn spec_color_flag() -> TexelAspects {
        TexelAspects { color: true, ..TexelAspects::spec_empty() }
    }

    pub fn color_flag() -> (r: TexelAspects)
        ensures
            r == TexelAspects::spec_color_flag(),
    {
        TexelAspects { color: true, ..TexelAspects::empty() }
    }

    pub open spec fn spec_depth_flag() -> TexelAspects {
        TexelAspects { depth: true, ..TexelAspects::spec_empty() }
    }

    pub fn depth_flag() -> (r: TexelAspects)
        ensures
            r == TexelAspects::spec_depth_flag(),
    {
        TexelAspects { depth: true, ..TexelAspects::empty() }
    }

    pub open spec fn spec_stencil_flag() -> TexelAspects {
        TexelAspects { stencil: true, ..TexelAspects::spec_empty() }
    }

    pub fn stencil_flag() -> (r: TexelAspects)
        ensures
            r == TexelAspects::spec_stencil_flag(),
    {
        TexelAspects { stencil: true, ..TexelAspects::empty() }
    }

    pub open spec fn spec_float_flag() -> TexelAspects {
        TexelAspects { float: true, ..TexelAspects::spec_empty() }
    }

    pub fn float_flag() -> (r: TexelAspects)
        ensures
            r == TexelAspects::spec_float_flag(),
    {
        TexelAspects { float: true, ..TexelAspects::empty() }
    }

    pub open spec fn spec_sint_flag() -> TexelAspects {
        TexelAspects { sint: true, ..TexelAspects::spec_empty() }
    }

    pub fn sint_flag() -> (r: TexelAspects)
        ensures
            r == TexelAspects::spec_sint_flag(),
    {
        TexelAspects { sint: true, ..TexelAspects::empty() }
    }

    pub open spec fn spec_uint_flag() -> TexelAspects {
        TexelAspects { uint: true, ..TexelAspects::spec_empty() }
    }

    pub fn uint_flag() -> (r: TexelAspects)
        ensures
            r == TexelAspects::spec_uint_flag(),
    {
        TexelAspects { uint: true, ..TexelAspects::empty() }
    }

    pub open spec fn spec_srgb_flag() -> TexelAspects {
        TexelAspects { srgb: true, ..TexelAspects::spec_empty() }
    }

    pub fn srgb_flag() -> (r: TexelAspects)
        ensures
            r == TexelAspects::spec_srgb_flag(),
    {
        TexelAspects { srgb: true, ..TexelAspects::empty() }
    }
}

/// A 1x1 block of the given byte size, as used by every uncompressed format.
pub open spec fn spec_uncompressed(size: u8) -> TexelBlockInfo {
    TexelBlockInfo { dimensions: (1u8, 1u8), size }
}

fn uncompressed(size: u8) -> (r: TexelBlockInfo)
    ensures
        r == spec_uncompressed(size),
{
    TexelBlockInfo { dimensions: (1u8, 1u8), size }
}

/// A 4x4 block of the given byte size, as used by every BCn format.
pub open spec fn spec_cx_bc(size: u8) -> TexelBlockInfo {
    TexelBlockInfo { dimensions: (4u8, 4u8), size }
}

fn cx_bc(size: u8) -> (r: TexelBlockInfo)
    ensures
        r == spec_cx_bc(size),
{
    TexelBlockInfo { dimensions: (4u8, 4u8), size }
}

/// Whether the format belongs to the block-compressed (BCn) family.
pub open spec fn spec_is_block_compressed(f: TextureFormat) -> bool {
    match f {
        TextureFormat::Bc1Unorm => true,
        TextureFormat::Bc1UnormSrgb => true,
        TextureFormat::Bc2Unorm => true,
        TextureFormat::Bc2UnormSrgb => true,
        TextureFormat::Bc3Unorm => true,
        TextureFormat::Bc3UnormSrgb => true,
        TextureFormat::Bc4Unorm => true,
        TextureFormat::Bc4Snorm => true,
        TextureFormat::Bc5Unorm => true,
        TextureFormat::Bc5Snorm => true,
        TextureFormat::Bc6hUfloat => true,
        TextureFormat::Bc6hFloat => true,
        TextureFormat::Bc7Unorm => true,
        TextureFormat::Bc7UnormSrgb => true,
        _ => false,
    }
}

/// The block layout of each format: dimensions in texels and size in bytes.
pub open spec fn spec_block_info(f: TextureFormat) -> TexelBlockInfo {
    match f {
        TextureFormat::R8Unorm => spec_uncompressed(1),
        TextureFormat::Rg8Unorm => spec_uncompressed(2),
        TextureFormat::Rg8Snorm => spec_uncompressed(2),
        TextureFormat::Rgba8Unorm => spec_uncompressed(4),
        TextureFormat::Rgba8UnormSrgb => spec_uncompressed(4),
        TextureFormat::Bgra8Unorm => spec_uncompressed(4),
        TextureFormat::Bgra8UnormSrgb => spec_uncompressed(4),
        TextureFormat::Rgba8Snorm => spec_uncompressed(4),
        TextureFormat::R16Float => spec_uncompressed(2),
        TextureFormat::Rg16Float => spec_uncompressed(4),
        TextureFormat::Rgba16Float => spec_uncompressed(8),
        TextureFormat::R32Float => spec_uncompressed(4),
        TextureFormat::Rg32Float => spec_uncompressed(8),
        TextureFormat::Rgba32Float => spec_uncompressed(16),
        TextureFormat::R32Uint => spec_uncompressed(4),
        TextureFormat::Rg32Uint => spec_uncompressed(8),
        TextureFormat::Rgba32Uint => spec_uncompressed(16),
        TextureFormat::Depth32Float => spec_uncompressed(4),
        TextureFormat::Depth32FloatStencil8Uint => spec_uncompressed(5),
        TextureFormat::Stencil8Uint => spec_uncompressed(1),
        TextureFormat::Bc1Unorm => spec_cx_bc(8),
        TextureFormat::Bc1UnormSrgb => spec_cx_bc(8),
        TextureFormat::Bc2Unorm => spec_cx_bc(16),
        TextureFormat::Bc2UnormSrgb => spec_cx_bc(16),
        TextureFormat::Bc3Unorm => spec_cx_bc(16),
        TextureFormat::Bc3UnormSrgb => spec_cx_bc(16),
        TextureFormat::Bc4Unorm => spec_cx_bc(8),
        TextureFormat::Bc4Snorm => spec_cx_bc(8),
        TextureFormat::Bc5Unorm => spec_cx_bc(16),
        TextureFormat::Bc5Snorm => spec_cx_bc(16),
        TextureFormat::Bc6hUfloat => spec_cx_bc(16),
        TextureFormat::Bc6hFloat => spec_cx_bc(16),
        TextureFormat::Bc7Unorm => spec_cx_bc(16),
        TextureFormat::Bc7UnormSrgb => spec_cx_bc(16),
        TextureFormat::Rgb10a2Unorm => spec_uncompressed(4),
        TextureFormat::Rg11b10Ufloat => spec_uncompressed(4),
        TextureFormat::Rgb9e5Ufloat => spec_uncompressed(4),
    }
}

/// Whether the format is one of the designated sRGB-encoded color formats.
pub open spec fn spec_is_srgb(f: TextureFormat) -> bool {
    match f {
        TextureFormat::Bc7UnormSrgb => true,
        TextureFormat::Rgba8UnormSrgb => true,
        TextureFormat::Bgra8UnormSrgb => true,
        TextureFormat::Bc1UnormSrgb => true,
        TextureFormat::Bc2UnormSrgb => true,
        TextureFormat::Bc3UnormSrgb => true,
        _ => false,
    }
}

/// The channel-kind mask: DEPTH, STENCIL, both for the combined
/// depth-stencil format, and COLOR for everything else.
pub open spec fn spec_depth_stencil_color(f: TextureFormat) -> TexelAspects {
    match f {
        TextureFormat::Depth32Float => TexelAspects::spec_depth_flag(),
        TextureFormat::Depth32FloatStencil8Uint => TexelAspects::spec_depth_flag().spec_union(
            TexelAspects::spec_stencil_flag(),
        ),
        TextureFormat::Stencil8Uint => TexelAspects::spec_stencil_flag(),
        _ => TexelAspects::spec_color_flag(),
    }
}

/// The numeric-representation mask: exactly one of FLOAT, SINT, UINT,
/// classified by the format's sample encoding. Signed-normalized storage
/// is SINT, unsigned-integer storage is UINT, and floating-point as well
/// as normalized-unsigned storage — sampled as floating-point in
/// shaders — is FLOAT.
pub open spec fn spec_float_int_uint(f: TextureFormat) -> TexelAspects {
    match f {
        TextureFormat::Rg8Snorm => TexelAspects::spec_sint_flag(),
        TextureFormat::Rgba8Snorm => TexelAspects::spec_sint_flag(),
        TextureFormat::Bc4Snorm => TexelAspects::spec_sint_flag(),
        TextureFormat::Bc5Snorm => TexelAspects::spec_sint_flag(),
        TextureFormat::R32Uint => TexelAspects::spec_uint_flag(),
        TextureFormat::Rg32Uint => TexelAspects::spec_uint_flag(),
        TextureFormat::Rgba32Uint => TexelAspects::spec_uint_flag(),
        TextureFormat::Stencil8Uint => TexelAspects::spec_uint_flag(),
        TextureFormat::R8Unorm => TexelAspects::spec_float_flag(),
        TextureFormat::Rg8Unorm => TexelAspects::spec_float_flag(),
        TextureFormat::Rgba8Unorm => TexelAspects::spec_float_flag(),
        TextureFormat::Rgba8UnormSrgb => TexelAspects::spec_float_flag(),
        TextureFormat::Bgra8Unorm => TexelAspects::spec_float_flag(),
        TextureFormat::Bgra8UnormSrgb => TexelAspects::spec_float_flag(),
        TextureFormat::R16Float => TexelAspects::spec_float_flag(),
        TextureFormat::Rg16Float => TexelAspects::spec_float_flag(),
        TextureFormat::Rgba16Float => TexelAspects::spec_float_flag(),
        TextureFormat::R32Float => TexelAspects::spec_float_flag(),
        TextureFormat::Rg32Float => TexelAspects::spec_float_flag(),
        TextureFormat::Rgba32Float => TexelAspects::spec_float_flag(),
        TextureFormat::Depth32Float => TexelAspects::spec_float_flag(),
        TextureFormat::Depth32FloatStencil8Uint => TexelAspects::spec_float_flag(),
        TextureFormat::Bc1Unorm => TexelAspects::spec_float_flag(),
        TextureFormat::Bc1UnormSrgb => TexelAspects::spec_float_flag(),
        TextureFormat::Bc2Unorm => TexelAspects::spec_float_flag(),
        TextureFormat::Bc2UnormSrgb => TexelAspects::spec_float_flag(),
        TextureFormat::Bc3Unorm => TexelAspects::spec_float_flag(),
        TextureFormat::Bc3UnormSrgb => TexelAspects::spec_float_flag(),
        TextureFormat::Bc4Unorm => TexelAspects::spec_float_flag(),
        TextureFormat::Bc5Unorm => TexelAspects::spec_float_flag(),
        TextureFormat::Bc6hUfloat => TexelAspects::spec_float_flag(),
        TextureFormat::Bc6hFloat => TexelAspects::spec_float_flag(),
        TextureFormat::Bc7Unorm => TexelAspects::spec_float_flag(),
        TextureFormat::Bc7UnormSrgb => TexelAspects::spec_float_flag(),
        TextureFormat::Rgb10a2Unorm => TexelAspects::spec_float_flag(),
        TextureFormat::Rg11b10Ufloat => TexelAspects::spec_float_flag(),
        TextureFormat::Rgb9e5Ufloat => TexelAspects::spec_float_flag(),
    }
}

/// The full aspect set of a format: its channel kind, its numeric
/// representation, and the sRGB flag, unioned.
pub open spec fn spec_aspects(f: TextureFormat) -> TexelAspects {
    spec_depth_stencil_color(f).spec_union(spec_float_int_uint(f)).spec_union(
        if spec_is_srgb(f) {
            TexelAspects::spec_srgb_flag()
        } else {
            TexelAspects::spec_empty()
        },
    )
}

impl TextureFormat {
    /// Block layout of this format.
    ///
    /// For the depth-stencil and stencil-only formats the returned size
    /// (5 and 1 bytes) is informational only: the real texel layout of
    /// those formats is driver-defined, so the value must not be relied
    /// on for memory-size computations.
    pub fn block_info(&self) -> (r: TexelBlockInfo)
        ensures
            r == spec_block_info(*self),
    {
        match *self {
            Self::R8Unorm => uncompressed(1),
            Self::Rg8Unorm => uncompressed(2),
            Self::Rg8Snorm => uncompressed(2),
            Self::Rgba8Unorm => uncompressed(4),
            Self::Rgba8UnormSrgb => uncompressed(4),
            Self::Bgra8Unorm => uncompressed(4),
            Self::Bgra8UnormSrgb => uncompressed(4),
            Self::Rgba8Snorm => uncompressed(4),
            Self::R16Float => uncompressed(2),
            Self::Rg16Float => uncompressed(4),
            Self::Rgba16Float => uncompressed(8),
            Self::R32Float => uncompressed(4),
            Self::Rg32Float => uncompressed(8),
            Self::Rgba32Float => uncompressed(16),
            Self::R32Uint => uncompressed(4),
            Self::Rg32Uint => uncompressed(8),
            Self::Rgba32Uint => uncompressed(16),
            Self::Depth32Float => uncompressed(4),
            Self::Depth32FloatStencil8Uint => uncompressed(5),
            Self::Stencil8Uint => uncompressed(1),
            Self::Bc1Unorm => cx_bc(8),
            Self::Bc1UnormSrgb => cx_bc(8),
            Self::Bc2Unorm => cx_bc(16),
            Self::Bc2UnormSrgb => cx_bc(16),
            Self::Bc3Unorm => cx_bc(16),
            Self::Bc3UnormSrgb => cx_bc(16),
            Self::Bc4Unorm => cx_bc(8),
            Self::Bc4Snorm => cx_bc(8),
            Self::Bc5Unorm => cx_bc(16),
            Self::Bc5Snorm => cx_bc(16),
            Self::Bc6hUfloat => cx_bc(16),
            Self::Bc6hFloat => cx_bc(16),
            Self::Bc7Unorm => cx_bc(16),
            Self::Bc7UnormSrgb => cx_bc(16),
            Self::Rgb10a2Unorm => uncompressed(4),
            Self::Rg11b10Ufloat => uncompressed(4),
            Self::Rgb9e5Ufloat => uncompressed(4),
        }
    }

    /// The full aspect set of this format.
    pub fn aspects(&self) -> (r: TexelAspects)
        ensures
            r == spec_aspects(*self),
    {
        let mut aspects = TexelAspects::empty();
        aspects = aspects.union(self.depth_stencil_color());
        aspects = aspects.union(self.float_int_uint());
        if self.is_srgb() {
            aspects = aspects.union(TexelAspects::srgb_flag())
        }
        aspects
    }

    /// Whether this format is one of the sRGB-encoded color formats.
    pub fn is_srgb(&self) -> (r: bool)
        ensures
            r == spec_is_srgb(*self),
    {
        match *self {
            TextureFormat::R8Unorm
            | TextureFormat::Rg8Unorm
            | TextureFormat::Rg8Snorm
            | TextureFormat::Rgba8Unorm
            | TextureFormat::Bgra8Unorm
            | TextureFormat::Rgba8Snorm
            | TextureFormat::R16Float
            | TextureFormat::Rg16Float
            | TextureFormat::Rgba16Float
            | TextureFormat::R32Float
            | TextureFormat::Rg32Float
            | TextureFormat::Rgba32Float
            | TextureFormat::R32Uint
            | TextureFormat::Rg32Uint
            | TextureFormat::Rgba32Uint
            | TextureFormat::Depth32Float
            | TextureFormat::Depth32FloatStencil8Uint
            | TextureFormat::Stencil8Uint
            | TextureFormat::Bc1Unorm
            | TextureFormat::Bc2Unorm
            | TextureFormat::Bc3Unorm
            | TextureFormat::Bc4Unorm
            | TextureFormat::Bc4Snorm
            | TextureFormat::Bc5Unorm
            | TextureFormat::Bc5Snorm
            | TextureFormat::Bc6hUfloat
            | TextureFormat::Bc6hFloat
            | TextureFormat::Bc7Unorm
            | TextureFormat::Rgb10a2Unorm
            | TextureFormat::Rg11b10Ufloat
            | TextureFormat::Rgb9e5Ufloat => false,
            TextureFormat::Bc7UnormSrgb
            | TextureFormat::Rgba8UnormSrgb
            | TextureFormat::Bgra8UnormSrgb
            | TextureFormat::Bc1UnormSrgb
            | TextureFormat::Bc2UnormSrgb
            | TextureFormat::Bc3UnormSrgb => true,
        }
    }

    fn depth_stencil_color(&self) -> (r: TexelAspects)
        ensures
            r == spec_depth_stencil_color(*self),
    {
        match *self {
            Self::Depth32Float => TexelAspects::depth_flag(),
            Self::Depth32FloatStencil8Uint => TexelAspects::depth_flag().union(
                TexelAspects::stencil_flag(),
            ),
            Self::Stencil8Uint => TexelAspects::stencil_flag(),
            _ => TexelAspects::color_flag(),
        }
    }

    fn float_int_uint(&self) -> (r: TexelAspects)
        ensures
            r == spec_float_int_uint(*self),
    {
        match *self {
            TextureFormat::Rg8Snorm
            | TextureFormat::Rgba8Snorm
            | TextureFormat::Bc4Snorm
            | TextureFormat::Bc5Snorm => TexelAspects::sint_flag(),
            TextureFormat::R32Uint
            | TextureFormat::Rg32Uint
            | TextureFormat::Rgba32Uint
            | TextureFormat::Stencil8Uint => TexelAspects::uint_flag(),
            TextureFormat::R8Unorm
            | TextureFormat::Rg8Unorm
            | TextureFormat::Rgba8Unorm
            | TextureFormat::Rgba8UnormSrgb
            | TextureFormat::Bgra8Unorm
            | TextureFormat::Bgra8UnormSrgb
            | TextureFormat::R16Float
            | TextureFormat::Rg16Float
            | TextureFormat::Rgba16Float
            | TextureFormat::R32Float
            | TextureFormat::Rg32Float
            | TextureFormat::Rgba32Float
            | TextureFormat::Depth32Float
            | TextureFormat::Depth32FloatStencil8Uint
            | TextureFormat::Bc1Unorm
            | TextureFormat::Bc1UnormSrgb
            | TextureFormat::Bc2Unorm
            | TextureFormat::Bc2UnormSrgb
            | TextureFormat::Bc3Unorm
            | TextureFormat::Bc3UnormSrgb
            | TextureFormat::Bc4Unorm
            | TextureFormat::Bc5Unorm
            | TextureFormat::Bc6hUfloat
            | TextureFormat::Bc6hFloat
            | TextureFormat::Bc7Unorm
            | TextureFormat::Bc7UnormSrgb
            | TextureFormat::Rgb10a2Unorm
            | TextureFormat::Rg11b10Ufloat
            | TextureFormat::Rgb9e5Ufloat => TexelAspects::float_flag(),
        }
    }
}

/// Every format's block covers either a single texel or a 4x4 area, its
/// byte size is positive, and the 4x4 blocks are exactly those of the
/// block-compressed family.
pub proof fn lemma_block_info_shape(f: TextureFormat)
    ensures
        spec_block_info(f).size > 0,
        spec_block_info(f).dimensions == (1u8, 1u8) || spec_block_info(f).dimensions == (4u8, 4u8),
        spec_is_block_compressed(f) <==> spec_block_info(f).dimensions == (4u8, 4u8),
{
}

/// Every format carries exactly one channel kind — color, depth or
/// stencil — except the combined depth-stencil format, which carries
/// depth and stencil together; and exactly one numeric representation.
/// The sRGB flag only ever accompanies a color channel.
pub proof fn lemma_aspects_classification(f: TextureFormat)
    ensures
        f == TextureFormat::Depth32FloatStencil8Uint ==> {
            let a = spec_aspects(f);
            a.depth && a.stencil && !a.color
        },
        f != TextureFormat::Depth32FloatStencil8Uint ==> {
            let a = spec_aspects(f);
            (a.color && !a.depth && !a.stencil) || (a.depth && !a.color && !a.stencil) || (
            a.stencil && !a.color && !a.depth)
        },
        ({
            let a = spec_aspects(f);
            (a.float && !a.sint && !a.uint) || (a.sint && !a.float && !a.uint) || (a.uint
                && !a.float && !a.sint)
        }),
        spec_aspects(f).srgb ==> spec_aspects(f).color && !spec_aspects(f).depth && !spec_aspects(
            f,
        ).stencil,
{
}

/// The sRGB convenience predicate agrees with the SRGB flag of the full
/// aspect set on every format.
pub proof fn lemma_is_srgb_consistent(f: TextureFormat)
    ensures
        spec_is_srgb(f) == spec_aspects(f).srgb,
        spec_is_srgb(f) == spec_aspects(f).spec_contains(TexelAspects::spec_srgb_flag()),
{
}

} // verus!
