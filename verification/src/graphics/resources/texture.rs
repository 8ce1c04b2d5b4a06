use vstd::prelude::*;
use vstd::string::StringExecFns;

verus! {

/// The texture formats whose layout the library knows; any other wgpu format is carried as is.
#[derive(Clone, Copy, Debug, PartialEq, Eq)]
pub enum TexFormat {
    R8Unorm,
    R8Snorm,
    Rg8Unorm,
    Rg8Snorm,
    Rgba8Unorm,
    Rgba8UnormSrgb,
    Bgra8UnormSrgb,
    R32Float,
    Rgba16Float,
    Rgba32Float,
    /// A format without an automatic byte layout
    Other(wgpu::TextureFormat),
}

#[verifier::external_type_specification]
#[verifier::external_body]
pub struct ExWgpuTextureFormat(wgpu::TextureFormat);

/// The number of bytes of one pixel of a format, for the formats that have a known layout
pub open spec fn pixel_bytes(format: TexFormat) -> int {
    match format {
        TexFormat::R8Unorm | TexFormat::R8Snorm => 1,
        TexFormat::Rg8Unorm | TexFormat::Rg8Snorm => 2,
        TexFormat::Rgba8Unorm | TexFormat::Rgba8UnormSrgb | TexFormat::Bgra8UnormSrgb => 4,
        TexFormat::R32Float => 4,
        TexFormat::Rgba16Float => 8,
        TexFormat::Rgba32Float => 16,
        TexFormat::Other(_) => 0,
    }
}

/// The texture usages the blueprints set
#[derive(Clone, Copy, Debug, PartialEq, Eq, Structural)]
pub enum TextureUsage {
    CopySrc,
    CopyDst,
    TextureBinding,
    StorageBinding,
    RenderAttachment,
}

/// The bit that wgpu gives each texture usage in `wgpu::TextureUsages`
pub open spec fn texture_usage_flag(usage: TextureUsage) -> u32 {
    match usage {
        TextureUsage::CopySrc => 1,
        TextureUsage::CopyDst => 2,
        TextureUsage::TextureBinding => 4,
        TextureUsage::StorageBinding => 8,
        TextureUsage::RenderAttachment => 16,
    }
}

/// The bits of a texture usage as wgpu defines them.
///
/// Reads the `bits()` of the matching `wgpu::TextureUsages` constant; the contract states the
/// value that wgpu's source gives each constant.
#[verifier::external_body]
pub(crate) fn texture_usage_bits(usage: TextureUsage) -> (bits: u32)
    ensures
        bits == texture_usage_flag(usage),
{
    match usage {
        TextureUsage::CopySrc => wgpu::TextureUsages::COPY_SRC.bits(),
        TextureUsage::CopyDst => wgpu::TextureUsages::COPY_DST.bits(),
        TextureUsage::TextureBinding => wgpu::TextureUsages::TEXTURE_BINDING.bits(),
        TextureUsage::StorageBinding => wgpu::TextureUsages::STORAGE_BINDING.bits(),
        TextureUsage::RenderAttachment => wgpu::TextureUsages::RENDER_ATTACHMENT.bits(),
    }
}

/// The dimensionality of a texture
#[derive(Clone, Copy, Debug, PartialEq, Eq, Structural)]
pub enum TextureDimension {
    D1,
    D2,
    D3,
}

/// Specifies the dimensions of a texture
#[derive(Clone, Copy, Debug, PartialEq, Eq, Structural)]
pub struct TexDimensions {
    pub width: u32,
    pub height: u32,
    pub depth: u32,
    pub wgpu_dim: TextureDimension,
}

impl TexDimensions {
    /// A 2D texture
    pub fn size_2d(width: u32, height: u32) -> (dim: Self)
        ensures
            dim == (TexDimensions { width, height, depth: 1, wgpu_dim: TextureDimension::D2 }),
    {
        Self { width, height, depth: 1, wgpu_dim: TextureDimension::D2 }
    }

    /// A 3D texture
    pub fn size_3d(width: u32, height: u32, depth: u32) -> (dim: Self)
        ensures
            dim == (TexDimensions { width, height, depth, wgpu_dim: TextureDimension::D3 }),
    {
        Self { width, height, depth, wgpu_dim: TextureDimension::D3 }
    }
}

/// Description for a procedurally generated texture
pub struct Procedural {
    pub data: Vec<u8>,
    pub dim: TexDimensions,
}

/// Description for a texture loaded from disk
pub struct OnDisk {
    pub path: &'static str,
}

/// Description for a texture generated in a compute shader
pub struct Computed {
    pub dim: TexDimensions,
}

impl Procedural {
    /// Provide the default format for this texture type
    pub fn default_fmt() -> (format: TexFormat)
        ensures
            format == TexFormat::Rgba8Unorm,
    {
        TexFormat::Rgba8Unorm
    }
}

impl OnDisk {
    /// Provide the default format for this texture type
    pub fn default_fmt() -> (format: TexFormat)
        ensures
            format == TexFormat::Rgba8Unorm,
    {
        TexFormat::Rgba8Unorm
    }
}

impl Computed {
    /// Provide the default format for this texture type
    pub fn default_fmt() -> (format: TexFormat)
        ensures
            format == TexFormat::Rgba16Float,
    {
        TexFormat::Rgba16Float
    }
}

/// A blueprint for constructing wgpu textures.
pub struct Texture<T> {
    pub label: String,
    pub format: TexFormat,
    /// `wgpu::TextureUsages` bits
    pub usage: u32,
    pub mip_levels: u32,
    pub ty: T,
}

/// Condensed version of a texture blueprint. Used to streamline the creation of the corresponding wgpu texture
pub struct TexturePayload {
    pub label: String,
    pub format: TexFormat,
    /// `wgpu::TextureUsages` bits
    pub usage: u32,
    pub size: TexDimensions,
    pub mip_levels: u32,
    pub data: Option<Vec<u8>>,
}

impl TexturePayload {
    /// Determine the number of bytes per pixel based on the currently set format
    pub fn bytes_per_pixel(&self) -> (bytes: u32)
        requires
            !(self.format is Other),
        ensures
            bytes == pixel_bytes(self.format),
    {
        match self.format {
            TexFormat::R8Unorm | TexFormat::R8Snorm => 1,
            TexFormat::Rg8Unorm | TexFormat::Rg8Snorm => 2,
            TexFormat::Rgba8Unorm | TexFormat::Rgba8UnormSrgb | TexFormat::Bgra8UnormSrgb => 4,
            TexFormat::R32Float => 4,
            TexFormat::Rgba16Float => 8,
            TexFormat::Rgba32Float => 16,
            TexFormat::Other(_) => 0,
        }
    }
}

impl<T> Texture<T> {
    /// Set the label for gpu profiling of the resultant texture
    pub fn with_label(self, label: &str) -> (texture: Self)
        ensures
            texture.label@ == label@,
            texture.format == self.format,
            texture.usage == self.usage,
            texture.mip_levels == self.mip_levels,
            texture.ty == self.ty,
    {
        let mut texture = self;
        texture.label = String::from_str(label);
        texture
    }

    /// Set the format of the texture
    pub fn with_format(self, format: TexFormat) -> (texture: Self)
        ensures
            texture.format == format,
            texture.label == self.label,
            texture.usage == self.usage,
            texture.mip_levels == self.mip_levels,
            texture.ty == self.ty,
    {
        let mut texture = self;
        texture.format = format;
        texture
    }

    /// Set the mipmap levels for the texture.
    pub fn with_mip_levels(self, levels: u32) -> (texture: Self)
        ensures
            texture.mip_levels == levels,
            texture.label == self.label,
            texture.format == self.format,
            texture.usage == self.usage,
            texture.ty == self.ty,
    {
        let mut texture = self;
        texture.mip_levels = levels;
        texture
    }

    /// Add additional usage bits for the texture
    pub fn with_additional_usage(self, usage: u32) -> (texture: Self)
        ensures
            texture.usage == self.usage | usage,
            texture.label == self.label,
            texture.format == self.format,
            texture.mip_levels == self.mip_levels,
            texture.ty == self.ty,
    {
        let mut texture = self;
        texture.usage = texture.usage | usage;
        texture
    }

    /// Allow the texture to be written to
    pub fn writable(self) -> (texture: Self)
        ensures
            texture.usage == self.usage | texture_usage_flag(TextureUsage::CopyDst),
            texture.label == self.label,
            texture.format == self.format,
            texture.mip_levels == self.mip_levels,
            texture.ty == self.ty,
    {
        let bits = texture_usage_bits(TextureUsage::CopyDst);
        self.with_additional_usage(bits)
    }

    /// Allow the texture to be read from
    pub fn readable(self) -> (texture: Self)
        ensures
            texture.usage == self.usage | texture_usage_flag(TextureUsage::CopySrc),
            texture.label == self.label,
            texture.format == self.format,
            texture.mip_levels == self.mip_levels,
            texture.ty == self.ty,
    {
        let bits = texture_usage_bits(TextureUsage::CopySrc);
        self.with_additional_usage(bits)
    }

    /// Allow the texture to be written to and read from
    pub fn read_write(self) -> (texture: Self)
        ensures
            texture.usage == self.usage | (texture_usage_flag(TextureUsage::CopyDst) | texture_usage_flag(
                TextureUsage::CopySrc,
            )),
            texture.label == self.label,
            texture.format == self.format,
            texture.mip_levels == self.mip_levels,
            texture.ty == self.ty,
    {
        let bits = texture_usage_bits(TextureUsage::CopyDst) | texture_usage_bits(TextureUsage::CopySrc);
        self.with_additional_usage(bits)
    }

    /// Allows the texture to be used for storage in a bind group
    pub fn storage_bindable(self) -> (texture: Self)
        ensures
            texture.usage == self.usage | texture_usage_flag(TextureUsage::StorageBinding),
            texture.label == self.label,
            texture.format == self.format,
            texture.mip_levels == self.mip_levels,
            texture.ty == self.ty,
    {
        let bits = texture_usage_bits(TextureUsage::StorageBinding);
        self.with_additional_usage(bits)
    }
}

impl Texture<Procedural> {
    /// Create a texture from procedurally generated data
    pub fn procedural(data: Vec<u8>, dim: TexDimensions) -> (texture: Self)
        ensures
            texture.label@ == "procedural_texture"@,
            texture.format == TexFormat::Rgba8Unorm,
            texture.usage == texture_usage_flag(TextureUsage::TextureBinding),
            texture.mip_levels == 1,
            texture.ty.data == data,
            texture.ty.dim == dim,
    {
        Self {
            label: String::from_str("procedural_texture"),
            format: Procedural::default_fmt(),
            usage: texture_usage_bits(TextureUsage::TextureBinding),
            mip_levels: 1,
            ty: Procedural { data, dim },
        }
    }

    /// The payload of the blueprint, with its data
    pub fn into_payload(self) -> (payload: Result<TexturePayload, String>)
        ensures
            payload matches Ok(p) && p.label == self.label && p.format == self.format && p.usage
                == self.usage && p.mip_levels == self.mip_levels && p.size == self.ty.dim && p.data
                == Some(self.ty.data),
    {
        Ok(
            TexturePayload {
                label: self.label,
                size: self.ty.dim,
                format: self.format,
                usage: self.usage,
                mip_levels: self.mip_levels,
                data: Some(self.ty.data),
            },
        )
    }
}

impl Texture<OnDisk> {
    /// Create a texture from an image file
    pub fn on_disk(path: &'static str) -> (texture: Self)
        ensures
            texture.label@ == "disk_loaded_texture"@,
            texture.format == TexFormat::Rgba8Unorm,
            texture.usage == texture_usage_flag(TextureUsage::TextureBinding),
            texture.mip_levels == 1,
            texture.ty.path == path,
    {
        Self {
            label: String::from_str("disk_loaded_texture"),
            format: OnDisk::default_fmt(),
            usage: texture_usage_bits(TextureUsage::TextureBinding),
            mip_levels: 1,
            ty: OnDisk { path },
        }
    }

    /// The payload of the blueprint, given the decoded image: its size and its pixels as rgba8
    /// bytes
    pub fn into_payload(self, width: u32, height: u32, rgba: Vec<u8>) -> (payload: TexturePayload)
        ensures
            payload.label == self.label,
            payload.format == self.format,
            payload.usage == self.usage,
            payload.mip_levels == self.mip_levels,
            payload.size == (TexDimensions { width, height, depth: 1, wgpu_dim: TextureDimension::D2 }),
            payload.data == Some(rgba),
    {
        TexturePayload {
            label: self.label,
            format: self.format,
            usage: self.usage,
            data: Some(rgba),
            mip_levels: self.mip_levels,
            size: TexDimensions::size_2d(width, height),
        }
    }
}

impl Texture<Computed> {
    /// Create a texture generated by a compute shader
    pub fn computed(dim: TexDimensions) -> (texture: Self)
        ensures
            texture.label@ == "computed_texture"@,
            texture.format == TexFormat::Rgba16Float,
            texture.usage == texture_usage_flag(TextureUsage::TextureBinding) | texture_usage_flag(
                TextureUsage::StorageBinding,
            ),
            texture.mip_levels == 1,
            texture.ty.dim == dim,
    {
        Self {
            label: String::from_str("computed_texture"),
            format: Computed::default_fmt(),
            usage: texture_usage_bits(TextureUsage::TextureBinding) | texture_usage_bits(
                TextureUsage::StorageBinding,
            ),
            mip_levels: 1,
            ty: Computed { dim },
        }
    }

    /// The payload of the blueprint; the data is generated in the shader
    pub fn into_payload(self) -> (payload: Result<TexturePayload, String>)
        ensures
            payload matches Ok(p) && p.label == self.label && p.format == self.format && p.usage
                == self.usage && p.mip_levels == self.mip_levels && p.size == self.ty.dim
                && p.data is None,
    {
        Ok(
            TexturePayload {
                label: self.label,
                size: self.ty.dim,
                format: self.format,
                usage: self.usage,
                mip_levels: self.mip_levels,
                data: None,
            },
        )
    }
}

} // verus!
