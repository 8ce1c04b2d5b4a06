use std::marker::PhantomData;

use vstd::prelude::*;
use vstd::string::StringExecFns;

verus! {

/// How a sampler treats coordinates outside the texture
#[derive(Clone, Copy, Debug, PartialEq, Eq, Structural)]
pub enum AddressMode {
    ClampToEdge,
    Repeat,
    MirrorRepeat,
    ClampToBorder,
}

/// How a sampler filters between texels
#[derive(Clone, Copy, Debug, PartialEq, Eq, Structural)]
pub enum FilterMode {
    Nearest,
    Linear,
}

/// How a comparison sampler compares values
#[derive(Clone, Copy, Debug, PartialEq, Eq, Structural)]
pub enum CompareFunction {
    Never,
    Less,
    Equal,
    LessEqual,
    Greater,
    NotEqual,
    GreaterEqual,
    Always,
}

/// The color outside the texture of a bordered sampler
#[derive(Clone, Copy, Debug, PartialEq, Eq, Structural)]
pub enum SamplerBorderColor {
    TransparentBlack,
    OpaqueBlack,
    OpaqueWhite,
    Zero,
}

/// The description of a sampler, but for its level of detail range, which is 0 to 32
#[derive(Clone, Copy, Debug)]
pub struct SamplerDescriptor {
    pub label: Option<&'static str>,
    pub address_mode_u: AddressMode,
    pub address_mode_v: AddressMode,
    pub address_mode_w: AddressMode,
    pub mag_filter: FilterMode,
    pub min_filter: FilterMode,
    pub mipmap_filter: FilterMode,
    pub anisotropy_clamp: u16,
    pub compare: Option<CompareFunction>,
    pub border_color: Option<SamplerBorderColor>,
}

/// The text that `{:?}` gives an optional sampler label
pub uninterp spec fn label_debug_text(label: Option<Seq<char>>) -> Seq<char>;

/// The view of an optional string slice
pub open spec fn label_view(label: Option<&'static str>) -> Option<Seq<char>> {
    match label {
        Some(s) => Some(s@),
        None => None,
    }
}

/// Formats an optional label with `{:?}`.
///
/// Calls std's `Debug` formatting of `Option<&str>` (`None`, or `Some` and the quoted, escaped
/// string); the contract names the text as a function of the label alone.
#[verifier::external_body]
fn debug_label(label: Option<&'static str>) -> (text: String)
    ensures
        text@ == label_debug_text(label_view(label)),
{
    format!("{:?}", label)
}

/// The message of a sampler that cannot be created
pub open spec fn sampler_error(label: Option<&'static str>, reason: Seq<char>) -> Seq<char> {
    "Cannot create sampler with label '"@ + label_debug_text(label_view(label)) + "'. "@ + reason
}

/// The message of a sampler that cannot be created
fn sampler_error_message(label: Option<&'static str>, reason: &str) -> (msg: String)
    ensures
        msg@ == sampler_error(label, reason@),
{
    let mut msg = String::from_str("Cannot create sampler with label '");
    let text = debug_label(label);
    msg.append(text.as_str());
    msg.append("'. ");
    msg.append(reason);
    msg
}

/// The full information of a sampler blueprint
pub struct SamplerPayload {
    pub desc: SamplerDescriptor,
}

/// A blueprint for constructing samplers
pub struct Sampler<T> {
    pub desc: SamplerDescriptor,
    pub ty: PhantomData<T>,
}

/// The description every sampler starts from, but for its label, address modes and filters
pub open spec fn sampler_desc(
    label: &'static str,
    address: AddressMode,
    filter: FilterMode,
    anisotropy_clamp: u16,
    compare: Option<CompareFunction>,
) -> SamplerDescriptor {
    SamplerDescriptor {
        label: Some(label),
        address_mode_u: address,
        address_mode_v: address,
        address_mode_w: address,
        mag_filter: filter,
        min_filter: filter,
        mipmap_filter: filter,
        anisotropy_clamp,
        compare,
        border_color: None,
    }
}

impl<T> Sampler<T> {
    /// Set the label for gpu profiling of the resultant sampler
    pub fn with_label(self, label: &'static str) -> (sampler: Self)
        ensures
            sampler.desc == (SamplerDescriptor { label: Some(label), ..self.desc }),
    {
        let mut sampler = self;
        sampler.desc.label = Some(label);
        sampler
    }

    /// Set the address mode of the sampler, in all three directions
    pub fn with_address_mode(self, mode: AddressMode) -> (sampler: Self)
        ensures
            sampler.desc == (SamplerDescriptor {
                address_mode_u: mode,
                address_mode_v: mode,
                address_mode_w: mode,
                ..self.desc
            }),
    {
        let mut sampler = self;
        sampler.desc.address_mode_u = mode;
        sampler.desc.address_mode_v = mode;
        sampler.desc.address_mode_w = mode;
        sampler
    }
}

/// Sampler type for linear filtering
pub struct Linear;

/// Sampler type for nearest filtering
pub struct Nearest;

/// Sampler type for anisotropic filtering
pub struct Anisotropic;

/// Sampler type for borders around sampled texture
pub struct Bordered;

/// Sampler type for comparison between values in sampled texture
pub struct Comparison;

impl Sampler<Linear> {
    /// Create a sampler for linear filtering
    pub fn linear() -> (sampler: Self)
        ensures
            sampler.desc == sampler_desc("linear_sampler", AddressMode::ClampToEdge, FilterMode::Linear, 1, None),
    {
        Self {
            ty: PhantomData,
            desc: SamplerDescriptor {
                label: Some("linear_sampler"),
                address_mode_u: AddressMode::ClampToEdge,
                address_mode_v: AddressMode::ClampToEdge,
                address_mode_w: AddressMode::ClampToEdge,
                min_filter: FilterMode::Linear,
                mag_filter: FilterMode::Linear,
                mipmap_filter: FilterMode::Linear,
                anisotropy_clamp: 1,
                compare: None,
                border_color: None,
            },
        }
    }

    /// Set the mipmap filter to nearest. (min and mag filter remain linear)
    pub fn with_mipmap_nearest(self) -> (sampler: Self)
        ensures
            sampler.desc == (SamplerDescriptor { mipmap_filter: FilterMode::Nearest, ..self.desc }),
    {
        let mut sampler = self;
        sampler.desc.mipmap_filter = FilterMode::Nearest;
        sampler
    }

    /// The payload of the blueprint
    pub fn into_payload(self) -> (payload: Result<SamplerPayload, String>)
        ensures
            payload matches Ok(p) && p.desc == self.desc,
    {
        Ok(SamplerPayload { desc: self.desc })
    }
}

impl Sampler<Nearest> {
    /// Create a sampler for nearest filtering
    pub fn nearest() -> (sampler: Self)
        ensures
            sampler.desc == sampler_desc("nearest_sampler", AddressMode::ClampToEdge, FilterMode::Nearest, 1, None),
    {
        Self {
            ty: PhantomData,
            desc: SamplerDescriptor {
                label: Some("nearest_sampler"),
                address_mode_u: AddressMode::ClampToEdge,
                address_mode_v: AddressMode::ClampToEdge,
                address_mode_w: AddressMode::ClampToEdge,
                min_filter: FilterMode::Nearest,
                mag_filter: FilterMode::Nearest,
                mipmap_filter: FilterMode::Nearest,
                anisotropy_clamp: 1,
                compare: None,
                border_color: None,
            },
        }
    }

    /// Set the mipmap filter to linear. (min and mag filter remain nearest)
    pub fn with_mipmap_linear(self) -> (sampler: Self)
        ensures
            sampler.desc == (SamplerDescriptor { mipmap_filter: FilterMode::Linear, ..self.desc }),
    {
        let mut sampler = self;
        sampler.desc.mipmap_filter = FilterMode::Linear;
        sampler
    }

    /// The payload of the blueprint
    pub fn into_payload(self) -> (payload: Result<SamplerPayload, String>)
        ensures
            payload matches Ok(p) && p.desc == self.desc,
    {
        Ok(SamplerPayload { desc: self.desc })
    }
}

impl Sampler<Anisotropic> {
    /// Create a sampler for anisotropic filtering at the given level (not 0)
    pub fn anisotropic(level: u16) -> (sampler: Self)
        requires
            level > 0,
        ensures
            sampler.desc == sampler_desc("anisotropic_sampler", AddressMode::Repeat, FilterMode::Linear, level, None),
    {
        Self {
            ty: PhantomData,
            desc: SamplerDescriptor {
                label: Some("anisotropic_sampler"),
                address_mode_u: AddressMode::Repeat,
                address_mode_v: AddressMode::Repeat,
                address_mode_w: AddressMode::Repeat,
                min_filter: FilterMode::Linear,
                mag_filter: FilterMode::Linear,
                mipmap_filter: FilterMode::Linear,
                anisotropy_clamp: level,
                compare: None,
                border_color: None,
            },
        }
    }

    /// The payload of the blueprint; the anisotropic level must be at most 16
    pub fn into_payload(self) -> (payload: Result<SamplerPayload, String>)
        ensures
            self.desc.anisotropy_clamp <= 16 ==> (payload matches Ok(p) && p.desc == self.desc),
            self.desc.anisotropy_clamp > 16 ==> (payload matches Err(msg) && msg@ == sampler_error(
                self.desc.label,
                "Anisotropic level must be in the range [1, 16]."@,
            )),
    {
        if self.desc.anisotropy_clamp > 16 {
            Err(sampler_error_message(self.desc.label, "Anisotropic level must be in the range [1, 16]."))
        } else {
            Ok(SamplerPayload { desc: self.desc })
        }
    }
}

impl Sampler<Bordered> {
    /// Create a sampler for clamp to border
    pub fn bordered() -> (sampler: Self)
        ensures
            sampler.desc == sampler_desc("bordered_sampler", AddressMode::ClampToBorder, FilterMode::Nearest, 1, None),
    {
        Self {
            ty: PhantomData,
            desc: SamplerDescriptor {
                label: Some("bordered_sampler"),
                address_mode_u: AddressMode::ClampToBorder,
                address_mode_v: AddressMode::ClampToBorder,
                address_mode_w: AddressMode::ClampToBorder,
                min_filter: FilterMode::Nearest,
                mag_filter: FilterMode::Nearest,
                mipmap_filter: FilterMode::Nearest,
                anisotropy_clamp: 1,
                compare: None,
                border_color: None,
            },
        }
    }

    /// The payload of the blueprint; its first address mode must still clamp to the border
    pub fn into_payload(self) -> (payload: Result<SamplerPayload, String>)
        ensures
            self.desc.address_mode_u == AddressMode::ClampToBorder ==> (payload matches Ok(p) && p.desc == self.desc),
            self.desc.address_mode_u != AddressMode::ClampToBorder ==> (payload matches Err(msg) && msg@
                == sampler_error(self.desc.label, "Bordered sampler must have address mode ClampToBorder"@)),
    {
        match self.desc.address_mode_u {
            AddressMode::ClampToBorder => Ok(SamplerPayload { desc: self.desc }),
            _ => Err(sampler_error_message(self.desc.label, "Bordered sampler must have address mode ClampToBorder")),
        }
    }
}

impl Sampler<Comparison> {
    /// Create a sampler for texture value comparisons
    pub fn comparison(func: CompareFunction) -> (sampler: Self)
        ensures
            sampler.desc == sampler_desc("comparison_sampler", AddressMode::ClampToEdge, FilterMode::Linear, 1, Some(func)),
    {
        Self {
            ty: PhantomData,
            desc: SamplerDescriptor {
                label: Some("comparison_sampler"),
                address_mode_u: AddressMode::ClampToEdge,
                address_mode_v: AddressMode::ClampToEdge,
                address_mode_w: AddressMode::ClampToEdge,
                min_filter: FilterMode::Linear,
                mag_filter: FilterMode::Linear,
                mipmap_filter: FilterMode::Linear,
                anisotropy_clamp: 1,
                compare: Some(func),
                border_color: None,
            },
        }
    }

    /// The payload of the blueprint
    pub fn into_payload(self) -> (payload: Result<SamplerPayload, String>)
        ensures
            payload matches Ok(p) && p.desc == self.desc,
    {
        Ok(SamplerPayload { desc: self.desc })
    }
}

} // verus!
