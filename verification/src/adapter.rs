//! Adapters: what a GPU can do, and the way from an adapter to an open device.
//!
//! What is found of an adapter when the adapters are listed never changes
//! afterwards. A device is opened from an adapter together with its queue, with
//! the features and limits that the caller asks for.

use vstd::prelude::*;

use crate::aspects::FormatAspects;
use crate::device::Device;
use crate::error::DeviceError;
use crate::flags::TextureFormatCapabilities;
use crate::limits::Alignments;
use crate::limits::Capabilities;
use crate::limits::DeviceType;
use crate::limits::Features;
use crate::limits::Limits;
use crate::queue::Queue;
use crate::queue::QueueView;
use crate::resource::DeviceId;
use crate::surface::Surface;
use crate::surface::SurfaceCapabilities;
use crate::surface::MAX_FRAME_LATENCY;
use crate::surface::MIN_FRAME_LATENCY;
use crate::types::Backend;
use crate::types::CompositeAlphaMode;
use crate::types::PresentMode;
use crate::types::TextureFormat;
use crate::usage::TextureUses;

verus! {

/// The bytes that the devices of the adapter may take for buffers and
/// acceleration structures: one gibibyte.
pub const ADAPTER_MEMORY: u64 = 0x4000_0000;

/// What is known of an adapter.
#[derive(Clone, Debug, PartialEq, Eq)]
pub struct AdapterInfo {
    pub name: String,
    pub vendor: u32,
    pub device: u32,
    pub device_type: DeviceType,
    pub backend: Backend,
}

/// An adapter together with what it can do, as found when the adapters were
/// listed.
#[derive(Debug)]
pub struct ExposedAdapter {
    pub adapter: Adapter,
    pub info: AdapterInfo,
    pub features: Features,
    pub capabilities: Capabilities,
}

/// A device and its queue. They are opened together and closed together.
pub struct OpenDevice {
    pub device: Device,
    pub queue: Queue,
}

/// The state of an adapter.
pub struct AdapterView {
    /// The position of the adapter in the list of its instance.
    pub index: usize,
    pub features: Features,
    pub capabilities: Capabilities,
    /// The number of devices that the adapter has opened.
    pub opened: u64,
}

impl AdapterView {
    /// Whether the adapter can serve the features and limits: it has every
    /// feature asked for, the limits lie within its own, and it has not run
    /// out of numbers for its devices.
    pub open spec fn can_serve(self, features: Features, limits: Limits) -> bool {
        &&& self.features@ & features@ == features@
        &&& limits.within(&self.capabilities.limits)
        &&& self.opened < u64::MAX
    }

    /// What stands in the way of opening a device, if anything. A device
    /// whose largest buffer alone would not fit the memory of the adapter
    /// is out of memory before it is opened; features or limits that the
    /// adapter cannot serve fail the creation.
    pub open spec fn open_fault(self, features: Features, limits: Limits) -> Option<DeviceError> {
        if limits.max_buffer_size > ADAPTER_MEMORY {
            Some(DeviceError::OutOfMemory)
        } else if !self.can_serve(features, limits) {
            Some(DeviceError::ResourceCreationFailed)
        } else {
            None
        }
    }

    /// Whether the adapter can open a device with the features and limits.
    pub open spec fn can_open(self, features: Features, limits: Limits) -> bool {
        self.open_fault(features, limits) is None
    }

    /// The features that textures of the format need, as raw bits.
    pub open spec fn required_features(format: TextureFormat) -> u64 {
        match format {
            TextureFormat::R16Unorm
            | TextureFormat::R16Snorm
            | TextureFormat::Rg16Unorm
            | TextureFormat::Rg16Snorm
            | TextureFormat::Rgba16Unorm
            | TextureFormat::Rgba16Snorm => Features::TEXTURE_FORMAT_16BIT_NORM,
            TextureFormat::Depth32FloatStencil8 => Features::DEPTH32FLOAT_STENCIL8,
            TextureFormat::NV12 => Features::TEXTURE_FORMAT_NV12,
            TextureFormat::Bc1RgbaUnorm
            | TextureFormat::Bc1RgbaUnormSrgb
            | TextureFormat::Bc2RgbaUnorm
            | TextureFormat::Bc2RgbaUnormSrgb
            | TextureFormat::Bc3RgbaUnorm
            | TextureFormat::Bc3RgbaUnormSrgb
            | TextureFormat::Bc4RUnorm
            | TextureFormat::Bc4RSnorm
            | TextureFormat::Bc5RgUnorm
            | TextureFormat::Bc5RgSnorm
            | TextureFormat::Bc6hRgbUfloat
            | TextureFormat::Bc6hRgbFloat
            | TextureFormat::Bc7RgbaUnorm
            | TextureFormat::Bc7RgbaUnormSrgb => Features::TEXTURE_COMPRESSION_BC,
            TextureFormat::Etc2Rgb8Unorm
            | TextureFormat::Etc2Rgb8UnormSrgb
            | TextureFormat::Etc2Rgb8A1Unorm
            | TextureFormat::Etc2Rgb8A1UnormSrgb
            | TextureFormat::Etc2Rgba8Unorm
            | TextureFormat::Etc2Rgba8UnormSrgb
            | TextureFormat::EacR11Unorm
            | TextureFormat::EacR11Snorm
            | TextureFormat::EacRg11Unorm
            | TextureFormat::EacRg11Snorm => Features::TEXTURE_COMPRESSION_ETC2,
            TextureFormat::Astc { .. } => Features::TEXTURE_COMPRESSION_ASTC,
            _ => 0,
        }
    }

    /// Whether the texels of the format come in compressed blocks.
    pub open spec fn is_compressed(format: TextureFormat) -> bool {
        let needs = Self::required_features(format);
        needs == Features::TEXTURE_COMPRESSION_BC || needs == Features::TEXTURE_COMPRESSION_ETC2
            || needs == Features::TEXTURE_COMPRESSION_ASTC
    }

    /// What the adapter can do with textures of the format, as raw bits.
    /// Without the feature that the format needs: nothing. A color format
    /// can be sampled and copied and, unless it is compressed, stored to and
    /// drawn to. A depth or stencil format can be sampled, copied and used
    /// as depth-stencil attachment. A planar format can be sampled and
    /// copied.
    pub open spec fn format_capabilities(self, format: TextureFormat) -> u32 {
        let needs = Self::required_features(format);
        let aspects = FormatAspects::bits_of_format(format);
        if self.features@ & needs != needs {
            0
        } else if aspects == FormatAspects::COLOR {
            if Self::is_compressed(format) {
                SAMPLED_AND_COPIED
            } else {
                COLOR_CAPABILITIES
            }
        } else if aspects == FormatAspects::PLANE_0 | FormatAspects::PLANE_1 {
            SAMPLED_AND_COPIED
        } else {
            DEPTH_STENCIL_CAPABILITIES
        }
    }
}

/// `SAMPLED | SAMPLED_LINEAR | COPY_SRC | COPY_DST`.
pub const SAMPLED_AND_COPIED: u32 = 0xc003;

/// What can be done with an uncompressed color format:
/// `SAMPLED | SAMPLED_LINEAR | STORAGE | COLOR_ATTACHMENT |
/// COLOR_ATTACHMENT_BLEND | MULTISAMPLE_X4 | MULTISAMPLE_RESOLVE | COPY_SRC |
/// COPY_DST`.
pub const COLOR_CAPABILITIES: u32 = 0xe4cb;

/// What can be done with a depth or stencil format:
/// `SAMPLED | DEPTH_STENCIL_ATTACHMENT | MULTISAMPLE_X4 | COPY_SRC | COPY_DST`.
pub const DEPTH_STENCIL_CAPABILITIES: u32 = 0xc501;

/// The capabilities of the one adapter: the baseline limits, copies aligned
/// to 4 bytes, rows of texels aligned to 256 bytes.
pub open spec fn adapter_capabilities() -> Capabilities {
    Capabilities {
        limits: Limits::baseline(),
        alignments: Alignments { buffer_copy_offset: 4, buffer_copy_pitch: 256 },
    }
}

/// A physical or logical GPU.
#[derive(Debug)]
pub struct Adapter {
    index: usize,
    features: Features,
    capabilities: Capabilities,
    opened: u64,
}

impl View for Adapter {
    type V = AdapterView;

    closed spec fn view(&self) -> AdapterView {
        AdapterView {
            index: self.index,
            features: self.features,
            capabilities: self.capabilities,
            opened: self.opened,
        }
    }
}

fn required_features(format: TextureFormat) -> (r: u64)
    ensures
        r == AdapterView::required_features(format),
{
    match format {
        TextureFormat::R16Unorm
        | TextureFormat::R16Snorm
        | TextureFormat::Rg16Unorm
        | TextureFormat::Rg16Snorm
        | TextureFormat::Rgba16Unorm
        | TextureFormat::Rgba16Snorm => Features::TEXTURE_FORMAT_16BIT_NORM,
        TextureFormat::Depth32FloatStencil8 => Features::DEPTH32FLOAT_STENCIL8,
        TextureFormat::NV12 => Features::TEXTURE_FORMAT_NV12,
        TextureFormat::Bc1RgbaUnorm
        | TextureFormat::Bc1RgbaUnormSrgb
        | TextureFormat::Bc2RgbaUnorm
        | TextureFormat::Bc2RgbaUnormSrgb
        | TextureFormat::Bc3RgbaUnorm
        | TextureFormat::Bc3RgbaUnormSrgb
        | TextureFormat::Bc4RUnorm
        | TextureFormat::Bc4RSnorm
        | TextureFormat::Bc5RgUnorm
        | TextureFormat::Bc5RgSnorm
        | TextureFormat::Bc6hRgbUfloat
        | TextureFormat::Bc6hRgbFloat
        | TextureFormat::Bc7RgbaUnorm
        | TextureFormat::Bc7RgbaUnormSrgb => Features::TEXTURE_COMPRESSION_BC,
        TextureFormat::Etc2Rgb8Unorm
        | TextureFormat::Etc2Rgb8UnormSrgb
        | TextureFormat::Etc2Rgb8A1Unorm
        | TextureFormat::Etc2Rgb8A1UnormSrgb
        | TextureFormat::Etc2Rgba8Unorm
        | TextureFormat::Etc2Rgba8UnormSrgb
        | TextureFormat::EacR11Unorm
        | TextureFormat::EacR11Snorm
        | TextureFormat::EacRg11Unorm
        | TextureFormat::EacRg11Snorm => Features::TEXTURE_COMPRESSION_ETC2,
        TextureFormat::Astc { .. } => Features::TEXTURE_COMPRESSION_ASTC,
        _ => 0,
    }
}

impl Adapter {
    /// An adapter that has opened no device yet.
    pub(crate) fn new(index: usize, features: Features, capabilities: Capabilities) -> (r: Adapter)
        ensures
            r@ == (AdapterView { index, features, capabilities, opened: 0 }),
    {
        Adapter { index, features, capabilities, opened: 0 }
    }

    /// The position of the adapter in the list of its instance.
    pub fn index(&self) -> (r: usize)
        ensures
            r == self@.index,
    {
        self.index
    }

    /// The features of the adapter.
    pub fn features(&self) -> (r: Features)
        ensures
            r == self@.features,
    {
        self.features
    }

    /// What the adapter can do.
    pub fn capabilities(&self) -> (r: Capabilities)
        ensures
            r == self@.capabilities,
    {
        self.capabilities
    }

    /// What stands in the way of opening a device with the features and
    /// limits, if anything.
    pub fn open_fault(&self, features: Features, limits: &Limits) -> (r: Option<DeviceError>)
        ensures
            r == self@.open_fault(features, *limits),
    {
        if limits.max_buffer_size > ADAPTER_MEMORY {
            Some(DeviceError::OutOfMemory)
        } else if !(self.features.contains(features) && limits.check_limits(
            &self.capabilities.limits,
        ) && self.opened < u64::MAX) {
            Some(DeviceError::ResourceCreationFailed)
        } else {
            None
        }
    }

    /// Whether the adapter can open a device with the features and limits.
    pub fn can_open(&self, features: Features, limits: &Limits) -> (r: bool)
        ensures
            r == self@.can_open(features, *limits),
    {
        self.open_fault(features, limits).is_none()
    }

    /// Opens a device with the features and limits asked for, together with
    /// its queue. Where something stands in the way, no device is made and
    /// the adapter is as it was.
    pub fn open(&mut self, features: Features, limits: &Limits) -> (r: Result<
        OpenDevice,
        DeviceError,
    >)
        ensures
            old(self)@.open_fault(features, *limits) matches Some(fault) ==> (r matches Err(error)
                && error == fault) && final(self)@ == old(self)@,
            old(self)@.open_fault(features, *limits) is None ==> (r matches Ok(open)
                && open.device@ == Device::fresh(
                DeviceId { adapter: old(self)@.index, serial: old(self)@.opened },
                *limits,
                features,
                ADAPTER_MEMORY,
            ) && open.queue@ == (QueueView {
                device: DeviceId { adapter: old(self)@.index, serial: old(self)@.opened },
                lost: false,
                in_flight: Seq::empty(),
            })) && final(self)@ == (AdapterView {
                opened: (old(self)@.opened + 1) as u64,
                ..old(self)@
            }),
    {
        match self.open_fault(features, limits) {
            Some(fault) => Err(fault),
            None => {
                let id = DeviceId { adapter: self.index, serial: self.opened };
                self.opened = self.opened + 1;
                Ok(
                    OpenDevice {
                        device: Device::new(id, *limits, features, ADAPTER_MEMORY),
                        queue: Queue::new(id),
                    },
                )
            },
        }
    }

    /// What the adapter can do with textures of the format.
    pub fn texture_format_capabilities(&self, format: TextureFormat) -> (r:
        TextureFormatCapabilities)
        ensures
            r@ == self@.format_capabilities(format),
    {
        let needs = required_features(format);
        let aspects = FormatAspects::from(format);
        let bits: u32 = if self.features.bits & needs != needs {
            0
        } else if aspects.bits == FormatAspects::COLOR {
            if needs == Features::TEXTURE_COMPRESSION_BC || needs
                == Features::TEXTURE_COMPRESSION_ETC2 || needs
                == Features::TEXTURE_COMPRESSION_ASTC {
                SAMPLED_AND_COPIED
            } else {
                COLOR_CAPABILITIES
            }
        } else if aspects.bits == FormatAspects::PLANE_0 | FormatAspects::PLANE_1 {
            SAMPLED_AND_COPIED
        } else {
            DEPTH_STENCIL_CAPABILITIES
        };
        TextureFormatCapabilities::from_bits_retain(bits)
    }

    /// What the surface can present with this adapter, or `None` where it
    /// cannot present at all: on a surface that is lost.
    pub fn surface_capabilities(&self, surface: &Surface) -> (r: Option<SurfaceCapabilities>)
        ensures
            r is Some == !surface@.lost,
            r matches Some(capabilities) ==> {
                &&& capabilities.formats@ == seq![
                    TextureFormat::Bgra8Unorm,
                    TextureFormat::Bgra8UnormSrgb,
                    TextureFormat::Rgba8Unorm,
                    TextureFormat::Rgba8UnormSrgb,
                ]
                &&& capabilities.min_frame_latency == MIN_FRAME_LATENCY
                &&& capabilities.max_frame_latency == MAX_FRAME_LATENCY
                &&& capabilities.current_extent is None
                &&& capabilities.usage@ == TextureUses::COLOR_TARGET | TextureUses::COPY_SRC
                    | TextureUses::COPY_DST
                &&& capabilities.present_modes@ == seq![PresentMode::Fifo, PresentMode::Immediate]
                &&& capabilities.composite_alpha_modes@ == seq![CompositeAlphaMode::Opaque]
            },
    {
        if surface.is_lost() {
            return None;
        }
        let mut formats: Vec<TextureFormat> = Vec::new();
        formats.push(TextureFormat::Bgra8Unorm);
        formats.push(TextureFormat::Bgra8UnormSrgb);
        formats.push(TextureFormat::Rgba8Unorm);
        formats.push(TextureFormat::Rgba8UnormSrgb);
        let mut present_modes: Vec<PresentMode> = Vec::new();
        present_modes.push(PresentMode::Fifo);
        present_modes.push(PresentMode::Immediate);
        let mut composite_alpha_modes: Vec<CompositeAlphaMode> = Vec::new();
        composite_alpha_modes.push(CompositeAlphaMode::Opaque);
        let capabilities = SurfaceCapabilities {
            formats,
            min_frame_latency: MIN_FRAME_LATENCY,
            max_frame_latency: MAX_FRAME_LATENCY,
            current_extent: None,
            usage: TextureUses::from_bits_retain(
                TextureUses::COLOR_TARGET | TextureUses::COPY_SRC | TextureUses::COPY_DST,
            ),
            present_modes,
            composite_alpha_modes,
        };
        assert(capabilities.formats@ == seq![
            TextureFormat::Bgra8Unorm,
            TextureFormat::Bgra8UnormSrgb,
            TextureFormat::Rgba8Unorm,
            TextureFormat::Rgba8UnormSrgb,
        ]);
        assert(capabilities.present_modes@ == seq![PresentMode::Fifo, PresentMode::Immediate]);
        assert(capabilities.composite_alpha_modes@ == seq![CompositeAlphaMode::Opaque]);
        Some(capabilities)
    }
}

/// An adapter opens exactly what it can serve: the baseline limits and any
/// set of named features can be asked of the one adapter, and no two devices
/// that it opens get the same id.
pub proof fn lemma_adapter_opens(adapter: AdapterView, features: Features)
    requires
        adapter.features@ == Features::ALL,
        adapter.capabilities == adapter_capabilities(),
        features@ & Features::ALL == features@,
    ensures
        adapter.opened < u64::MAX ==> adapter.can_open(features, Limits::baseline()),
        adapter.can_open(features, Limits::baseline()) ==> (AdapterView {
            opened: (adapter.opened + 1) as u64,
            ..adapter
        }).opened != adapter.opened,
{
    let f = features@;
    assert(f & Features::ALL == f ==> Features::ALL & f == f) by (bit_vector);
}

/// The masks of capabilities are the unions that their names stand for.
pub proof fn lemma_capability_masks()
    by (bit_vector)
    ensures
        SAMPLED_AND_COPIED == TextureFormatCapabilities::SAMPLED
            | TextureFormatCapabilities::SAMPLED_LINEAR | TextureFormatCapabilities::COPY_SRC
            | TextureFormatCapabilities::COPY_DST,
        COLOR_CAPABILITIES == SAMPLED_AND_COPIED | TextureFormatCapabilities::STORAGE
            | TextureFormatCapabilities::COLOR_ATTACHMENT
            | TextureFormatCapabilities::COLOR_ATTACHMENT_BLEND
            | TextureFormatCapabilities::MULTISAMPLE_X4
            | TextureFormatCapabilities::MULTISAMPLE_RESOLVE,
        DEPTH_STENCIL_CAPABILITIES == TextureFormatCapabilities::SAMPLED
            | TextureFormatCapabilities::DEPTH_STENCIL_ATTACHMENT
            | TextureFormatCapabilities::MULTISAMPLE_X4 | TextureFormatCapabilities::COPY_SRC
            | TextureFormatCapabilities::COPY_DST,
{
}

} // verus!
