//! The surface: what is presented to a window.
//!
//! A surface is either unconfigured, or configured on one device.
//! `configure` binds it to a device and sets up a ring of images;
//! `unconfigure` lets go of the device and is due before the surface is used
//! with another device or destroyed.
//!
//! While the surface is configured, `acquire_texture` hands out the next free
//! image of the ring. Every texture that was handed out goes back exactly
//! once: to `Queue::present` or to `discard_texture`. Both take the texture
//! by value, so it cannot go back twice; an image that never goes back is
//! missing from the ring for good.

use vstd::prelude::*;

use crate::device::Device;
use crate::error::SurfaceError;
use crate::resource::DeviceId;
use crate::resource::RawHandle;
use crate::resource::Texture;
use crate::types::CompositeAlphaMode;
use crate::types::Extent3d;
use crate::types::PresentMode;
use crate::types::TextureFormat;
use crate::usage::TextureUses;

verus! {

/// The fewest frames that can be queued.
pub const MIN_FRAME_LATENCY: u32 = 1;

/// The most frames that can be queued.
pub const MAX_FRAME_LATENCY: u32 = 3;

/// What a surface can present.
#[derive(Clone, Debug)]
pub struct SurfaceCapabilities {
    /// The formats of the surface textures. At least one.
    pub formats: Vec<TextureFormat>,
    /// The fewest frames that can be queued. At least 1.
    pub min_frame_latency: u32,
    /// The most frames that can be queued. Not below the fewest.
    pub max_frame_latency: u32,
    /// The extent of the surface, if it is known.
    pub current_extent: Option<Extent3d>,
    /// The usages of the surface textures; `COLOR_TARGET` is among them.
    pub usage: TextureUses,
    /// The ways of holding presentation to the refresh. At least one.
    pub present_modes: Vec<PresentMode>,
    /// The ways of composing alpha. At least one.
    pub composite_alpha_modes: Vec<CompositeAlphaMode>,
}

/// How a surface should present.
#[derive(Clone, Debug)]
pub struct SurfaceConfiguration {
    /// The most frames that are queued, within the range that the
    /// capabilities give. The ring has one image more.
    pub maximum_frame_latency: u32,
    pub present_mode: PresentMode,
    pub composite_alpha_mode: CompositeAlphaMode,
    pub format: TextureFormat,
    pub extent: Extent3d,
    pub usage: TextureUses,
    /// The formats, other than its own, that views of a surface texture may
    /// have.
    pub view_formats: Vec<TextureFormat>,
}

impl SurfaceConfiguration {
    pub open spec fn spec_has_valid_latency(&self) -> bool {
        MIN_FRAME_LATENCY <= self.maximum_frame_latency <= MAX_FRAME_LATENCY
    }

    /// Whether the number of queued frames lies in the range that a surface
    /// offers.
    #[verifier::when_used_as_spec(spec_has_valid_latency)]
    pub fn has_valid_latency(&self) -> (r: bool)
        ensures
            r == (MIN_FRAME_LATENCY <= self.maximum_frame_latency <= MAX_FRAME_LATENCY),
    {
        MIN_FRAME_LATENCY <= self.maximum_frame_latency && self.maximum_frame_latency
            <= MAX_FRAME_LATENCY
    }
}

/// A texture of a surface that was handed out for one frame. It goes back to
/// the surface by value, once.
#[derive(Debug)]
pub struct SurfaceTexture {
    texture: Texture,
}

impl SurfaceTexture {
    /// The texture: it names the surface, and its slot is that of the image
    /// in the ring.
    pub closed spec fn spec_texture(&self) -> Texture {
        self.texture
    }

    /// The image of the ring that the texture stands for.
    pub open spec fn image(&self) -> int {
        self.spec_texture().raw.index as int
    }

    /// The texture, to record commands with and to make views of.
    pub fn texture(&self) -> (r: &Texture)
        ensures
            *r == self.spec_texture(),
    {
        &self.texture
    }
}

/// What `acquire_texture` hands out.
#[derive(Debug)]
pub struct AcquiredSurfaceTexture {
    pub texture: SurfaceTexture,
    /// The surface no longer fits its configuration exactly. Presenting
    /// still works, but the surface should be configured again soon.
    pub suboptimal: bool,
}

/// The state of a surface.
pub struct SurfaceView {
    pub id: usize,
    /// The device that the surface is configured on, if it is configured.
    pub device: Option<DeviceId>,
    /// One entry for each image of the ring: whether the image is handed out
    /// and has not come back. Empty while the surface is not configured.
    pub acquired: Seq<bool>,
    /// Whether the surface is lost. A lost surface stays lost.
    pub lost: bool,
    /// Whether the surface has changed so that it has to be configured again.
    pub outdated: bool,
    /// Whether the surface no longer fits its configuration exactly.
    pub suboptimal: bool,
}

impl SurfaceView {
    /// An unconfigured surface has no ring.
    pub open spec fn wf(self) -> bool {
        self.device is None ==> self.acquired.len() == 0
    }

    /// Whether the surface is configured.
    pub open spec fn configured(self) -> bool {
        self.device is Some
    }

    /// Whether no texture is handed out.
    pub open spec fn none_acquired(self) -> bool {
        forall|i: int| 0 <= i < self.acquired.len() ==> !self.acquired[i]
    }

    /// Whether an image of the ring is free.
    pub open spec fn has_free_image(self) -> bool {
        exists|i: int| 0 <= i < self.acquired.len() && !self.acquired[i]
    }

    /// Whether the image is the first free one of the ring.
    pub open spec fn is_first_free(self, image: int) -> bool {
        &&& 0 <= image < self.acquired.len()
        &&& !self.acquired[image]
        &&& forall|i: int| 0 <= i < image ==> self.acquired[i]
    }

    /// Whether the texture is one that this surface has handed out and that
    /// has not come back.
    pub open spec fn holds(self, texture: Texture) -> bool {
        &&& texture.surface == Some(self.id)
        &&& self.device == Some(texture.raw.device)
        &&& texture.raw.index < self.acquired.len()
        &&& self.acquired[texture.raw.index as int]
    }

    /// The texture that stands for an image of the ring.
    pub open spec fn texture_of(self, image: int) -> Texture {
        Texture {
            raw: RawHandle { device: self.device.unwrap(), index: image as usize },
            surface: Some(self.id),
        }
    }

    /// What stands in the way of acquiring or presenting, if anything: a lost
    /// surface first, then an outdated one.
    pub open spec fn fault(self) -> Option<SurfaceError> {
        if self.lost {
            Some(SurfaceError::Lost)
        } else if self.outdated {
            Some(SurfaceError::Outdated)
        } else {
            None
        }
    }

    /// Whether the surface can be configured on the device: nothing is
    /// handed out, and the surface is not configured on another device.
    pub open spec fn can_configure(self, device: DeviceId) -> bool {
        self.none_acquired() && (self.device is None || self.device == Some(device))
    }

    /// The state after the surface has been configured with a ring of so
    /// many images: every image is free, and the surface fits again.
    pub open spec fn configured_on(self, device: DeviceId, images: nat) -> SurfaceView {
        SurfaceView {
            device: Some(device),
            acquired: Seq::new(images, |i: int| false),
            outdated: false,
            suboptimal: false,
            ..self
        }
    }

    /// The state after the surface has let go of its device.
    pub open spec fn unconfigured(self) -> SurfaceView {
        SurfaceView { device: None, acquired: Seq::empty(), ..self }
    }

    /// The state after an image has been handed out.
    pub open spec fn with_acquired(self, image: int) -> SurfaceView {
        SurfaceView { acquired: self.acquired.update(image, true), ..self }
    }

    /// The state after an image has come back.
    pub open spec fn with_released(self, image: int) -> SurfaceView {
        SurfaceView { acquired: self.acquired.update(image, false), ..self }
    }
}

/// A target of presentation.
#[derive(Debug)]
pub struct Surface {
    id: usize,
    device: Option<DeviceId>,
    acquired: Vec<bool>,
    lost: bool,
    outdated: bool,
    suboptimal: bool,
}

impl View for Surface {
    type V = SurfaceView;

    closed spec fn view(&self) -> SurfaceView {
        SurfaceView {
            id: self.id,
            device: self.device,
            acquired: self.acquired@,
            lost: self.lost,
            outdated: self.outdated,
            suboptimal: self.suboptimal,
        }
    }
}

impl Surface {
    /// The state of a surface that has just been made: not configured, not
    /// lost.
    pub open spec fn fresh(id: usize) -> SurfaceView {
        SurfaceView {
            id,
            device: None,
            acquired: Seq::empty(),
            lost: false,
            outdated: false,
            suboptimal: false,
        }
    }

    /// A surface that has just been made.
    pub(crate) fn new(id: usize) -> (r: Surface)
        ensures
            r@ == Self::fresh(id),
    {
        Surface {
            id,
            device: None,
            acquired: Vec::new(),
            lost: false,
            outdated: false,
            suboptimal: false,
        }
    }

    /// The number of the surface among those of its instance.
    pub fn id(&self) -> (r: usize)
        ensures
            r == self@.id,
    {
        self.id
    }

    /// Whether the surface is lost.
    pub fn is_lost(&self) -> (r: bool)
        ensures
            r == self@.lost,
    {
        self.lost
    }

    /// Whether the surface has to be configured again.
    pub fn is_outdated(&self) -> (r: bool)
        ensures
            r == self@.outdated,
    {
        self.outdated
    }

    /// Whether the surface is configured.
    pub fn is_configured(&self) -> (r: bool)
        ensures
            r == self@.configured(),
    {
        self.device.is_some()
    }

    /// The device that the surface is configured on, if it is configured.
    pub fn device(&self) -> (r: Option<DeviceId>)
        ensures
            r == self@.device,
    {
        self.device
    }

    /// The number of images of the ring.
    pub fn images(&self) -> (r: usize)
        ensures
            r == self@.acquired.len(),
    {
        self.acquired.len()
    }

    /// The first free image of the ring, if there is one.
    pub fn first_free_image(&self) -> (r: Option<usize>)
        ensures
            r is Some == self@.has_free_image(),
            r matches Some(image) ==> self@.is_first_free(image as int),
    {
        let mut i: usize = 0;
        while i < self.acquired.len()
            invariant
                i <= self.acquired@.len(),
                self.acquired@ == self@.acquired,
                forall|k: int| 0 <= k < i ==> self.acquired@[k],
            decreases self.acquired@.len() - i,
        {
            if !self.acquired[i] {
                return Some(i);
            }
            i += 1;
        }
        None
    }

    /// The number of textures that are handed out and have not come back.
    pub fn acquired_textures(&self) -> (r: usize)
        ensures
            r == 0 <==> self@.none_acquired(),
            r <= self@.acquired.len(),
    {
        let mut count: usize = 0;
        let mut i: usize = 0;
        while i < self.acquired.len()
            invariant
                i <= self.acquired@.len(),
                self.acquired@ == self@.acquired,
                count <= i,
                count == 0 <==> forall|k: int| 0 <= k < i ==> !self.acquired@[k],
            decreases self.acquired@.len() - i,
        {
            if self.acquired[i] {
                count += 1;
            }
            i += 1;
        }
        count
    }

    /// Whether the texture is one that this surface has handed out and that
    /// has not come back.
    pub fn holds(&self, texture: &SurfaceTexture) -> (r: bool)
        ensures
            r == self@.holds(texture.spec_texture()),
    {
        let t = texture.texture;
        let on_surface = match t.surface {
            Some(id) => id == self.id,
            None => false,
        };
        let on_device = match self.device {
            Some(device) => device == t.raw.device,
            None => false,
        };
        on_surface && on_device && t.raw.index < self.acquired.len() && self.acquired[t.raw.index]
    }

    /// Whether the surface can be configured on the device.
    pub fn can_configure(&self, device: &Device) -> (r: bool)
        ensures
            r == self@.can_configure(device@.id),
    {
        let free = match self.device {
            None => true,
            Some(current) => current == device.id(),
        };
        self.acquired_textures() == 0 && free
    }

    /// Configures the surface on a device, with a ring of one image more
    /// than the frames that may be queued. All work that used the surface is
    /// done, no texture of it is handed out, and it is not configured on
    /// another device. A surface that is configured on the same device is
    /// configured anew.
    pub fn configure(&mut self, device: &Device, config: &SurfaceConfiguration) -> (r: Result<
        (),
        SurfaceError,
    >)
        requires
            old(self)@.can_configure(device@.id),
            config.has_valid_latency(),
        ensures
            r == configure_outcome(old(self)@, device@.lost),
            r is Ok ==> final(self)@ == old(self)@.configured_on(
                device@.id,
                (config.maximum_frame_latency + 1) as nat,
            ),
            r is Err ==> final(self)@ == old(self)@,
    {
        if device.is_lost() {
            return Err(SurfaceError::Device(crate::error::DeviceError::Lost));
        }
        if self.lost {
            return Err(SurfaceError::Lost);
        }
        let mut ring: Vec<bool> = Vec::new();
        let images = config.maximum_frame_latency + 1;
        while ring.len() < images as usize
            invariant
                ring@.len() <= images,
                forall|i: int| 0 <= i < ring@.len() ==> !ring@[i],
            decreases images - ring@.len(),
        {
            ring.push(false);
        }
        assert(ring@ == Seq::new(images as nat, |i: int| false));
        self.acquired = ring;
        self.device = Some(device.id());
        self.outdated = false;
        self.suboptimal = false;
        Ok(())
    }

    /// Lets go of the device. All work that used the surface is done, and no
    /// texture of it is handed out.
    pub fn unconfigure(&mut self, device: &Device)
        requires
            old(self)@.device == Some(device@.id),
            old(self)@.none_acquired(),
        ensures
            final(self)@ == old(self)@.unconfigured(),
    {
        self.device = None;
        self.acquired = Vec::new();
    }

    /// Hands out the next free image of the ring, or `None` where no image
    /// is free: the wait for one times out, since nothing comes back while a
    /// call is in progress. A timeout of `None` means to wait without end,
    /// so it is only for a surface with a free image or with a fault to
    /// report.
    pub fn acquire_texture(&mut self, timeout: Option<core::time::Duration>) -> (r: Result<
        Option<AcquiredSurfaceTexture>,
        SurfaceError,
    >)
        requires
            old(self)@.configured(),
            timeout is Some || old(self)@.has_free_image() || old(self)@.fault() is Some,
        ensures
            old(self)@.fault() matches Some(error) ==> r == Err::<
                Option<AcquiredSurfaceTexture>,
                SurfaceError,
            >(error) && final(self)@ == old(self)@,
            old(self)@.fault() is None && !old(self)@.has_free_image() ==> r == Ok::<
                Option<AcquiredSurfaceTexture>,
                SurfaceError,
            >(None) && final(self)@ == old(self)@,
            old(self)@.fault() is None && old(self)@.has_free_image() ==> (r matches Ok(
                Some(acquired),
            ) && old(self)@.is_first_free(acquired.texture.image())
                && acquired.texture.spec_texture() == old(self)@.texture_of(
                acquired.texture.image(),
            ) && acquired.suboptimal == old(self)@.suboptimal && final(self)@
                == old(self)@.with_acquired(acquired.texture.image())),
    {
        if self.lost {
            return Err(SurfaceError::Lost);
        }
        if self.outdated {
            return Err(SurfaceError::Outdated);
        }
        let device = match self.device {
            Some(device) => device,
            None => {
                return Ok(None);
            },
        };
        match self.first_free_image() {
            None => Ok(None),
            Some(image) => {
                self.acquired[image] = true;
                let texture = Texture {
                    raw: RawHandle { device, index: image },
                    surface: Some(self.id),
                };
                Ok(
                    Some(
                        AcquiredSurfaceTexture {
                            texture: SurfaceTexture { texture },
                            suboptimal: self.suboptimal,
                        },
                    ),
                )
            },
        }
    }

    /// Takes a texture back without presenting it. Its image is free again.
    pub fn discard_texture(&mut self, texture: SurfaceTexture)
        requires
            old(self)@.holds(texture.spec_texture()),
        ensures
            final(self)@ == old(self)@.with_released(texture.image()),
    {
        self.acquired[texture.texture.raw.index] = false;
    }

    /// The surface is lost, for good.
    pub fn set_lost(&mut self)
        ensures
            final(self)@ == (SurfaceView { lost: true, ..old(self)@ }),
    {
        self.lost = true;
    }

    /// The surface has changed, in size or otherwise, so that it has to be
    /// configured again before it hands out another texture.
    pub fn set_outdated(&mut self)
        ensures
            final(self)@ == (SurfaceView { outdated: true, ..old(self)@ }),
    {
        self.outdated = true;
    }

    /// The surface no longer fits its configuration exactly, or fits it
    /// again.
    pub fn set_suboptimal(&mut self, suboptimal: bool)
        ensures
            final(self)@ == (SurfaceView { suboptimal, ..old(self)@ }),
    {
        self.suboptimal = suboptimal;
    }
}

/// What configuring a surface returns: an error for a lost device, then for
/// a lost surface; success otherwise.
pub open spec fn configure_outcome(surface: SurfaceView, device_lost: bool) -> Result<
    (),
    SurfaceError,
> {
    if device_lost {
        Err(SurfaceError::Device(crate::error::DeviceError::Lost))
    } else if surface.lost {
        Err(SurfaceError::Lost)
    } else {
        Ok(())
    }
}

/// A surface goes from unconfigured to configured and back: configuring
/// gives it a ring with every image free, and unconfiguring leaves it as a
/// surface that was never configured, but for what it has been told since.
pub proof fn lemma_configure_cycle(surface: SurfaceView, device: DeviceId, images: nat)
    requires
        surface.can_configure(device),
        images > 0,
    ensures
        surface.configured_on(device, images).configured(),
        surface.configured_on(device, images).none_acquired(),
        surface.configured_on(device, images).has_free_image(),
        surface.configured_on(device, images).is_first_free(0),
        !surface.configured_on(device, images).unconfigured().configured(),
        surface.configured_on(device, images).unconfigured().wf(),
        surface.configured_on(device, images).unconfigured().can_configure(device),
        forall|other: DeviceId|
            other != device ==> !surface.configured_on(device, images).can_configure(other),
{
    let after = surface.configured_on(device, images);
    assert(!after.acquired[0]);
}

/// A texture that was handed out goes back once: after it has come back,
/// the surface no longer holds it, and every other texture is as it was.
pub proof fn lemma_texture_goes_back_once(surface: SurfaceView, texture: Texture, other: Texture)
    requires
        surface.holds(texture),
    ensures
        !surface.with_released(texture.raw.index as int).holds(texture),
        other.raw.index != texture.raw.index ==> surface.with_released(
            texture.raw.index as int,
        ).holds(other) == surface.holds(other),
        surface.with_released(texture.raw.index as int).has_free_image(),
{
    let after = surface.with_released(texture.raw.index as int);
    assert(!after.acquired[texture.raw.index as int]);
}

/// Acquiring uses up the ring: once every image is handed out, nothing is
/// free, and it stays so until a texture comes back.
pub proof fn lemma_ring_runs_out(surface: SurfaceView, image: int)
    requires
        surface.is_first_free(image),
        forall|i: int| image < i < surface.acquired.len() ==> surface.acquired[i],
    ensures
        !surface.with_acquired(image).has_free_image(),
        surface.with_acquired(image).holds(surface.texture_of(image)) <==> surface.configured(),
{
    let after = surface.with_acquired(image);
    assert forall|i: int| 0 <= i < after.acquired.len() implies after.acquired[i] by {
        if i != image {
            assert(surface.acquired[i]);
        }
    }
}

} // verus!
