//! The instance: the connection to one native interface.
//!
//! This crate is linked to no native interface, so the only instance that can
//! be made is the one that talks to none. It makes surfaces and shows one
//! adapter, whose capabilities are fixed.

use vstd::prelude::*;

use crate::adapter::adapter_capabilities;
use crate::adapter::Adapter;
use crate::adapter::AdapterInfo;
use crate::adapter::AdapterView;
use crate::adapter::ExposedAdapter;
use crate::error::InstanceError;
use crate::flags::InstanceFlags;
use crate::limits::Alignments;
use crate::limits::Capabilities;
use crate::limits::DeviceType;
use crate::limits::Features;
use crate::limits::Limits;
use crate::surface::Surface;
use crate::types::Backend;

verus! {

/// The message of the error for a native interface that this crate is not
/// linked to.
pub const BACKEND_NOT_LINKED: &'static str = "the native interface is not linked into this build";

/// The name of the one adapter.
pub const ADAPTER_NAME: &'static str = "headless";

/// What an instance should be like.
#[derive(Clone, Debug)]
pub struct InstanceDescriptor<'a> {
    pub name: &'a str,
    pub flags: InstanceFlags,
    /// The native interface to talk to.
    pub backend: Backend,
}

/// The state of an instance.
pub struct InstanceView {
    pub backend: Backend,
    pub flags: InstanceFlags,
    pub name: Seq<char>,
    /// One slot for each surface that was ever made, empty once the surface
    /// is destroyed.
    pub surfaces: Seq<bool>,
}

/// The connection to a native interface.
#[derive(Debug)]
pub struct Instance {
    backend: Backend,
    flags: InstanceFlags,
    name: String,
    surfaces: Vec<bool>,
}

impl View for Instance {
    type V = InstanceView;

    closed spec fn view(&self) -> InstanceView {
        InstanceView {
            backend: self.backend,
            flags: self.flags,
            name: self.name@,
            surfaces: self.surfaces@,
        }
    }
}

impl Instance {
    /// Whether the surface is one that this instance made and has not
    /// destroyed.
    pub open spec fn owns(&self, surface: &Surface) -> bool {
        surface@.id < self@.surfaces.len() && self@.surfaces[surface@.id as int]
    }

    /// Makes an instance. It either is complete or is not made: an instance
    /// for a native interface that is not linked in is refused.
    pub fn init(desc: &InstanceDescriptor) -> (r: Result<Instance, InstanceError>)
        ensures
            desc.backend == Backend::Empty ==> (r matches Ok(instance) && instance@
                == (InstanceView {
                backend: Backend::Empty,
                flags: desc.flags,
                name: desc.name@,
                surfaces: Seq::empty(),
            })),
            desc.backend != Backend::Empty ==> (r matches Err(error) && error.message_text()
                == BACKEND_NOT_LINKED@ && error.source_text() is None),
    {
        match desc.backend {
            Backend::Empty => Ok(
                Instance {
                    backend: Backend::Empty,
                    flags: desc.flags,
                    name: desc.name.to_owned(),
                    surfaces: Vec::new(),
                },
            ),
            _ => Err(InstanceError::new(BACKEND_NOT_LINKED.to_owned())),
        }
    }

    /// The native interface that the instance talks to.
    pub fn backend(&self) -> (r: Backend)
        ensures
            r == self@.backend,
    {
        self.backend
    }

    /// Makes a surface. It is not configured.
    pub fn create_surface(&mut self) -> (r: Result<Surface, InstanceError>)
        ensures
            r matches Ok(surface) && surface@ == Surface::fresh(old(self)@.surfaces.len() as usize)
                && surface@.id == old(self)@.surfaces.len(),
            final(self)@ == (InstanceView {
                surfaces: old(self)@.surfaces.push(true),
                ..old(self)@
            }),
    {
        let id = self.surfaces.len();
        self.surfaces.push(true);
        Ok(Surface::new(id))
    }

    /// Whether the surface is one that this instance made and has not
    /// destroyed.
    pub fn is_surface_live(&self, surface: &Surface) -> (r: bool)
        ensures
            r == self.owns(surface),
    {
        surface.id() < self.surfaces.len() && self.surfaces[surface.id()]
    }

    /// Destroys a surface. It is not configured any more.
    pub fn destroy_surface(&mut self, surface: Surface)
        requires
            old(self).owns(&surface),
            !surface@.configured(),
        ensures
            final(self)@ == (InstanceView {
                surfaces: old(self)@.surfaces.update(surface@.id as int, false),
                ..old(self)@
            }),
    {
        let id = surface.id();
        self.surfaces[id] = false;
    }

    /// The adapters that the instance shows: one, with every feature and the
    /// baseline limits. What is found of an adapter here never changes
    /// afterwards.
    pub fn enumerate_adapters(&self) -> (r: Vec<ExposedAdapter>)
        ensures
            r@.len() == 1,
            r@[0].features@ == Features::ALL,
            r@[0].capabilities == adapter_capabilities(),
            r@[0].info.name@ == ADAPTER_NAME@,
            r@[0].info.vendor == 0,
            r@[0].info.device == 0,
            r@[0].info.backend == self@.backend,
            r@[0].info.device_type == DeviceType::Other,
            r@[0].adapter@ == (AdapterView {
                index: 0,
                features: r@[0].features,
                capabilities: r@[0].capabilities,
                opened: 0,
            }),
    {
        let features = Features::all();
        let capabilities = Capabilities {
            limits: Limits::default(),
            alignments: Alignments { buffer_copy_offset: 4, buffer_copy_pitch: 256 },
        };
        let info = AdapterInfo {
            name: ADAPTER_NAME.to_owned(),
            vendor: 0,
            device: 0,
            device_type: DeviceType::Other,
            backend: self.backend,
        };
        let adapter = Adapter::new(0, features, capabilities);
        let mut adapters: Vec<ExposedAdapter> = Vec::new();
        adapters.push(ExposedAdapter { adapter, info, features, capabilities });
        adapters
    }
}

} // verus!
