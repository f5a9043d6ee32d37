//! A hardware abstraction layer for GPU programming interfaces, without a GPU.
//!
//! The crate holds the part of such a layer that does not depend on the native
//! interface underneath: the usage model of resources, the descriptors, the
//! life cycle of a command encoder, the submission and fence protocol of a
//! queue, and the configure, acquire and present cycle of a surface.
//!
//! # The objects
//!
//! An [`instance::Instance`] is made for one [`types::Backend`], chosen when
//! it is made; every other object comes from it and talks to the same
//! backend. The instance shows its [`adapter::Adapter`]s and makes
//! [`surface::Surface`]s. An adapter opens a [`device::Device`] together with
//! its [`queue::Queue`]. The device makes resources, fences and
//! [`encoder::CommandEncoder`]s; an encoder records commands into command
//! buffers; the queue takes command buffers and presents surface textures.
//!
//! Resources are named by handles. A handle is owned by whoever made the
//! resource, and the resource lives until that owner destroys it: nothing is
//! counted or collected.
//!
//! # What is checked and what is not
//!
//! Nothing here validates what a caller does, tracks the state of a resource
//! or derives a barrier. What a caller has to keep to is the precondition of
//! each operation, and each precondition can be tested at run time through a
//! function of the same object, so that a layer above, or a test, can tell a
//! violation before it happens. The errors that operations return stand for
//! what a caller cannot foresee: memory that runs out, a device or a surface
//! that is lost.
//!
//! # Time
//!
//! No operation passes time. Work that was submitted completes when
//! [`queue::Queue::complete`] says so, and an operation that would wait for
//! something that has not happened reports a timeout at once.

pub mod accel;
pub mod adapter;
pub mod aspects;
pub mod canary;
pub mod command;
pub mod descriptor;
pub mod device;
pub mod encoder;
pub mod error;
pub mod fence;
pub mod flags;
pub mod instance;
pub mod limits;
pub mod queue;
pub mod resource;
pub mod surface;
pub mod types;
pub mod usage;
