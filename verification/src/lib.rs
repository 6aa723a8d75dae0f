//! Bootstrap of a Vulkan instance with validation layers, as verified decisions.
//!
//! The crate decides; the program around it talks to the driver, through the
//! functions that it hands to the crate. The crate says which layers must be
//! present before an instance may be asked for, what the creation request
//! holds, and how a message of the validation layers is labelled.
//!
//! - [`validation`]: the configuration, and the check of the driver's layers.
//! - [`diagnostics`]: the labels and the line of a message, and the filter.
//! - [`instance`]: the creation request and the order of the build.
//! - [`names`]: names as bytes, as the driver holds them.
//! - [`driver`]: the values taken from `ash`, with their contracts on trust.
//! - [`error`]: the error type.

pub mod diagnostics;
pub mod driver;
pub mod error;
pub mod instance;
pub mod names;
pub mod validation;

pub use crate::diagnostics::populate_debug_messenger_create_info;
pub use crate::error::UrnError;
pub use crate::instance::{InstanceBuilder, InstanceCreationRequest};
pub use crate::validation::{check_validation_layer_support, LayerDescriptor, Validation};
