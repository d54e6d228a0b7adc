//! Packages a compiled audio-plugin library into the bundle layout a host
//! expects, after detecting from its exported symbols which plugin format it
//! implements.

pub mod format;
pub mod target;
pub mod vst;

pub use format::{DetectError, ElfSymbol, Format, FormatError, MachSymbol, ObjectKind};
pub use target::{Arch, Target, TargetError};
pub use vst::{BundleError, BundlePlan, DescriptorFile, Vst3};
