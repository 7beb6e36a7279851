//! The capability traits a user of the engine composes against.

pub use crate::instance::Instance;
pub use crate::material::Material;
pub use crate::pack::Pack;
pub use crate::process::postproc::Filter;
pub use crate::view::Push;
pub use crate::view::Store;
pub use crate::view::ViewCap;
