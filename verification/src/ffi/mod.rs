//! The data and handle types of the cpdb-libs C bindings, with the
//! decisions the bindings take on the values that cpdb-libs hands back.

pub mod callbacks;
pub mod printer;
pub mod frontend;
pub mod settings;
pub mod backend;
pub mod job;
pub mod util;
