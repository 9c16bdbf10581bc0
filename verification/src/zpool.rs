//! Everything needed to manage zpools: the error taxonomy and classifier,
//! the property model with its diff algorithm, and the guarded operation
//! contract that backends implement.

pub mod description;
pub mod engine;
pub mod errors;
pub mod patterns;
pub mod properties;
pub mod text;
pub mod topology;

pub use self::description::Health;
pub use self::description::Zpool;
pub use self::engine::exists_guard;
pub use self::engine::ZpoolEngine;
pub use self::errors::ZpoolError;
pub use self::errors::ZpoolErrorKind;
pub use self::errors::ZpoolResult;
pub use self::properties::FailMode;
pub use self::properties::PropertyUpdate;
pub use self::properties::ZpoolProperties;
pub use self::properties::ZpoolPropertiesWrite;
pub use self::topology::Topology;
