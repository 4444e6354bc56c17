//! The data records of the API.
//!
//! These are plain serialization records: the wire schemas of the remote
//! service, carried as owned values.  Timestamps and fractional quantities
//! are kept verbatim as the text the service sent; durations are
//! millisecond counts.

pub mod duration;
pub mod envs;
pub mod images;
pub mod orgs;
pub mod services;
pub mod users;

pub use self::duration::Duration;
pub use self::envs::Environment;
pub use self::envs::EnvironmentStat;
pub use self::envs::EnvironmentStatus;
pub use self::envs::RebuildMessage;
pub use self::images::Image;
pub use self::images::ImageId;
pub use self::images::ImageTag;
pub use self::images::OsRelease;
pub use self::images::Registry;
pub use self::orgs::OrgMember;
pub use self::orgs::OrgRole;
pub use self::orgs::Organization;
pub use self::services::Service;
pub use self::services::ServiceEnvVar;
pub use self::services::ServiceStat;
pub use self::services::ServiceVolumeMount;
pub use self::users::SiteRole;
pub use self::users::User;
