pub mod apply;
pub mod configuration;
pub mod decode;
pub mod hosting;
pub mod invocation;
pub mod stdin_bytes;
pub mod wrangler;

pub use configuration::{
    Configuration, ConfigurationError, DomainBindings, DomainRequest, DomainRequestList, Pages,
    ProjectRequest, SiteIdentity, Source, TaggedText,
};
pub use apply::{Apply, ApplyError, ApplyOutcome};
pub use decode::RunError;
pub use hosting::{Hosting, HostingProvider};
pub use invocation::{Classification, InvocationResult, WranglerArgv};
pub use stdin_bytes::StdinBytes;
pub use wrangler::Wrangler;
