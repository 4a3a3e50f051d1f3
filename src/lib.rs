//! A host that runs a sandboxed guest module behind an HTTP listener.
//!
//! The verified core: the route model the guest declares, the first-match
//! routing done by each worker, the turning of guest replies into HTTP
//! responses, the handler cache owned by the dispatcher, the namespaced
//! key/value layout and the launch settings.
pub mod router;
pub mod message;
pub mod routing;
pub mod response;
pub mod dispatcher;
pub mod keyvalue;
pub mod settings;
pub mod server;
pub mod worker;
