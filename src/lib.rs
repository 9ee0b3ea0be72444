//! Request execution engine of a desktop HTTP request tester: the request
//! model, its encoding into reqwest's header map, response assembly, the
//! post-response script front end and the state machines that sequence them.

pub mod encode;
pub mod exec;
pub mod headers;
pub mod http;
pub mod method;
pub mod response;
pub mod script;
pub mod stage;
pub mod tabs;
pub mod target;
pub mod text;
