//! Authentication and per-device session lifecycle: password policy,
//! signed access/refresh tokens, session rotation and revocation, and the
//! request gate that admits bearer-authenticated calls.

pub mod text;
pub mod password;
pub mod claims;
pub mod token;
pub mod session;
pub mod model;
pub mod flow;
pub mod gate;
pub mod lifecycle;
pub mod snippets;
