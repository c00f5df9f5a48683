//! Newsletter subscription intake: decoding of submitted forms, the decisions
//! of the subscription handler, and the connection settings of its store.

pub mod clock;
pub mod configuration;
pub mod form;
pub mod identity;
pub mod response;
pub mod routes;
pub mod telemetry;
pub mod text;
