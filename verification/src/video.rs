pub mod backend;
pub mod capture;
pub mod encoding_session;
pub mod mf;
