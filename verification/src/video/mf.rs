pub mod encoding_session;
