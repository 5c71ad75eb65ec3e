//! What the commands decide and show, apart from talking to the server.
pub mod authorize;
pub mod connect;
pub mod email;
pub mod listen;
pub mod logout;
pub mod msg;
pub mod notes;
pub mod pay;
pub mod payments;
pub mod org;
pub mod profile;
pub mod reply;
pub mod signup;
pub mod wallet;
