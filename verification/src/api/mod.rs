//! The decisions behind the REST API: what each endpoint does to the store
//! and what it answers. The HTTP routing itself lives in the server binary.

pub mod rooms;
