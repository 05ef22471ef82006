//! A REST gateway over a cadastral land-registry database, as a verified library.
//!
//! The library holds the decisions of the service: how result rows become records
//! (`row`, `mapping`), which statements a table's create, update, delete and list run
//! (`sql`, `tables`, `crud`), how the ownership-sheet, parcel and proceeding lookups
//! assemble their answers (`lookup`), and which requests pass the session check and how a
//! login opens a session (`gate`, `session`, `auth`). The HTTP server and the store
//! connection stand outside it.

pub mod auth;
pub mod crud;
pub mod gate;
pub mod lookup;
pub mod mapping;
pub mod models;
pub mod row;
pub mod session;
pub mod sql;
pub mod tables;
pub mod values;
