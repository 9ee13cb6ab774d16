//! A minimal paste store: identifiers, secrets, store decisions and request routing.

pub mod text;
pub mod strgen;
pub mod passgen;
pub mod pasteid;
pub mod store;
pub mod dispatch;
