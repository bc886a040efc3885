//! Bandwidth vouchers for anonymous credentials: the attributes of a voucher,
//! the binding of a blind-sign request to a deposit, and what is handed on
//! when a credential is prepared for spending. Beside them stand the text
//! form of the client's requests and responses and the decisions of the
//! SOCKS5 client's set-up.

pub mod attribute;
pub mod config;
pub mod error;
pub mod spending;
pub mod text;
pub mod voucher;
