//! Typed, ownership-checked building blocks for a FreeRDP client binding:
//! the value types, code tables, marshalling rules and life-cycle state
//! machines that sit between a native RDP stack and safe application code.
//! Everything here is plain data and pure decisions; the pointer work itself
//! belongs to the embedding layer.

pub mod connection_type;
pub use connection_type::ConnectionType;

pub mod error;
pub use error::{RdpCode, RdpCodeClass, RdpErr, RdpErrBase, RdpErrConnect, RdpErrInfo, RdpError};

pub mod convention;
pub mod freerdp;
pub use freerdp::FreeRdp;

pub mod gdi;

pub mod graphics;

pub mod input;

pub mod locale;

pub mod native;

pub mod pixel_format;
pub use pixel_format::{PixelFormat, PixelFormatType};
pub mod settings;
pub use settings::Settings;

pub mod text;

pub mod update;

mod bits;

pub mod channels;
pub mod client;
pub mod winpr;
