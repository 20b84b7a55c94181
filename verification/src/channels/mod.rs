use vstd::prelude::*;

use crate::error::RdpError;
use crate::text::{decode_lossy, text_of_bytes};

pub mod cliprdr;

pub mod disp;

pub mod encomsp;

pub mod geometry;

pub mod rail;

pub mod rdpei;

pub mod rdpgfx;

pub mod video;

verus! {

/// The name of the channel with a given number, from the C string that the
/// native side holds for it; the null pointer means that it knows no such
/// channel.
pub fn name_by_id(name: Option<&[u8]>) -> (ret: Result<String, RdpError>)
    ensures
        match name {
            Some(b) => ret matches Ok(s) && s@ == text_of_bytes(b@),
            None => ret matches Err(RdpError::Failed(m)) && m@ == "Unknown channel ID name"@,
        },
{
    match name {
        Some(b) => Ok(decode_lossy(b)),
        None => Err(RdpError::Failed("Unknown channel ID name".to_owned())),
    }
}

} // verus!
