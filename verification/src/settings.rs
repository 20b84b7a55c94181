use vstd::prelude::*;

use crate::connection_type::ConnectionType;
use crate::convention::{is_outcome, outcome};
use crate::error::RdpError;
use crate::locale::KeyboardLayout;
use crate::native::NativeRef;

verus! {

/// The settings of a session, on the native side. `owned` says whether this
/// value is to free them.
#[derive(Debug)]
pub struct Settings {
    inner: NativeRef,
    owned: bool,
}

impl Settings {
    /// The address of the native settings.
    pub closed spec fn spec_as_ptr(&self) -> usize {
        self.inner.spec_addr()
    }

    pub closed spec fn spec_owned(&self) -> bool {
        self.owned
    }

    /// Wraps the native settings at `settings`.
    pub fn new(owned: bool, settings: usize) -> (ret: Settings)
        requires
            settings != 0,
        ensures
            ret.spec_as_ptr() == settings,
            ret.spec_owned() == owned,
    {
        Settings { inner: NativeRef::new_unchecked(settings), owned }
    }

    #[verifier::when_used_as_spec(spec_as_ptr)]
    pub fn as_ptr(&self) -> (ret: usize)
        ensures
            ret == self.spec_as_ptr(),
            ret != 0,
    {
        self.inner.addr()
    }

    /// Whether the native settings are to be freed when this value goes away.
    #[verifier::when_used_as_spec(spec_owned)]
    pub fn owned(&self) -> (ret: bool)
        ensures
            ret == self.spec_owned(),
    {
        self.owned
    }

    /// Reads what the native command-line parser returned: zero is success,
    /// anything else a command line that is not supported.
    pub fn parse_command_line(&mut self, status: i32) -> (ret: Result<(), RdpError>)
        ensures
            status == 0 ==> ret is Ok,
            status != 0 ==> ret == Err::<(), RdpError>(RdpError::Unsupported),
    {
        if status == 0 {
            Ok(())
        } else {
            Err(RdpError::Unsupported)
        }
    }

    /// Reads what setting a text returned: non-zero is success.
    pub fn set_string(&mut self, success: i32) -> (ret: Result<(), RdpError>)
        ensures
            is_outcome(ret, success != 0, "Failed to set setting"@),
    {
        outcome(success != 0, "Failed to set setting")
    }

    /// Reads what setting the connection type returned: non-zero is success.
    pub fn set_connection_type(&mut self, success: i32) -> (ret: Result<(), RdpError>)
        ensures
            is_outcome(ret, success != 0, "Failed to set connection type"@),
    {
        outcome(success != 0, "Failed to set connection type")
    }

    /// The number by which the native side knows a connection type.
    pub fn connection_type_argument(type_: ConnectionType) -> (ret: u32)
        ensures
            ret == type_.code(),
    {
        u32::from(type_)
    }

    /// The keyboard layout that the settings name by `id`.
    pub fn keyboard_layout(&self, id: u32) -> (ret: KeyboardLayout)
        ensures
            ret == KeyboardLayout(id),
    {
        KeyboardLayout(id)
    }
}

} // verus!
