use vstd::prelude::*;

use crate::convention::{is_outcome, outcome};
use crate::error::RdpError;
use crate::native::NativeRef;

verus! {

/// The palette of a drawing surface.
#[derive(Debug)]
pub struct GdiPalette {
    inner: NativeRef,
}

impl GdiPalette {
    /// The address of the native object.
    pub closed spec fn spec_as_ptr(&self) -> usize {
        self.inner.spec_addr()
    }

    /// Wraps the native object at `palette`.
    pub fn new(palette: usize) -> (ret: GdiPalette)
        requires
            palette != 0,
        ensures
            ret.spec_as_ptr() == palette,
    {
        GdiPalette { inner: NativeRef::new_unchecked(palette) }
    }

    #[verifier::when_used_as_spec(spec_as_ptr)]
    pub fn as_ptr(&self) -> (ret: usize)
        ensures
            ret == self.spec_as_ptr(),
            ret != 0,
    {
        self.inner.addr()
    }
}

/// A rectangular region of a drawing surface.
#[derive(Debug)]
pub struct GdiRgn {
    inner: NativeRef,
}

impl GdiRgn {
    /// The address of the native object.
    pub closed spec fn spec_as_ptr(&self) -> usize {
        self.inner.spec_addr()
    }

    /// Wraps the native object at `rgn`.
    pub fn new(rgn: usize) -> (ret: GdiRgn)
        requires
            rgn != 0,
        ensures
            ret.spec_as_ptr() == rgn,
    {
        GdiRgn { inner: NativeRef::new_unchecked(rgn) }
    }

    #[verifier::when_used_as_spec(spec_as_ptr)]
    pub fn as_ptr(&self) -> (ret: usize)
        ensures
            ret == self.spec_as_ptr(),
            ret != 0,
    {
        self.inner.addr()
    }

    /// The native flag for "this region is empty".
    pub fn set_null(&mut self, null: bool) -> (ret: i32)
        ensures
            ret == if null {
                1i32
            } else {
                0i32
            },
    {
        if null {
            1
        } else {
            0
        }
    }

    /// Reads the native flag for "this region is empty".
    pub fn null(&self, flag: i32) -> (ret: bool)
        ensures
            ret == (flag != 0),
    {
        flag != 0
    }
}

/// A window of the drawing layer.
#[derive(Debug)]
pub struct GdiWnd {
    inner: NativeRef,
}

impl GdiWnd {
    /// The address of the native object.
    pub closed spec fn spec_as_ptr(&self) -> usize {
        self.inner.spec_addr()
    }

    /// Wraps the native object at `wnd`.
    pub fn new(wnd: usize) -> (ret: GdiWnd)
        requires
            wnd != 0,
        ensures
            ret.spec_as_ptr() == wnd,
    {
        GdiWnd { inner: NativeRef::new_unchecked(wnd) }
    }

    #[verifier::when_used_as_spec(spec_as_ptr)]
    pub fn as_ptr(&self) -> (ret: usize)
        ensures
            ret == self.spec_as_ptr(),
            ret != 0,
    {
        self.inner.addr()
    }

    /// The region of the window that is to be drawn again.
    pub fn invalid(&mut self, invalid: usize) -> (ret: GdiRgn)
        requires
            invalid != 0,
        ensures
            ret.spec_as_ptr() == invalid,
    {
        GdiRgn::new(invalid)
    }
}

/// A device context of the drawing layer.
#[derive(Debug)]
pub struct GdiDC {
    inner: NativeRef,
}

impl GdiDC {
    /// The address of the native object.
    pub closed spec fn spec_as_ptr(&self) -> usize {
        self.inner.spec_addr()
    }

    /// Wraps the native object at `dc`.
    pub fn new(dc: usize) -> (ret: GdiDC)
        requires
            dc != 0,
        ensures
            ret.spec_as_ptr() == dc,
    {
        GdiDC { inner: NativeRef::new_unchecked(dc) }
    }

    #[verifier::when_used_as_spec(spec_as_ptr)]
    pub fn as_ptr(&self) -> (ret: usize)
        ensures
            ret == self.spec_as_ptr(),
            ret != 0,
    {
        self.inner.addr()
    }

    /// The window that the device context draws into.
    pub fn hwnd(&mut self, hwnd: usize) -> (ret: GdiWnd)
        requires
            hwnd != 0,
        ensures
            ret.spec_as_ptr() == hwnd,
    {
        GdiWnd::new(hwnd)
    }
}

/// A bitmap of the drawing layer.
#[derive(Debug)]
pub struct GdiBitmap {
    inner: NativeRef,
}

impl GdiBitmap {
    /// The address of the native object.
    pub closed spec fn spec_as_ptr(&self) -> usize {
        self.inner.spec_addr()
    }

    /// Wraps the native object at `bitmap`.
    pub fn new(bitmap: usize) -> (ret: GdiBitmap)
        requires
            bitmap != 0,
        ensures
            ret.spec_as_ptr() == bitmap,
    {
        GdiBitmap { inner: NativeRef::new_unchecked(bitmap) }
    }

    #[verifier::when_used_as_spec(spec_as_ptr)]
    pub fn as_ptr(&self) -> (ret: usize)
        ensures
            ret == self.spec_as_ptr(),
            ret != 0,
    {
        self.inner.addr()
    }

    /// The device context of the bitmap.
    pub fn hdc(&mut self, hdc: usize) -> (ret: GdiDC)
        requires
            hdc != 0,
        ensures
            ret.spec_as_ptr() == hdc,
    {
        GdiDC::new(hdc)
    }
}

/// The drawing layer of a session.
#[derive(Debug)]
pub struct Gdi {
    inner: NativeRef,
    palette: GdiPalette,
}

impl Gdi {
    /// The address of the native object.
    pub closed spec fn spec_as_ptr(&self) -> usize {
        self.inner.spec_addr()
    }

    pub closed spec fn spec_palette(&self) -> GdiPalette {
        self.palette
    }

    /// Wraps the native drawing layer at `gdi`, whose palette lies at
    /// `palette`.
    pub fn new(gdi: usize, palette: usize) -> (ret: Gdi)
        requires
            gdi != 0,
            palette != 0,
        ensures
            ret.spec_as_ptr() == gdi,
            ret.spec_palette().spec_as_ptr() == palette,
    {
        Gdi { inner: NativeRef::new_unchecked(gdi), palette: GdiPalette::new(palette) }
    }

    #[verifier::when_used_as_spec(spec_as_ptr)]
    pub fn as_ptr(&self) -> (ret: usize)
        ensures
            ret == self.spec_as_ptr(),
            ret != 0,
    {
        self.inner.addr()
    }

    /// The primary bitmap, if there is one.
    pub fn primary(&self, primary: usize) -> (ret: Option<GdiBitmap>)
        ensures
            primary == 0 <==> ret is None,
            ret matches Some(b) ==> b.spec_as_ptr() == primary,
    {
        if primary == 0 {
            None
        } else {
            Some(GdiBitmap::new(primary))
        }
    }

    /// The length in bytes of the primary buffer: its rows times the length
    /// of a row.
    pub fn primary_buffer_len(stride: u32, height: i32) -> (ret: usize)
        requires
            height >= 0,
            stride * height <= u32::MAX,
        ensures
            ret == stride * height,
    {
        let rows: u32 = height as u32;
        assert(stride * rows <= u32::MAX);
        (stride * rows) as usize
    }

    /// The width of the surface, unless the native side holds a negative
    /// number for it.
    pub fn width(&self, width: i32) -> (ret: Option<u32>)
        ensures
            width >= 0 <==> ret is Some,
            ret matches Some(w) ==> w == width,
    {
        if width >= 0 {
            Some(width as u32)
        } else {
            None
        }
    }

    /// The height of the surface, unless the native side holds a negative
    /// number for it.
    pub fn height(&self, height: i32) -> (ret: Option<u32>)
        ensures
            height >= 0 <==> ret is Some,
            ret matches Some(h) ==> h == height,
    {
        if height >= 0 {
            Some(height as u32)
        } else {
            None
        }
    }

    /// Reads what the native resize returned: non-zero is success.
    pub fn resize(&mut self, success: i32) -> (ret: Result<(), RdpError>)
        ensures
            is_outcome(ret, success != 0, "gdi_resize() failed"@),
    {
        outcome(success != 0, "gdi_resize() failed")
    }

    pub fn palette(&self) -> (ret: &GdiPalette)
        ensures
            *ret == self.spec_palette(),
    {
        &self.palette
    }
}

/// Reads what the set-up of the graphics pipeline returned: non-zero is
/// success.
pub fn graphics_pipeline_init(success: i32) -> (ret: Result<(), RdpError>)
    ensures
        is_outcome(ret, success != 0, "gdi_graphics_pipeline_init() failed"@),
{
    outcome(success != 0, "gdi_graphics_pipeline_init() failed")
}

} // verus!
