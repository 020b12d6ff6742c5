use vstd::prelude::*;

use crate::error::PlatformError;

verus! {

/// The current size of a window's client area. It is queried from the
/// window system right before every present and never cached across frames,
/// because the window may be resized between queries.
#[derive(Clone, Copy, Debug, PartialEq, Eq, Structural)]
pub struct WindowDimension {
    pub width: i32,
    pub height: i32,
}

/// Derives a client-area size from the rectangle the window system reports:
/// width is `right - left`, height is `bottom - top`. Fails with
/// [`PlatformError::DimensionQueryError`] exactly when the rectangle is
/// inverted or its extent does not fit a signed 32-bit value; a caller
/// treats that as fatal, as it would a failed rectangle query itself.
pub fn dimension_from_rect(left: i32, top: i32, right: i32, bottom: i32) -> (result: Result<
    WindowDimension,
    PlatformError,
>)
    ensures
        result is Ok <==> (left <= right && right - left <= i32::MAX && top <= bottom && bottom
            - top <= i32::MAX),
        match result {
            Ok(d) => d.width == right - left && d.height == bottom - top,
            Err(e) => e == PlatformError::DimensionQueryError,
        },
{
    let width = match right.checked_sub(left) {
        Some(w) => w,
        None => {
            return Err(PlatformError::DimensionQueryError);
        },
    };
    let height = match bottom.checked_sub(top) {
        Some(h) => h,
        None => {
            return Err(PlatformError::DimensionQueryError);
        },
    };
    if width < 0 || height < 0 {
        return Err(PlatformError::DimensionQueryError);
    }
    Ok(WindowDimension { width, height })
}

} // verus!
