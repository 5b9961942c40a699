//! What can end a capture session with a failure.

use vstd::prelude::*;

verus! {

/// A failure of the capture side: displays and capturers.
#[derive(Clone, Copy, Debug, PartialEq, Eq, Structural)]
pub enum CaptureError {
    /// The operating system could not enumerate the displays.
    DisplayQuery,
    /// The enumeration came back empty.
    NoDisplays,
    /// The standard capturer could not be constructed.
    CreateCapturer,
    /// The privacy capturer could not be constructed.
    CreateMagnifier,
    /// Excluding the overlay window failed outright.
    ExcludeWindow,
    /// The overlay window could not be excluded within the retry period.
    ExcludeTimedOut,
    /// Capturing a frame failed, and the displays had not changed.
    Capture,
    /// The platform's magnifier could not be released.
    ReleaseMagnifier,
}

/// A failure of the encoder.
#[derive(Clone, Copy, Debug, PartialEq, Eq, Structural)]
pub enum EncodeError {
    /// The bitrate for the display does not fit the encoder's field.
    Bitrate,
    /// The encoder could not be constructed.
    Create,
    /// Encoding a frame failed.
    Encode,
    /// Flushing the encoder failed.
    Flush,
}

impl CaptureError {
    /// The failure in words.
    pub open spec fn spec_message(self) -> Seq<char> {
        match self {
            CaptureError::DisplayQuery => "Failed to query displays"@,
            CaptureError::NoDisplays => "No displays"@,
            CaptureError::CreateCapturer => "Failed to create capturer"@,
            CaptureError::CreateMagnifier => "Failed to create magnifier capture"@,
            CaptureError::ExcludeWindow => "Failed to exclude privacy window, err"@,
            CaptureError::ExcludeTimedOut => "Failed to exclude privacy window"@,
            CaptureError::Capture => "Failed to capture frame"@,
            CaptureError::ReleaseMagnifier => "Failed to uninitialize magnifier capturer"@,
        }
    }

    /// The failure in words.
    pub fn message(&self) -> (s: &'static str)
        ensures
            s@ == self.spec_message(),
    {
        match self {
            CaptureError::DisplayQuery => "Failed to query displays",
            CaptureError::NoDisplays => "No displays",
            CaptureError::CreateCapturer => "Failed to create capturer",
            CaptureError::CreateMagnifier => "Failed to create magnifier capture",
            CaptureError::ExcludeWindow => "Failed to exclude privacy window, err",
            CaptureError::ExcludeTimedOut => "Failed to exclude privacy window",
            CaptureError::Capture => "Failed to capture frame",
            CaptureError::ReleaseMagnifier => "Failed to uninitialize magnifier capturer",
        }
    }
}

impl EncodeError {
    /// The failure in words.
    pub open spec fn spec_message(self) -> Seq<char> {
        match self {
            EncodeError::Bitrate => "Bitrate out of range"@,
            EncodeError::Create => "Failed to create encoder"@,
            EncodeError::Encode => "Failed to encode"@,
            EncodeError::Flush => "Failed to flush"@,
        }
    }

    /// The failure in words.
    pub fn message(&self) -> (s: &'static str)
        ensures
            s@ == self.spec_message(),
    {
        match self {
            EncodeError::Bitrate => "Bitrate out of range",
            EncodeError::Create => "Failed to create encoder",
            EncodeError::Encode => "Failed to encode",
            EncodeError::Flush => "Failed to flush",
        }
    }
}

} // verus!
