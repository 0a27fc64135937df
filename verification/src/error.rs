//! The failures of the platform and of operations on windows.

use vstd::prelude::*;

verus! {

/// One of the texts that describe the application to the platform.
#[derive(Debug, Clone, Copy, PartialEq, Eq, Structural)]
pub enum MetadataField {
    Name,
    Version,
    Identifier,
    Creator,
    Copyright,
    Url,
    AppType,
}

/// Why an operation on the platform or on a window failed.
#[derive(Debug, Clone, Copy, PartialEq, Eq, Structural)]
pub enum SdlError {
    /// The window is closed, or not open yet: the operation was not
    /// tried.
    ClosedWindow,
    /// The title holds a NUL character, which the platform cannot take.
    InvalidTitle,
    /// The platform did not create the window.
    CreateWindow,
    /// The platform did not show the window.
    ShowWindow,
    /// The platform did not hide the window.
    HideWindow,
    /// The platform did not tell the window's size.
    GetWindowSize,
    /// The platform did not set the window's size.
    SetWindowSize,
    /// The platform did not set the window's title.
    SetWindowTitle,
    /// The platform did not create the view to draw on.
    CreateView,
    /// The platform gave no handle of the window.
    MissingWindowHandle,
    /// The platform gave no handle of the module that owns the window.
    MissingInstanceHandle,
    /// Windows are not supported on this operating system.
    UnsupportedPlatform,
    /// The platform's reply does not answer what it was asked.
    UnexpectedReply,
    /// The platform did not start.
    Initialize,
    /// A text of the application's description holds a NUL character.
    InvalidMetadata(MetadataField),
    /// The platform did not take a text of the application's description.
    SetMetadata(MetadataField),
}

impl SdlError {
    /// Whether the error says that the window was not open, which the
    /// caller may choose to ignore.
    pub fn is_closed_resource(&self) -> (closed: bool)
        ensures
            closed == (*self == SdlError::ClosedWindow),
    {
        match self {
            SdlError::ClosedWindow => true,
            _ => false,
        }
    }

    /// The error in words.
    pub open spec fn message_spec(self) -> Seq<char> {
        match self {
            SdlError::ClosedWindow => "try to operate a closed window"@,
            SdlError::InvalidTitle => "invalid title string"@,
            SdlError::CreateWindow => "failed to create window"@,
            SdlError::ShowWindow => "failed to show window"@,
            SdlError::HideWindow => "failed to hide window"@,
            SdlError::GetWindowSize => "failed to get window size"@,
            SdlError::SetWindowSize => "failed to set window size"@,
            SdlError::SetWindowTitle => "failed to set window title"@,
            SdlError::CreateView => "failed to create NSView"@,
            SdlError::MissingWindowHandle => "missing window handle:hwnd"@,
            SdlError::MissingInstanceHandle => "missing window handle:hinstance"@,
            SdlError::UnsupportedPlatform => "windows are not supported on this platform"@,
            SdlError::UnexpectedReply => "the platform's reply does not answer the call"@,
            SdlError::Initialize => "failed to initialize sdl system"@,
            SdlError::InvalidMetadata(_) => "invalid app metadata string"@,
            SdlError::SetMetadata(field) => match field {
                MetadataField::Name => "failed to set app metadata - name"@,
                MetadataField::Version => "failed to set app metadata - version"@,
                MetadataField::Identifier => "failed to set app metadata - identifier"@,
                MetadataField::Creator => "failed to set app metadata - creator"@,
                MetadataField::Copyright => "failed to set app metadata - copyright"@,
                MetadataField::Url => "failed to set app metadata - url"@,
                MetadataField::AppType => "failed to set app metadata - app_type"@,
            },
        }
    }

    /// The error in words.
    pub fn message(&self) -> (text: &'static str)
        ensures
            text@ == self.message_spec(),
    {
        match self {
            SdlError::ClosedWindow => "try to operate a closed window",
            SdlError::InvalidTitle => "invalid title string",
            SdlError::CreateWindow => "failed to create window",
            SdlError::ShowWindow => "failed to show window",
            SdlError::HideWindow => "failed to hide window",
            SdlError::GetWindowSize => "failed to get window size",
            SdlError::SetWindowSize => "failed to set window size",
            SdlError::SetWindowTitle => "failed to set window title",
            SdlError::CreateView => "failed to create NSView",
            SdlError::MissingWindowHandle => "missing window handle:hwnd",
            SdlError::MissingInstanceHandle => "missing window handle:hinstance",
            SdlError::UnsupportedPlatform => "windows are not supported on this platform",
            SdlError::UnexpectedReply => "the platform's reply does not answer the call",
            SdlError::Initialize => "failed to initialize sdl system",
            SdlError::InvalidMetadata(_) => "invalid app metadata string",
            SdlError::SetMetadata(field) => match field {
                MetadataField::Name => "failed to set app metadata - name",
                MetadataField::Version => "failed to set app metadata - version",
                MetadataField::Identifier => "failed to set app metadata - identifier",
                MetadataField::Creator => "failed to set app metadata - creator",
                MetadataField::Copyright => "failed to set app metadata - copyright",
                MetadataField::Url => "failed to set app metadata - url",
                MetadataField::AppType => "failed to set app metadata - app_type",
            },
        }
    }
}

/// Whether the text holds a NUL character. Such a text cannot be handed
/// to the platform, which ends a text at the first NUL.
pub open spec fn has_nul_spec(text: Seq<char>) -> bool {
    exists|i: int| 0 <= i < text.len() && text[i] == '\0'
}

/// Whether the text holds a NUL character.
pub fn has_nul(text: &str) -> (found: bool)
    ensures
        found == has_nul_spec(text@),
{
    let n = text.unicode_len();
    let mut i: usize = 0;
    while i < n
        invariant
            i <= n,
            n == text@.len(),
            forall|j: int| 0 <= j < i ==> text@[j] != '\0',
        decreases n - i,
    {
        if text.get_char(i) == '\0' {
            return true;
        }
        i += 1;
    }
    false
}

} // verus!
