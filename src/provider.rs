use vstd::prelude::*;

use crate::catalog::Backend;
use crate::error::OcrError;

verus! {

/// Connection data of a remote recognition service.
#[derive(Clone, Debug)]
pub struct Credentials {
    pub api_url: String,
    pub api_key: String,
    pub timeout_ms: u64,
}

impl Default for Credentials {
    /// A service on the local machine, without a key, with a five second
    /// deadline.
    fn default() -> (r: Self)
        ensures
            r.api_url@ == "http://localhost:8000/ocr"@,
            r.api_key@ == ""@,
            r.timeout_ms == 5000,
    {
        Credentials {
            api_url: "http://localhost:8000/ocr".to_owned(),
            api_key: "".to_owned(),
            timeout_ms: 5000,
        }
    }
}

/// Which backend a caller asks for.
#[derive(Clone, Debug)]
pub enum OcrProvider {
    /// The best backend that the platform has.
    Auto,
    /// The vision framework of macOS.
    MacOS,
    /// The text recognition service of Windows.
    Windows,
    /// The local open-source engine.
    Tesseract,
    /// A remote HTTP service.
    Custom { credentials: Credentials },
}

/// The native backends that the running platform offers. The local engine
/// is available everywhere and the remote service needs no platform support.
#[derive(Clone, Copy, Debug, PartialEq, Eq, Structural)]
pub struct Capabilities {
    pub vision: bool,
    pub windows_media: bool,
}

/// The backend that `p` resolves to on a platform with `caps`.
pub open spec fn resolved(p: OcrProvider, caps: Capabilities) -> Result<Backend, OcrError> {
    match p {
        OcrProvider::Auto => if caps.vision {
            Ok(Backend::Vision)
        } else if caps.windows_media {
            Ok(Backend::WindowsMedia)
        } else {
            Ok(Backend::Tesseract)
        },
        OcrProvider::MacOS => if caps.vision {
            Ok(Backend::Vision)
        } else {
            Err(OcrError::UnsupportedPlatform)
        },
        OcrProvider::Windows => if caps.windows_media {
            Ok(Backend::WindowsMedia)
        } else {
            Err(OcrError::UnsupportedPlatform)
        },
        OcrProvider::Tesseract => Ok(Backend::Tesseract),
        OcrProvider::Custom { credentials } => if credentials.api_url@.len() > 0 {
            Ok(Backend::Remote)
        } else {
            Err(OcrError::BackendUnavailable)
        },
    }
}

/// Resolves a provider choice to a concrete backend. `Auto` prefers the
/// vision framework, then the operating system's service, then the local
/// engine; an explicit native backend that the platform lacks is an error,
/// never a silent fallback.
pub fn resolve(provider: &OcrProvider, caps: Capabilities) -> (r: Result<Backend, OcrError>)
    ensures
        r == resolved(*provider, caps),
{
    match provider {
        OcrProvider::Auto => if caps.vision {
            Ok(Backend::Vision)
        } else if caps.windows_media {
            Ok(Backend::WindowsMedia)
        } else {
            Ok(Backend::Tesseract)
        },
        OcrProvider::MacOS => if caps.vision {
            Ok(Backend::Vision)
        } else {
            Err(OcrError::UnsupportedPlatform)
        },
        OcrProvider::Windows => if caps.windows_media {
            Ok(Backend::WindowsMedia)
        } else {
            Err(OcrError::UnsupportedPlatform)
        },
        OcrProvider::Tesseract => Ok(Backend::Tesseract),
        OcrProvider::Custom { credentials } => if !credentials.api_url.as_str().is_empty() {
            Ok(Backend::Remote)
        } else {
            Err(OcrError::BackendUnavailable)
        },
    }
}

} // verus!
