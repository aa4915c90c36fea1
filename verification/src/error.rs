//! The failures that a session or a workflow can end in.

use vstd::prelude::*;

verus! {

/// Why a download did not produce a usable file.
#[derive(Debug, PartialEq, Eq)]
pub enum DownloadFailureReason {
    /// The downloaded file was expected at `location` and is not there.
    FileNotFound { location: String },
    /// The transfer from `url` failed.
    Network { url: String, detail: String },
}

/// Mathematical model of a [`DownloadFailureReason`].
pub enum DownloadFailureReasonView {
    FileNotFound { location: Seq<char> },
    Network { url: Seq<char>, detail: Seq<char> },
}

impl View for DownloadFailureReason {
    type V = DownloadFailureReasonView;

    open spec fn view(&self) -> DownloadFailureReasonView {
        match *self {
            DownloadFailureReason::FileNotFound { location } => DownloadFailureReasonView::FileNotFound {
                location: location@,
            },
            DownloadFailureReason::Network { url, detail } => DownloadFailureReasonView::Network {
                url: url@,
                detail: detail@,
            },
        }
    }
}

impl Clone for DownloadFailureReason {
    fn clone(&self) -> (copy: Self)
        ensures
            copy == *self,
    {
        match self {
            DownloadFailureReason::FileNotFound { location } => DownloadFailureReason::FileNotFound {
                location: location.clone(),
            },
            DownloadFailureReason::Network { url, detail } => DownloadFailureReason::Network {
                url: url.clone(),
                detail: detail.clone(),
            },
        }
    }
}

/// A failure of the session or of one of its workflows.
#[derive(Debug, PartialEq, Eq)]
pub enum BeansError {
    /// The installation root could not be found.
    SourceModLocationNotFound,
    /// The remote manifest could not be fetched from `url`.
    ManifestFetchFailure { url: String, detail: String },
    /// The remote manifest does not have the expected shape.
    ManifestParseFailure { detail: String },
    /// The remote manifest lists no version, so there is no latest one.
    EmptyManifest,
    /// The remote manifest has no record of version `version`, which is the
    /// installed one.
    RemoteVersionNotFound { version: usize },
    /// A version marker holds `content`, which is no version identifier.
    VersionMarkerCorrupt { content: String },
    /// A package or patch could not be downloaded.
    DownloadFailure { reason: DownloadFailureReason },
    /// The file at `location` could not be opened.
    FileOpenFailure { location: String, detail: String },
    /// The file at `location` could not be written.
    FileWriteFailure { location: String, detail: String },
    /// The permissions of the file at `location` could not be set.
    PermissionFailure { location: String, detail: String },
    /// The patch engine failed while verifying or applying.
    PatchEngineFailure { detail: String },
}

/// Mathematical model of a [`BeansError`].
pub enum BeansErrorView {
    SourceModLocationNotFound,
    ManifestFetchFailure { url: Seq<char>, detail: Seq<char> },
    ManifestParseFailure { detail: Seq<char> },
    EmptyManifest,
    RemoteVersionNotFound { version: usize },
    VersionMarkerCorrupt { content: Seq<char> },
    DownloadFailure { reason: DownloadFailureReasonView },
    FileOpenFailure { location: Seq<char>, detail: Seq<char> },
    FileWriteFailure { location: Seq<char>, detail: Seq<char> },
    PermissionFailure { location: Seq<char>, detail: Seq<char> },
    PatchEngineFailure { detail: Seq<char> },
}

impl View for BeansError {
    type V = BeansErrorView;

    open spec fn view(&self) -> BeansErrorView {
        match *self {
            BeansError::SourceModLocationNotFound => BeansErrorView::SourceModLocationNotFound,
            BeansError::ManifestFetchFailure { url, detail } => BeansErrorView::ManifestFetchFailure {
                url: url@,
                detail: detail@,
            },
            BeansError::ManifestParseFailure { detail } => BeansErrorView::ManifestParseFailure {
                detail: detail@,
            },
            BeansError::EmptyManifest => BeansErrorView::EmptyManifest,
            BeansError::RemoteVersionNotFound { version } => BeansErrorView::RemoteVersionNotFound {
                version,
            },
            BeansError::VersionMarkerCorrupt { content } => BeansErrorView::VersionMarkerCorrupt {
                content: content@,
            },
            BeansError::DownloadFailure { reason } => BeansErrorView::DownloadFailure { reason: reason@ },
            BeansError::FileOpenFailure { location, detail } => BeansErrorView::FileOpenFailure {
                location: location@,
                detail: detail@,
            },
            BeansError::FileWriteFailure { location, detail } => BeansErrorView::FileWriteFailure {
                location: location@,
                detail: detail@,
            },
            BeansError::PermissionFailure { location, detail } => BeansErrorView::PermissionFailure {
                location: location@,
                detail: detail@,
            },
            BeansError::PatchEngineFailure { detail } => BeansErrorView::PatchEngineFailure {
                detail: detail@,
            },
        }
    }
}

impl Clone for BeansError {
    fn clone(&self) -> (copy: Self)
        ensures
            copy == *self,
    {
        match self {
            BeansError::SourceModLocationNotFound => BeansError::SourceModLocationNotFound,
            BeansError::ManifestFetchFailure { url, detail } => BeansError::ManifestFetchFailure {
                url: url.clone(),
                detail: detail.clone(),
            },
            BeansError::ManifestParseFailure { detail } => BeansError::ManifestParseFailure {
                detail: detail.clone(),
            },
            BeansError::EmptyManifest => BeansError::EmptyManifest,
            BeansError::RemoteVersionNotFound { version } => BeansError::RemoteVersionNotFound {
                version: *version,
            },
            BeansError::VersionMarkerCorrupt { content } => BeansError::VersionMarkerCorrupt {
                content: content.clone(),
            },
            BeansError::DownloadFailure { reason } => BeansError::DownloadFailure {
                reason: reason.clone(),
            },
            BeansError::FileOpenFailure { location, detail } => BeansError::FileOpenFailure {
                location: location.clone(),
                detail: detail.clone(),
            },
            BeansError::FileWriteFailure { location, detail } => BeansError::FileWriteFailure {
                location: location.clone(),
                detail: detail.clone(),
            },
            BeansError::PermissionFailure { location, detail } => BeansError::PermissionFailure {
                location: location.clone(),
                detail: detail.clone(),
            },
            BeansError::PatchEngineFailure { detail } => BeansError::PatchEngineFailure {
                detail: detail.clone(),
            },
        }
    }
}

} // verus!
