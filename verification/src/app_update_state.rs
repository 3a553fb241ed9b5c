//! The in-app update: checking the release feed, downloading the APK, and
//! the line that says where things stand.
use crate::agent_timeline::opt_view;
use crate::text::owned;
use vstd::prelude::*;

verus! {

broadcast use vstd::string::group_string_axioms;

/// The smallest download that can be an APK, in bytes.
pub const MIN_APK_BYTES: usize = 100000;

/// A newer release that the feed offers.
#[derive(Clone, Debug, PartialEq, Eq)]
pub struct AppUpdateOffer {
    pub current_version: String,
    pub latest_version: String,
    pub apk_download_url: Option<String>,
}

/// Where the update stands.
#[derive(Clone, Debug, PartialEq, Eq)]
pub enum AppUpdateUiPhase {
    Idle,
    Checking,
    UpToDate,
    UpdateAvailable(AppUpdateOffer),
    Downloading,
    Downloaded { path: String, version: String },
    Error(String),
}

/// The update screen.
#[derive(Clone, Debug)]
pub struct AppUpdateUiState {
    pub phase: AppUpdateUiPhase,
}

impl Default for AppUpdateUiState {
    fn default() -> (r: Self)
        ensures
            r.phase == AppUpdateUiPhase::Idle,
    {
        AppUpdateUiState { phase: AppUpdateUiPhase::Idle }
    }
}

/// The status line of a phase, for the app at `current_version`.
pub open spec fn status_line_text(p: AppUpdateUiPhase, current_version: Seq<char>) -> Seq<char> {
    match p {
        AppUpdateUiPhase::Idle => "Version "@ + current_version,
        AppUpdateUiPhase::Checking => "Checking GitHub for updates…"@,
        AppUpdateUiPhase::UpToDate => "Version "@ + current_version + " is up to date"@,
        AppUpdateUiPhase::UpdateAvailable(o) => "Update available: "@ + o.current_version@ + " → "@
            + o.latest_version@,
        AppUpdateUiPhase::Downloading => "Downloading update APK…"@,
        AppUpdateUiPhase::Downloaded { version, .. } => "Downloaded v"@ + version@ + ". Tap Install update."@,
        AppUpdateUiPhase::Error(m) => "Update error: "@ + m@,
    }
}

/// The error when there is nothing to download.
pub open spec fn nothing_to_download() -> Seq<char> {
    "No update is available to download"@
}

/// The error when the release has no APK.
pub open spec fn no_apk_asset() -> Seq<char> {
    "Release has no APK asset URL"@
}

impl AppUpdateUiState {
    /// The status line, for the app at `current_version`.
    pub fn status_line(&self, current_version: &str) -> (r: String)
        ensures
            r@ == status_line_text(self.phase, current_version@),
    {
        match &self.phase {
            AppUpdateUiPhase::Idle => crate::text::concat("Version ", current_version),
            AppUpdateUiPhase::Checking => owned("Checking GitHub for updates…"),
            AppUpdateUiPhase::UpToDate => {
                let mut s = crate::text::concat("Version ", current_version);
                s.append(" is up to date");
                s
            },
            AppUpdateUiPhase::UpdateAvailable(offer) => {
                let mut s = crate::text::concat("Update available: ", offer.current_version.as_str());
                s.append(" → ");
                s.append(offer.latest_version.as_str());
                s
            },
            AppUpdateUiPhase::Downloading => owned("Downloading update APK…"),
            AppUpdateUiPhase::Downloaded { version, .. } => {
                let mut s = crate::text::concat("Downloaded v", version.as_str());
                s.append(". Tap Install update.");
                s
            },
            AppUpdateUiPhase::Error(message) => crate::text::concat("Update error: ", message.as_str()),
        }
    }

    /// A check has started.
    pub fn begin_check(&mut self)
        ensures
            final(self).phase == AppUpdateUiPhase::Checking,
    {
        self.phase = AppUpdateUiPhase::Checking;
    }

    /// The check found an offer, or none.
    pub fn apply_check_result(&mut self, offer: Option<AppUpdateOffer>)
        ensures
            final(self).phase == match offer {
                Some(o) => AppUpdateUiPhase::UpdateAvailable(o),
                None => AppUpdateUiPhase::UpToDate,
            },
    {
        self.phase = match offer {
            Some(o) => AppUpdateUiPhase::UpdateAvailable(o),
            None => AppUpdateUiPhase::UpToDate,
        };
    }

    /// Shows an error.
    pub fn set_error(&mut self, message: &str)
        ensures
            final(self).phase matches AppUpdateUiPhase::Error(m) && m@ == message@,
    {
        self.phase = AppUpdateUiPhase::Error(owned(message));
    }

    /// A download has started.
    pub fn begin_download(&mut self)
        ensures
            final(self).phase == AppUpdateUiPhase::Downloading,
    {
        self.phase = AppUpdateUiPhase::Downloading;
    }

    /// The APK of `version` was written to `path`.
    pub fn apply_downloaded(&mut self, path: String, version: String)
        ensures
            final(self).phase == (AppUpdateUiPhase::Downloaded { path, version }),
    {
        self.phase = AppUpdateUiPhase::Downloaded { path, version };
    }

    /// Where the downloaded APK is, once there is one.
    pub fn downloaded_apk_path(&self) -> (r: Option<String>)
        ensures
            opt_view(r) == match self.phase {
                AppUpdateUiPhase::Downloaded { path, .. } => Some(path@),
                _ => None,
            },
    {
        match &self.phase {
            AppUpdateUiPhase::Downloaded { path, .. } => Some(path.clone()),
            _ => None,
        }
    }

    /// What to download, before the download starts: the offer's APK URL
    /// and version; an error without an offer or without an APK.
    pub fn download_target(&self) -> (r: Result<(String, String), String>)
        ensures
            match self.phase {
                AppUpdateUiPhase::UpdateAvailable(o) => match o.apk_download_url {
                    Some(url) => r matches Ok((u, v)) && u@ == url@ && v@ == o.latest_version@,
                    None => r matches Err(e) && e@ == no_apk_asset(),
                },
                _ => r matches Err(e) && e@ == nothing_to_download(),
            },
    {
        match &self.phase {
            AppUpdateUiPhase::UpdateAvailable(offer) => match &offer.apk_download_url {
                Some(url) => Ok((url.clone(), offer.latest_version.clone())),
                None => Err(owned("Release has no APK asset URL")),
            },
            _ => Err(owned("No update is available to download")),
        }
    }
}

/// Whether a download of `len` bytes can be an APK; the error says it cannot.
pub fn check_downloaded_size(len: usize) -> (r: Result<(), String>)
    ensures
        len >= MIN_APK_BYTES ==> r is Ok,
        len < MIN_APK_BYTES ==> (r matches Err(e) && e@ == "Downloaded file is too small to be a valid APK"@),
{
    if len < MIN_APK_BYTES {
        Err(owned("Downloaded file is too small to be a valid APK"))
    } else {
        Ok(())
    }
}

} // verus!
