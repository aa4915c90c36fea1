//! The session context: where the installation lives, what the remote
//! catalog offers and which version is installed.

use crate::butler::{PatchRequest, PatchRequestView, VerifyRequest, VerifyRequestView};
use crate::error::{BeansError, BeansErrorView};
use crate::helper::{join_path, joined_path};
use crate::model::view_of;
use crate::version::{
    loaded, steps_view, InstallationFiles, InstallationFilesView, MigrationStep,
    MigrationStepView, RemotePatch, RemotePatchView, RemoteVersion, RemoteVersionResponse,
    RemoteVersionResponseView, RemoteVersionView,
};
use vstd::prelude::*;
use vstd::string::StringExecFns;

verus! {

/// The values that are fixed for a deployment of the library. They are made
/// once and travel with the session context.
#[derive(Debug, PartialEq, Eq)]
pub struct Configuration {
    /// The remote location that the catalog's relative addresses start from.
    pub base_url: String,
    /// The directory of the installation below the installation root,
    /// beginning and ending with a separator.
    pub data_dir: String,
    /// The directory below the installation root that patches are staged
    /// in, beginning with a separator.
    pub staging_dir: String,
    /// The name, inside the installation, of the configuration file that
    /// belongs to the user and must outlive patching and repair.
    pub config_file: String,
}

/// Mathematical model of a [`Configuration`].
pub struct ConfigurationView {
    pub base_url: Seq<char>,
    pub data_dir: Seq<char>,
    pub staging_dir: Seq<char>,
    pub config_file: Seq<char>,
}

impl View for Configuration {
    type V = ConfigurationView;

    open spec fn view(&self) -> ConfigurationView {
        ConfigurationView {
            base_url: self.base_url@,
            data_dir: self.data_dir@,
            staging_dir: self.staging_dir@,
            config_file: self.config_file@,
        }
    }
}

impl Clone for Configuration {
    fn clone(&self) -> (copy: Self)
        ensures
            copy == *self,
    {
        Configuration {
            base_url: self.base_url.clone(),
            data_dir: self.data_dir.clone(),
            staging_dir: self.staging_dir.clone(),
            config_file: self.config_file.clone(),
        }
    }
}

/// What a session knows: the installation root, the remote catalog as
/// fetched at its start, and the installed version (`None`: not installed,
/// or installed by means that leave no marker).
#[derive(Debug, PartialEq, Eq)]
pub struct RunnerContext {
    pub sourcemod_path: String,
    pub remote_version_list: RemoteVersionResponse,
    pub current_version: Option<usize>,
    pub config: Configuration,
}

/// Mathematical model of a [`RunnerContext`].
pub struct RunnerContextView {
    pub sourcemod_path: Seq<char>,
    pub remote_version_list: RemoteVersionResponseView,
    pub current_version: Option<usize>,
    pub config: ConfigurationView,
}

impl View for RunnerContext {
    type V = RunnerContextView;

    open spec fn view(&self) -> RunnerContextView {
        RunnerContextView {
            sourcemod_path: self.sourcemod_path@,
            remote_version_list: self.remote_version_list@,
            current_version: self.current_version,
            config: self.config@,
        }
    }
}

impl Clone for RunnerContext {
    fn clone(&self) -> (copy: Self)
        ensures
            copy@ == self@,
    {
        RunnerContext {
            sourcemod_path: self.sourcemod_path.clone(),
            remote_version_list: self.remote_version_list.clone(),
            current_version: self.current_version,
            config: self.config.clone(),
        }
    }
}

impl RunnerContextView {
    /// The directory of the installation.
    pub open spec fn mod_location(self) -> Seq<char> {
        crate::version::mod_location(self.sourcemod_path, self.config.data_dir)
    }

    /// The directory that patches are staged in.
    pub open spec fn staging_location(self) -> Seq<char> {
        joined_path(self.sourcemod_path, self.config.staging_dir)
    }

    /// The user's configuration file inside the installation.
    pub open spec fn gameinfo_location(self) -> Seq<char> {
        self.mod_location() + self.config.config_file
    }

    /// The version marker inside the installation.
    pub open spec fn version_location(self) -> Seq<char> {
        crate::version::version_location(self.sourcemod_path, self.config.data_dir)
    }

    /// The catalog's record of the installed version: none where nothing is
    /// installed or where the catalog does not know the installed version.
    pub open spec fn current_remote_version(self) -> Option<RemoteVersionView> {
        match self.current_version {
            Some(current) if self.remote_version_list.versions.contains_key(current) => Some(
                self.remote_version_list.versions[current],
            ),
            _ => None,
        }
    }

    /// The patch from the installed version to the latest one, if the
    /// catalog has it.
    pub open spec fn patch_available(self) -> Option<RemotePatchView> {
        self.remote_version_list.applicable_patch(
            self.current_version,
            self.remote_version_list.latest_id(),
        )
    }

    /// The request that verifies the installation against `record`, the
    /// catalog's record of the installed version. There is none unless the
    /// record gives both a signature address and a heal address.
    pub open spec fn verify_request_for(self, record: RemoteVersionView) -> Option<
        VerifyRequestView,
    > {
        match (record.signature_url, record.heal_url) {
            (Some(signature), Some(heal)) => Some(
                VerifyRequestView {
                    signature_url: self.config.base_url + signature,
                    target_dir: self.mod_location(),
                    heal_url: self.config.base_url + heal,
                },
            ),
            _ => None,
        }
    }

    /// The request that verifies the installation against the installed
    /// version's own record, where the catalog has that record and it
    /// gives both addresses.
    pub open spec fn verify_request(self) -> Option<VerifyRequestView> {
        match self.current_remote_version() {
            Some(record) => self.verify_request_for(record),
            None => None,
        }
    }

    /// The request that downloads and applies `patch`.
    pub open spec fn patch_request(self, patch: RemotePatchView) -> PatchRequestView {
        PatchRequestView {
            patch_url: self.config.base_url + patch.file,
            staging_dir: self.staging_location(),
            patch_file: patch.file,
            target_dir: self.mod_location(),
        }
    }
}

/// The session that starts from what was found: the installation root, if
/// any was found; the catalog as fetched; and the files that tell of the
/// installation. With it comes the migration that the caller has to
/// perform, as steps in order.
///
/// Without an installation root there is no session. The installed version
/// is the one that loading the state of the installation yields.
pub open spec fn session_of(
    sourcemod_path: Option<Seq<char>>,
    remote_version_list: RemoteVersionResponseView,
    config: ConfigurationView,
    files: InstallationFilesView,
) -> Result<(RunnerContextView, Seq<MigrationStepView>), BeansErrorView> {
    match sourcemod_path {
        Some(sourcemod_path) => match loaded(files, sourcemod_path, config.data_dir) {
            Ok((current_version, steps)) => Ok(
                (
                    RunnerContextView {
                        sourcemod_path,
                        remote_version_list,
                        current_version,
                        config,
                    },
                    steps,
                ),
            ),
            Err(error) => Err(error),
        },
        None => Err(BeansErrorView::SourceModLocationNotFound),
    }
}

impl RunnerContext {
    /// Makes the context of a session from what was found at its start,
    /// and tells the migration that the caller has to perform.
    pub fn create_auto(
        sourcemod_path: Option<String>,
        remote_version_list: RemoteVersionResponse,
        config: Configuration,
        files: &InstallationFiles,
    ) -> (session: Result<(RunnerContext, Vec<MigrationStep>), BeansError>)
        ensures
            session matches Ok((ctx, steps)) ==> session_of(
                view_of(sourcemod_path),
                remote_version_list@,
                config@,
                files@,
            ) == Ok::<(RunnerContextView, Seq<MigrationStepView>), BeansErrorView>(
                (ctx@, steps_view(steps@)),
            ),
            session matches Err(error) ==> session_of(
                view_of(sourcemod_path),
                remote_version_list@,
                config@,
                files@,
            ) == Err::<(RunnerContextView, Seq<MigrationStepView>), BeansErrorView>(error@),
    {
        let sourcemod_path = match sourcemod_path {
            Some(sourcemod_path) => sourcemod_path,
            None => {
                return Err(BeansError::SourceModLocationNotFound);
            },
        };
        match files.load(sourcemod_path.as_str(), config.data_dir.as_str()) {
            Ok((current_version, steps)) => Ok(
                (
                    RunnerContext { sourcemod_path, remote_version_list, current_version, config },
                    steps,
                ),
            ),
            Err(error) => Err(error),
        }
    }

    /// The latest version that the catalog offers: the one with the
    /// greatest identifier. Fails on a catalog without versions.
    pub fn latest_remote_version(&mut self) -> (latest: Result<(usize, RemoteVersion), BeansError>)
        ensures
            *final(self) == *old(self),
            old(self)@.remote_version_list.versions.dom().is_empty() <==> latest is Err,
            latest matches Err(error) ==> error@ == BeansErrorView::EmptyManifest,
            latest matches Ok((id, record)) ==> old(self)@.remote_version_list.is_latest(id)
                && old(self)@.remote_version_list.latest_id() == id && record@ == old(
                self,
            )@.remote_version_list.versions[id],
    {
        self.remote_version_list.latest_version()
    }

    /// The patch that brings the installed version in line with the latest
    /// one. `Ok(None)` where nothing is installed or the catalog has no such
    /// patch; an error only where something is installed and the catalog
    /// has no version at all.
    pub fn has_patch_available(&mut self) -> (patch: Result<Option<RemotePatch>, BeansError>)
        ensures
            *final(self) == *old(self),
            patch is Err <==> old(self)@.current_version is Some && old(
                self,
            )@.remote_version_list.versions.dom().is_empty(),
            patch matches Err(error) ==> error@ == BeansErrorView::EmptyManifest,
            patch matches Ok(found) ==> (found is Some <==> old(self)@.patch_available() is Some),
            patch matches Ok(Some(found)) ==> old(self)@.patch_available() == Some(found@),
    {
        if self.current_version.is_none() {
            return Ok(None);
        }
        match self.remote_version_list.latest_version() {
            Ok((latest, _)) => Ok(
                self.remote_version_list.applicable_patch(self.current_version, latest),
            ),
            Err(error) => Err(error),
        }
    }

    /// The catalog's record of the installed version.
    pub fn current_remote_version(&self) -> (record: Option<RemoteVersion>)
        ensures
            record is Some <==> self@.current_remote_version() is Some,
            record matches Some(found) ==> self@.current_remote_version() == Some(found@),
    {
        broadcast use vstd::std_specs::hash::group_hash_axioms;

        match self.current_version {
            Some(current) => match self.remote_version_list.versions.get(&current) {
                Some(record) => Some(record.clone()),
                None => None,
            },
            None => None,
        }
    }

    /// The directory of the installation.
    pub fn get_mod_location(&self) -> (location: String)
        ensures
            location@ == self@.mod_location(),
    {
        crate::version::get_mod_location(
            self.sourcemod_path.as_str(),
            self.config.data_dir.as_str(),
        )
    }

    /// The directory that patches are staged in.
    pub fn get_staging_location(&self) -> (location: String)
        ensures
            location@ == self@.staging_location(),
    {
        join_path(self.sourcemod_path.as_str(), self.config.staging_dir.as_str())
    }

    /// The user's configuration file inside the installation.
    pub fn gameinfo_location(&self) -> (location: String)
        ensures
            location@ == self@.gameinfo_location(),
    {
        let mut location = self.get_mod_location();
        location.append(self.config.config_file.as_str());
        location
    }

    /// The version marker inside the installation.
    pub fn get_version_location(&self) -> (location: String)
        ensures
            location@ == self@.version_location(),
    {
        let location = crate::version::get_version_location(
            Some(self.sourcemod_path.as_str()),
            self.config.data_dir.as_str(),
        );
        location.unwrap()
    }

    /// The request that verifies the installation against `record`, the
    /// catalog's record of the installed version, if the record allows it.
    pub fn verify_request_for(&self, record: &RemoteVersion) -> (request: Option<VerifyRequest>)
        ensures
            request is Some <==> self@.verify_request_for(record@) is Some,
            request matches Some(made) ==> self@.verify_request_for(record@) == Some(made@),
    {
        match (&record.signature_url, &record.heal_url) {
            (Some(signature), Some(heal)) => {
                let mut signature_url = self.config.base_url.clone();
                signature_url.append(signature.as_str());
                let mut heal_url = self.config.base_url.clone();
                heal_url.append(heal.as_str());
                Some(VerifyRequest { signature_url, target_dir: self.get_mod_location(), heal_url })
            },
            _ => None,
        }
    }

    /// The request that verifies the installation against the installed
    /// version's own record, if the catalog has that record and it allows
    /// it.
    pub fn verify_request(&self) -> (request: Option<VerifyRequest>)
        ensures
            request is Some <==> self@.verify_request() is Some,
            request matches Some(made) ==> self@.verify_request() == Some(made@),
    {
        match self.current_remote_version() {
            Some(record) => self.verify_request_for(&record),
            None => None,
        }
    }

    /// The request that downloads and applies `patch`.
    pub fn patch_request(&self, patch: &RemotePatch) -> (request: PatchRequest)
        ensures
            request@ == self@.patch_request(patch@),
    {
        let mut patch_url = self.config.base_url.clone();
        patch_url.append(patch.file.as_str());
        PatchRequest {
            patch_url,
            staging_dir: self.get_staging_location(),
            patch_file: patch.file.clone(),
            target_dir: self.get_mod_location(),
        }
    }
}

} // verus!
