//! The remote catalog of versions and patches, and the local version marker.

use crate::decimal::{
    all_digits, decimal, is_digit, lemma_decimal_denotes, lemma_decimal_is_injective,
    lemma_parse_decimal_round_trip, parse_decimal, parse_version, to_decimal,
};
use crate::helper::{join_path, joined_path};
use crate::error::{BeansError, BeansErrorView};
use crate::model::view_of;
use std::collections::HashMap;
use vstd::prelude::*;
use vstd::std_specs::hash::{axiom_spec_hash_map_iter, spec_hash_map_iter};
use vstd::std_specs::iter::IteratorSpec;
use vstd::string::StringExecFns;

verus! {

/// What the remote catalog records of one version. Any field may be absent;
/// a version without `signature_url` or `heal_url` cannot be verified or
/// used as the base of a patch.
#[derive(Debug, PartialEq, Eq)]
pub struct RemoteVersion {
    /// Where the full package can be downloaded.
    pub url: Option<String>,
    /// The file name of the full package.
    pub file: Option<String>,
    /// Size in bytes of the package before extraction, for display.
    pub pre_sz: Option<usize>,
    /// Size in bytes of the installation after extraction, for display.
    pub post_sz: Option<usize>,
    /// Where the signature manifest of this version can be fetched.
    pub signature_url: Option<String>,
    /// Where replacement data for this version can be fetched.
    pub heal_url: Option<String>,
}

/// Mathematical model of a [`RemoteVersion`].
pub struct RemoteVersionView {
    pub url: Option<Seq<char>>,
    pub file: Option<Seq<char>>,
    pub pre_sz: Option<usize>,
    pub post_sz: Option<usize>,
    pub signature_url: Option<Seq<char>>,
    pub heal_url: Option<Seq<char>>,
}

impl View for RemoteVersion {
    type V = RemoteVersionView;

    open spec fn view(&self) -> RemoteVersionView {
        RemoteVersionView {
            url: view_of(self.url),
            file: view_of(self.file),
            pre_sz: self.pre_sz,
            post_sz: self.post_sz,
            signature_url: view_of(self.signature_url),
            heal_url: view_of(self.heal_url),
        }
    }
}

impl Clone for RemoteVersion {
    fn clone(&self) -> (copy: Self)
        ensures
            copy == *self,
    {
        RemoteVersion {
            url: self.url.clone(),
            file: self.file.clone(),
            pre_sz: self.pre_sz,
            post_sz: self.post_sz,
            signature_url: self.signature_url.clone(),
            heal_url: self.heal_url.clone(),
        }
    }
}

/// What the remote catalog records of one patch: a package that brings an
/// installation from one version to another. The two versions are told by
/// the file name alone.
#[derive(Debug, PartialEq, Eq)]
pub struct RemotePatch {
    /// Where the patch package can be downloaded.
    pub url: String,
    /// The file name of the patch package.
    pub file: String,
    /// Temporary disk space, in bytes, that applying the patch needs.
    pub tempreq: usize,
}

/// Mathematical model of a [`RemotePatch`].
pub struct RemotePatchView {
    pub url: Seq<char>,
    pub file: Seq<char>,
    pub tempreq: usize,
}

impl View for RemotePatch {
    type V = RemotePatchView;

    open spec fn view(&self) -> RemotePatchView {
        RemotePatchView { url: self.url@, file: self.file@, tempreq: self.tempreq }
    }
}

impl Clone for RemotePatch {
    fn clone(&self) -> (copy: Self)
        ensures
            copy == *self,
    {
        RemotePatch { url: self.url.clone(), file: self.file.clone(), tempreq: self.tempreq }
    }
}

/// The remote catalog: the known versions and the patches between them,
/// each keyed by its identifier. A snapshot that is never changed.
#[derive(Debug, PartialEq, Eq)]
pub struct RemoteVersionResponse {
    pub versions: HashMap<usize, RemoteVersion>,
    pub patches: HashMap<usize, RemotePatch>,
}

/// Mathematical model of a [`RemoteVersionResponse`].
pub struct RemoteVersionResponseView {
    pub versions: Map<usize, RemoteVersionView>,
    pub patches: Map<usize, RemotePatchView>,
}

impl View for RemoteVersionResponse {
    type V = RemoteVersionResponseView;

    open spec fn view(&self) -> RemoteVersionResponseView {
        RemoteVersionResponseView {
            versions: self.versions@.map_values(|version: RemoteVersion| version@),
            patches: self.patches@.map_values(|patch: RemotePatch| patch@),
        }
    }
}

impl Clone for RemoteVersionResponse {
    fn clone(&self) -> (copy: Self)
        ensures
            copy@ == self@,
    {
        RemoteVersionResponse { versions: self.versions.clone(), patches: self.patches.clone() }
    }
}

/// The version marker: the small file inside the installation that records
/// which version is installed, as the decimal text of its identifier.
#[derive(Debug, PartialEq, Eq)]
pub struct AdastralVersionFile {
    pub version: String,
}

/// Mathematical model of an [`AdastralVersionFile`].
pub struct AdastralVersionFileView {
    pub version: Seq<char>,
}

impl View for AdastralVersionFile {
    type V = AdastralVersionFileView;

    open spec fn view(&self) -> AdastralVersionFileView {
        AdastralVersionFileView { version: self.version@ }
    }
}

impl Clone for AdastralVersionFile {
    fn clone(&self) -> (copy: Self)
        ensures
            copy == *self,
    {
        AdastralVersionFile { version: self.version.clone() }
    }
}

/// Where the catalog is served, below the base address `base_url`.
pub open spec fn version_list_location(base_url: Seq<char>) -> Seq<char> {
    base_url + seq!['v', 'e', 'r', 's', 'i', 'o', 'n', 's', '.', 'j', 's', 'o', 'n']
}

/// The address that the catalog is fetched from.
pub fn get_version_list_location(base_url: &str) -> (location: String)
    ensures
        location@ == version_list_location(base_url@),
{
    proof {
        reveal_strlit("versions.json");
    }
    let mut location = base_url.to_owned();
    location.append("versions.json");
    assert(location@ =~= version_list_location(base_url@));
    location
}

/// The file name of the patch that brings an installation from version
/// `source` to version `destination`: `of-{source}to{destination}.pwr`.
pub open spec fn patch_file_name(source: usize, destination: usize) -> Seq<char> {
    seq!['o', 'f', '-'] + decimal(source as nat) + seq!['t', 'o'] + decimal(destination as nat)
        + seq!['.', 'p', 'w', 'r']
}

impl RemoteVersionResponseView {
    /// Whether `id` is the latest version: a known version that no other
    /// known version exceeds.
    pub open spec fn is_latest(self, id: usize) -> bool {
        &&& self.versions.contains_key(id)
        &&& forall|other: usize| self.versions.contains_key(other) ==> other <= id
    }

    /// The identifier of the latest version, where there is any version.
    pub open spec fn latest_id(self) -> usize {
        choose|id: usize| self.is_latest(id)
    }

    /// Whether the patch under `key` has the file name `name`.
    pub open spec fn patch_named(self, key: usize, name: Seq<char>) -> bool {
        self.patches.contains_key(key) && self.patches[key].file == name
    }

    /// Whether `key` is the least key of a patch with the file name `name`.
    pub open spec fn first_patch_named(self, key: usize, name: Seq<char>) -> bool {
        &&& self.patch_named(key, name)
        &&& forall|other: usize| self.patch_named(other, name) ==> key <= other
    }

    /// The patch with the file name `name`, if there is one. By convention
    /// no two patches share a file name; should some do, the one with the
    /// least key is meant.
    pub open spec fn patch_by_name(self, name: Seq<char>) -> Option<RemotePatchView> {
        if exists|key: usize| self.patch_named(key, name) {
            Some(self.patches[choose|key: usize| self.first_patch_named(key, name)])
        } else {
            None
        }
    }

    /// The patch that brings an installation of version `current` to version
    /// `latest`: none where nothing is installed or where the catalog has no
    /// patch under that file name.
    pub open spec fn applicable_patch(self, current: Option<usize>, latest: usize) -> Option<
        RemotePatchView,
    > {
        match current {
            Some(current) => self.patch_by_name(patch_file_name(current, latest)),
            None => None,
        }
    }
}

/// Two sequences of digits that are each followed by a character that is
/// no digit, and that agree together with what follows them, are the same
/// sequence of digits.
proof fn lemma_digits_end_where_they_end(
    first: Seq<char>,
    first_rest: Seq<char>,
    second: Seq<char>,
    second_rest: Seq<char>,
)
    requires
        all_digits(first),
        all_digits(second),
        first_rest.len() > 0 && !is_digit(first_rest[0]),
        second_rest.len() > 0 && !is_digit(second_rest[0]),
        first + first_rest == second + second_rest,
    ensures
        first == second,
        first_rest == second_rest,
{
    let whole = first + first_rest;
    if first.len() < second.len() {
        assert(whole[first.len() as int] == first_rest[0]);
        assert((second + second_rest)[first.len() as int] == second[first.len() as int]);
    } else if second.len() < first.len() {
        assert((second + second_rest)[second.len() as int] == second_rest[0]);
        assert(whole[second.len() as int] == first[second.len() as int]);
    }
    assert(first =~= whole.take(first.len() as int));
    assert(second =~= (second + second_rest).take(second.len() as int));
    assert(first_rest =~= whole.skip(first.len() as int));
    assert(second_rest =~= (second + second_rest).skip(second.len() as int));
}

/// The file name of a patch tells the pair of versions that it is for: no
/// two pairs share a file name.
pub proof fn lemma_patch_file_name_tells_the_pair(
    source: usize,
    destination: usize,
    other_source: usize,
    other_destination: usize,
)
    requires
        patch_file_name(source, destination) == patch_file_name(other_source, other_destination),
    ensures
        source == other_source,
        destination == other_destination,
{
    let head = seq!['o', 'f', '-'];
    let middle = seq!['t', 'o'];
    let tail = seq!['.', 'p', 'w', 'r'];
    let a = decimal(source as nat);
    let b = decimal(destination as nat);
    let c = decimal(other_source as nat);
    let d = decimal(other_destination as nat);
    lemma_decimal_denotes(source as nat);
    lemma_decimal_denotes(destination as nat);
    lemma_decimal_denotes(other_source as nat);
    lemma_decimal_denotes(other_destination as nat);
    let first = patch_file_name(source, destination);
    let second = patch_file_name(other_source, other_destination);
    assert(first =~= head + (a + (middle + b + tail)));
    assert(second =~= head + (c + (middle + d + tail)));
    assert(a + (middle + b + tail) =~= first.skip(3));
    assert(c + (middle + d + tail) =~= second.skip(3));
    assert((middle + b + tail)[0] == 't');
    assert((middle + d + tail)[0] == 't');
    assert(!is_digit('t'));
    lemma_digits_end_where_they_end(a, middle + b + tail, c, middle + d + tail);
    assert(b + tail =~= (middle + b + tail).skip(2));
    assert(d + tail =~= (middle + d + tail).skip(2));
    assert(tail[0] == '.');
    assert(!is_digit('.'));
    lemma_digits_end_where_they_end(b, tail, d, tail);
    lemma_decimal_is_injective(source as nat, other_source as nat);
    lemma_decimal_is_injective(destination as nat, other_destination as nat);
}

/// What `applicable_patch` yields, said without reference to how it is
/// found: a patch of the catalog with exactly the file name of the pair
/// (`current`, `latest`) when there is one, and nothing when nothing is
/// installed or no patch has that name. Where exactly one patch has the
/// name, as the naming convention intends, it is that patch.
pub proof fn lemma_applicable_patch(
    catalog: RemoteVersionResponseView,
    current: Option<usize>,
    latest: usize,
)
    ensures
        current is None ==> catalog.applicable_patch(current, latest) is None,
        current matches Some(source) ==> (catalog.applicable_patch(current, latest) is Some
            <==> exists|key: usize| catalog.patch_named(key, patch_file_name(source, latest))),
        catalog.applicable_patch(current, latest) matches Some(patch) ==> current is Some
            && patch.file == patch_file_name(current.unwrap(), latest) && exists|key: usize|
            #[trigger] catalog.patches.contains_key(key) && catalog.patches[key] == patch,
        forall|key: usize|
            current is Some && catalog.patch_named(key, patch_file_name(current.unwrap(), latest))
                && (forall|other: usize|
                catalog.patch_named(other, patch_file_name(current.unwrap(), latest)) ==> other
                    == key) ==> catalog.applicable_patch(current, latest) == Some(
                catalog.patches[key],
            ),
{
    if let Some(source) = current {
        let name = patch_file_name(source, latest);
        if exists|key: usize| catalog.patch_named(key, name) {
            lemma_first_patch_named_exists(catalog, name);
            let first = choose|key: usize| catalog.first_patch_named(key, name);
            assert(catalog.patches.contains_key(first));
        }
    }
}

/// Among the patches with a given file name, if there is any, one has the
/// least key.
proof fn lemma_first_patch_named_exists(catalog: RemoteVersionResponseView, name: Seq<char>)
    requires
        exists|key: usize| catalog.patch_named(key, name),
    ensures
        exists|key: usize| catalog.first_patch_named(key, name),
{
    let some = choose|key: usize| catalog.patch_named(key, name);
    lemma_least_patch_named(catalog, name, some);
}

/// Induction behind `lemma_first_patch_named_exists`: at or below a key
/// that has the name lies the least such key.
proof fn lemma_least_patch_named(catalog: RemoteVersionResponseView, name: Seq<char>, key: usize)
    requires
        catalog.patch_named(key, name),
    ensures
        exists|least: usize| catalog.first_patch_named(least, name),
    decreases key,
{
    if exists|other: usize| catalog.patch_named(other, name) && other < key {
        let other = choose|other: usize| catalog.patch_named(other, name) && other < key;
        lemma_least_patch_named(catalog, name, other);
    } else {
        assert(catalog.first_patch_named(key, name));
    }
}

/// Writes the file name of the patch from `source` to `destination`.
pub fn make_patch_file_name(source: usize, destination: usize) -> (name: String)
    ensures
        name@ == patch_file_name(source, destination),
{
    proof {
        reveal_strlit("of-");
        reveal_strlit("to");
        reveal_strlit(".pwr");
    }
    let mut name = "of-".to_owned();
    name.append(to_decimal(source).as_str());
    name.append("to");
    name.append(to_decimal(destination).as_str());
    name.append(".pwr");
    assert("of-"@ =~= seq!['o', 'f', '-']);
    assert("to"@ =~= seq!['t', 'o']);
    assert(".pwr"@ =~= seq!['.', 'p', 'w', 'r']);
    name
}

/// How the installation directory came to be, told by the files in it.
#[derive(Debug, Clone, Copy, PartialEq, Eq, Structural)]
pub enum InstallType {
    /// The directory holds nothing that speaks of an installation.
    NotInstalled,
    /// The directory holds a version marker: this library, or a program
    /// that writes the same marker, installed it.
    Adastral,
    /// The directory holds only a legacy version marker: an earlier
    /// installer put it there. Such an installation is migrated.
    OtherSource,
    /// The directory holds an installation and no marker of any kind:
    /// someone put it there by hand, and its version is unknown.
    OtherSourceManual,
}

/// Which of the files that tell of an installation exist.
#[derive(Debug, Clone, Copy, PartialEq, Eq, Structural)]
pub struct InstallProbe {
    /// The version marker.
    pub marker: bool,
    /// The legacy version marker.
    pub legacy_marker: bool,
    /// The user's configuration file.
    pub gameinfo: bool,
}

/// How an installation with the files of `probe` came to be. The version
/// marker decides before the legacy marker, and either before the
/// configuration file.
pub open spec fn install_type_of(probe: InstallProbe) -> InstallType {
    if probe.marker {
        InstallType::Adastral
    } else if probe.legacy_marker {
        InstallType::OtherSource
    } else if probe.gameinfo {
        InstallType::OtherSourceManual
    } else {
        InstallType::NotInstalled
    }
}

/// Tells how an installation with the files of `probe` came to be.
pub fn install_state(probe: InstallProbe) -> (state: InstallType)
    ensures
        state == install_type_of(probe),
{
    if probe.marker {
        InstallType::Adastral
    } else if probe.legacy_marker {
        InstallType::OtherSource
    } else if probe.gameinfo {
        InstallType::OtherSourceManual
    } else {
        InstallType::NotInstalled
    }
}

/// The name of the version marker file.
pub open spec fn marker_file_name() -> Seq<char> {
    seq!['.', 'a', 'd', 'a', 's', 't', 'r', 'a', 'l']
}

/// The name of the legacy version marker file.
pub open spec fn legacy_marker_file_name() -> Seq<char> {
    seq!['.', 'r', 'e', 'v', 'i', 's', 'i', 'o', 'n']
}

/// The directory of the installation: `data_dir`, which begins and ends
/// with a separator, below the installation root.
pub open spec fn mod_location(sourcemod_path: Seq<char>, data_dir: Seq<char>) -> Seq<char> {
    joined_path(sourcemod_path, data_dir)
}

/// The version marker file of the installation.
pub open spec fn version_location(sourcemod_path: Seq<char>, data_dir: Seq<char>) -> Seq<char> {
    mod_location(sourcemod_path, data_dir) + marker_file_name()
}

/// The legacy version marker file of the installation.
pub open spec fn legacy_version_location(sourcemod_path: Seq<char>, data_dir: Seq<char>) -> Seq<
    char,
> {
    mod_location(sourcemod_path, data_dir) + legacy_marker_file_name()
}

/// The directory of the installation below the installation root.
pub fn get_mod_location(sourcemod_path: &str, data_dir: &str) -> (location: String)
    ensures
        location@ == mod_location(sourcemod_path@, data_dir@),
{
    join_path(sourcemod_path, data_dir)
}

/// The version marker file of the installation, where the installation
/// root is known.
pub fn get_version_location(sourcemod_path: Option<&str>, data_dir: &str) -> (location: Option<
    String,
>)
    ensures
        sourcemod_path is None <==> location is None,
        location matches Some(found) ==> found@ == version_location(
            sourcemod_path.unwrap()@,
            data_dir@,
        ),
{
    match sourcemod_path {
        Some(sourcemod_path) => {
            proof {
                reveal_strlit(".adastral");
            }
            let mut location = get_mod_location(sourcemod_path, data_dir);
            location.append(".adastral");
            assert(".adastral"@ =~= marker_file_name());
            Some(location)
        },
        None => None,
    }
}

/// The legacy version marker file of the installation.
pub fn get_legacy_version_location(sourcemod_path: &str, data_dir: &str) -> (location: String)
    ensures
        location@ == legacy_version_location(sourcemod_path@, data_dir@),
{
    proof {
        reveal_strlit(".revision");
    }
    let mut location = get_mod_location(sourcemod_path, data_dir);
    location.append(".revision");
    assert(".revision"@ =~= legacy_marker_file_name());
    location
}

impl AdastralVersionFileView {
    /// The marker that records version `version`.
    pub open spec fn of(version: usize) -> AdastralVersionFileView {
        AdastralVersionFileView { version: decimal(version as nat) }
    }
}

/// How the version marker file is to be opened for writing.
#[derive(Debug, PartialEq, Eq)]
pub struct MarkerWrite {
    /// The file to write.
    pub location: String,
    /// Whether the file must be created by this write, which then fails
    /// should a file have appeared in the meantime, or is an existing file
    /// that is overwritten.
    pub create_new: bool,
    /// What to write.
    pub marker: AdastralVersionFile,
}

/// Mathematical model of a [`MarkerWrite`].
pub struct MarkerWriteView {
    pub location: Seq<char>,
    pub create_new: bool,
    pub marker: AdastralVersionFileView,
}

impl View for MarkerWrite {
    type V = MarkerWriteView;

    open spec fn view(&self) -> MarkerWriteView {
        MarkerWriteView {
            location: self.location@,
            create_new: self.create_new,
            marker: self.marker@,
        }
    }
}

impl AdastralVersionFile {
    /// The marker that records version `version`.
    pub fn new(version: usize) -> (marker: AdastralVersionFile)
        ensures
            marker@ == AdastralVersionFileView::of(version),
    {
        AdastralVersionFile { version: to_decimal(version) }
    }

    /// Settles how this marker is written to `location`, given whether a
    /// marker file `exists` there: a file that does not exist yet is
    /// created exclusively, an existing one is overwritten. Without a
    /// location there is nowhere to write, which is an error.
    pub fn write(&self, location: Option<String>, exists: bool) -> (write: Result<
        MarkerWrite,
        BeansError,
    >)
        ensures
            location is None <==> write is Err,
            write matches Err(error) ==> error@ == BeansErrorView::SourceModLocationNotFound,
            write matches Ok(how) ==> how@ == (MarkerWriteView {
                location: location.unwrap()@,
                create_new: !exists,
                marker: self@,
            }),
    {
        match location {
            Some(location) => Ok(
                MarkerWrite { location, create_new: !exists, marker: self.clone() },
            ),
            None => Err(BeansError::SourceModLocationNotFound),
        }
    }
}

/// The installed version that a session starts with, given how the
/// installation came to be and what its version marker holds.
///
/// Only an installation with a version marker has a known version. A
/// marker that holds no version identifier is an error: to guess would
/// falsify the record.
pub open spec fn current_version_of(
    install_state: InstallType,
    marker: Option<AdastralVersionFileView>,
) -> Result<Option<usize>, BeansErrorView> {
    match marker {
        Some(marker) if install_state == InstallType::Adastral => match parse_decimal(
            marker.version,
        ) {
            Some(version) => Ok(Some(version)),
            None => Err(BeansErrorView::VersionMarkerCorrupt { content: marker.version }),
        },
        _ => Ok(None),
    }
}

/// Reads the installed version off the version marker.
pub fn get_current_version(
    install_state: InstallType,
    marker: Option<&AdastralVersionFile>,
) -> (version: Result<Option<usize>, BeansError>)
    ensures
        version matches Ok(found) ==> current_version_of(install_state, view_of(marker)) == Ok::<
            Option<usize>,
            BeansErrorView,
        >(found),
        version matches Err(error) ==> current_version_of(install_state, view_of(marker)) == Err::<
            Option<usize>,
            BeansErrorView,
        >(error@),
{
    let marker = match marker {
        Some(marker) => marker,
        None => {
            return Ok(None);
        },
    };
    if install_state != InstallType::Adastral {
        return Ok(None);
    }
    match parse_version(marker.version.as_str()) {
        Some(version) => Ok(Some(version)),
        None => Err(BeansError::VersionMarkerCorrupt { content: marker.version.clone() }),
    }
}

/// One step of the migration from the legacy version marker.
#[derive(Debug, PartialEq, Eq)]
pub enum MigrationStep {
    /// Write `marker` to the version marker file at `location`.
    WriteMarker { location: String, marker: AdastralVersionFile },
    /// Delete the legacy version marker file at `location`.
    DeleteLegacy { location: String },
}

/// Mathematical model of a [`MigrationStep`].
pub enum MigrationStepView {
    WriteMarker { location: Seq<char>, marker: AdastralVersionFileView },
    DeleteLegacy { location: Seq<char> },
}

impl View for MigrationStep {
    type V = MigrationStepView;

    open spec fn view(&self) -> MigrationStepView {
        match *self {
            MigrationStep::WriteMarker { location, marker } => MigrationStepView::WriteMarker {
                location: location@,
                marker: marker@,
            },
            MigrationStep::DeleteLegacy { location } => MigrationStepView::DeleteLegacy {
                location: location@,
            },
        }
    }
}

/// The models of the steps of a migration, in order.
pub open spec fn steps_view(steps: Seq<MigrationStep>) -> Seq<MigrationStepView> {
    steps.map_values(|step: MigrationStep| step@)
}

/// The migration that is due for an installation, as the steps to perform
/// in order; no steps where none is due.
///
/// A migration is due only for an installation that has a legacy version
/// marker and no version marker, in a known installation root. The legacy
/// marker holds `legacy_content`, which must be a version identifier: to
/// guess one would falsify the record, so anything else is an error. The
/// version marker is written first and the legacy marker deleted second, so
/// that at no time neither exists.
pub open spec fn migration_of(
    install_state: InstallType,
    sourcemod_path: Option<Seq<char>>,
    data_dir: Seq<char>,
    legacy_content: Seq<char>,
) -> Result<Seq<MigrationStepView>, BeansErrorView> {
    match sourcemod_path {
        Some(sourcemod_path) if install_state == InstallType::OtherSource => match parse_decimal(
            legacy_content,
        ) {
            Some(version) => Ok(
                seq![
                    MigrationStepView::WriteMarker {
                        location: version_location(sourcemod_path, data_dir),
                        marker: AdastralVersionFileView::of(version),
                    },
                    MigrationStepView::DeleteLegacy {
                        location: legacy_version_location(sourcemod_path, data_dir),
                    },
                ],
            ),
            None => Err(BeansErrorView::VersionMarkerCorrupt { content: legacy_content }),
        },
        _ => Ok(Seq::empty()),
    }
}

/// Settles the migration from the legacy version marker to the version
/// marker, given what the legacy marker holds.
pub fn update_version_file(
    install_state: InstallType,
    sourcemod_path: Option<&str>,
    data_dir: &str,
    legacy_content: &str,
) -> (steps: Result<Vec<MigrationStep>, BeansError>)
    ensures
        steps matches Ok(due) ==> migration_of(
            install_state,
            view_of(sourcemod_path),
            data_dir@,
            legacy_content@,
        ) == Ok::<Seq<MigrationStepView>, BeansErrorView>(steps_view(due@)),
        steps matches Err(error) ==> migration_of(
            install_state,
            view_of(sourcemod_path),
            data_dir@,
            legacy_content@,
        ) == Err::<Seq<MigrationStepView>, BeansErrorView>(error@),
{
    let mut steps: Vec<MigrationStep> = Vec::new();
    let root = match sourcemod_path {
        Some(root) => root,
        None => {
            assert(steps_view(steps@) =~= Seq::empty());
            return Ok(steps);
        },
    };
    if install_state != InstallType::OtherSource {
        assert(steps_view(steps@) =~= Seq::empty());
        return Ok(steps);
    }
    let version = match parse_version(legacy_content) {
        Some(version) => version,
        None => {
            return Err(BeansError::VersionMarkerCorrupt { content: legacy_content.to_owned() });
        },
    };
    let location = get_version_location(Some(root), data_dir).unwrap();
    steps.push(MigrationStep::WriteMarker { location, marker: AdastralVersionFile::new(version) });
    steps.push(
        MigrationStep::DeleteLegacy { location: get_legacy_version_location(root, data_dir) },
    );
    proof {
        let expected = migration_of(
            install_state,
            view_of(sourcemod_path),
            data_dir@,
            legacy_content@,
        )->Ok_0;
        assert(steps_view(steps@) =~= expected);
    }
    Ok(steps)
}

/// Writing and reading the version marker round-trips: the marker that
/// records a version, read back from an installation that has it, yields
/// that version.
pub proof fn lemma_marker_round_trip(version: usize)
    ensures
        current_version_of(InstallType::Adastral, Some(AdastralVersionFileView::of(version)))
            == Ok::<Option<usize>, BeansErrorView>(Some(version)),
{
    lemma_parse_decimal_round_trip(version);
}

/// What was found of the files that tell of an installation: what the
/// version marker and the legacy version marker hold, where they exist, and
/// whether the user's configuration file exists.
#[derive(Debug, PartialEq, Eq)]
pub struct InstallationFiles {
    pub marker: Option<AdastralVersionFile>,
    pub legacy_marker: Option<String>,
    pub gameinfo: bool,
}

/// Mathematical model of [`InstallationFiles`].
pub struct InstallationFilesView {
    pub marker: Option<AdastralVersionFileView>,
    pub legacy_marker: Option<Seq<char>>,
    pub gameinfo: bool,
}

impl View for InstallationFiles {
    type V = InstallationFilesView;

    open spec fn view(&self) -> InstallationFilesView {
        InstallationFilesView {
            marker: view_of(self.marker),
            legacy_marker: view_of(self.legacy_marker),
            gameinfo: self.gameinfo,
        }
    }
}

impl InstallationFilesView {
    /// Which of the files exist.
    pub open spec fn probe(self) -> InstallProbe {
        InstallProbe {
            marker: self.marker is Some,
            legacy_marker: self.legacy_marker is Some,
            gameinfo: self.gameinfo,
        }
    }

    /// The files once the migration to the marker of `version` has been
    /// performed: the version marker is written, the legacy marker is gone.
    pub open spec fn migrated(self, version: usize) -> InstallationFilesView {
        InstallationFilesView {
            marker: Some(AdastralVersionFileView::of(version)),
            legacy_marker: None,
            gameinfo: self.gameinfo,
        }
    }
}

/// What loading the state of an installation yields: the installed version,
/// and the migration to perform, as steps in order.
///
/// The version marker is read where there is one. Where there is only a
/// legacy marker, the installed version is the one that it holds, and the
/// migration to the version marker is due. Where there is neither, nothing
/// is installed, or the version of what is installed is not known: neither
/// is an error. A marker of either kind that holds no version identifier
/// is an error.
pub open spec fn loaded(
    files: InstallationFilesView,
    sourcemod_path: Seq<char>,
    data_dir: Seq<char>,
) -> Result<(Option<usize>, Seq<MigrationStepView>), BeansErrorView> {
    let install_state = install_type_of(files.probe());
    if install_state == InstallType::OtherSource {
        let legacy_content = files.legacy_marker.unwrap();
        match migration_of(install_state, Some(sourcemod_path), data_dir, legacy_content) {
            Ok(steps) => Ok((parse_decimal(legacy_content), steps)),
            Err(error) => Err(error),
        }
    } else {
        match current_version_of(install_state, files.marker) {
            Ok(version) => Ok((version, Seq::empty())),
            Err(error) => Err(error),
        }
    }
}

impl InstallationFiles {
    /// Which of the files exist.
    pub fn probe(&self) -> (probe: InstallProbe)
        ensures
            probe == self@.probe(),
    {
        InstallProbe {
            marker: self.marker.is_some(),
            legacy_marker: self.legacy_marker.is_some(),
            gameinfo: self.gameinfo,
        }
    }

    /// Loads the state of the installation in the directory `data_dir`
    /// below the installation root `sourcemod_path`: the installed version,
    /// and the steps of the migration that the caller has to perform.
    pub fn load(&self, sourcemod_path: &str, data_dir: &str) -> (state: Result<
        (Option<usize>, Vec<MigrationStep>),
        BeansError,
    >)
        ensures
            state matches Ok((version, steps)) ==> loaded(self@, sourcemod_path@, data_dir@)
                == Ok::<(Option<usize>, Seq<MigrationStepView>), BeansErrorView>(
                (version, steps_view(steps@)),
            ),
            state matches Err(error) ==> loaded(self@, sourcemod_path@, data_dir@) == Err::<
                (Option<usize>, Seq<MigrationStepView>),
                BeansErrorView,
            >(error@),
    {
        let install_state = install_state(self.probe());
        match &self.legacy_marker {
            Some(legacy_content) if install_state == InstallType::OtherSource => {
                match update_version_file(
                    install_state,
                    Some(sourcemod_path),
                    data_dir,
                    legacy_content.as_str(),
                ) {
                    Ok(steps) => Ok((parse_version(legacy_content.as_str()), steps)),
                    Err(error) => Err(error),
                }
            },
            _ => {
                match get_current_version(install_state, self.marker.as_ref()) {
                    Ok(version) => {
                        let steps: Vec<MigrationStep> = Vec::new();
                        assert(steps_view(steps@) =~= Seq::empty());
                        Ok((version, steps))
                    },
                    Err(error) => Err(error),
                }
            },
        }
    }
}

/// Migration happens once and keeps the version. An installation with only
/// a legacy marker that holds a version identifier loads as that version,
/// together with exactly these steps: write the version marker for that
/// version, then delete the legacy marker. Once the steps are performed,
/// the installation loads as the same version, and nothing is left to
/// migrate.
pub proof fn lemma_load_migrates_once(
    files: InstallationFilesView,
    sourcemod_path: Seq<char>,
    data_dir: Seq<char>,
)
    requires
        files.marker is None,
        files.legacy_marker is Some,
        parse_decimal(files.legacy_marker.unwrap()) is Some,
    ensures
        ({
            let version = parse_decimal(files.legacy_marker.unwrap()).unwrap();
            &&& loaded(files, sourcemod_path, data_dir) == Ok::<
                (Option<usize>, Seq<MigrationStepView>),
                BeansErrorView,
            >(
                (
                    Some(version),
                    seq![
                        MigrationStepView::WriteMarker {
                            location: version_location(sourcemod_path, data_dir),
                            marker: AdastralVersionFileView::of(version),
                        },
                        MigrationStepView::DeleteLegacy {
                            location: legacy_version_location(sourcemod_path, data_dir),
                        },
                    ],
                ),
            )
            &&& loaded(files.migrated(version), sourcemod_path, data_dir) == Ok::<
                (Option<usize>, Seq<MigrationStepView>),
                BeansErrorView,
            >((Some(version), Seq::empty()))
        }),
{
    lemma_parse_decimal_round_trip(parse_decimal(files.legacy_marker.unwrap()).unwrap());
}

/// Where neither marker exists, nothing is known to be installed: loading
/// yields no version and no migration, and is no error.
pub proof fn lemma_load_without_markers(
    files: InstallationFilesView,
    sourcemod_path: Seq<char>,
    data_dir: Seq<char>,
)
    requires
        files.marker is None,
        files.legacy_marker is None,
    ensures
        loaded(files, sourcemod_path, data_dir) == Ok::<
            (Option<usize>, Seq<MigrationStepView>),
            BeansErrorView,
        >((None, Seq::empty())),
{
}

impl RemoteVersionResponse {
    /// The latest version: the entry with the greatest identifier. A catalog
    /// without versions has no latest one, which is an error.
    pub fn latest_version(&self) -> (latest: Result<(usize, RemoteVersion), BeansError>)
        ensures
            self@.versions.dom().is_empty() <==> latest is Err,
            latest matches Err(error) ==> error@ == BeansErrorView::EmptyManifest,
            latest matches Ok((id, record)) ==> self@.is_latest(id) && self@.latest_id() == id
                && record@ == self@.versions[id],
    {
        broadcast use vstd::std_specs::hash::group_hash_axioms;

        let mut best: Option<(usize, &RemoteVersion)> = None;
        let ghost all = spec_hash_map_iter(&self.versions).remaining();
        proof {
            axiom_spec_hash_map_iter(&self.versions);
        }
        for entry in entries: self.versions.iter()
            invariant
                all == spec_hash_map_iter(&self.versions).remaining(),
                entries.seq() == all,
                entries.index() == 0 <==> best is None,
                best matches Some((id, record)) ==> self.versions@.contains_key(id)
                    && self.versions@[id] == *record,
                best matches Some((id, _)) ==> forall|i: int|
                    0 <= i < entries.index() ==> *(#[trigger] all[i]).0 <= id,
        {
            proof {
                axiom_spec_hash_map_iter(&self.versions);
            }
            let (id, record) = entry;
            let better = match best {
                Some((best_id, _)) => *id > best_id,
                None => true,
            };
            if better {
                best = Some((*id, record));
            }
        }
        proof {
            axiom_spec_hash_map_iter(&self.versions);
        }
        match best {
            Some((id, record)) => {
                proof {
                    assert forall|other: usize| self@.versions.contains_key(other) implies other
                        <= id by {
                        assert(self.versions@.contains_key(other));
                        let entry = (&other, &self.versions@[other]);
                        assert(all.contains(entry));
                        let i = choose|i: int| 0 <= i < all.len() && all[i] == entry;
                        assert(*all[i].0 == other);
                    }
                    assert(self@.is_latest(id));
                }
                Ok((id, record.clone()))
            },
            None => {
                proof {
                    assert(self.versions@.dom().len() == 0);
                    assert(self@.versions.dom() =~= self.versions@.dom());
                }
                Err(BeansError::EmptyManifest)
            },
        }
    }

    /// The patch with the file name `name`, if the catalog has one.
    pub fn patch_by_name(&self, name: &String) -> (patch: Option<RemotePatch>)
        ensures
            patch is Some <==> self@.patch_by_name(name@) is Some,
            patch matches Some(found) ==> self@.patch_by_name(name@) == Some(found@),
    {
        broadcast use vstd::std_specs::hash::group_hash_axioms;

        let mut best: Option<(usize, &RemotePatch)> = None;
        let ghost all = spec_hash_map_iter(&self.patches).remaining();
        proof {
            axiom_spec_hash_map_iter(&self.patches);
        }
        for entry in entries: self.patches.iter()
            invariant
                all == spec_hash_map_iter(&self.patches).remaining(),
                entries.seq() == all,
                best matches Some((key, patch)) ==> self.patches@.contains_key(key)
                    && self.patches@[key] == *patch && patch.file@ == name@,
                best matches Some((key, _)) ==> forall|i: int|
                    0 <= i < entries.index() && (#[trigger] all[i]).1.file@ == name@ ==> key
                        <= *all[i].0,
                best is None ==> forall|i: int|
                    0 <= i < entries.index() ==> (#[trigger] all[i]).1.file@ != name@,
        {
            proof {
                axiom_spec_hash_map_iter(&self.patches);
            }
            let (key, patch) = entry;
            if patch.file == *name {
                let better = match best {
                    Some((best_key, _)) => *key < best_key,
                    None => true,
                };
                if better {
                    best = Some((*key, patch));
                }
            }
        }
        proof {
            axiom_spec_hash_map_iter(&self.patches);
            assert forall|other: usize| self@.patch_named(other, name@) implies best is Some
                && other >= best.unwrap().0 by {
                assert(self.patches@.contains_key(other));
                let entry = (&other, &self.patches@[other]);
                assert(all.contains(entry));
                let i = choose|i: int| 0 <= i < all.len() && all[i] == entry;
                assert(all[i].1.file@ == name@);
            }
        }
        match best {
            Some((key, patch)) => {
                proof {
                    assert(self@.patch_named(key, name@));
                    assert(self@.first_patch_named(key, name@));
                }
                Some(patch.clone())
            },
            None => None,
        }
    }

    /// The patch that brings an installation of version `current` to version
    /// `latest`, found by its file name. `None` where nothing is installed
    /// or where no patch has that name: neither is an error.
    pub fn applicable_patch(&self, current: Option<usize>, latest: usize) -> (patch: Option<
        RemotePatch,
    >)
        ensures
            patch is Some <==> self@.applicable_patch(current, latest) is Some,
            patch matches Some(found) ==> self@.applicable_patch(current, latest) == Some(found@),
    {
        match current {
            Some(current) => {
                let name = make_patch_file_name(current, latest);
                self.patch_by_name(&name)
            },
            None => None,
        }
    }
}

} // verus!
