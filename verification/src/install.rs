use vstd::prelude::*;

use crate::manifest::{is_commit_id, is_commit_text, is_sha256_digest, is_sha256_text, OnlineManifest, PayloadArtifact};
use crate::paths::{
    is_safe_relative_path, leaves_at_start, names_only_path, plain_relative_path, refused_everywhere, same_path,
};
use crate::text::{chars_of, decimal, has_prefix, push_decimal, same_text, starts_with};

verus! {

/// Payloads unpacked from a ZIP may be at most this large, in bytes.
pub const MAX_EXPANDED_PAYLOAD_BYTES: u64 = 128 * 1024 * 1024;

/// An update lock older than this many seconds belongs to a crashed run.
pub const STALE_UPDATE_LOCK_SECONDS: u64 = 30 * 60;

/// The build that the bootstrap launches, as recorded in `active.json`.
#[derive(Debug)]
pub struct ActiveState {
    pub build_id: String,
    pub source_sha: String,
    pub entrypoint: String,
    pub launch_kind: String,
}

/// The recorded fields other than the entrypoint path are sound: a SHA-256
/// build id, a commit id, and a launch kind the bootstrap knows.
pub open spec fn state_fields_valid(
    build_id: Seq<char>,
    source_sha: Seq<char>,
    launch_kind: Seq<char>,
) -> bool {
    &&& is_sha256_text(build_id)
    &&& is_commit_text(source_sha)
    &&& (launch_kind == "executable"@ || launch_kind == "appBundle"@)
}

/// The rule for accepting a recorded build: sound fields, an entrypoint
/// that the platform judges a safe relative path (`entrypoint_is_safe`), and
/// an entrypoint file present in the build's version directory.
pub open spec fn state_accepted(state: ActiveState, entrypoint_is_safe: bool, entrypoint_exists: bool) -> bool {
    &&& state_fields_valid(state.build_id@, state.source_sha@, state.launch_kind@)
    &&& entrypoint_is_safe
    &&& entrypoint_exists
}

/// Whether the recorded build can be launched: sound fields, a safe relative
/// entrypoint, and `entrypoint_exists`, whether the entrypoint file is present
/// in the build's version directory. The entrypoint is judged by
/// `is_safe_relative_path`: paths of plain names (`names_only_path`) pass and a path that
/// `refused_everywhere` describes fails on every platform; for any other path the result follows the
/// platform's verdict, one of the two.
pub fn state_is_usable(state: &ActiveState, entrypoint_exists: bool) -> (r: bool)
    ensures
        names_only_path(state.entrypoint@) ==> r == state_accepted(*state, true, entrypoint_exists),
        refused_everywhere(state.entrypoint@) ==> !r,
        r == state_accepted(*state, true, entrypoint_exists) || r == state_accepted(
            *state,
            false,
            entrypoint_exists,
        ),
{
    let entrypoint_is_safe = is_safe_relative_path(state.entrypoint.as_str());
    state_is_accepted(state, entrypoint_is_safe, entrypoint_exists)
}

/// Whether the recorded build can be launched, with `entrypoint_is_safe` the
/// platform's verdict on its entrypoint path and `entrypoint_exists` whether
/// the entrypoint file is present in the build's version directory.
pub fn state_is_accepted(state: &ActiveState, entrypoint_is_safe: bool, entrypoint_exists: bool) -> (r:
    bool)
    ensures
        r == state_accepted(*state, entrypoint_is_safe, entrypoint_exists),
{
    is_sha256_digest(state.build_id.as_str()) && is_commit_id(state.source_sha.as_str())
        && entrypoint_is_safe && (same_text(state.launch_kind.as_str(), "executable") || same_text(
        state.launch_kind.as_str(),
        "appBundle",
    )) && entrypoint_exists
}

/// The state that records the installed payload of `manifest`.
pub fn installed_state(manifest: &OnlineManifest) -> (r: ActiveState)
    requires
        manifest.artifacts@.len() >= 1,
    ensures
        r.build_id@ == manifest.artifacts@[0].sha256@,
        r.source_sha@ == manifest.source.sha@,
        r.entrypoint@ == manifest.artifacts@[0].entrypoint@,
        r.launch_kind@ == manifest.artifacts@[0].launch_kind@,
{
    let artifact = &manifest.artifacts[0];
    ActiveState {
        build_id: artifact.sha256.clone(),
        source_sha: manifest.source.sha.clone(),
        entrypoint: artifact.entrypoint.clone(),
        launch_kind: artifact.launch_kind.clone(),
    }
}

/// What the bootstrap does once it knows the newest build.
#[derive(Debug, PartialEq, Eq, Structural)]
pub enum UpdatePlan {
    /// The cached build is the newest: launch it now when it was not
    /// launched yet, and keep no other build.
    AlreadyCurrent { launch_cached: bool },
    /// Install the newest build, record it, and launch it afterwards when
    /// `launch_installed`.
    Install { launch_installed: bool },
}

/// The cached build `current` (launched or not) against the manifest's
/// newest build.
pub open spec fn update_plan(current_build: Option<Seq<char>>, launched: bool, newest: Seq<char>) -> UpdatePlan {
    if current_build == Some(newest) {
        UpdatePlan::AlreadyCurrent { launch_cached: !launched }
    } else {
        UpdatePlan::Install { launch_installed: current_build is None || !launched }
    }
}

/// Decides between keeping the cached build and installing the manifest's.
pub fn plan_update(current: Option<&ActiveState>, launched: bool, manifest: &OnlineManifest) -> (r:
    UpdatePlan)
    requires
        manifest.artifacts@.len() >= 1,
    ensures
        r == update_plan(
            match current {
                Some(s) => Some(s.build_id@),
                None => None,
            },
            launched,
            manifest.artifacts@[0].sha256@,
        ),
{
    let newest = manifest.artifacts[0].sha256.as_str();
    match current {
        Some(state) => {
            if same_text(state.build_id.as_str(), newest) {
                UpdatePlan::AlreadyCurrent { launch_cached: !launched }
            } else {
                UpdatePlan::Install { launch_installed: !launched }
            }
        },
        None => UpdatePlan::Install { launch_installed: true },
    }
}

/// The version directories to keep after an update: the newest build and the
/// build that was active before it.
pub fn versions_to_keep(newest: &str, previous: Option<&ActiveState>) -> (r: Vec<String>)
    ensures
        match previous {
            Some(s) => r@.len() == 2 && r@[0]@ == newest@ && r@[1]@ == s.build_id@,
            None => r@.len() == 1 && r@[0]@ == newest@,
        },
{
    let mut keep: Vec<String> = Vec::new();
    keep.push(newest.to_owned());
    if let Some(state) = previous {
        keep.push(state.build_id.clone());
    }
    keep
}

/// A version directory survives cleanup: it is listed in `keep`, or it is an
/// update still being staged.
pub open spec fn survives_cleanup(name: Seq<char>, keep: Seq<String>) -> bool {
    (exists|k: int| 0 <= k < keep.len() && #[trigger] keep[k]@ == name) || has_prefix(
        name,
        ".staging-"@,
    )
}

/// Whether the version directory `name` must be kept by cleanup.
pub fn should_keep_version(name: &str, keep: &Vec<String>) -> (r: bool)
    ensures
        r == survives_cleanup(name@, keep@),
{
    let mut k: usize = 0;
    while k < keep.len()
        invariant
            k <= keep.len(),
            forall|j: int| 0 <= j < k ==> #[trigger] keep@[j]@ != name@,
        decreases keep.len() - k,
    {
        if same_text(keep[k].as_str(), name) {
            return true;
        }
        k = k + 1;
    }
    starts_with(&chars_of(name), ".staging-")
}

/// Whether an update lock of the given age (in whole seconds, where the file
/// system reports one) belongs to a crashed run and may be cleared.
pub fn lock_is_stale(age_seconds: Option<u64>) -> (r: bool)
    ensures
        r == (age_seconds matches Some(age) && age >= STALE_UPDATE_LOCK_SECONDS),
{
    match age_seconds {
        Some(age) => age >= STALE_UPDATE_LOCK_SECONDS,
        None => false,
    }
}

/// The name of the directory in which process `process_id` unpacks build
/// `sha256` before moving it into place: `.staging-`, the first 12 digits of
/// the digest, `-` and the process id.
pub open spec fn staging_name(sha256: Seq<char>, process_id: u32) -> Seq<char> {
    ".staging-"@ + sha256.take(12) + "-"@ + decimal(process_id as nat)
}

/// The first 12 characters of `s` exist and are ASCII, so that they are its
/// first 12 bytes.
pub open spec fn has_ascii_head(s: Seq<char>) -> bool {
    &&& s.len() >= 12
    &&& forall|i: int| 0 <= i < 12 ==> (#[trigger] s[i]) as u32 <= 0x7f
}

/// The staging directory name for build `sha256` in process `process_id`.
pub fn staging_directory_name(sha256: &str, process_id: u32) -> (r: String)
    requires
        has_ascii_head(sha256@),
    ensures
        r@ == staging_name(sha256@, process_id),
{
    let mut name = String::from_str(".staging-");
    name.append(sha256.substring_char(0, 12));
    name.append("-");
    push_decimal(&mut name, process_id);
    name
}

/// How many times, once a second, a bootstrap that found another instance
/// installing the first build checks whether that build is ready.
pub const FIRST_INSTALL_CHECKS: u32 = 120;

/// Whether a bootstrap waiting for another instance's first install checks
/// once more, after `checks_made` checks found no usable build.
pub fn wait_for_install_again(checks_made: u32) -> (r: bool)
    ensures
        r == (checks_made < FIRST_INSTALL_CHECKS),
{
    checks_made < FIRST_INSTALL_CHECKS
}

/// How a downloaded payload becomes a runnable build.
#[derive(Debug, PartialEq, Eq, Structural)]
pub enum Activation {
    /// Unpack the single executable from the ZIP archive.
    ExtractZipExecutable,
    /// Move the download into place as the entrypoint and mark it executable.
    MoveExecutable,
    /// Unpack the application bundle (macOS only).
    ExtractBundle,
}

/// The activation step that the payload's launch kind and format call for.
pub fn activation_for(artifact: &PayloadArtifact) -> (r: Activation)
    ensures
        r == (if artifact.launch_kind@ == "executable"@ {
            if artifact.format@ == "exe.zip"@ {
                Activation::ExtractZipExecutable
            } else {
                Activation::MoveExecutable
            }
        } else {
            Activation::ExtractBundle
        }),
{
    if same_text(artifact.launch_kind.as_str(), "executable") {
        if same_text(artifact.format.as_str(), "exe.zip") {
            Activation::ExtractZipExecutable
        } else {
            Activation::MoveExecutable
        }
    } else {
        Activation::ExtractBundle
    }
}

/// A ZIP payload holds exactly one entry.
pub fn check_zip_entry_count(count: usize) -> (r: Result<(), String>)
    ensures
        match r {
            Ok(()) => count == 1,
            Err(e) => count != 1 && e@ == "The payload ZIP must contain exactly one executable."@,
        },
{
    if count != 1 {
        return Err(String::from_str("The payload ZIP must contain exactly one executable."));
    }
    Ok(())
}

/// Checks the ZIP's only entry: `matches_entrypoint` is `None` where its name
/// would escape the extraction directory, else whether that name is the
/// payload's entrypoint; the entry must be a non-empty file of at most
/// `MAX_EXPANDED_PAYLOAD_BYTES`.
pub fn check_zip_member(matches_entrypoint: Option<bool>, is_dir: bool, size: u64) -> (r: Result<
    (),
    String,
>)
    ensures
        match r {
            Ok(()) => matches_entrypoint == Some(true) && !is_dir && 0 < size
                <= MAX_EXPANDED_PAYLOAD_BYTES,
            Err(e) => match matches_entrypoint {
                None => e@ == "The payload ZIP contains an unsafe path."@,
                Some(m) => !(m && !is_dir && 0 < size <= MAX_EXPANDED_PAYLOAD_BYTES) && e@
                    == "The payload ZIP executable metadata is invalid."@,
            },
        },
{
    let matches = match matches_entrypoint {
        Some(m) => m,
        None => {
            return Err(String::from_str("The payload ZIP contains an unsafe path."));
        },
    };
    if is_dir || !matches || size == 0 || size > MAX_EXPANDED_PAYLOAD_BYTES {
        return Err(String::from_str("The payload ZIP executable metadata is invalid."));
    }
    Ok(())
}

/// The first entry of a ZIP archive, as the `zip` crate reads it.
pub struct ZipEntry {
    /// The entry's name as stored in the archive.
    pub name: String,
    /// The name as a path, where `zip` judges that it stays inside the
    /// extraction directory (`ZipFile::enclosed_name`); `None` where it does not.
    pub enclosed_name: Option<String>,
    /// The name ends with `/` or `\\`.
    pub is_dir: bool,
    /// The uncompressed size, in bytes.
    pub size: u64,
}

/// The entry count of a ZIP archive and its first entry, or the `Display`
/// text of the error `zip` gave when opening that entry.
pub struct ZipListing {
    pub entry_count: usize,
    pub first: Result<ZipEntry, String>,
}

/// The mathematical value of [`ZipEntry`], without the platform's path reading.
pub struct ZipEntryView {
    pub name: Seq<char>,
    pub is_dir: bool,
    pub size: u64,
}

/// The mathematical value of [`ZipListing`].
pub struct ZipListingView {
    pub entry_count: nat,
    pub first: Result<ZipEntryView, Seq<char>>,
}

impl View for ZipEntry {
    type V = ZipEntryView;

    open spec fn view(&self) -> ZipEntryView {
        ZipEntryView { name: self.name@, is_dir: self.is_dir, size: self.size }
    }
}

impl View for ZipListing {
    type V = ZipListingView;

    open spec fn view(&self) -> ZipListingView {
        ZipListingView {
            entry_count: self.entry_count as nat,
            first: match self.first {
                Ok(entry) => Ok(entry@),
                Err(text) => Err(text@),
            },
        }
    }
}

/// What the `zip` crate reads from the archive `bytes`: its entry count and
/// first entry, or the `Display` text of the error that opening it gave.
pub uninterp spec fn zip_listing(bytes: Seq<u8>) -> Result<ZipListingView, Seq<char>>;

/// The uncompressed data of the first entry of the archive `bytes`, or the
/// `Display` text of the error that opening or reading it gave.
pub uninterp spec fn zip_first_entry_data(bytes: Seq<u8>) -> Result<Seq<u8>, Seq<char>>;

/// What `ZipFile::enclosed_name` gives on every platform, as its source
/// shows: the name itself as a path, `None` for a name holding a NUL or
/// leaving the directory from its start, and a path for a `names_only_path`.
pub open spec fn enclosure_known(entry: ZipEntry) -> bool {
    &&& (entry.enclosed_name matches Some(p) ==> p@ == entry.name@)
    &&& (entry.name@.contains('\0') || leaves_at_start(entry.name@) ==> entry.enclosed_name is None)
    &&& (names_only_path(entry.name@) && !entry.name@.contains('\0')
        ==> entry.enclosed_name is Some)
}

/// Opens `bytes` with `zip::ZipArchive::new` over a `Cursor`, reads `len()`,
/// and reads `name()`, `enclosed_name()`, `is_dir()` and `size()` of
/// `by_index(0)`. Claimed: everything but the enclosed name is
/// `zip_listing(bytes)`; `is_dir` is whether the name ends with `/` or `\\`;
/// of the enclosed name, `enclosure_known`. Which other names `zip` refuses
/// depends on the platform's path syntax and is left unsaid.
#[verifier::external_body]
fn read_zip_listing(bytes: &[u8]) -> (r: Result<ZipListing, String>)
    ensures
        zip_listing(bytes@) == match r {
            Ok(listing) => Ok::<ZipListingView, Seq<char>>(listing@),
            Err(text) => Err(text@),
        },
        r matches Ok(listing) ==> (listing.first matches Ok(entry) ==> enclosure_known(entry) && entry.is_dir == (entry.name@.len() > 0 && (entry.name@.last() == '/' || entry.name@.last() == '\\'))),
{
    let mut archive = match zip::ZipArchive::new(std::io::Cursor::new(bytes)) {
        Ok(archive) => archive,
        Err(error) => return Err(error.to_string()),
    };
    let entry_count = archive.len();
    let first = match archive.by_index(0) {
        Ok(file) => Ok(ZipEntry {
            name: file.name().to_string(),
            enclosed_name: file.enclosed_name().map(|path| path.to_string_lossy().into_owned()),
            is_dir: file.is_dir(),
            size: file.size(),
        }),
        Err(error) => Err(error.to_string()),
    };
    Ok(ZipListing { entry_count, first })
}

/// Opens `bytes` with `zip::ZipArchive::new` over a `Cursor` and reads the
/// whole of `by_index(0)`. Claimed: the data, or the `Display` text of the
/// error, is `zip_first_entry_data(bytes)`.
#[verifier::external_body]
fn read_zip_member(bytes: &[u8]) -> (r: Result<Vec<u8>, String>)
    ensures
        zip_first_entry_data(bytes@) == match r {
            Ok(data) => Ok::<Seq<u8>, Seq<char>>(data@),
            Err(text) => Err(text@),
        },
{
    let mut archive = match zip::ZipArchive::new(std::io::Cursor::new(bytes)) {
        Ok(archive) => archive,
        Err(error) => return Err(error.to_string()),
    };
    let mut file = match archive.by_index(0) {
        Ok(file) => file,
        Err(error) => return Err(error.to_string()),
    };
    let mut data = Vec::new();
    match std::io::Read::read_to_end(&mut file, &mut data) {
        Ok(_) => Ok(data),
        Err(error) => Err(error.to_string()),
    }
}

/// A ZIP entry that may be unpacked as the executable: a file of at least
/// one and at most `MAX_EXPANDED_PAYLOAD_BYTES` bytes.
pub open spec fn member_fits(is_dir: bool, size: u64) -> bool {
    !is_dir && 0 < size <= MAX_EXPANDED_PAYLOAD_BYTES
}

/// The verdict on a ZIP payload, given how its first entry's path compares
/// with the entrypoint: `None` where the path leaves the extraction directory,
/// else whether it is the entrypoint's path.
pub open spec fn zip_verdict(listing: Result<ZipListingView, Seq<char>>, path_match: Option<bool>) -> Result<(), Seq<char>> {
    match listing {
        Err(text) => Err("The payload ZIP is invalid: "@ + text),
        Ok(l) => if l.entry_count != 1 {
            Err("The payload ZIP must contain exactly one executable."@)
        } else {
            match l.first {
                Err(text) => Err("Failed to inspect the payload ZIP: "@ + text),
                Ok(entry) => match path_match {
                    None => Err("The payload ZIP contains an unsafe path."@),
                    Some(m) => if m && member_fits(entry.is_dir, entry.size) {
                        Ok(())
                    } else {
                        Err("The payload ZIP executable metadata is invalid."@)
                    },
                },
            }
        },
    }
}

/// What every platform's path syntax fixes of `path_match` for the first
/// entry of `listing` against `entrypoint`: a name with a NUL or leaving the
/// directory from its start is unsafe; a `names_only_path` is safe; a path
/// matches its own text, and a plain name no other plain entrypoint.
pub open spec fn path_match_known(listing: Result<ZipListingView, Seq<char>>, entrypoint: Seq<char>, path_match: Option<bool>) -> bool {
    match listing {
        Ok(l) => match l.first {
            Ok(entry) => l.entry_count == 1 ==> {
                &&& (entry.name.contains('\0') || leaves_at_start(entry.name) ==> path_match is None)
                &&& (names_only_path(entry.name) && !entry.name.contains('\0') ==> path_match is Some)
                &&& (path_match matches Some(m) ==> (entry.name == entrypoint ==> m))
                &&& (path_match matches Some(m) ==> (plain_relative_path(entry.name)
                    && plain_relative_path(entrypoint) && entry.name != entrypoint ==> !m))
            },
            Err(_) => true,
        },
        Err(_) => true,
    }
}

/// A verdict taken by its view.
pub open spec fn verdict_view(r: Result<(), String>) -> Result<(), Seq<char>> {
    match r {
        Ok(()) => Ok(()),
        Err(e) => Err(e@),
    }
}

/// Checks the listing of a ZIP payload against `entrypoint`: one entry,
/// readable, with a name that stays inside the extraction directory and is
/// the entrypoint's path, and `member_fits`. The path reading follows the
/// platform; the result is the verdict for a path outcome that
/// `path_match_known` allows.
pub fn check_zip_listing(listing: &ZipListing, entrypoint: &str) -> (r: Result<(), String>)
    requires
        listing.first matches Ok(entry) ==> enclosure_known(entry),
    ensures
        exists|path_match: Option<bool>|
            path_match_known(Ok(listing@), entrypoint@, path_match) && verdict_view(r) == zip_verdict(Ok(listing@), path_match),
{
    if let Err(error) = check_zip_entry_count(listing.entry_count) {
        let r = Err(error);
        assert(path_match_known(Ok(listing@), entrypoint@, None) && verdict_view(r) == zip_verdict(
            Ok(listing@),
            None,
        ));
        return r;
    }
    let entry = match &listing.first {
        Ok(entry) => entry,
        Err(text) => {
            let mut message = String::from_str("Failed to inspect the payload ZIP: ");
            message.append(text.as_str());
            let r = Err(message);
            assert(path_match_known(Ok(listing@), entrypoint@, None) && verdict_view(r)
                == zip_verdict(Ok(listing@), None));
            return r;
        },
    };
    let path_match = match &entry.enclosed_name {
        None => None,
        Some(path) => Some(same_path(path.as_str(), entrypoint)),
    };
    let r = check_zip_member(path_match, entry.is_dir, entry.size);
    assert(path_match_known(Ok(listing@), entrypoint@, path_match) && verdict_view(r) == zip_verdict(
        Ok(listing@),
        path_match,
    ));
    r
}

/// Checks the ZIP payload `bytes` against `entrypoint` as the bootstrap does
/// before unpacking it.
pub fn check_zip_payload(bytes: &[u8], entrypoint: &str) -> (r: Result<(), String>)
    ensures
        exists|path_match: Option<bool>|
            path_match_known(zip_listing(bytes@), entrypoint@, path_match) && verdict_view(r) == zip_verdict(zip_listing(bytes@), path_match),
{
    match read_zip_listing(bytes) {
        Ok(listing) => {
            let r = check_zip_listing(&listing, entrypoint);
            proof {
                let path_match = choose|path_match: Option<bool>|
                    path_match_known(Ok(listing@), entrypoint@, path_match) && verdict_view(r)
                        == zip_verdict(Ok(listing@), path_match);
                assert(path_match_known(zip_listing(bytes@), entrypoint@, path_match) && verdict_view(r)
                    == zip_verdict(zip_listing(bytes@), path_match));
            }
            r
        },
        Err(text) => {
            let mut message = String::from_str("The payload ZIP is invalid: ");
            message.append(text.as_str());
            let r = Err(message);
            assert(path_match_known(zip_listing(bytes@), entrypoint@, None) && verdict_view(r)
                == zip_verdict(zip_listing(bytes@), None));
            r
        },
    }
}

/// The outcome of unpacking a ZIP payload: the verdict of its checks, and
/// where they pass, the first entry's data or the error reading it gave.
pub open spec fn zip_extraction(
    listing: Result<ZipListingView, Seq<char>>,
    path_match: Option<bool>,
    data: Result<Seq<u8>, Seq<char>>,
) -> Result<Seq<u8>, Seq<char>> {
    match zip_verdict(listing, path_match) {
        Err(e) => Err(e),
        Ok(()) => match data {
            Ok(d) => Ok(d),
            Err(text) => Err("Failed to extract the payload executable: "@ + text),
        },
    }
}

/// Unpacked bytes, or an error, taken by their views.
pub open spec fn extraction_view(r: Result<Vec<u8>, String>) -> Result<Seq<u8>, Seq<char>> {
    match r {
        Ok(data) => Ok(data@),
        Err(e) => Err(e@),
    }
}

/// The executable that the ZIP payload `archive` holds for `artifact`: its
/// only entry, after the checks of `check_zip_payload`. The path reading
/// follows the platform, as there.
pub fn extract_single_executable(artifact: &PayloadArtifact, archive: &[u8]) -> (r: Result<
    Vec<u8>,
    String,
>)
    ensures
        exists|path_match: Option<bool>|
            path_match_known(zip_listing(archive@), artifact.entrypoint@, path_match)
                && extraction_view(r) == zip_extraction(
                zip_listing(archive@),
                path_match,
                zip_first_entry_data(archive@),
            ),
{
    let verdict = check_zip_payload(archive, artifact.entrypoint.as_str());
    let ghost path_match = choose|path_match: Option<bool>|
        path_match_known(zip_listing(archive@), artifact.entrypoint@, path_match) && verdict_view(
            verdict,
        ) == zip_verdict(zip_listing(archive@), path_match);
    let r = match verdict {
        Err(error) => Err(error),
        Ok(()) => match read_zip_member(archive) {
            Ok(data) => Ok(data),
            Err(text) => {
                let mut message = String::from_str("Failed to extract the payload executable: ");
                message.append(text.as_str());
                Err(message)
            },
        },
    };
    assert(path_match_known(zip_listing(archive@), artifact.entrypoint@, path_match)
        && extraction_view(r) == zip_extraction(
        zip_listing(archive@),
        path_match,
        zip_first_entry_data(archive@),
    ));
    r
}

/// The steps of installing a build, in the order the bootstrap takes them.
/// The file and network work of each step is done by the caller; the order
/// is decided by `next_install_step`.
#[derive(Debug, Clone, Copy, PartialEq, Eq, Structural)]
pub enum InstallStep {
    /// Look for the build's entrypoint in its version directory.
    LookForCachedBuild,
    /// Clear a stale staging directory and create it afresh.
    PrepareStaging,
    /// Download the payload into staging and verify its size and SHA-256.
    DownloadVerified,
    /// Turn the verified download into a runnable build in staging.
    Activate,
    /// Look for the entrypoint in staging.
    ConfirmEntrypoint,
    /// Look for a (broken) build already in the version directory.
    CheckDestination,
    /// Remove that build.
    ClearDestination,
    /// Rename staging to the version directory.
    MoveIntoPlace,
    /// The build is installed, or was already.
    Installed,
    /// Staging could not be prepared: report the error.
    Failed,
    /// A step after staging failed: remove staging and report the error.
    Abandon,
}

/// The step after `step`, where `succeeded` is whether its work succeeded
/// and `present` whether the file or directory it looked for is there.
pub open spec fn install_step_after(step: InstallStep, succeeded: bool, present: bool) -> InstallStep {
    match step {
        InstallStep::LookForCachedBuild => if present {
            InstallStep::Installed
        } else {
            InstallStep::PrepareStaging
        },
        InstallStep::PrepareStaging => if succeeded {
            InstallStep::DownloadVerified
        } else {
            InstallStep::Failed
        },
        InstallStep::DownloadVerified => if succeeded {
            InstallStep::Activate
        } else {
            InstallStep::Abandon
        },
        InstallStep::Activate => if succeeded {
            InstallStep::ConfirmEntrypoint
        } else {
            InstallStep::Abandon
        },
        InstallStep::ConfirmEntrypoint => if present {
            InstallStep::CheckDestination
        } else {
            InstallStep::Abandon
        },
        InstallStep::CheckDestination => if present {
            InstallStep::ClearDestination
        } else {
            InstallStep::MoveIntoPlace
        },
        InstallStep::ClearDestination => if succeeded {
            InstallStep::MoveIntoPlace
        } else {
            InstallStep::Abandon
        },
        InstallStep::MoveIntoPlace => if succeeded {
            InstallStep::Installed
        } else {
            InstallStep::Abandon
        },
        InstallStep::Installed => InstallStep::Installed,
        InstallStep::Failed => InstallStep::Failed,
        InstallStep::Abandon => InstallStep::Abandon,
    }
}

/// Decides the install step after `step`, given whether its work succeeded
/// and whether what it looked for is present.
pub fn next_install_step(step: InstallStep, succeeded: bool, present: bool) -> (r: InstallStep)
    ensures
        r == install_step_after(step, succeeded, present),
{
    match step {
        InstallStep::LookForCachedBuild => if present {
            InstallStep::Installed
        } else {
            InstallStep::PrepareStaging
        },
        InstallStep::PrepareStaging => if succeeded {
            InstallStep::DownloadVerified
        } else {
            InstallStep::Failed
        },
        InstallStep::DownloadVerified => if succeeded {
            InstallStep::Activate
        } else {
            InstallStep::Abandon
        },
        InstallStep::Activate => if succeeded {
            InstallStep::ConfirmEntrypoint
        } else {
            InstallStep::Abandon
        },
        InstallStep::ConfirmEntrypoint => if present {
            InstallStep::CheckDestination
        } else {
            InstallStep::Abandon
        },
        InstallStep::CheckDestination => if present {
            InstallStep::ClearDestination
        } else {
            InstallStep::MoveIntoPlace
        },
        InstallStep::ClearDestination => if succeeded {
            InstallStep::MoveIntoPlace
        } else {
            InstallStep::Abandon
        },
        InstallStep::MoveIntoPlace => if succeeded {
            InstallStep::Installed
        } else {
            InstallStep::Abandon
        },
        InstallStep::Installed => InstallStep::Installed,
        InstallStep::Failed => InstallStep::Failed,
        InstallStep::Abandon => InstallStep::Abandon,
    }
}

} // verus!
