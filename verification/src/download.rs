//! Downloading an app: the store's answer, the name of the file, and the
//! plan for writing the account's metadata and the DRM signatures into the
//! archive.
use vstd::prelude::*;
use crate::constants::{
    FAILURE_TYPE_LICENSE_NOT_FOUND, FAILURE_TYPE_PASSWORD_TOKEN_EXPIRED,
    FAILURE_TYPE_SIGN_IN_REQUIRED,
};
use crate::error::{ErrorView, IpaToolError, missing_data, res_view, unexpected};
use crate::metadata::{PlistScalar, find_key, lemma_find_key_bounds, lookup, scalar_text};
use crate::paths::{bundle_name_spec, extract_bundle_name};
use crate::purchase::is_text;
use crate::session::{join_path, joined};
use crate::text::{chars_of, concat, concat3, decimal, is_prefix, opt_is, opt_seq, str_eq, u64_to_string};
use crate::types::{Account, AppRef, DownloadItem, DownloadResult};

verus! {

// ---------------------------------------------------------------------------
// The store's answer
// ---------------------------------------------------------------------------

/// What a download answer means: its failure, or the first item when that
/// item has a URL.
pub open spec fn download_answer_spec(p: DownloadResult) -> Result<DownloadItem, ErrorView> {
    if is_text(p.failure_type, FAILURE_TYPE_PASSWORD_TOKEN_EXPIRED@) {
        Err(ErrorView::PasswordTokenExpired)
    } else if is_text(p.failure_type, FAILURE_TYPE_LICENSE_NOT_FOUND@) {
        Err(ErrorView::LicenseRequired)
    } else if p.failure_type is Some && p.customer_message is Some {
        Err(ErrorView::Unexpected(p.customer_message->0@))
    } else if p.failure_type is Some {
        Err(ErrorView::Unexpected(p.failure_type->0@))
    } else if p.items is None || p.items->0@.len() == 0 {
        Err(ErrorView::Unexpected("invalid response"@))
    } else if p.items->0@[0].url is None {
        Err(ErrorView::Unexpected("missing download URL"@))
    } else {
        Ok(p.items->0@[0])
    }
}

/// The item to download from the store's answer to a download request.
pub fn select_download_item(parsed: DownloadResult) -> (r: Result<DownloadItem, IpaToolError>)
    ensures
        res_view(r) == download_answer_spec(parsed),
{
    if opt_is(&parsed.failure_type, FAILURE_TYPE_PASSWORD_TOKEN_EXPIRED) {
        return Err(IpaToolError::PasswordTokenExpired);
    }
    if opt_is(&parsed.failure_type, FAILURE_TYPE_LICENSE_NOT_FOUND) {
        return Err(IpaToolError::LicenseRequired);
    }
    match (parsed.failure_type, parsed.customer_message) {
        (Some(_), Some(m)) => return Err(IpaToolError::Unexpected(m)),
        (Some(f), None) => return Err(IpaToolError::Unexpected(f)),
        _ => {},
    }
    let mut items = match parsed.items {
        Some(items) => items,
        None => return Err(unexpected("invalid response")),
    };
    if items.len() == 0 {
        return Err(unexpected("invalid response"));
    }
    let item = items.remove(0);
    if item.url.is_none() {
        return Err(unexpected("missing download URL"));
    }
    Ok(item)
}

/// What the answer to a request for one version means: its failure, or its
/// first item.
pub open spec fn version_answer_spec(p: DownloadResult) -> Result<DownloadItem, ErrorView> {
    if is_text(p.failure_type, FAILURE_TYPE_PASSWORD_TOKEN_EXPIRED@) || is_text(
        p.failure_type,
        FAILURE_TYPE_SIGN_IN_REQUIRED@,
    ) {
        Err(ErrorView::PasswordTokenExpired)
    } else if is_text(p.failure_type, FAILURE_TYPE_LICENSE_NOT_FOUND@) {
        Err(ErrorView::LicenseRequired)
    } else if p.failure_type is Some {
        Err(
            ErrorView::Unexpected(
                match p.customer_message {
                    Some(m) => m@,
                    None => p.failure_type->0@,
                },
            ),
        )
    } else if p.items is None || p.items->0@.len() == 0 {
        Err(ErrorView::Unexpected("invalid response"@))
    } else {
        Ok(p.items->0@[0])
    }
}

/// The item from the store's answer to a request for one version.
pub fn select_version_item(parsed: DownloadResult) -> (r: Result<DownloadItem, IpaToolError>)
    ensures
        res_view(r) == version_answer_spec(parsed),
{
    if opt_is(&parsed.failure_type, FAILURE_TYPE_PASSWORD_TOKEN_EXPIRED) || opt_is(
        &parsed.failure_type,
        FAILURE_TYPE_SIGN_IN_REQUIRED,
    ) {
        return Err(IpaToolError::PasswordTokenExpired);
    }
    if opt_is(&parsed.failure_type, FAILURE_TYPE_LICENSE_NOT_FOUND) {
        return Err(IpaToolError::LicenseRequired);
    }
    if let Some(f) = parsed.failure_type {
        return Err(
            IpaToolError::Unexpected(
                match parsed.customer_message {
                    Some(m) => m,
                    None => f,
                },
            ),
        );
    }
    let mut items = match parsed.items {
        Some(items) => items,
        None => return Err(unexpected("invalid response")),
    };
    if items.len() == 0 {
        return Err(unexpected("invalid response"));
    }
    Ok(items.remove(0))
}

/// The address an item is to be fetched from.
pub fn item_url(item: &DownloadItem) -> (r: Result<String, IpaToolError>)
    ensures
        match r {
            Ok(u) => item.url == Some(u),
            Err(e) => item.url is None && e@ == (ErrorView::MissingData { thing: "download URL"@ }),
        },
{
    match &item.url {
        Some(u) => Ok(u.clone()),
        None => Err(missing_data("download URL")),
    }
}

// ---------------------------------------------------------------------------
// The name of the file
// ---------------------------------------------------------------------------

/// The version of an item as its metadata shows it, or `unknown`.
pub open spec fn item_version_spec(item: DownloadItem) -> Seq<char> {
    match item.metadata {
        None => "unknown"@,
        Some(m) => match find_key(m@, "bundleShortVersionString"@) {
            None => "unknown"@,
            Some(i) => match m@[i].value {
                PlistScalar::String(s) => if s@.len() > 0 {
                    s@
                } else {
                    "unknown"@
                },
                PlistScalar::Integer(_) => scalar_text(m@[i].value),
                PlistScalar::Real { .. } => scalar_text(m@[i].value),
                PlistScalar::Boolean(_) => scalar_text(m@[i].value),
                _ => "unknown"@,
            },
        },
    }
}

/// The version of an item, as its metadata shows it, or `unknown`.
pub fn item_version(item: &DownloadItem) -> (s: String)
    ensures
        s@ == item_version_spec(*item),
{
    let meta = match &item.metadata {
        Some(m) => m,
        None => return String::from_str("unknown"),
    };
    let i = match lookup(meta, "bundleShortVersionString") {
        Some(i) => i,
        None => return String::from_str("unknown"),
    };
    proof {
        lemma_find_key_bounds(meta@, "bundleShortVersionString"@);
    }
    match &meta[i].value {
        PlistScalar::String(s) => {
            if chars_of(s.as_str()).len() > 0 {
                s.clone()
            } else {
                String::from_str("unknown")
            }
        },
        PlistScalar::Integer(v) => crate::text::i128_to_string(*v),
        PlistScalar::Real { text, whole: _ } => text.clone(),
        PlistScalar::Boolean(b) => if *b {
            String::from_str("true")
        } else {
            String::from_str("false")
        },
        _ => String::from_str("unknown"),
    }
}

/// `parts` joined with `_` between them.
pub open spec fn join_underscore(parts: Seq<Seq<char>>) -> Seq<char>
    decreases parts.len(),
{
    if parts.len() == 0 {
        Seq::empty()
    } else if parts.len() == 1 {
        parts[0]
    } else {
        join_underscore(parts.drop_last()) + "_"@ + parts.last()
    }
}

/// The parts of a file name: the bundle identifier when there is one, the
/// app's id unless it is 0, and the version unless it is empty.
pub open spec fn file_name_parts(bundle_id: Option<Seq<char>>, id: u64, version: Seq<char>) -> Seq<
    Seq<char>,
> {
    let p1: Seq<Seq<char>> = match bundle_id {
        Some(b) => if b.len() > 0 {
            seq![b]
        } else {
            Seq::empty()
        },
        None => Seq::empty(),
    };
    let p2 = if id != 0 {
        p1.push(decimal(id as nat))
    } else {
        p1
    };
    if version.len() > 0 {
        p2.push(version)
    } else {
        p2
    }
}

pub open spec fn file_name_spec(bundle_id: Option<Seq<char>>, id: u64, version: Seq<char>) -> Seq<
    char,
> {
    join_underscore(file_name_parts(bundle_id, id, version)) + ".ipa"@
}

fn push_part(acc: String, count: usize, part: &str) -> (r: String)
    ensures
        r@ == if count == 0 {
            part@
        } else {
            acc@ + "_"@ + part@
        },
{
    if count == 0 {
        String::from_str(part)
    } else {
        concat3(acc.as_str(), "_", part)
    }
}

/// The name the archive is saved under, such as `com.example.app_42_1.0.ipa`.
pub fn file_name(app: &AppRef, version: &str) -> (s: String)
    ensures
        s@ == file_name_spec(opt_seq(app.bundle_id), app.id, version@),
{
    let ghost bv = opt_seq(app.bundle_id);
    let ghost parts = file_name_parts(bv, app.id, version@);
    let mut acc = String::new();
    let mut count: usize = 0;
    let ghost mut done: Seq<Seq<char>> = Seq::empty();
    match &app.bundle_id {
        Some(b) => {
            if chars_of(b.as_str()).len() > 0 {
                acc = push_part(acc, count, b.as_str());
                count = count + 1;
                proof {
                    done = done.push(b@);
                    assert(join_underscore(done) == b@);
                }
            }
        },
        None => {},
    }
    assert(acc@ == join_underscore(done) && count == done.len());
    if app.id != 0 {
        let id = u64_to_string(app.id);
        acc = push_part(acc, count, id.as_str());
        count = count + 1;
        proof {
            let old_done = done;
            done = done.push(decimal(app.id as nat));
            assert(done.drop_last() =~= old_done);
        }
    }
    assert(acc@ == join_underscore(done) && count == done.len());
    if chars_of(version).len() > 0 {
        acc = push_part(acc, count, version);
        proof {
            let old_done = done;
            done = done.push(version@);
            assert(done.drop_last() =~= old_done);
        }
    }
    assert(done =~= parts);
    concat(acc.as_str(), ".ipa")
}

/// Where the archive is saved: in the working directory when no output path
/// is given, inside the output path when it is an existing directory, and at
/// the output path otherwise.
pub open spec fn destination_spec(
    file: Seq<char>,
    output: Option<Seq<char>>,
    cwd: Seq<char>,
    output_is_dir: bool,
) -> Seq<char> {
    match output {
        None => joined(cwd, file),
        Some(p) => if p.len() == 0 {
            joined(cwd, file)
        } else if output_is_dir {
            joined(p, file)
        } else {
            p
        },
    }
}

/// The path the archive is saved under; `output_is_dir` says whether the
/// output path names an existing directory.
pub fn destination_path(file: &str, output: Option<&str>, cwd: &str, output_is_dir: bool) -> (r:
    String)
    ensures
        r@ == destination_spec(
            file@,
            match output {
                Some(p) => Some(p@),
                None => None,
            },
            cwd@,
            output_is_dir,
        ),
{
    match output {
        None => join_path(cwd, file),
        Some(p) => {
            if chars_of(p).len() == 0 {
                join_path(cwd, file)
            } else if output_is_dir {
                join_path(p, file)
            } else {
                String::from_str(p)
            }
        },
    }
}

/// Given a non-empty output path that names an existing directory, the
/// archive goes into that directory: the destination starts with the path,
/// then a separator unless the path already ends in one, then the file name,
/// and nothing else. The working directory plays no part.
pub proof fn destination_in_given_directory(
    file: Seq<char>,
    p: Seq<char>,
    cwd: Seq<char>,
    other_cwd: Seq<char>,
)
    requires
        p.len() > 0,
    ensures
        ({
            let d = destination_spec(file, Some(p), cwd, true);
            let sep: int = if p.last() == '/' {
                0
            } else {
                1
            };
            &&& d.len() == p.len() + sep + file.len()
            &&& d.subrange(0, p.len() as int) == p
            &&& d.subrange(p.len() + sep, d.len() as int) == file
            &&& sep == 1 ==> d[p.len() as int] == '/'
            &&& d == destination_spec(file, Some(p), other_cwd, true)
        }),
{
    reveal_strlit("/");
    let d = destination_spec(file, Some(p), cwd, true);
    if p.last() == '/' {
        assert(d == p + file);
        assert(d.subrange(0, p.len() as int) =~= p);
        assert(d.subrange(p.len() as int, d.len() as int) =~= file);
    } else {
        assert(d == p + "/"@ + file);
        assert(d.subrange(0, p.len() as int) =~= p);
        assert(d.subrange(p.len() as int + 1, d.len() as int) =~= file);
    }
}

/// Where the archive is downloaded before it is patched.
pub fn download_temp_path(destination: &str) -> (r: String)
    ensures
        r@ == destination@ + ".tmp"@,
{
    concat(destination, ".tmp")
}

/// Where the patched archive is written before it replaces the destination.
pub fn patch_temp_path(destination: &str) -> (r: String)
    ensures
        r@ == destination@ + ".patch.tmp"@,
{
    concat(destination, ".patch.tmp")
}

// ---------------------------------------------------------------------------
// Patching the archive
// ---------------------------------------------------------------------------

/// The parts of the bundle's `Info.plist` that patching reads.
#[derive(Debug, Clone)]
pub struct PackageInfo {
    pub bundle_executable: Option<String>,
}

/// The parts of `SC_Info/Manifest.plist` that patching reads.
#[derive(Debug, Clone)]
pub struct PackageManifest {
    pub sinf_paths: Option<Vec<String>>,
}

/// The first entry of the archive that is the main app's `Info.plist`, and
/// the bundle's name.
pub open spec fn main_info_spec(names: Seq<String>) -> Option<(Seq<char>, Seq<char>)>
    decreases names.len(),
{
    if names.len() == 0 {
        None
    } else {
        match main_info_spec(names.drop_last()) {
            Some(r) => Some(r),
            None => match bundle_name_spec(names.last()@) {
                Some(b) => Some((names.last()@, b)),
                None => None,
            },
        }
    }
}

proof fn lemma_main_info_prefix(names: Seq<String>, n: int)
    requires
        0 <= n <= names.len(),
        main_info_spec(names.subrange(0, n)) is Some,
    ensures
        main_info_spec(names) == main_info_spec(names.subrange(0, n)),
    decreases names.len() - n,
{
    if n < names.len() {
        let t = names.subrange(0, n + 1);
        assert(t.drop_last() =~= names.subrange(0, n));
        lemma_main_info_prefix(names, n + 1);
    } else {
        assert(names.subrange(0, n) =~= names);
    }
}

/// The path of the main app's `Info.plist` among the entry names, and the
/// name of its bundle.
pub fn find_main_info_plist(names: &Vec<String>) -> (r: Result<(String, String), IpaToolError>)
    ensures
        match r {
            Ok((path, bundle)) => main_info_spec(names@) == Some((path@, bundle@)),
            Err(e) => main_info_spec(names@) is None && e@ == (ErrorView::MissingData {
                thing: "main app Info.plist"@,
            }),
        },
{
    let mut i: usize = 0;
    while i < names.len()
        invariant
            i <= names@.len(),
            main_info_spec(names@.subrange(0, i as int)) is None,
        decreases names@.len() - i,
    {
        let ghost pre = names@.subrange(0, i as int + 1);
        assert(pre.drop_last() =~= names@.subrange(0, i as int));
        match extract_bundle_name(names[i].as_str()) {
            Some(b) => {
                proof {
                    lemma_main_info_prefix(names@, i as int + 1);
                }
                return Ok((names[i].clone(), b));
            },
            None => {},
        }
        i = i + 1;
    }
    assert(names@.subrange(0, names@.len() as int) =~= names@);
    Err(missing_data("main app Info.plist"))
}

/// Where a bundle keeps the list of its DRM signatures.
pub open spec fn manifest_path_spec(bundle: Seq<char>) -> Seq<char> {
    "Payload/"@ + bundle + ".app/SC_Info/Manifest.plist"@
}

/// The path of the bundle's list of DRM signatures.
pub fn manifest_path(bundle_name: &str) -> (s: String)
    ensures
        s@ == manifest_path_spec(bundle_name@),
{
    concat3("Payload/", bundle_name, ".app/SC_Info/Manifest.plist")
}

/// The path of a file inside the bundle.
pub open spec fn in_bundle(bundle: Seq<char>, path: Seq<char>) -> Seq<char> {
    "Payload/"@ + bundle + ".app/"@ + path
}

/// Where the signatures go: the paths the manifest lists, one for each
/// signature, or, without a manifest, the one signature beside the
/// executable in `SC_Info`.
pub open spec fn sinf_targets_spec(
    item: DownloadItem,
    bundle: Seq<char>,
    info: PackageInfo,
    manifest: Option<PackageManifest>,
) -> Result<Seq<Seq<char>>, ErrorView> {
    let sinf_data = ErrorView::MissingData { thing: "SINF data"@ };
    match item.sinfs {
        None => Err(sinf_data),
        Some(sinfs) => if sinfs@.len() == 0 {
            Err(sinf_data)
        } else if exists|i: int| 0 <= i < sinfs@.len() && (#[trigger] sinfs@[i]).data is None {
            Err(sinf_data)
        } else {
            match manifest {
                Some(m) => {
                    let paths: Seq<String> = match m.sinf_paths {
                        Some(p) => p@,
                        None => Seq::empty(),
                    };
                    if sinfs@.len() != paths.len() {
                        Err(
                            ErrorView::SinfCountMismatch {
                                sinfs: sinfs@.len() as usize,
                                targets: paths.len() as usize,
                            },
                        )
                    } else {
                        Ok(paths.map_values(|p: String| in_bundle(bundle, p@)))
                    }
                },
                None => if sinfs@.len() != 1 {
                    Err(ErrorView::SinfCountMismatch { sinfs: sinfs@.len() as usize, targets: 1 })
                } else {
                    match info.bundle_executable {
                        Some(exe) => if exe@.len() > 0 {
                            Ok(seq![in_bundle(bundle, "SC_Info/"@ + exe@ + ".sinf"@)])
                        } else {
                            Err(ErrorView::MissingData { thing: "CFBundleExecutable"@ })
                        },
                        None => Err(ErrorView::MissingData { thing: "CFBundleExecutable"@ }),
                    }
                },
            }
        },
    }
}

/// When the targets are found, there is one for each signature, every
/// signature has its data, and every target lies inside the bundle: writing
/// the signatures to the targets writes each of them once.
pub proof fn every_signature_has_a_target(
    item: DownloadItem,
    bundle: Seq<char>,
    info: PackageInfo,
    manifest: Option<PackageManifest>,
)
    requires
        sinf_targets_spec(item, bundle, info, manifest) is Ok,
    ensures
        ({
            let t = sinf_targets_spec(item, bundle, info, manifest)->Ok_0;
            &&& item.sinfs is Some
            &&& t.len() == item.sinfs->0@.len()
            &&& forall|k: int| 0 <= k < t.len() ==> (#[trigger] item.sinfs->0@[k]).data is Some
            &&& forall|k: int|
                0 <= k < t.len() ==> is_prefix("Payload/"@ + bundle + ".app/"@, #[trigger] t[k])
        }),
{
    let t = sinf_targets_spec(item, bundle, info, manifest)->Ok_0;
    let sinfs = item.sinfs->0@;
    assert(item.sinfs is Some);
    match manifest {
        Some(m) => {
            let paths: Seq<String> = match m.sinf_paths {
                Some(p) => p@,
                None => Seq::empty(),
            };
            assert(t == paths.map_values(|p: String| in_bundle(bundle, p@)));
            assert(t.len() == sinfs.len());
        },
        None => {
            assert(t.len() == sinfs.len());
        },
    }
    assert forall|k: int| 0 <= k < t.len() implies (#[trigger] sinfs[k]).data is Some by {
        if sinfs[k].data is None {
            assert(exists|i: int| 0 <= i < sinfs.len() && (#[trigger] sinfs[i]).data is None);
        }
    }
    let dir = "Payload/"@ + bundle + ".app/"@;
    assert forall|k: int| 0 <= k < t.len() implies is_prefix(dir, #[trigger] t[k]) by {
        let path = match manifest {
            Some(m) => {
                let paths: Seq<String> = match m.sinf_paths {
                    Some(p) => p@,
                    None => Seq::empty(),
                };
                paths[k]@
            },
            None => "SC_Info/"@ + info.bundle_executable->0@ + ".sinf"@,
        };
        assert(t[k] == in_bundle(bundle, path));
        assert(in_bundle(bundle, path) =~= dir + path);
        assert((dir + path).subrange(0, dir.len() as int) =~= dir);
    }
}

pub open spec fn strings_view(v: Seq<String>) -> Seq<Seq<char>> {
    v.map_values(|s: String| s@)
}

fn bundle_path(bundle_name: &str, path: &str) -> (s: String)
    ensures
        s@ == in_bundle(bundle_name@, path@),
{
    let s = concat3("Payload/", bundle_name, ".app/");
    concat(s.as_str(), path)
}

/// The paths inside the archive that the item's signatures are written to.
pub fn resolve_sinf_targets(
    item: &DownloadItem,
    bundle_name: &str,
    info: &PackageInfo,
    manifest: Option<&PackageManifest>,
) -> (r: Result<Vec<String>, IpaToolError>)
    ensures
        match r {
            Ok(v) => sinf_targets_spec(
                *item,
                bundle_name@,
                *info,
                match manifest {
                    Some(m) => Some(*m),
                    None => None,
                },
            ) == Ok::<Seq<Seq<char>>, ErrorView>(strings_view(v@)),
            Err(e) => sinf_targets_spec(
                *item,
                bundle_name@,
                *info,
                match manifest {
                    Some(m) => Some(*m),
                    None => None,
                },
            ) == Err::<Seq<Seq<char>>, ErrorView>(e@),
        },
{
    let sinfs = match &item.sinfs {
        Some(s) => s,
        None => return Err(missing_data("SINF data")),
    };
    if sinfs.len() == 0 {
        return Err(missing_data("SINF data"));
    }
    let mut i: usize = 0;
    while i < sinfs.len()
        invariant
            item.sinfs == Some(*sinfs),
            sinfs@.len() > 0,
            i <= sinfs@.len(),
            forall|k: int| 0 <= k < i ==> (#[trigger] sinfs@[k]).data is Some,
        decreases sinfs@.len() - i,
    {
        if sinfs[i].data.is_none() {
            assert(sinfs@[i as int].data is None);
            return Err(missing_data("SINF data"));
        }
        i = i + 1;
    }
    match manifest {
        Some(m) => {
            let empty: Vec<String> = Vec::new();
            let paths = match &m.sinf_paths {
                Some(p) => p,
                None => &empty,
            };
            if sinfs.len() != paths.len() {
                return Err(
                    IpaToolError::SinfCountMismatch { sinfs: sinfs.len(), targets: paths.len() },
                );
            }
            let mut out: Vec<String> = Vec::new();
            let mut j: usize = 0;
            while j < paths.len()
                invariant
                    j <= paths@.len(),
                    out@.len() == j,
                    strings_view(out@) =~= paths@.subrange(0, j as int).map_values(
                        |p: String| in_bundle(bundle_name@, p@),
                    ),
                decreases paths@.len() - j,
            {
                let ghost before = out@;
                out.push(bundle_path(bundle_name, paths[j].as_str()));
                proof {
                    let pre = paths@.subrange(0, j as int);
                    assert(paths@.subrange(0, j as int + 1) =~= pre.push(paths@[j as int]));
                    assert(pre.push(paths@[j as int]).map_values(
                        |p: String| in_bundle(bundle_name@, p@),
                    ) =~= pre.map_values(|p: String| in_bundle(bundle_name@, p@)).push(
                        in_bundle(bundle_name@, paths@[j as int]@),
                    ));
                    assert(strings_view(out@) =~= strings_view(before).push(out@[j as int]@));
                }
                j = j + 1;
            }
            assert(paths@.subrange(0, paths@.len() as int) =~= paths@);
            Ok(out)
        },
        None => {
            if sinfs.len() != 1 {
                return Err(IpaToolError::SinfCountMismatch { sinfs: sinfs.len(), targets: 1 });
            }
            let exe = match &info.bundle_executable {
                Some(e) => e,
                None => return Err(missing_data("CFBundleExecutable")),
            };
            if chars_of(exe.as_str()).len() == 0 {
                return Err(missing_data("CFBundleExecutable"));
            }
            let name = concat3("SC_Info/", exe.as_str(), ".sinf");
            let mut out: Vec<String> = Vec::new();
            out.push(bundle_path(bundle_name, name.as_str()));
            assert(strings_view(out@) =~= seq![
                in_bundle(bundle_name@, "SC_Info/"@ + exe@ + ".sinf"@),
            ]);
            Ok(out)
        },
    }
}

/// Entries of the archive that patching writes anew, and so does not copy:
/// the signatures' targets and `iTunesMetadata.plist`.
pub open spec fn is_replaced_spec(name: Seq<char>, targets: Seq<Seq<char>>) -> bool {
    name == "iTunesMetadata.plist"@ || targets.contains(name)
}

/// Whether patching writes the entry `name` anew instead of copying it.
pub fn is_replaced(name: &str, targets: &Vec<String>) -> (r: bool)
    ensures
        r == is_replaced_spec(name@, strings_view(targets@)),
{
    if str_eq(name, "iTunesMetadata.plist") {
        return true;
    }
    let mut i: usize = 0;
    while i < targets.len()
        invariant
            i <= targets@.len(),
            forall|k: int| 0 <= k < i ==> targets@[k]@ != name@,
        decreases targets@.len() - i,
    {
        if str_eq(targets[i].as_str(), name) {
            assert(strings_view(targets@)[i as int] == name@);
            return true;
        }
        i = i + 1;
    }
    assert(!strings_view(targets@).contains(name@)) by {
        if strings_view(targets@).contains(name@) {
            let k = choose|k: int| 0 <= k < targets@.len() && strings_view(targets@)[k] == name@;
            assert(targets@[k]@ == name@);
        }
    }
    false
}

/// The names of the source entries that patching copies as they are, in
/// order: those it does not replace.
pub open spec fn copied_names(names: Seq<Seq<char>>, targets: Seq<Seq<char>>) -> Seq<Seq<char>> {
    names.filter(|n: Seq<char>| !is_replaced_spec(n, targets))
}

/// The names in the patched archive: the copied entries, then
/// `iTunesMetadata.plist`, then the signatures at their targets.
pub open spec fn patched_names(names: Seq<Seq<char>>, targets: Seq<Seq<char>>) -> Seq<Seq<char>> {
    copied_names(names, targets) + seq!["iTunesMetadata.plist"@] + targets
}

/// The patched archive holds `iTunesMetadata.plist` once and each signature
/// target once, whatever the source archive held, when the targets are
/// different paths inside `Payload/`.
pub proof fn patched_archive_has_each_replacement_once(
    names: Seq<Seq<char>>,
    targets: Seq<Seq<char>>,
)
    requires
        targets.no_duplicates(),
        forall|k: int| 0 <= k < targets.len() ==> is_prefix("Payload/"@, #[trigger] targets[k]),
    ensures
        patched_names(names, targets).to_multiset().count("iTunesMetadata.plist"@) == 1,
        forall|k: int|
            0 <= k < targets.len() ==> patched_names(names, targets).to_multiset().count(
                #[trigger] targets[k],
            ) == 1,
{
    broadcast use vstd::seq_lib::group_seq_properties;
    broadcast use vstd::multiset::group_multiset_axioms;

    let meta = "iTunesMetadata.plist"@;
    let c = copied_names(names, targets);
    let one = seq![meta];
    let pred = |n: Seq<char>| !is_replaced_spec(n, targets);
    reveal_strlit("iTunesMetadata.plist");
    reveal_strlit("Payload/");
    vstd::seq_lib::lemma_multiset_commutative(c, one);
    vstd::seq_lib::lemma_multiset_commutative(c + one, targets);
    targets.lemma_multiset_has_no_duplicates();
    // Nothing replaced is copied.
    assert forall|x: Seq<char>| is_replaced_spec(x, targets) implies c.to_multiset().count(x)
        == 0 by {
        if c.contains(x) {
            let i = choose|i: int| 0 <= i < c.len() && c[i] == x;
            names.lemma_filter_pred(pred, i);
        }
    }
    // The metadata is not a signature target.
    assert(!targets.contains(meta)) by {
        if targets.contains(meta) {
            let k = choose|k: int| 0 <= k < targets.len() && targets[k] == meta;
            let t = targets[k];
            assert(is_prefix("Payload/"@, t));
            assert(t.subrange(0, 8)[0] == t[0]);
            assert(t[0] == 'P');
            assert(meta[0] == 'i');
        }
    }
    assert(one.to_multiset().count(meta) == 1) by {
        assert(one =~= Seq::<Seq<char>>::empty().push(meta));
    }
    assert(is_replaced_spec(meta, targets));
    assert forall|k: int| 0 <= k < targets.len() implies patched_names(
        names,
        targets,
    ).to_multiset().count(#[trigger] targets[k]) == 1 by {
        let t = targets[k];
        assert(targets.contains(t));
        assert(is_replaced_spec(t, targets));
        assert(t != meta);
        assert(one =~= Seq::<Seq<char>>::empty().push(meta));
        assert(one.to_multiset().count(t) == 0);
    }
}

/// The keys written into `iTunesMetadata.plist` for the account: the Apple
/// ID under `apple-id` and `userName`.
pub fn account_metadata(acc: &Account) -> (v: Vec<(String, String)>)
    ensures
        v@.len() == 2,
        v@[0].0@ == "apple-id"@ && v@[0].1@ == acc.email@,
        v@[1].0@ == "userName"@ && v@[1].1@ == acc.email@,
{
    let mut v: Vec<(String, String)> = Vec::new();
    v.push((String::from_str("apple-id"), acc.email.clone()));
    v.push((String::from_str("userName"), acc.email.clone()));
    v
}

/// The signature data to write at each target, pairing the item's
/// signatures with the targets in order for as long as both last.
pub fn sinf_writes(item: &DownloadItem, targets: &Vec<String>) -> (r: Result<
    Vec<(String, Vec<u8>)>,
    IpaToolError,
>)
    ensures
        match r {
            Ok(w) => item.sinfs is Some && {
                let s = item.sinfs->0@;
                let n = if s.len() < targets@.len() {
                    s.len()
                } else {
                    targets@.len()
                };
                &&& w@.len() == n
                &&& forall|k: int|
                    0 <= k < n ==> #[trigger] w@[k].0@ == targets@[k]@ && s[k].data is Some
                        && s[k].data->0@ == w@[k].1@
            },
            Err(e) => e@ == (ErrorView::MissingData { thing: "SINF data"@ }) && (item.sinfs is None
                || exists|k: int|
                0 <= k < item.sinfs->0@.len() && k < targets@.len()
                    && (#[trigger] item.sinfs->0@[k]).data is None),
        },
{
    let sinfs = match &item.sinfs {
        Some(s) => s,
        None => return Err(missing_data("SINF data")),
    };
    let n = if sinfs.len() < targets.len() {
        sinfs.len()
    } else {
        targets.len()
    };
    let mut w: Vec<(String, Vec<u8>)> = Vec::new();
    let mut k: usize = 0;
    while k < n
        invariant
            item.sinfs == Some(*sinfs),
            n == (if sinfs@.len() < targets@.len() {
                sinfs@.len()
            } else {
                targets@.len()
            }),
            k <= n,
            w@.len() == k,
            forall|j: int|
                0 <= j < k ==> #[trigger] w@[j].0@ == targets@[j]@ && sinfs@[j].data is Some
                    && sinfs@[j].data->0@ == w@[j].1@,
        decreases n - k,
    {
        let data = match &sinfs[k].data {
            Some(d) => vstd::slice::slice_to_vec(d.as_slice()),
            None => {
                assert(sinfs@[k as int].data is None);
                return Err(missing_data("SINF data"));
            },
        };
        w.push((targets[k].clone(), data));
        k = k + 1;
    }
    Ok(w)
}

// ---------------------------------------------------------------------------
// Signing in again
// ---------------------------------------------------------------------------

/// Which attempt at a store request this is.
#[derive(Clone, Copy, PartialEq, Eq, Structural, Debug)]
pub enum Attempt {
    First,
    AfterSignIn,
}

/// Whether to sign in again and repeat the request: only after the first
/// attempt, and only when the store said the password token expired.
pub fn sign_in_again<T>(attempt: Attempt, outcome: &Result<T, IpaToolError>) -> (r: bool)
    ensures
        r <==> (attempt == Attempt::First && outcome matches Err(
            IpaToolError::PasswordTokenExpired,
        )),
{
    match outcome {
        Err(IpaToolError::PasswordTokenExpired) => attempt == Attempt::First,
        _ => false,
    }
}

} // verus!
