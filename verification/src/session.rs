//! The pieces of a store session that decide: where settings live, the
//! saved account in the system keyring, the sign-in endpoint, which app a
//! request is about, and what a search found.
use vstd::prelude::*;
use crate::constants::{APPSTORE_AUTH_URL, DEFAULT_USER_AGENT, PRIVATE_INIT_URL};
use crate::error::{ErrorView, IpaToolError, res_view};
use crate::text::{chars_of, concat, concat3, str_eq};
use crate::types::{Account, AppRef, BagResult, ListVersionsResult};

verus! {

// ---------------------------------------------------------------------------
// Settings
// ---------------------------------------------------------------------------

/// Where the tool keeps its files and what it calls itself.
#[derive(Debug, Clone)]
pub struct Config {
    pub config_dir: String,
    pub cookies_path: String,
    pub keyring_service: String,
    pub keyring_account_key: String,
    pub user_agent: String,
}

/// `base` and a relative `part` joined as a path is joined on Unix: a
/// separator goes between them unless `base` is empty or already ends in one.
pub open spec fn joined(base: Seq<char>, part: Seq<char>) -> Seq<char> {
    if base.len() == 0 || base.last() == '/' {
        base + part
    } else {
        base + "/"@ + part
    }
}

/// `Path::join` with a relative part, read back as text.
pub fn join_path(base: &str, part: &str) -> (r: String)
    ensures
        r@ == joined(base@, part@),
{
    let b = chars_of(base);
    if b.len() == 0 {
        return String::from_str(part);
    }
    if b[b.len() - 1] == '/' {
        return concat(base, part);
    }
    let r = concat3(base, "/", part);
    proof {
        reveal_strlit("/");
    }
    r
}

/// `dirs::home_dir`, read as text. Whether there is one, and what it is,
/// depends on the machine and the environment, so nothing is promised.
#[verifier::external_body]
fn home_dir() -> (r: Option<String>) {
    dirs::home_dir().map(|p| p.to_string_lossy().into_owned())
}

impl Config {
    /// The settings for a user whose home directory is `home`; without
    /// one there are none.
    pub fn from_home(home: Option<String>) -> (r: Result<Config, IpaToolError>)
        ensures
            match r {
                Ok(c) => home is Some && c.config_dir@ == joined(home->0@, ".ipatool"@)
                    && c.cookies_path@ == joined(c.config_dir@, "cookies"@)
                    && c.keyring_service@ == "ipatool-auth.service"@
                    && c.keyring_account_key@ == "account"@ && c.user_agent@
                    == DEFAULT_USER_AGENT@,
                Err(e) => home is None && e@ == ErrorView::NoHomeDir,
            },
    {
        let home = match home {
            Some(h) => h,
            None => return Err(IpaToolError::NoHomeDir),
        };
        let config_dir = join_path(home.as_str(), ".ipatool");
        let cookies_path = join_path(config_dir.as_str(), "cookies");
        Ok(
            Config {
                config_dir,
                cookies_path,
                keyring_service: String::from_str("ipatool-auth.service"),
                keyring_account_key: String::from_str("account"),
                user_agent: String::from_str(DEFAULT_USER_AGENT),
            },
        )
    }

    /// The settings for the current user.
    pub fn default_from_home() -> (r: Result<Config, IpaToolError>)
        ensures
            match r {
                Ok(c) => (exists|h: Seq<char>| #[trigger] joined(h, ".ipatool"@) == c.config_dir@)
                    && c.cookies_path@ == joined(c.config_dir@, "cookies"@)
                    && c.keyring_service@ == "ipatool-auth.service"@
                    && c.keyring_account_key@ == "account"@ && c.user_agent@
                    == DEFAULT_USER_AGENT@,
                Err(e) => e@ == ErrorView::NoHomeDir,
            },
    {
        let home = home_dir();
        let r = Config::from_home(home);
        proof {
            if r is Ok {
                let h = home->0@;
                assert(joined(h, ".ipatool"@) == r->Ok_0.config_dir@);
            }
        }
        r
    }
}

// ---------------------------------------------------------------------------
// The saved account
// ---------------------------------------------------------------------------

/// What the system keyring answered to a request.
#[derive(Debug, Clone)]
pub enum KeyringOutcome<T> {
    Done(T),
    NoEntry,
    Failed(String),
}

/// An answer of the keyring as a value: done, with the secret read (empty
/// for a request that reads nothing); no entry; or a failure's message.
pub enum KeyringReply {
    Done(Seq<char>),
    NoEntry,
    Failed(Seq<char>),
}

pub open spec fn reply_of_read(o: KeyringOutcome<String>) -> KeyringReply {
    match o {
        KeyringOutcome::Done(s) => KeyringReply::Done(s@),
        KeyringOutcome::NoEntry => KeyringReply::NoEntry,
        KeyringOutcome::Failed(m) => KeyringReply::Failed(m@),
    }
}

pub open spec fn reply_of_unit(o: KeyringOutcome<()>) -> KeyringReply {
    match o {
        KeyringOutcome::Done(_) => KeyringReply::Done(Seq::empty()),
        KeyringOutcome::NoEntry => KeyringReply::NoEntry,
        KeyringOutcome::Failed(m) => KeyringReply::Failed(m@),
    }
}

/// Holds when `reply` is an answer that the platform's keyring can give when
/// asked for the secret of `user` under `service`. Which answer it gives rests
/// on what the keyring holds, which is not modelled: this only records what
/// was asked.
pub uninterp spec fn keyring_read_reply(service: Seq<char>, user: Seq<char>, reply: KeyringReply) -> bool;

/// Holds when `reply` is an answer that the platform's keyring can give when
/// asked to delete the secret of `user` under `service`; as for reads, only
/// what was asked is recorded.
pub uninterp spec fn keyring_delete_reply(service: Seq<char>, user: Seq<char>, reply: KeyringReply) -> bool;

/// Holds when `reply` is an answer that the platform's keyring can give when
/// asked to store `secret` for `user` under `service`; as for reads, only what
/// was asked is recorded.
pub uninterp spec fn keyring_write_reply(
    service: Seq<char>,
    user: Seq<char>,
    secret: Seq<char>,
    reply: KeyringReply,
) -> bool;

/// `keyring::Entry::new(service, user)` and then `get_password` on that
/// entry; `Error::NoEntry` from reading is told apart, and any other error of
/// either step is a failure with its message. The answer rests on the
/// platform's keyring; the contract records only what was asked.
#[verifier::external_body]
fn keyring_read(service: &str, user: &str) -> (r: KeyringOutcome<String>)
    ensures
        keyring_read_reply(service@, user@, reply_of_read(r)),
{
    let entry = match keyring::Entry::new(service, user) {
        Ok(e) => e,
        Err(e) => return KeyringOutcome::Failed(e.to_string()),
    };
    match entry.get_password() {
        Ok(s) => KeyringOutcome::Done(s),
        Err(keyring::Error::NoEntry) => KeyringOutcome::NoEntry,
        Err(e) => KeyringOutcome::Failed(e.to_string()),
    }
}

/// `keyring::Entry::new(service, user)` and then `delete_credential` on that
/// entry; `Error::NoEntry` from deleting is told apart, and any other error of
/// either step is a failure with its message. The answer rests on the
/// platform's keyring; the contract records only what was asked.
#[verifier::external_body]
fn keyring_delete(service: &str, user: &str) -> (r: KeyringOutcome<()>)
    ensures
        keyring_delete_reply(service@, user@, reply_of_unit(r)),
{
    let entry = match keyring::Entry::new(service, user) {
        Ok(e) => e,
        Err(e) => return KeyringOutcome::Failed(e.to_string()),
    };
    match entry.delete_credential() {
        Ok(()) => KeyringOutcome::Done(()),
        Err(keyring::Error::NoEntry) => KeyringOutcome::NoEntry,
        Err(e) => KeyringOutcome::Failed(e.to_string()),
    }
}

/// `keyring::Entry::new(service, user)` and then `set_password(secret)` on
/// that entry; any error of either step is a failure with its message. The
/// answer rests on the platform's keyring; the contract records only what was
/// asked.
#[verifier::external_body]
fn keyring_write(service: &str, user: &str, secret: &str) -> (r: KeyringOutcome<()>)
    ensures
        keyring_write_reply(service@, user@, secret@, reply_of_unit(r)),
{
    let entry = match keyring::Entry::new(service, user) {
        Ok(e) => e,
        Err(e) => return KeyringOutcome::Failed(e.to_string()),
    };
    match entry.set_password(secret) {
        Ok(()) => KeyringOutcome::Done(()),
        Err(e) => KeyringOutcome::Failed(e.to_string()),
    }
}

/// What a removal comes to: a missing entry counts as removed.
pub open spec fn removal(reply: KeyringReply) -> Result<(), ErrorView> {
    match reply {
        KeyringReply::Failed(m) => Err(ErrorView::Keyring(m)),
        _ => Ok(()),
    }
}

/// What a read comes to: a missing entry is no saved value.
pub open spec fn reading(reply: KeyringReply) -> Result<Option<Seq<char>>, ErrorView> {
    match reply {
        KeyringReply::Done(s) => Ok(Some(s)),
        KeyringReply::NoEntry => Ok(None),
        KeyringReply::Failed(m) => Err(ErrorView::Keyring(m)),
    }
}

/// What a store comes to: any answer but a failure is success.
pub open spec fn storing(reply: KeyringReply) -> Result<(), ErrorView> {
    match reply {
        KeyringReply::Failed(m) => Err(ErrorView::Keyring(m)),
        _ => Ok(()),
    }
}

/// A read result with its text and its error taken by their views.
pub open spec fn read_view(r: Result<Option<String>, IpaToolError>) -> Result<
    Option<Seq<char>>,
    ErrorView,
> {
    match r {
        Ok(Some(s)) => Ok(Some(s@)),
        Ok(None) => Ok(None),
        Err(e) => Err(e@),
    }
}

/// What a removal comes to: a missing entry counts as removed.
pub fn settle_delete(outcome: KeyringOutcome<()>) -> (r: Result<(), IpaToolError>)
    ensures
        res_view(r) == removal(reply_of_unit(outcome)),
{
    match outcome {
        KeyringOutcome::Failed(m) => Err(IpaToolError::Keyring(m)),
        _ => Ok(()),
    }
}

/// What a read comes to: a missing entry is no saved value.
pub fn settle_read(outcome: KeyringOutcome<String>) -> (r: Result<Option<String>, IpaToolError>)
    ensures
        read_view(r) == reading(reply_of_read(outcome)),
{
    match outcome {
        KeyringOutcome::Done(s) => Ok(Some(s)),
        KeyringOutcome::NoEntry => Ok(None),
        KeyringOutcome::Failed(m) => Err(IpaToolError::Keyring(m)),
    }
}

/// What storing comes to: any answer but a failure is success.
pub fn settle_write(outcome: KeyringOutcome<()>) -> (r: Result<(), IpaToolError>)
    ensures
        res_view(r) == storing(reply_of_unit(outcome)),
{
    match outcome {
        KeyringOutcome::Failed(m) => Err(IpaToolError::Keyring(m)),
        _ => Ok(()),
    }
}

/// A saved value in the system keyring, under a service and an account key.
#[derive(Debug, Clone)]
pub struct KeyringStore {
    service: String,
    account_key: String,
}

impl KeyringStore {
    pub closed spec fn service(&self) -> Seq<char> {
        self.service@
    }

    pub closed spec fn account_key(&self) -> Seq<char> {
        self.account_key@
    }

    /// The saved value under `service` and `account_key`.
    pub fn new(service: String, account_key: String) -> (r: KeyringStore)
        ensures
            r.service() == service@,
            r.account_key() == account_key@,
    {
        KeyringStore { service, account_key }
    }

    /// Saves `json`, the value's JSON text, in the keyring, as the secret of
    /// the account key under the service. Whether the keyring takes it rests
    /// on the platform; what its answer comes to is stated.
    pub fn set_json(&self, json: &str) -> (r: Result<(), IpaToolError>)
        ensures
            exists|a: KeyringReply|
                #[trigger] keyring_write_reply(self.service(), self.account_key(), json@, a)
                    && res_view(r) == storing(a),
    {
        let outcome = keyring_write(self.service.as_str(), self.account_key.as_str(), json);
        let ghost a = reply_of_unit(outcome);
        let r = settle_write(outcome);
        assert(keyring_write_reply(self.service(), self.account_key(), json@, a));
        r
    }

    /// The saved JSON text, if any: the secret of the account key under the
    /// service. What the keyring holds rests on the platform; what its answer
    /// comes to is stated.
    pub fn get_json(&self) -> (r: Result<Option<String>, IpaToolError>)
        ensures
            exists|a: KeyringReply|
                #[trigger] keyring_read_reply(self.service(), self.account_key(), a) && read_view(r)
                    == reading(a),
    {
        let outcome = keyring_read(self.service.as_str(), self.account_key.as_str());
        let ghost a = reply_of_read(outcome);
        let r = settle_read(outcome);
        assert(keyring_read_reply(self.service(), self.account_key(), a));
        r
    }

    /// Removes the saved value of the account key under the service; one that
    /// is not there counts as removed. What the keyring answers rests on the
    /// platform; what its answer comes to is stated.
    pub fn delete(&self) -> (r: Result<(), IpaToolError>)
        ensures
            exists|a: KeyringReply|
                #[trigger] keyring_delete_reply(self.service(), self.account_key(), a) && res_view(r)
                    == removal(a),
    {
        let outcome = keyring_delete(self.service.as_str(), self.account_key.as_str());
        let ghost a = reply_of_unit(outcome);
        let r = settle_delete(outcome);
        assert(keyring_delete_reply(self.service(), self.account_key(), a));
        r
    }
}

/// The saved account, or the error that there is none.
pub fn require_account(saved: Option<Account>) -> (r: Result<Account, IpaToolError>)
    ensures
        match saved {
            Some(a) => r == Ok::<Account, IpaToolError>(a),
            None => r matches Err(e) && e@ == ErrorView::NoSavedAccount,
        },
{
    match saved {
        Some(a) => Ok(a),
        None => Err(IpaToolError::NoSavedAccount),
    }
}

/// Whether to follow a redirect: not when the request just came from the
/// sign-in address, whose answer is read as it is.
pub fn follow_redirect(previous: Option<&str>) -> (r: bool)
    ensures
        r <==> !(previous matches Some(p) && p@ == APPSTORE_AUTH_URL@),
{
    match previous {
        Some(p) => !str_eq(p, APPSTORE_AUTH_URL),
        None => true,
    }
}

// ---------------------------------------------------------------------------
// The sign-in endpoint
// ---------------------------------------------------------------------------

/// The address of the bag of store URLs for a device.
pub fn bag_url(guid: &str) -> (r: String)
    ensures
        r@ == PRIVATE_INIT_URL@ + "?guid="@ + guid@,
{
    concat3(PRIVATE_INIT_URL, "?guid=", guid)
}

/// The sign-in endpoint named by the bag; an empty one is an error.
pub fn auth_endpoint_from_bag(bag: BagResult) -> (r: Result<String, IpaToolError>)
    ensures
        match r {
            Ok(u) => u == bag.url_bag.auth_endpoint && u@.len() > 0,
            Err(e) => bag.url_bag.auth_endpoint@.len() == 0 && e@ == ErrorView::AuthBagError,
        },
{
    if chars_of(bag.url_bag.auth_endpoint.as_str()).len() == 0 {
        return Err(IpaToolError::AuthBagError);
    }
    Ok(bag.url_bag.auth_endpoint)
}

// ---------------------------------------------------------------------------
// Which app
// ---------------------------------------------------------------------------

/// How the app of a request is found: by its bundle identifier, which is
/// looked up, or by its store identifier alone.
#[derive(Debug, Clone)]
pub enum AppSource {
    Lookup(String),
    ById(u64),
}

/// The bundle identifier wins over the store identifier; one of them is
/// needed.
pub fn app_source(app_id: Option<u64>, bundle_id: Option<String>) -> (r: Result<
    AppSource,
    IpaToolError,
>)
    ensures
        match (app_id, bundle_id) {
            (_, Some(b)) => r matches Ok(AppSource::Lookup(x)) && x == b,
            (Some(id), None) => r matches Ok(AppSource::ById(x)) && x == id,
            (None, None) => r matches Err(e) && e@ == ErrorView::MissingAppIdOrBundleId,
        },
{
    match (app_id, bundle_id) {
        (_, Some(b)) => Ok(AppSource::Lookup(b)),
        (Some(id), None) => Ok(AppSource::ById(id)),
        (None, None) => Err(IpaToolError::MissingAppIdOrBundleId),
    }
}

/// The app known only by its store identifier.
pub fn app_by_id(id: u64) -> (r: AppRef)
    ensures
        r.id == id && r.bundle_id is None && r.name is None,
{
    AppRef { id, bundle_id: None, name: None }
}

/// What listing versions reports: the identifiers asked about, no versions
/// yet, and a note saying so.
pub fn list_versions_result(app_id: Option<u64>, bundle_id: Option<String>) -> (r:
    ListVersionsResult)
    ensures
        r.app_id == match app_id {
            Some(id) => id,
            None => 0,
        },
        r.bundle_id == bundle_id,
        r.external_version_ids@.len() == 0,
        r.note matches Some(n) && n@ == "not implemented"@,
{
    ListVersionsResult {
        app_id: match app_id {
            Some(id) => id,
            None => 0,
        },
        bundle_id,
        external_version_ids: Vec::new(),
        note: Some(String::from_str("not implemented")),
    }
}

// ---------------------------------------------------------------------------
// Search
// ---------------------------------------------------------------------------

/// One result of the store's search, as far as the logic reads it.
#[derive(Debug, Clone)]
pub struct SearchEntry {
    pub track_id: Option<u64>,
    pub bundle_id: Option<String>,
    pub track_name: Option<String>,
}

/// Apps found by a search.
#[derive(Debug, Clone)]
pub struct SearchResult {
    pub results: Vec<AppRef>,
}

/// The entry as an app, when it has a store identifier.
pub open spec fn entry_app(e: SearchEntry) -> Option<AppRef> {
    match e.track_id {
        Some(id) => Some(AppRef { id, bundle_id: e.bundle_id, name: e.track_name }),
        None => None,
    }
}

/// The entries that have a store identifier, in order, each as an app with
/// its position among all the entries.
pub open spec fn found_apps(entries: Seq<SearchEntry>) -> Seq<(usize, AppRef)>
    decreases entries.len(),
{
    if entries.len() == 0 {
        Seq::empty()
    } else {
        let rest = found_apps(entries.drop_last());
        match entry_app(entries.last()) {
            Some(a) => rest.push(((entries.len() - 1) as usize, a)),
            None => rest,
        }
    }
}

/// Each app a search finds is an entry that has a store identifier, as the
/// store gave it: the identifier, the bundle identifier and the name are the
/// entry's at the position given. The positions increase, and every entry
/// with an identifier is found.
pub proof fn found_apps_are_the_entries(entries: Seq<SearchEntry>)
    requires
        entries.len() <= usize::MAX,
    ensures
        forall|k: int|
            0 <= k < found_apps(entries).len() ==> {
                let (i, a) = #[trigger] found_apps(entries)[k];
                &&& i < entries.len()
                &&& entries[i as int].track_id == Some(a.id)
                &&& a.bundle_id == entries[i as int].bundle_id
                &&& a.name == entries[i as int].track_name
            },
        forall|k: int, l: int|
            0 <= k < l < found_apps(entries).len() ==> (#[trigger] found_apps(entries)[k]).0
                < (#[trigger] found_apps(entries)[l]).0,
        forall|i: int|
            0 <= i < entries.len() && (#[trigger] entries[i]).track_id is Some ==> exists|k: int|
                0 <= k < found_apps(entries).len() && (#[trigger] found_apps(entries)[k]).0 == i,
    decreases entries.len(),
{
    if entries.len() > 0 {
        let rest = entries.drop_last();
        found_apps_are_the_entries(rest);
        let fr = found_apps(rest);
        let f = found_apps(entries);
        let last = (entries.len() - 1) as usize;
        assert forall|k: int| 0 <= k < fr.len() implies (#[trigger] fr[k]).0 < entries.len() - 1 by {
            let (i, a) = fr[k];
            assert(i < rest.len());
        }
        assert forall|i: int| 0 <= i < entries.len() && (#[trigger] entries[i]).track_id is Some
            implies exists|k: int| 0 <= k < f.len() && (#[trigger] f[k]).0 == i by {
            if i < entries.len() - 1 {
                assert(rest[i] == entries[i]);
                let k = choose|k: int| 0 <= k < fr.len() && (#[trigger] fr[k]).0 == i;
                assert(f[k] == fr[k]);
            } else {
                assert(f[f.len() - 1].0 == last);
            }
        }
        assert forall|k: int| 0 <= k < fr.len() implies (#[trigger] f[k]) == fr[k] by {}
        assert forall|k: int| 0 <= k < f.len() implies ({
            let (i, a) = #[trigger] f[k];
            &&& i < entries.len()
            &&& entries[i as int].track_id == Some(a.id)
            &&& a.bundle_id == entries[i as int].bundle_id
            &&& a.name == entries[i as int].track_name
        }) by {
            if k < fr.len() {
                let (i, a) = fr[k];
                assert(rest[i as int] == entries[i as int]);
            }
        }
    }
}

/// The apps among the search results: the entries with a store identifier,
/// in the order the store gave them, each with its position.
pub fn apps_from_entries(entries: Vec<SearchEntry>) -> (r: Vec<(usize, AppRef)>)
    ensures
        r@ == found_apps(entries@),
{
    let ghost all = entries@;
    let n = entries.len();
    let mut rest = entries;
    let mut out: Vec<(usize, AppRef)> = Vec::new();
    let mut i: usize = 0;
    while i < n
        invariant
            n == all.len(),
            i <= n,
            rest@ == all.subrange(i as int, n as int),
            out@ == found_apps(all.subrange(0, i as int)),
        decreases n - i,
    {
        let e = rest.remove(0);
        assert(e == all[i as int]);
        let ghost prefix = all.subrange(0, i as int + 1);
        assert(prefix.drop_last() =~= all.subrange(0, i as int));
        assert(prefix.last() == e);
        match e.track_id {
            Some(id) => {
                out.push((i, AppRef { id, bundle_id: e.bundle_id, name: e.track_name }));
            },
            None => {},
        }
        assert(rest@ =~= all.subrange(i as int + 1, n as int));
        i = i + 1;
    }
    assert(all.subrange(0, n as int) =~= all);
    out
}

/// The app a lookup found: the first entry with a store identifier.
pub fn first_app(entries: Vec<SearchEntry>) -> (r: Result<(usize, AppRef), IpaToolError>)
    ensures
        match r {
            Ok(a) => found_apps(entries@).len() > 0 && a == found_apps(entries@)[0],
            Err(e) => found_apps(entries@).len() == 0 && e@ == ErrorView::NoApp,
        },
{
    let mut found = apps_from_entries(entries);
    if found.len() == 0 {
        return Err(IpaToolError::NoApp);
    }
    Ok(found.remove(0))
}

/// The results of a search.
pub fn search_result(entries: Vec<SearchEntry>) -> (r: SearchResult)
    ensures
        r.results@ == found_apps(entries@).map_values(|p: (usize, AppRef)| p.1),
{
    let found = apps_from_entries(entries);
    let ghost f = found@;
    let mut results: Vec<AppRef> = Vec::new();
    let mut rest = found;
    let n = rest.len();
    let mut i: usize = 0;
    while i < n
        invariant
            n == f.len(),
            i <= n,
            rest@ == f.subrange(i as int, n as int),
            results@ == f.subrange(0, i as int).map_values(|p: (usize, AppRef)| p.1),
        decreases n - i,
    {
        let (_, a) = rest.remove(0);
        results.push(a);
        assert(rest@ =~= f.subrange(i as int + 1, n as int));
        i = i + 1;
        assert(results@ =~= f.subrange(0, i as int).map_values(|p: (usize, AppRef)| p.1));
    }
    assert(f.subrange(0, n as int) =~= f);
    SearchResult { results }
}

} // verus!
