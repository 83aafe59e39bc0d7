//! The authentication center: the accounts, and what can be done with them.
use crate::account;
use crate::account::{
    extract_identity_from_tokens, CachedAccessToken, CodexAccountData, GitHubAccount,
    OAuthTokenResponse,
};
use crate::adoption;
use crate::adoption::{
    adopt_into_account, drop_blank, reads, LiveAuth, RefreshTokenAdoptionMode,
    RefreshTokenAdoptionOutcome,
};
use crate::claims::DecodedToken;
use crate::clock;
use crate::clock::{compute_expires_at_ms_from, current_time_ms, current_time_secs};
use crate::error;
use crate::error::CodexOAuthError;
use crate::exchange;
use crate::json;
use crate::listing;
use crate::listing::{fallback_default_account_id, sorted_accounts};
use crate::model;
use crate::model::LoginTimes;
use crate::table::Table;
use crate::text;
use crate::text::{as_text, copy_text, is_blank, same_opt, same_text, trim};
use vstd::prelude::*;

verus! {

/// The version of the stored accounts.
pub const STORE_VERSION: u32 = 1;

/// A login that waits for the user.
#[derive(Debug)]
pub struct PendingDeviceCode {
    pub user_code: String,
    /// When the login is given up, in milliseconds.
    pub expires_at_ms: i64,
}

impl View for PendingDeviceCode {
    type V = model::PendingModel;

    open spec fn view(&self) -> model::PendingModel {
        model::PendingModel { user_code: self.user_code@, expires_at_ms: self.expires_at_ms }
    }
}

impl Clone for PendingDeviceCode {
    fn clone(&self) -> (result: Self)
        ensures
            result@ == self@,
    {
        PendingDeviceCode {
            user_code: self.user_code.clone(),
            expires_at_ms: self.expires_at_ms,
        }
    }
}

/// The reply of the server to the request for a device code.
#[derive(Debug)]
pub struct DeviceCodeResponse {
    pub device_auth_id: String,
    pub user_code: String,
    pub interval: Option<serde_json::Value>,
    pub expires_in: Option<u64>,
}

impl View for DeviceCodeResponse {
    type V = model::DeviceCodeModel;

    open spec fn view(&self) -> model::DeviceCodeModel {
        model::DeviceCodeModel {
            device_auth_id: self.device_auth_id@,
            user_code: self.user_code@,
            interval: match self.interval {
                Some(value) => Some(json::json_tree(value)),
                None => None,
            },
            expires_in: self.expires_in,
        }
    }
}

/// What the user needs to complete a login.
#[derive(Debug)]
pub struct GitHubDeviceCodeResponse {
    pub device_code: String,
    pub user_code: String,
    pub verification_uri: String,
    pub expires_in: u64,
    pub interval: u64,
}

impl View for GitHubDeviceCodeResponse {
    type V = model::DeviceFlowModel;

    open spec fn view(&self) -> model::DeviceFlowModel {
        model::DeviceFlowModel {
            device_code: self.device_code@,
            user_code: self.user_code@,
            verification_uri: self.verification_uri@,
            expires_in: self.expires_in,
            interval: self.interval,
        }
    }
}

/// What is stored on disk.
#[derive(Debug)]
pub struct CodexOAuthStore {
    pub version: u32,
    pub accounts: Table<CodexAccountData>,
    pub default_account_id: Option<String>,
}

/// A summary of the authentication center.
#[derive(Debug)]
pub struct CodexOAuthStatus {
    pub accounts: Vec<GitHubAccount>,
    pub default_account_id: Option<String>,
    pub authenticated: bool,
    pub username: Option<String>,
}

/// The accounts, their access tokens, and the logins that wait for the user.
#[derive(Debug)]
pub struct CodexOAuthManager {
    accounts: Table<CodexAccountData>,
    default_account_id: Option<String>,
    access_tokens: Table<CachedAccessToken>,
    pending_device_codes: Table<PendingDeviceCode>,
    login_epoch: u64,
}

impl View for CodexOAuthManager {
    type V = model::ManagerModel;

    closed spec fn view(&self) -> model::ManagerModel {
        model::ManagerModel {
            accounts: self.accounts@,
            default_account_id: text::view_opt(self.default_account_id),
            access_tokens: self.access_tokens@,
            pending_device_codes: self.pending_device_codes@,
            login_epoch: self.login_epoch,
        }
    }
}

/// The signed integer with the same 64 bits as `value`.
fn as_signed(value: u64) -> (result: i64)
    ensures
        result == model::two_complement(value),
{
    if value <= i64::MAX as u64 {
        value as i64
    } else {
        -((u64::MAX - value) as i64) - 1
    }
}

/// The logins that have not expired at `now_ms`.
fn keep_live(pending: &Table<PendingDeviceCode>, now_ms: i64) -> (result: Table<PendingDeviceCode>)
    ensures
        forall|code: Seq<char>| #[trigger]
            result@.dom().contains(code) <==> pending@.dom().contains(code)
                && pending@[code].expires_at_ms > now_ms,
        forall|code: Seq<char>| #[trigger]
            result@.dom().contains(code) ==> result@[code] == pending@[code],
{
    let len: usize = pending.len();
    let ghost keys = pending.keys();
    let mut result: Table<PendingDeviceCode> = Table::new();
    let mut i: usize = 0;
    while i < len
        invariant
            i <= len == keys.len(),
            keys == pending.keys(),
            keys.to_set() == pending@.dom(),
            forall|code: Seq<char>| #[trigger]
                result@.dom().contains(code) ==> result@[code] == pending@[code]
                    && pending@.dom().contains(code) && pending@[code].expires_at_ms > now_ms,
            forall|j: int|
                0 <= j < i && pending@[#[trigger] keys[j]].expires_at_ms > now_ms
                    ==> result@.dom().contains(keys[j]),
        decreases len - i,
    {
        let (code, entry) = pending.entry_at(i);
        if entry.expires_at_ms > now_ms {
            result.insert(code.to_owned(), entry.clone());
        }
        i += 1;
    }
    proof {
        assert forall|code: Seq<char>|
            pending@.dom().contains(code) && pending@[code].expires_at_ms > now_ms implies
            #[trigger] result@.dom().contains(code) by {
            assert(keys.to_set().contains(code));
            let j = keys.index_of(code);
            assert(keys[j] == code);
        }
    }
    result
}

/// A copy of the accounts.
fn copy_accounts(accounts: &Table<CodexAccountData>) -> (result: Table<CodexAccountData>)
    ensures
        result@ == accounts@,
{
    let len: usize = accounts.len();
    let ghost keys = accounts.keys();
    let mut result: Table<CodexAccountData> = Table::new();
    let mut i: usize = 0;
    while i < len
        invariant
            i <= len == keys.len(),
            keys == accounts.keys(),
            keys.to_set() == accounts@.dom(),
            forall|id: Seq<char>| #[trigger]
                result@.dom().contains(id) ==> result@[id] == accounts@[id]
                    && accounts@.dom().contains(id),
            forall|j: int| 0 <= j < i ==> result@.dom().contains(#[trigger] keys[j]),
        decreases len - i,
    {
        let (id, data) = accounts.entry_at(i);
        result.insert(id.to_owned(), data.clone());
        i += 1;
    }
    proof {
        assert forall|id: Seq<char>| accounts@.dom().contains(id) implies
            #[trigger] result@.dom().contains(id) by {
            assert(keys.to_set().contains(id));
            let j = keys.index_of(id);
            assert(keys[j] == id);
        }
        assert(result@ =~= accounts@);
    }
    result
}

/// Looking at the accounts.
impl CodexOAuthManager {
    /// A manager without accounts.
    pub fn new() -> (result: Self)
        ensures
            result@ == model::ManagerModel::empty(),
    {
        CodexOAuthManager {
            accounts: Table::new(),
            default_account_id: None,
            access_tokens: Table::new(),
            pending_device_codes: Table::new(),
            login_epoch: 0,
        }
    }

    /// A manager with the stored accounts. Where no default is stored, the account
    /// of the latest login is the default.
    pub fn from_store(store: CodexOAuthStore) -> (result: Self)
        ensures
            result@ == model::ManagerModel::loaded(
                store.accounts@,
                text::view_opt(store.default_account_id),
            ),
    {
        let default_account_id: Option<String> = match store.default_account_id {
            Some(id) => Some(id),
            None => fallback_default_account_id(&store.accounts),
        };
        CodexOAuthManager {
            accounts: store.accounts,
            default_account_id,
            access_tokens: Table::new(),
            pending_device_codes: Table::new(),
            login_epoch: 0,
        }
    }

    /// What is to be stored on disk.
    pub fn to_store(&self) -> (result: CodexOAuthStore)
        ensures
            result.version == STORE_VERSION,
            result.accounts@ == self@.accounts,
            text::view_opt(result.default_account_id) == self@.default_account(),
    {
        CodexOAuthStore {
            version: STORE_VERSION,
            accounts: copy_accounts(&self.accounts),
            default_account_id: self.default_account_id(),
        }
    }

    /// How often everything was cleared.
    pub fn login_epoch(&self) -> (result: u64)
        ensures
            result == self@.login_epoch,
    {
        self.login_epoch
    }

    /// The account under `account_id`.
    pub fn account(&self, account_id: &str) -> (result: Option<&CodexAccountData>)
        ensures
            text::view_opt(result) == model::lookup(self@.accounts, account_id@),
    {
        self.accounts.get(account_id)
    }

    /// The access token of `account_id`.
    pub fn access_token(&self, account_id: &str) -> (result: Option<&CachedAccessToken>)
        ensures
            text::view_opt(result) == model::lookup(self@.access_tokens, account_id@),
    {
        self.access_tokens.get(account_id)
    }

    /// The login `device_code` that waits for the user.
    pub fn pending_device_code(&self, device_code: &str) -> (result: Option<&PendingDeviceCode>)
        ensures
            text::view_opt(result) == model::lookup(self@.pending_device_codes, device_code@),
    {
        self.pending_device_codes.get(device_code)
    }

    /// Whether any login waits for the user.
    pub fn is_login_pending(&self) -> (result: bool)
        ensures
            result == (self@.pending_device_codes != Map::<
                Seq<char>,
                model::PendingModel,
            >::empty()),
    {
        !self.pending_device_codes.is_empty()
    }

    /// The keys of the accounts.
    pub fn account_ids(&self) -> (result: Vec<String>)
        ensures
            text::texts(result@).no_duplicates(),
            text::texts(result@).to_set() == self@.accounts.dom(),
    {
        let len: usize = self.accounts.len();
        let ghost keys = self.accounts.keys();
        let mut result: Vec<String> = Vec::new();
        let mut i: usize = 0;
        while i < len
            invariant
                i <= len == keys.len(),
                keys == self.accounts.keys(),
                result@.len() == i,
                forall|j: int| 0 <= j < i ==> (#[trigger] result@[j])@ == keys[j],
            decreases len - i,
        {
            let (id, _) = self.accounts.entry_at(i);
            result.push(id.to_owned());
            i += 1;
        }
        assert(text::texts(result@) =~= keys);
        result
    }

    /// Whether there is any account.
    pub fn is_authenticated(&self) -> (result: bool)
        ensures
            result == (self@.accounts != Map::<Seq<char>, account::AccountModel>::empty()),
    {
        !self.accounts.is_empty()
    }

    /// The default account: the chosen one where it is there, and otherwise the one
    /// of the latest login.
    pub fn default_account_id(&self) -> (result: Option<String>)
        ensures
            text::view_opt(result) == self@.default_account(),
            result is Some ==> self@.has(result->0@),
            result is None <==> self@.accounts == Map::<Seq<char>, account::AccountModel>::empty(),
    {
        match &self.default_account_id {
            Some(id) => if self.accounts.contains_key(id.as_str()) {
                return Some(id.clone());
            },
            None => {},
        }
        fallback_default_account_id(&self.accounts)
    }

    /// The default account, or the error that there is none.
    pub fn require_default_account(&self) -> (result: Result<String, CodexOAuthError>)
        ensures
            error::view_result(result) == match self@.default_account() {
                Some(id) => Ok(id),
                None => model::not_found("无可用的 ChatGPT 账号"@),
            },
    {
        match self.default_account_id() {
            Some(id) => Ok(id),
            None => Err(CodexOAuthError::not_found("无可用的 ChatGPT 账号")),
        }
    }

    /// The workspace of `account_id`.
    pub fn get_chatgpt_account_id_for_account(&self, account_id: &str) -> (result: Option<String>)
        ensures
            text::view_opt(result) == match model::lookup(self@.accounts, account_id@) {
                Some(account) => account.effective_workspace(),
                None => None,
            },
    {
        match self.accounts.get(account_id) {
            Some(account) => account.effective_chatgpt_account_id(),
            None => None,
        }
    }

    /// The accounts as they are listed.
    pub fn list_accounts(&self) -> (result: Vec<GitHubAccount>)
        ensures
            listing::shows_all(self@.accounts, listing::summaries(result@)),
            listing::in_order(listing::summaries(result@), self@.default_account()),
            result@.len() == self@.accounts.dom().len(),
    {
        let default_id = self.default_account_id();
        sorted_accounts(&self.accounts, as_text(&default_id))
    }

    /// A summary: the accounts as they are listed, the default account, and the
    /// name to show, which is the email of the default account or else the name of
    /// the account that is listed first.
    pub fn get_status(&self) -> (result: CodexOAuthStatus)
        ensures
            listing::shows_all(self@.accounts, listing::summaries(result.accounts@)),
            listing::in_order(listing::summaries(result.accounts@), self@.default_account()),
            text::view_opt(result.default_account_id) == self@.default_account(),
            result.authenticated == (self@.accounts != Map::<
                Seq<char>,
                account::AccountModel,
            >::empty()),
            text::view_opt(result.username) == text::or_else(
                match self@.default_account() {
                    Some(id) => self@.accounts[id].email,
                    None => None,
                },
                if result.accounts@.len() > 0 {
                    Some(result.accounts@[0].login@)
                } else {
                    None
                },
            ),
    {
        let default_account_id = self.default_account_id();
        let accounts = sorted_accounts(&self.accounts, as_text(&default_account_id));
        let authenticated = accounts.len() > 0;
        assert(authenticated == (self@.accounts != Map::<
            Seq<char>,
            account::AccountModel,
        >::empty())) by {
            let keys = choose|keys: Seq<Seq<char>>| #[trigger]
                listing::shows_keys(self@.accounts, keys, listing::summaries(accounts@))
                    && keys.no_duplicates() && keys.to_set() == self@.accounts.dom();
            if accounts@.len() == 0 {
                assert(keys.to_set() =~= Set::empty());
                assert(self@.accounts =~= Map::empty());
            } else {
                assert(keys.contains(keys[0]));
                assert(self@.accounts.dom().contains(keys[0]));
            }
        }
        let email: Option<String> = match &default_account_id {
            Some(id) => match self.accounts.get(id.as_str()) {
                Some(account) => copy_text(&account.email),
                None => None,
            },
            None => None,
        };
        let username: Option<String> = match email {
            Some(email) => Some(email),
            None => if accounts.len() > 0 {
                Some(accounts[0].login.clone())
            } else {
                None
            },
        };
        CodexOAuthStatus { accounts, default_account_id, authenticated, username }
    }

    /// Whether there is an account under `account_id`.
    pub fn require_account(&self, account_id: &str) -> (result: Result<(), CodexOAuthError>)
        ensures
            error::view_result(result) == if self@.has(account_id@) {
                Ok(())
            } else {
                model::not_found(account_id@)
            },
    {
        if self.accounts.contains_key(account_id) {
            Ok(())
        } else {
            Err(CodexOAuthError::not_found(account_id))
        }
    }

    /// The access token of `account_id` that can be used at `now_ms` as it is.
    pub fn resolve_valid_cached_token_at(&self, account_id: &str, now_ms: i64) -> (result: Result<
        Option<CachedAccessToken>,
        CodexOAuthError,
    >)
        ensures
            match result {
                Ok(cached) => self@.cached_token(account_id@, now_ms) == Ok::<
                    Option<account::CachedModel>,
                    error::ErrorModel,
                >(text::view_opt(cached)),
                Err(error) => self@.cached_token(account_id@, now_ms) == Err::<
                    Option<account::CachedModel>,
                    error::ErrorModel,
                >(error@),
            },
    {
        self.require_account(account_id)?;
        match self.access_tokens.get(account_id) {
            Some(cached) => if cached.is_expiring_soon_at(now_ms) {
                Ok(None)
            } else {
                Ok(Some(cached.clone()))
            },
            None => Ok(None),
        }
    }

    /// The access token of `account_id` that can be used now as it is.
    pub fn resolve_valid_cached_token(&self, account_id: &str) -> (result: Result<
        Option<CachedAccessToken>,
        CodexOAuthError,
    >)
        ensures
            exists|now_ms: i64|
                clock::clock_shows_ms(now_ms) && match result {
                    Ok(cached) => #[trigger] self@.cached_token(account_id@, now_ms) == Ok::<
                        Option<account::CachedModel>,
                        error::ErrorModel,
                    >(text::view_opt(cached)),
                    Err(error) => self@.cached_token(account_id@, now_ms) == Err::<
                        Option<account::CachedModel>,
                        error::ErrorModel,
                    >(error@),
                },
    {
        self.resolve_valid_cached_token_at(account_id, current_time_ms())
    }
}

/// Changing the accounts.
impl CodexOAuthManager {
    /// Chooses the default account.
    pub fn set_default_account(&mut self, account_id: &str) -> (result: Result<
        (),
        CodexOAuthError,
    >)
        ensures
            (final(self)@, error::view_result(result)) == old(self)@.choosing_default(account_id@),
    {
        self.require_account(account_id)?;
        self.default_account_id = Some(account_id.to_owned());
        Ok(())
    }

    /// Removes an account and its access token.
    pub fn remove_account(&mut self, account_id: &str) -> (result: Result<(), CodexOAuthError>)
        ensures
            (final(self)@, error::view_result(result)) == old(self)@.removing(account_id@),
    {
        self.require_account(account_id)?;
        self.drop_account(account_id);
        Ok(())
    }

    /// Removes an account and its access token, where they are there. Where it was
    /// the chosen default, the account of the latest login takes its place.
    pub(crate) fn drop_account(&mut self, account_id: &str)
        ensures
            final(self)@ == old(self)@.without_account(account_id@),
    {
        self.accounts.remove(account_id);
        self.access_tokens.remove(account_id);
        if same_opt(as_text(&self.default_account_id), Some(account_id)) {
            self.default_account_id = fallback_default_account_id(&self.accounts);
        }
    }

    /// Removes everything. Logins that began before can no longer be completed.
    pub fn clear_auth(&mut self)
        ensures
            final(self)@ == old(self)@.cleared(),
    {
        self.accounts.clear();
        self.access_tokens.clear();
        self.default_account_id = None;
        self.pending_device_codes.clear();
        self.login_epoch = if self.login_epoch < u64::MAX {
            self.login_epoch + 1
        } else {
            0
        };
    }
}

/// Logging in.
impl CodexOAuthManager {
    /// Registers a login at `now_ms`, unless everything was cleared since the login
    /// began with `login_epoch`.
    pub fn register_pending_device_code_at(
        &mut self,
        device_auth_id: String,
        user_code: String,
        expires_at_ms: i64,
        login_epoch: u64,
        now_ms: i64,
    ) -> (result: Result<(), CodexOAuthError>)
        ensures
            (final(self)@, error::view_result(result)) == old(self)@.registering(
                device_auth_id@,
                (model::PendingModel { user_code: user_code@, expires_at_ms }),
                login_epoch,
                now_ms,
            ),
    {
        if self.login_epoch != login_epoch {
            return Err(CodexOAuthError::ExpiredToken);
        }
        let mut pending = keep_live(&self.pending_device_codes, now_ms);
        assert(pending@ =~= old(self)@.live_pending(now_ms));
        pending.insert(device_auth_id, PendingDeviceCode { user_code, expires_at_ms });
        self.pending_device_codes = pending;
        Ok(())
    }

    /// Registers a login, unless everything was cleared since the login began with
    /// `login_epoch`.
    pub fn register_pending_device_code(
        &mut self,
        device_auth_id: String,
        user_code: String,
        expires_at_ms: i64,
        login_epoch: u64,
    ) -> (result: Result<(), CodexOAuthError>)
        ensures
            exists|now_ms: i64|
                clock::clock_shows_ms(now_ms) && (final(self)@, error::view_result(result))
                    == #[trigger] old(self)@.registering(
                    device_auth_id@,
                    (model::PendingModel { user_code: user_code@, expires_at_ms }),
                    login_epoch,
                    now_ms,
                ),
    {
        let now_ms: i64 = current_time_ms();
        self.register_pending_device_code_at(
            device_auth_id,
            user_code,
            expires_at_ms,
            login_epoch,
            now_ms,
        )
    }

    /// Begins the login for which the server sent `device`, obtained at
    /// `obtained_ms` and registered at `now_ms`, unless everything was cleared since
    /// the login began with `login_epoch`.
    pub fn start_device_flow_at(
        &mut self,
        device: DeviceCodeResponse,
        login_epoch: u64,
        obtained_ms: i64,
        now_ms: i64,
    ) -> (result: Result<GitHubDeviceCodeResponse, CodexOAuthError>)
        requires
            device@.fits(obtained_ms),
        ensures
            (final(self)@, error::view_result(result)) == old(self)@.starting_flow(
                device@,
                login_epoch,
                obtained_ms,
                now_ms,
            ),
    {
        let interval: u64 = json::parse_interval(device.interval.as_ref());
        let expires_in: u64 = match device.expires_in {
            Some(secs) => secs,
            None => model::DEVICE_CODE_DEFAULT_EXPIRES_IN,
        };
        let expires_at_ms: i64 = obtained_ms + as_signed(expires_in) * 1000;
        self.register_pending_device_code_at(
            device.device_auth_id.clone(),
            device.user_code.clone(),
            expires_at_ms,
            login_epoch,
            now_ms,
        )?;
        Ok(
            GitHubDeviceCodeResponse {
                device_code: device.device_auth_id,
                user_code: device.user_code,
                verification_uri: exchange::DEVICE_VERIFICATION_URL.to_owned(),
                expires_in,
                interval,
            },
        )
    }

    /// Begins the login for which the server sent `device`, unless everything was
    /// cleared since the login began with `login_epoch`. Nothing happens, and
    /// nothing is returned, where the times in the reply do not fit into 64 bits.
    pub fn start_device_flow(&mut self, device: DeviceCodeResponse, login_epoch: u64) -> (result:
        Option<Result<GitHubDeviceCodeResponse, CodexOAuthError>>)
        ensures
            exists|obtained_ms: i64, now_ms: i64|
                {
                    &&& clock::clock_shows_ms(obtained_ms)
                    &&& clock::clock_shows_ms(now_ms)
                    &&& device@.fits(obtained_ms) == result is Some
                    &&& match result {
                        Some(outcome) => (final(self)@, error::view_result(outcome))
                            == #[trigger] old(self)@.starting_flow(
                            device@,
                            login_epoch,
                            obtained_ms,
                            now_ms,
                        ),
                        None => final(self)@ == old(self)@,
                    }
                },
    {
        let obtained_ms: i64 = current_time_ms();
        let interval = json::parse_interval_checked(device.interval.as_ref());
        let secs: u64 = match device.expires_in {
            Some(secs) => secs,
            None => model::DEVICE_CODE_DEFAULT_EXPIRES_IN,
        };
        let life_ms: i128 = as_signed(secs) as i128 * 1000;
        let end_ms: i128 = obtained_ms as i128 + life_ms;
        let fits = interval.is_some() && i64::MIN as i128 <= life_ms && life_ms <= i64::MAX as i128
            && i64::MIN as i128 <= end_ms && end_ms <= i64::MAX as i128;
        assert(fits == device@.fits(obtained_ms));
        let now_ms: i64 = current_time_ms();
        let ghost step = self@.starting_flow(device@, login_epoch, obtained_ms, now_ms);
        if !fits {
            return None;
        }
        Some(self.start_device_flow_at(device, login_epoch, obtained_ms, now_ms))
    }

    /// The user code of the login `device_code` at `now_ms`. A login that has
    /// expired is dropped.
    pub fn begin_poll_at(&mut self, device_code: &str, now_ms: i64) -> (result: Result<
        String,
        CodexOAuthError,
    >)
        ensures
            (final(self)@, error::view_result(result)) == old(self)@.polling(device_code@, now_ms),
    {
        let found: Option<PendingDeviceCode> = match self.pending_device_codes.get(device_code) {
            Some(pending) => Some(pending.clone()),
            None => None,
        };
        match found {
            None => Err(
                CodexOAuthError::TokenFetchFailed(
                    "未找到对应的 user_code，请重新启动登录流程".to_owned(),
                ),
            ),
            Some(pending) => {
                if pending.expires_at_ms <= now_ms {
                    self.pending_device_codes.remove(device_code);
                    Err(CodexOAuthError::ExpiredToken)
                } else {
                    Ok(pending.user_code)
                }
            },
        }
    }

    /// The user code of the login `device_code`. A login that has expired is
    /// dropped.
    pub fn begin_poll(&mut self, device_code: &str) -> (result: Result<String, CodexOAuthError>)
        ensures
            exists|now_ms: i64|
                clock::clock_shows_ms(now_ms) && (final(self)@, error::view_result(result))
                    == #[trigger] old(self)@.polling(device_code@, now_ms),
    {
        let now_ms: i64 = current_time_ms();
        self.begin_poll_at(device_code, now_ms)
    }

    /// Adds an account with the given times. Where it completes the login
    /// `pending_device_code`, that login has to be there still.
    pub fn add_account_internal_at(
        &mut self,
        account_id: String,
        refresh_token: String,
        email: Option<String>,
        chatgpt_account_id: Option<String>,
        id_token: Option<DecodedToken>,
        initial_access_token: Option<CachedAccessToken>,
        pending_device_code: Option<&str>,
        authenticated_at: i64,
        now_ms: i64,
    ) -> (result: Result<GitHubAccount, CodexOAuthError>)
        ensures
            (final(self)@, error::view_result(result)) == old(self)@.adding(
                (model::NewAccountModel {
                    account_id: account_id@,
                    refresh_token: refresh_token@,
                    email: text::view_opt(email),
                    chatgpt_account_id: text::view_opt(chatgpt_account_id),
                    id_token: text::view_opt(id_token),
                    access_token: text::view_opt(initial_access_token),
                    device_code: text::view_opt(pending_device_code),
                }),
                authenticated_at,
                now_ms,
            ),
    {
        match pending_device_code {
            Some(code) => {
                let was_pending = self.pending_device_codes.remove(code);
                if !was_pending {
                    assert(self@.pending_device_codes =~= old(self)@.pending_device_codes);
                    return Err(CodexOAuthError::ExpiredToken);
                }
            },
            None => {},
        }
        let data = CodexAccountData {
            account_id: account_id.clone(),
            email,
            chatgpt_account_id,
            refresh_token,
            authenticated_at,
            id_token,
            token_updated_at_ms: now_ms,
        };
        let account = GitHubAccount::from_account(&data);
        self.accounts.insert(account_id.clone(), data);
        match initial_access_token {
            Some(cached) => {
                self.access_tokens.insert(account_id.clone(), cached);
            },
            None => {
                self.access_tokens.remove(account_id.as_str());
            },
        }
        if self.default_account_id.is_none() {
            self.default_account_id = Some(account_id);
        }
        Ok(account)
    }

    /// Adds an account now. Where it completes the login `pending_device_code`, that
    /// login has to be there still.
    pub fn add_account_internal(
        &mut self,
        account_id: String,
        refresh_token: String,
        email: Option<String>,
        chatgpt_account_id: Option<String>,
        id_token: Option<DecodedToken>,
        initial_access_token: Option<CachedAccessToken>,
        pending_device_code: Option<&str>,
    ) -> (result: Result<GitHubAccount, CodexOAuthError>)
        ensures
            exists|authenticated_at: i64, now_ms: i64|
                clock::clock_shows_secs(authenticated_at) && clock::clock_shows_ms(now_ms) && (
                final(self)@,
                error::view_result(result),
                ) == #[trigger] old(self)@.adding(
                    (model::NewAccountModel {
                        account_id: account_id@,
                        refresh_token: refresh_token@,
                        email: text::view_opt(email),
                        chatgpt_account_id: text::view_opt(chatgpt_account_id),
                        id_token: text::view_opt(id_token),
                        access_token: text::view_opt(initial_access_token),
                        device_code: text::view_opt(pending_device_code),
                    }),
                    authenticated_at,
                    now_ms,
                ),
    {
        let authenticated_at: i64 = current_time_secs();
        let now_ms: i64 = current_time_ms();
        self.add_account_internal_at(
            account_id,
            refresh_token,
            email,
            chatgpt_account_id,
            id_token,
            initial_access_token,
            pending_device_code,
            authenticated_at,
            now_ms,
        )
    }

    /// Completes the login `device_code` with the tokens of the server, at the given
    /// times.
    pub fn poll_for_token_at(
        &mut self,
        device_code: &str,
        tokens: OAuthTokenResponse,
        times: LoginTimes,
    ) -> (result: Result<GitHubAccount, CodexOAuthError>)
        requires
            tokens@.refresh_token is Some && tokens@.identified() ==> clock::expiry_fits(
                times.life_from_ms,
                tokens@.expires_in,
            ),
        ensures
            (final(self)@, error::view_result(result)) == old(self)@.logging_in(
                device_code@,
                tokens@,
                times,
            ),
    {
        let (account_id, email, workspace) = extract_identity_from_tokens(&tokens);
        proof {
            account::tokens_have_an_account_if_they_name_one(tokens@);
        }
        match tokens.refresh_token {
            None => Err(
                CodexOAuthError::TokenFetchFailed("响应缺少 refresh_token".to_owned()),
            ),
            Some(refresh_token) => match account_id {
                None => Err(
                    CodexOAuthError::ParseError("无法从 token 中提取 account_id".to_owned()),
                ),
                Some(account_id) => {
                    let cached = CachedAccessToken {
                        token: tokens.access_token.text().to_owned(),
                        expires_at_ms: compute_expires_at_ms_from(
                            times.life_from_ms,
                            tokens.expires_in,
                        ),
                        obtained_at_ms: times.obtained_at_ms,
                    };
                    self.add_account_internal_at(
                        account_id,
                        refresh_token,
                        email,
                        workspace,
                        drop_blank(tokens.id_token),
                        Some(cached),
                        Some(device_code),
                        times.authenticated_at,
                        times.token_updated_at_ms,
                    )
                },
            },
        }
    }

    /// Completes the login `device_code` with the tokens of the server.
    pub fn poll_for_token(&mut self, device_code: &str, tokens: OAuthTokenResponse) -> (result:
        Result<GitHubAccount, CodexOAuthError>)
        requires
            tokens@.refresh_token is Some && tokens@.identified() ==> clock::expiry_always_fits(
                tokens@.expires_in,
            ),
        ensures
            exists|times: LoginTimes|
                times.shown() && (final(self)@, error::view_result(result))
                    == #[trigger] old(self)@.logging_in(device_code@, tokens@, times),
    {
        let times = LoginTimes {
            obtained_at_ms: current_time_ms(),
            life_from_ms: current_time_ms(),
            authenticated_at: current_time_secs(),
            token_updated_at_ms: current_time_ms(),
        };
        assert(tokens@.refresh_token is Some && tokens@.identified() ==> clock::expiry_fits(
            times.life_from_ms,
            tokens@.expires_in,
        ));
        self.poll_for_token_at(device_code, tokens, times)
    }
}

/// Taking over tokens from the credentials file.
impl CodexOAuthManager {
    /// Takes the tokens `live` in the credentials file over at `now_ms`, where they
    /// are certain to be newer, and says what became of them.
    pub fn adopt_account_refresh_token_under_lock_at(
        &mut self,
        account_id: &str,
        live: LiveAuth,
        mode: RefreshTokenAdoptionMode,
        now_ms: i64,
    ) -> (outcome: RefreshTokenAdoptionOutcome)
        ensures
            (final(self)@, outcome) == old(self)@.adopting(account_id@, live@, mode, now_ms),
    {
        match self.accounts.get(account_id) {
            Some(kept) => {
                let mut account = kept.clone();
                let outcome = adopt_into_account(&mut account, live, mode, now_ms);
                self.accounts.insert(account_id.to_owned(), account);
                if outcome == RefreshTokenAdoptionOutcome::Adopted {
                    self.access_tokens.remove(account_id);
                }
                outcome
            },
            None => RefreshTokenAdoptionOutcome::NotManaged,
        }
    }

    /// Takes the tokens `live` in the credentials file over where they are certain
    /// to be newer, and says what became of them.
    pub fn adopt_account_refresh_token_under_lock(
        &mut self,
        account_id: &str,
        live: LiveAuth,
        mode: RefreshTokenAdoptionMode,
    ) -> (outcome: RefreshTokenAdoptionOutcome)
        ensures
            exists|now_ms: i64|
                clock::clock_shows_ms(now_ms) && (final(self)@, outcome)
                    == #[trigger] old(self)@.adopting(account_id@, live@, mode, now_ms),
    {
        let now_ms: i64 = current_time_ms();
        self.adopt_account_refresh_token_under_lock_at(account_id, live, mode, now_ms)
    }

    /// Takes tokens in the credentials file over at `now_ms` where they are certain
    /// to be newer, and says whether anything has changed.
    pub fn adopt_account_refresh_token_at(
        &mut self,
        account_id: &str,
        refresh_token: String,
        id_token: Option<DecodedToken>,
        last_refresh_ms: Option<i64>,
        now_ms: i64,
    ) -> (changed: bool)
        ensures
            (final(self)@, changed) == old(self)@.adopting_written(
                account_id@,
                (adoption::LiveModel {
                    refresh_token: refresh_token@,
                    id_token: text::view_opt(id_token),
                    last_refresh_ms,
                }),
                now_ms,
            ),
    {
        let read = trim(refresh_token.as_str());
        if read.is_empty() {
            return false;
        }
        let live = LiveAuth { refresh_token: read.to_owned(), id_token, last_refresh_ms };
        self.adopt_account_refresh_token_under_lock_at(
            account_id,
            live,
            RefreshTokenAdoptionMode::TimestampChecked,
            now_ms,
        ).state_changed()
    }

    /// Takes tokens in the credentials file over where they are certain to be newer,
    /// and says whether anything has changed.
    pub fn adopt_account_refresh_token(
        &mut self,
        account_id: &str,
        refresh_token: String,
        id_token: Option<DecodedToken>,
        last_refresh_ms: Option<i64>,
    ) -> (changed: bool)
        ensures
            exists|now_ms: i64|
                clock::clock_shows_ms(now_ms) && (final(self)@, changed)
                    == #[trigger] old(self)@.adopting_written(
                    account_id@,
                    (adoption::LiveModel {
                        refresh_token: refresh_token@,
                        id_token: text::view_opt(id_token),
                        last_refresh_ms,
                    }),
                    now_ms,
                ),
    {
        let now_ms: i64 = current_time_ms();
        self.adopt_account_refresh_token_at(
            account_id,
            refresh_token,
            id_token,
            last_refresh_ms,
            now_ms,
        )
    }
}

/// What a refresh has left in an account.
#[derive(Debug)]
pub struct Renewal {
    pub refresh_token: String,
    pub id_token: Option<DecodedToken>,
    pub chatgpt_account_id: Option<String>,
    /// Whether the account has changed, so that it has to be saved.
    pub needs_save: bool,
}

impl View for Renewal {
    type V = model::RenewalModel;

    open spec fn view(&self) -> model::RenewalModel {
        model::RenewalModel {
            refresh_token: self.refresh_token@,
            id_token: text::view_opt(self.id_token),
            chatgpt_account_id: text::view_opt(self.chatgpt_account_id),
            needs_save: self.needs_save,
        }
    }
}

/// Refreshing tokens.
impl CodexOAuthManager {
    /// Stores the tokens that a refresh at `obtained_at_ms` with the refresh token
    /// `used` has brought. They are refused where the account no longer keeps that
    /// refresh token.
    pub fn renew_account_at(
        &mut self,
        account_id: &str,
        used: &str,
        tokens: &OAuthTokenResponse,
        obtained_at_ms: i64,
    ) -> (result: Result<Renewal, CodexOAuthError>)
        ensures
            (final(self)@, error::view_result(result)) == old(self)@.renewing(
                account_id@,
                used@,
                tokens@,
                obtained_at_ms,
            ),
    {
        let mut account = match self.accounts.get(account_id) {
            Some(kept) => kept.clone(),
            None => {
                return Err(CodexOAuthError::not_found(account_id));
            },
        };
        let ghost before = account@;
        if !same_text(account.refresh_token.as_str(), used) {
            return Err(
                CodexOAuthError::TokenFetchFailed(
                    "账号凭据已更新，已丢弃旧刷新响应".to_owned(),
                ),
            );
        }
        let mut needs_save = false;
        match &tokens.refresh_token {
            Some(refresh_token) => if !is_blank(refresh_token.as_str()) && !same_text(
                refresh_token.as_str(),
                account.refresh_token.as_str(),
            ) {
                account.refresh_token = refresh_token.clone();
                needs_save = true;
            },
            None => {},
        }
        match &tokens.id_token {
            Some(id_token) => if !is_blank(id_token.text()) && !reads(
                &account.id_token,
                id_token.text(),
            ) {
                account.id_token = Some(id_token.clone());
                needs_save = true;
            },
            None => {},
        }
        if account.token_updated_at_ms != obtained_at_ms {
            account.token_updated_at_ms = obtained_at_ms;
            needs_save = true;
        }
        assert(account@ == model::with_refreshed(before, tokens@, obtained_at_ms));
        let workspace = account.synced_chatgpt_account_id();
        if !same_opt(as_text(&account.chatgpt_account_id), as_text(&workspace)) {
            needs_save = true;
        }
        account.chatgpt_account_id = workspace;
        assert(account@ == model::renewed(before, tokens@, obtained_at_ms));
        let renewal = Renewal {
            refresh_token: account.refresh_token.clone(),
            id_token: account::copy_token(&account.id_token),
            chatgpt_account_id: copy_text(&account.chatgpt_account_id),
            needs_save,
        };
        self.accounts.insert(account_id.to_owned(), account);
        Ok(renewal)
    }

    /// Keeps `cached` as the access token of `account_id`.
    pub fn cache_access_token(&mut self, account_id: &str, cached: CachedAccessToken) -> (result:
        Result<(), CodexOAuthError>)
        ensures
            (final(self)@, error::view_result(result)) == old(self)@.caching(account_id@, cached@),
    {
        self.require_account(account_id)?;
        self.access_tokens.insert(account_id.to_owned(), cached);
        Ok(())
    }
}

} // verus!
