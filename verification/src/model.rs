//! What the authentication center holds, and what each operation makes of it.
use crate::account;
use crate::adoption;
use crate::adoption::{RefreshTokenAdoptionMode, RefreshTokenAdoptionOutcome};
use crate::clock;
use crate::error;
use crate::exchange;
use crate::json;
use crate::listing;
use crate::text;
use vstd::prelude::*;

verus! {

/// The model of a login that waits for the user.
pub struct PendingModel {
    pub user_code: Seq<char>,
    /// When the login is given up, in milliseconds.
    pub expires_at_ms: i64,
}

/// The accounts, their access tokens, and the logins that wait for the user.
#[verifier::ext_equal]
pub struct ManagerModel {
    pub accounts: Map<Seq<char>, account::AccountModel>,
    /// The account that was chosen as the default.
    pub default_account_id: Option<Seq<char>>,
    pub access_tokens: Map<Seq<char>, account::CachedModel>,
    pub pending_device_codes: Map<Seq<char>, PendingModel>,
    /// How often everything was cleared.
    pub login_epoch: u64,
}

/// The model of the reply to the request for a device code.
pub struct DeviceCodeModel {
    pub device_auth_id: Seq<char>,
    pub user_code: Seq<char>,
    pub interval: Option<json::JsonTree>,
    pub expires_in: Option<u64>,
}

/// The model of what the user needs to complete a login.
pub struct DeviceFlowModel {
    pub device_code: Seq<char>,
    pub user_code: Seq<char>,
    pub verification_uri: Seq<char>,
    pub expires_in: u64,
    pub interval: u64,
}

/// The clock readings of a login.
#[derive(Debug, Clone, Copy)]
pub struct LoginTimes {
    /// When the tokens were obtained, in milliseconds.
    pub obtained_at_ms: i64,
    /// From when on the life of the access token counts, in milliseconds.
    pub life_from_ms: i64,
    /// When the user logged in, in seconds.
    pub authenticated_at: i64,
    /// From when on the account is kept, in milliseconds.
    pub token_updated_at_ms: i64,
}

impl LoginTimes {
    /// Whether the clock can show these times.
    pub open spec fn shown(self) -> bool {
        &&& clock::clock_shows_ms(self.obtained_at_ms)
        &&& clock::clock_shows_ms(self.life_from_ms)
        &&& clock::clock_shows_secs(self.authenticated_at)
        &&& clock::clock_shows_ms(self.token_updated_at_ms)
    }
}

/// The model of what the authentication center is told about a new account.
pub struct NewAccountModel {
    pub account_id: Seq<char>,
    pub refresh_token: Seq<char>,
    pub email: Option<Seq<char>>,
    pub chatgpt_account_id: Option<Seq<char>>,
    pub id_token: Option<crate::claims::TokenModel>,
    /// The access token, where there is one already.
    pub access_token: Option<account::CachedModel>,
    /// The login that the account completes.
    pub device_code: Option<Seq<char>>,
}

impl NewAccountModel {
    /// The account, kept since the given times.
    pub open spec fn account(self, authenticated_at: i64, now_ms: i64) -> account::AccountModel {
        account::AccountModel {
            account_id: self.account_id,
            email: self.email,
            chatgpt_account_id: self.chatgpt_account_id,
            refresh_token: self.refresh_token,
            authenticated_at,
            id_token: self.id_token,
            token_updated_at_ms: now_ms,
        }
    }
}

/// The signed integer with the same 64 bits as `value`.
pub open spec fn two_complement(value: u64) -> int {
    if value <= i64::MAX {
        value as int
    } else {
        value - u64::MAX - 1
    }
}

/// The life of a device code, in seconds, where the server names none.
pub const DEVICE_CODE_DEFAULT_EXPIRES_IN: u64 = 900;

impl DeviceCodeModel {
    /// The life of the device code, in seconds.
    pub open spec fn life_secs(self) -> u64 {
        match self.expires_in {
            Some(secs) => secs,
            None => DEVICE_CODE_DEFAULT_EXPIRES_IN,
        }
    }

    /// When the device code expires, if it was obtained at `now_ms`.
    pub open spec fn expires_at(self, now_ms: i64) -> int {
        now_ms + two_complement(self.life_secs()) * 1000
    }

    /// Whether what follows from the reply at `now_ms` can be computed in 64 bits.
    pub open spec fn fits(self, now_ms: i64) -> bool {
        &&& json::kept_interval(self.interval) <= u64::MAX
        &&& clock::fits_i64(two_complement(self.life_secs()) * 1000)
        &&& clock::fits_i64(self.expires_at(now_ms))
    }

    /// What the user is told.
    pub open spec fn flow(self) -> DeviceFlowModel {
        DeviceFlowModel {
            device_code: self.device_auth_id,
            user_code: self.user_code,
            verification_uri: exchange::DEVICE_VERIFICATION_URL@,
            expires_in: self.life_secs(),
            interval: json::kept_interval(self.interval) as u64,
        }
    }

    /// The login that waits for the user.
    pub open spec fn pending(self, now_ms: i64) -> PendingModel {
        PendingModel { user_code: self.user_code, expires_at_ms: self.expires_at(now_ms) as i64 }
    }
}

/// The model of what a refresh has left in an account.
pub struct RenewalModel {
    pub refresh_token: Seq<char>,
    pub id_token: Option<crate::claims::TokenModel>,
    pub chatgpt_account_id: Option<Seq<char>>,
    /// Whether the account has changed.
    pub needs_save: bool,
}

/// An account with the tokens of a refresh, before its workspace is read from them.
/// What the reply leaves out or leaves blank stays as it was.
pub open spec fn with_refreshed(
    account: account::AccountModel,
    tokens: account::TokensModel,
    obtained_at_ms: i64,
) -> account::AccountModel {
    account::AccountModel {
        refresh_token: match text::not_blank(tokens.refresh_token) {
            Some(refresh_token) => refresh_token,
            None => account.refresh_token,
        },
        id_token: match adoption::usable_token(tokens.id_token) {
            Some(token) => if adoption::token_reads(account.id_token, token.text) {
                account.id_token
            } else {
                Some(token)
            },
            None => account.id_token,
        },
        token_updated_at_ms: obtained_at_ms,
        ..account
    }
}

/// An account with the tokens of a refresh.
pub open spec fn renewed(
    account: account::AccountModel,
    tokens: account::TokensModel,
    obtained_at_ms: i64,
) -> account::AccountModel {
    let refreshed = with_refreshed(account, tokens, obtained_at_ms);
    account::AccountModel { chatgpt_account_id: refreshed.synced_workspace(), ..refreshed }
}

/// What a map holds under a key.
pub open spec fn lookup<V>(map: Map<Seq<char>, V>, key: Seq<char>) -> Option<V> {
    if map.dom().contains(key) {
        Some(map[key])
    } else {
        None
    }
}

/// The error for an account that is not there.
pub open spec fn not_found<T>(account_id: Seq<char>) -> Result<T, error::ErrorModel> {
    Err(error::ErrorModel::AccountNotFound(account_id))
}

impl ManagerModel {
    /// No account, no token, no login.
    pub open spec fn empty() -> ManagerModel {
        ManagerModel {
            accounts: Map::empty(),
            default_account_id: None,
            access_tokens: Map::empty(),
            pending_device_codes: Map::empty(),
            login_epoch: 0,
        }
    }

    /// The stored accounts. Where no default is stored, the account of the latest
    /// login is the default.
    pub open spec fn loaded(
        accounts: Map<Seq<char>, account::AccountModel>,
        default_account_id: Option<Seq<char>>,
    ) -> ManagerModel {
        ManagerModel {
            accounts,
            default_account_id: text::or_else(default_account_id, listing::fallback(accounts)),
            ..ManagerModel::empty()
        }
    }

    /// Whether there is an account under `account_id`.
    pub open spec fn has(self, account_id: Seq<char>) -> bool {
        self.accounts.dom().contains(account_id)
    }

    /// Whether every access token belongs to an account.
    pub open spec fn tokens_have_accounts(self) -> bool {
        forall|id: Seq<char>| #[trigger] self.access_tokens.dom().contains(id) ==> self.has(id)
    }

    /// The default account: the chosen one where it is there, and otherwise the one
    /// of the latest login.
    pub open spec fn default_account(self) -> Option<Seq<char>> {
        match self.default_account_id {
            Some(id) => if self.has(id) {
                Some(id)
            } else {
                listing::fallback(self.accounts)
            },
            None => listing::fallback(self.accounts),
        }
    }

    /// The logins that have not expired at `now_ms`.
    pub open spec fn live_pending(self, now_ms: i64) -> Map<Seq<char>, PendingModel> {
        Map::new(
            |code: Seq<char>|
                self.pending_device_codes.dom().contains(code)
                    && self.pending_device_codes[code].expires_at_ms > now_ms,
            |code: Seq<char>| self.pending_device_codes[code],
        )
    }

    /// Without the login `device_code`.
    pub open spec fn without_pending(self, device_code: Seq<char>) -> ManagerModel {
        ManagerModel {
            pending_device_codes: self.pending_device_codes.remove(device_code),
            ..self
        }
    }

    /// With `account` under `account_id`.
    pub open spec fn with_account(
        self,
        account_id: Seq<char>,
        account: account::AccountModel,
    ) -> ManagerModel {
        ManagerModel { accounts: self.accounts.insert(account_id, account), ..self }
    }

    /// With `cached` as the access token of `account_id`, or with none.
    pub open spec fn with_access_token(
        self,
        account_id: Seq<char>,
        cached: Option<account::CachedModel>,
    ) -> ManagerModel {
        ManagerModel {
            access_tokens: match cached {
                Some(cached) => self.access_tokens.insert(account_id, cached),
                None => self.access_tokens.remove(account_id),
            },
            ..self
        }
    }

    /// With `account_id` as the chosen default where none is chosen yet.
    pub open spec fn with_first_default(self, account_id: Seq<char>) -> ManagerModel {
        ManagerModel {
            default_account_id: text::or_else(self.default_account_id, Some(account_id)),
            ..self
        }
    }

    /// Without the account `account_id`. Where it was the chosen default, the
    /// account of the latest login takes its place.
    pub open spec fn without_account(self, account_id: Seq<char>) -> ManagerModel {
        let accounts = self.accounts.remove(account_id);
        ManagerModel {
            accounts,
            access_tokens: self.access_tokens.remove(account_id),
            default_account_id: if self.default_account_id == Some(account_id) {
                listing::fallback(accounts)
            } else {
                self.default_account_id
            },
            ..self
        }
    }

    /// After everything was cleared.
    pub open spec fn cleared(self) -> ManagerModel {
        ManagerModel {
            login_epoch: if self.login_epoch < u64::MAX {
                (self.login_epoch + 1) as u64
            } else {
                0
            },
            ..ManagerModel::empty()
        }
    }

    /// Choosing `account_id` as the default.
    pub open spec fn choosing_default(self, account_id: Seq<char>) -> (
        ManagerModel,
        Result<(), error::ErrorModel>,
    ) {
        if self.has(account_id) {
            (ManagerModel { default_account_id: Some(account_id), ..self }, Ok(()))
        } else {
            (self, not_found(account_id))
        }
    }

    /// Removing `account_id`.
    pub open spec fn removing(self, account_id: Seq<char>) -> (
        ManagerModel,
        Result<(), error::ErrorModel>,
    ) {
        if self.has(account_id) {
            (self.without_account(account_id), Ok(()))
        } else {
            (self, not_found(account_id))
        }
    }

    /// Registering a login at `now_ms` that began with `login_epoch`. Where
    /// everything was cleared since then it is refused; otherwise the logins that
    /// have expired are dropped.
    pub open spec fn registering(
        self,
        device_auth_id: Seq<char>,
        pending: PendingModel,
        login_epoch: u64,
        now_ms: i64,
    ) -> (ManagerModel, Result<(), error::ErrorModel>) {
        if self.login_epoch == login_epoch {
            (
                ManagerModel {
                    pending_device_codes: self.live_pending(now_ms).insert(
                        device_auth_id,
                        pending,
                    ),
                    ..self
                },
                Ok(()),
            )
        } else {
            (self, Err(error::ErrorModel::ExpiredToken))
        }
    }

    /// Beginning the login for which the server sent `device`, obtained at
    /// `obtained_ms` and registered at `now_ms`.
    pub open spec fn starting_flow(
        self,
        device: DeviceCodeModel,
        login_epoch: u64,
        obtained_ms: i64,
        now_ms: i64,
    ) -> (ManagerModel, Result<DeviceFlowModel, error::ErrorModel>) {
        let (after, outcome) = self.registering(
            device.device_auth_id,
            device.pending(obtained_ms),
            login_epoch,
            now_ms,
        );
        match outcome {
            Ok(_) => (after, Ok(device.flow())),
            Err(error) => (after, Err(error)),
        }
    }

    /// Asking for the user code of the login `device_code` at `now_ms`. A login that
    /// has expired is dropped.
    pub open spec fn polling(self, device_code: Seq<char>, now_ms: i64) -> (
        ManagerModel,
        Result<Seq<char>, error::ErrorModel>,
    ) {
        match lookup(self.pending_device_codes, device_code) {
            Some(pending) => if pending.expires_at_ms <= now_ms {
                (self.without_pending(device_code), Err(error::ErrorModel::ExpiredToken))
            } else {
                (self, Ok(pending.user_code))
            },
            None => (
                self,
                Err(
                    error::ErrorModel::TokenFetchFailed(
                        "未找到对应的 user_code，请重新启动登录流程"@,
                    ),
                ),
            ),
        }
    }

    /// Adding an account. Where it completes a login, that login has to be there
    /// still, and is dropped.
    pub open spec fn adding(self, new: NewAccountModel, authenticated_at: i64, now_ms: i64) -> (
        ManagerModel,
        Result<account::SummaryModel, error::ErrorModel>,
    ) {
        let account = new.account(authenticated_at, now_ms);
        match new.device_code {
            Some(code) => if self.pending_device_codes.dom().contains(code) {
                (self.without_pending(code).with_new(new, account), Ok(account.summary()))
            } else {
                (self, Err(error::ErrorModel::ExpiredToken))
            },
            None => (self.with_new(new, account), Ok(account.summary())),
        }
    }

    /// With a new account.
    pub open spec fn with_new(
        self,
        new: NewAccountModel,
        account: account::AccountModel,
    ) -> ManagerModel {
        self.with_account(new.account_id, account).with_access_token(
            new.account_id,
            new.access_token,
        ).with_first_default(new.account_id)
    }

    /// Completing the login `device_code` with the tokens of the server.
    pub open spec fn logging_in(
        self,
        device_code: Seq<char>,
        tokens: account::TokensModel,
        times: LoginTimes,
    ) -> (ManagerModel, Result<account::SummaryModel, error::ErrorModel>) {
        match (tokens.refresh_token, tokens.account_id()) {
            (None, _) => (
                self,
                Err(error::ErrorModel::TokenFetchFailed("响应缺少 refresh_token"@)),
            ),
            (Some(_), None) => (
                self,
                Err(error::ErrorModel::ParseError("无法从 token 中提取 account_id"@)),
            ),
            (Some(refresh_token), Some(account_id)) => self.adding(
                NewAccountModel {
                    account_id,
                    refresh_token,
                    email: tokens.identity().email,
                    chatgpt_account_id: tokens.workspace(),
                    id_token: adoption::usable_token(tokens.id_token),
                    access_token: Some(
                        account::CachedModel {
                            token: tokens.access_token.text,
                            expires_at_ms: clock::expires_at(
                                times.life_from_ms,
                                tokens.expires_in,
                            ) as i64,
                            obtained_at_ms: times.obtained_at_ms,
                        },
                    ),
                    device_code: Some(device_code),
                },
                times.authenticated_at,
                times.token_updated_at_ms,
            ),
        }
    }

    /// What becomes of the tokens `live` in the credentials file.
    pub open spec fn adoption_outcome(
        self,
        account_id: Seq<char>,
        live: adoption::LiveModel,
        mode: RefreshTokenAdoptionMode,
    ) -> RefreshTokenAdoptionOutcome {
        if self.has(account_id) {
            adoption::outcome_for(self.accounts[account_id], live, mode)
        } else {
            RefreshTokenAdoptionOutcome::NotManaged
        }
    }

    /// After the account met the tokens `live` in the credentials file at `now_ms`.
    /// Tokens that were taken over make the access token worthless.
    pub open spec fn after_adoption(
        self,
        account_id: Seq<char>,
        live: adoption::LiveModel,
        mode: RefreshTokenAdoptionMode,
        now_ms: i64,
    ) -> ManagerModel {
        let outcome = self.adoption_outcome(account_id, live, mode);
        if outcome == RefreshTokenAdoptionOutcome::NotManaged {
            self
        } else {
            let kept = self.with_account(
                account_id,
                adoption::account_after(self.accounts[account_id], live, mode, now_ms),
            );
            if outcome == RefreshTokenAdoptionOutcome::Adopted {
                kept.with_access_token(account_id, None)
            } else {
                kept
            }
        }
    }

    /// Meeting the tokens `live` in the credentials file at `now_ms`.
    pub open spec fn adopting(
        self,
        account_id: Seq<char>,
        live: adoption::LiveModel,
        mode: RefreshTokenAdoptionMode,
        now_ms: i64,
    ) -> (ManagerModel, RefreshTokenAdoptionOutcome) {
        (
            self.after_adoption(account_id, live, mode, now_ms),
            self.adoption_outcome(account_id, live, mode),
        )
    }

    /// Meeting the tokens in the credentials file at `now_ms`, with the refresh
    /// token as the file writes it, and whether that changed anything. A blank
    /// refresh token is passed over.
    pub open spec fn adopting_written(
        self,
        account_id: Seq<char>,
        live: adoption::LiveModel,
        now_ms: i64,
    ) -> (ManagerModel, bool) {
        let read = adoption::LiveModel { refresh_token: text::trimmed(live.refresh_token), ..live };
        if text::blank(live.refresh_token) {
            (self, false)
        } else {
            let (after, outcome) = self.adopting(
                account_id,
                read,
                RefreshTokenAdoptionMode::TimestampChecked,
                now_ms,
            );
            (after, outcome.changed())
        }
    }

    /// Storing the tokens that a refresh at `obtained_at_ms` with the refresh token
    /// `used` has brought. They are refused where the account no longer keeps that
    /// refresh token.
    pub open spec fn renewing(
        self,
        account_id: Seq<char>,
        used: Seq<char>,
        tokens: account::TokensModel,
        obtained_at_ms: i64,
    ) -> (ManagerModel, Result<RenewalModel, error::ErrorModel>) {
        if !self.has(account_id) {
            (self, not_found(account_id))
        } else if self.accounts[account_id].refresh_token != used {
            (
                self,
                Err(error::ErrorModel::TokenFetchFailed("账号凭据已更新，已丢弃旧刷新响应"@)),
            )
        } else {
            let before = self.accounts[account_id];
            let after = renewed(before, tokens, obtained_at_ms);
            (
                self.with_account(account_id, after),
                Ok(
                    RenewalModel {
                        refresh_token: after.refresh_token,
                        id_token: after.id_token,
                        chatgpt_account_id: after.chatgpt_account_id,
                        needs_save: after != before,
                    },
                ),
            )
        }
    }

    /// Keeping `cached` as the access token of `account_id`.
    pub open spec fn caching(self, account_id: Seq<char>, cached: account::CachedModel) -> (
        ManagerModel,
        Result<(), error::ErrorModel>,
    ) {
        if self.has(account_id) {
            (self.with_access_token(account_id, Some(cached)), Ok(()))
        } else {
            (self, not_found(account_id))
        }
    }

    /// The access token of `account_id` that can be used at `now_ms` as it is.
    pub open spec fn usable_access_token(self, account_id: Seq<char>, now_ms: i64) -> Option<
        account::CachedModel,
    > {
        match lookup(self.access_tokens, account_id) {
            Some(cached) => if cached.expiring_soon(now_ms) {
                None
            } else {
                Some(cached)
            },
            None => None,
        }
    }

    /// Asking for an access token of `account_id` that can be used at `now_ms` as it
    /// is.
    pub open spec fn cached_token(self, account_id: Seq<char>, now_ms: i64) -> Result<
        Option<account::CachedModel>,
        error::ErrorModel,
    > {
        if self.has(account_id) {
            Ok(self.usable_access_token(account_id, now_ms))
        } else {
            not_found(account_id)
        }
    }
}

} // verus!
