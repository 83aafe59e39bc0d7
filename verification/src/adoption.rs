//! Taking over tokens that another program has refreshed.
//!
//! The credentials file is shared with a command line tool that refreshes the
//! tokens in it by itself. What the file holds is taken over only where it is
//! certain to be newer than what is kept.
use crate::account;
use crate::account::CodexAccountData;
use crate::claims;
use crate::claims::DecodedToken;
use crate::text;
use crate::text::{is_blank, same_text};
use vstd::prelude::*;

verus! {

/// The tokens that the credentials file holds for an account.
#[derive(Debug)]
pub struct LiveAuth {
    pub refresh_token: String,
    pub id_token: Option<DecodedToken>,
    /// When the tokens were last refreshed, in milliseconds.
    pub last_refresh_ms: Option<i64>,
}

/// The model of [`LiveAuth`].
pub struct LiveModel {
    pub refresh_token: Seq<char>,
    pub id_token: Option<claims::TokenModel>,
    pub last_refresh_ms: Option<i64>,
}

impl View for LiveAuth {
    type V = LiveModel;

    open spec fn view(&self) -> LiveModel {
        LiveModel {
            refresh_token: self.refresh_token@,
            id_token: text::view_opt(self.id_token),
            last_refresh_ms: self.last_refresh_ms,
        }
    }
}

impl Clone for LiveAuth {
    fn clone(&self) -> (result: Self)
        ensures
            result@ == self@,
    {
        LiveAuth {
            refresh_token: self.refresh_token.clone(),
            id_token: account::copy_token(&self.id_token),
            last_refresh_ms: self.last_refresh_ms,
        }
    }
}

/// What is known of the tokens that are kept.
#[derive(Debug, Clone, Copy, PartialEq, Eq, Structural)]
pub enum RefreshTokenAdoptionMode {
    /// Nothing: other tokens have to be strictly newer to replace them.
    TimestampChecked,
    /// The server has just rejected them: other tokens replace them whatever their
    /// time.
    RejectedManagerToken,
}

/// What became of the tokens in the credentials file.
#[derive(Debug, Clone, Copy, PartialEq, Eq, Structural)]
pub enum RefreshTokenAdoptionOutcome {
    /// They are the tokens that are kept.
    Synchronized {
        /// Whether the time of the tokens was set.
        state_changed: bool,
    },
    /// They have replaced the tokens that were kept.
    Adopted,
    /// They are older than the tokens that are kept.
    ProvablyOlder,
    /// They are other tokens than those that are kept, and which are newer is not
    /// known.
    Ambiguous,
    /// The account is not kept here.
    NotManaged,
}

impl RefreshTokenAdoptionOutcome {
    /// Whether what is kept has changed, so that it has to be saved.
    pub open spec fn changed(self) -> bool {
        match self {
            RefreshTokenAdoptionOutcome::Synchronized { state_changed } => state_changed,
            RefreshTokenAdoptionOutcome::Adopted => true,
            _ => false,
        }
    }

    /// Whether what is kept has changed, so that it has to be saved.
    pub fn state_changed(self) -> (result: bool)
        ensures
            result == self.changed(),
    {
        match self {
            RefreshTokenAdoptionOutcome::Synchronized { state_changed } => state_changed,
            RefreshTokenAdoptionOutcome::Adopted => true,
            _ => false,
        }
    }
}

/// A token, unless it is blank.
pub open spec fn usable_token(token: Option<claims::TokenModel>) -> Option<claims::TokenModel> {
    match token {
        Some(token) => if text::blank(token.text) {
            None
        } else {
            Some(token)
        },
        None => None,
    }
}

/// Whether `token` is there and its text is `text`.
pub open spec fn token_reads(token: Option<claims::TokenModel>, text: Seq<char>) -> bool {
    match token {
        Some(token) => token.text == text,
        None => false,
    }
}

/// Whether an account keeps the ID token of `live`, or `live` has none.
pub open spec fn same_id_token(account: account::AccountModel, live: LiveModel) -> bool {
    match usable_token(live.id_token) {
        Some(token) => token_reads(account.id_token, token.text),
        None => true,
    }
}

/// Whether an account keeps the tokens of `live`.
pub open spec fn same_tokens(account: account::AccountModel, live: LiveModel) -> bool {
    account.refresh_token == live.refresh_token && same_id_token(account, live)
}

/// Whether it is known when the tokens of an account were obtained.
pub open spec fn dated(account: account::AccountModel) -> bool {
    account.token_updated_at_ms > 0
}

/// Whether `live` carries a time that is later than that of the account.
pub open spec fn later(account: account::AccountModel, live: LiveModel) -> bool {
    match live.last_refresh_ms {
        Some(observed) => observed > account.token_updated_at_ms,
        None => false,
    }
}

/// Whether `live` carries a time that is earlier than that of the account.
pub open spec fn earlier(account: account::AccountModel, live: LiveModel) -> bool {
    match live.last_refresh_ms {
        Some(observed) => observed < account.token_updated_at_ms,
        None => false,
    }
}

/// What becomes of `live`, for an account that is kept. Other tokens are taken over
/// where the server has rejected those of the account, or where both carry a time
/// and that of `live` is later.
pub open spec fn outcome_for(
    account: account::AccountModel,
    live: LiveModel,
    mode: RefreshTokenAdoptionMode,
) -> RefreshTokenAdoptionOutcome {
    if same_tokens(account, live) {
        RefreshTokenAdoptionOutcome::Synchronized {
            state_changed: !dated(account) || later(account, live),
        }
    } else if mode == RefreshTokenAdoptionMode::RejectedManagerToken || dated(account) && later(
        account,
        live,
    ) {
        RefreshTokenAdoptionOutcome::Adopted
    } else if dated(account) && earlier(account, live) {
        RefreshTokenAdoptionOutcome::ProvablyOlder
    } else {
        RefreshTokenAdoptionOutcome::Ambiguous
    }
}

/// One more than `ms`, or `ms` where there is no more.
pub open spec fn next_ms(ms: i64) -> i64 {
    if ms < i64::MAX {
        (ms + 1) as i64
    } else {
        ms
    }
}

/// The time of the tokens of an account after `live` was taken over at `now_ms`:
/// the time that `live` carries, where it is later, and otherwise a time later than
/// that of the account.
pub open spec fn adopted_time(account: account::AccountModel, live: LiveModel, now_ms: i64) -> i64 {
    if later(account, live) {
        live.last_refresh_ms->0
    } else if now_ms > next_ms(account.token_updated_at_ms) {
        now_ms
    } else {
        next_ms(account.token_updated_at_ms)
    }
}

/// The time of the tokens of an account after `live` was found to hold the same
/// tokens at `now_ms`.
pub open spec fn synchronized_time(
    account: account::AccountModel,
    live: LiveModel,
    now_ms: i64,
) -> i64 {
    if dated(account) {
        if later(account, live) {
            live.last_refresh_ms->0
        } else {
            account.token_updated_at_ms
        }
    } else {
        match live.last_refresh_ms {
            Some(observed) => if observed > 0 {
                observed
            } else {
                now_ms
            },
            None => now_ms,
        }
    }
}

/// An account with the tokens of `live`, before its workspace is read from them.
pub open spec fn with_tokens_of(
    account: account::AccountModel,
    live: LiveModel,
    now_ms: i64,
) -> account::AccountModel {
    account::AccountModel {
        refresh_token: live.refresh_token,
        id_token: if same_id_token(account, live) {
            account.id_token
        } else {
            usable_token(live.id_token)
        },
        token_updated_at_ms: adopted_time(account, live, now_ms),
        ..account
    }
}

/// An account after it met `live` at `now_ms`.
pub open spec fn account_after(
    account: account::AccountModel,
    live: LiveModel,
    mode: RefreshTokenAdoptionMode,
    now_ms: i64,
) -> account::AccountModel {
    match outcome_for(account, live, mode) {
        RefreshTokenAdoptionOutcome::Synchronized { .. } => account::AccountModel {
            token_updated_at_ms: synchronized_time(account, live, now_ms),
            ..account
        },
        RefreshTokenAdoptionOutcome::Adopted => {
            let renewed = with_tokens_of(account, live, now_ms);
            account::AccountModel { chatgpt_account_id: renewed.synced_workspace(), ..renewed }
        },
        _ => account,
    }
}

/// Whether `token` is there and its text is `text`.
pub(crate) fn reads(token: &Option<DecodedToken>, text: &str) -> (result: bool)
    ensures
        result == token_reads(text::view_opt(*token), text@),
{
    match token {
        Some(token) => same_text(token.text(), text),
        None => false,
    }
}

/// A token, unless it is blank.
pub(crate) fn drop_blank(token: Option<DecodedToken>) -> (result: Option<DecodedToken>)
    ensures
        text::view_opt(result) == usable_token(text::view_opt(token)),
{
    match token {
        Some(token) => if is_blank(token.text()) {
            None
        } else {
            Some(token)
        },
        None => None,
    }
}

/// Takes the tokens of `live` over into `account` where they are certain to be
/// newer, and says what became of them.
pub fn adopt_into_account(
    account: &mut CodexAccountData,
    live: LiveAuth,
    mode: RefreshTokenAdoptionMode,
    now_ms: i64,
) -> (outcome: RefreshTokenAdoptionOutcome)
    ensures
        outcome == outcome_for(old(account)@, live@, mode),
        final(account)@ == account_after(old(account)@, live@, mode, now_ms),
{
    let ghost before = account@;
    let ghost live_model = live@;
    let known_time: i64 = account.token_updated_at_ms;
    let observed_time: Option<i64> = live.last_refresh_ms;
    let is_dated = known_time > 0;
    let is_later = match observed_time {
        Some(observed) => observed > known_time,
        None => false,
    };
    let is_earlier = match observed_time {
        Some(observed) => observed < known_time,
        None => false,
    };
    let incoming = drop_blank(live.id_token);
    let id_token_same = match &incoming {
        Some(token) => reads(&account.id_token, token.text()),
        None => true,
    };
    let refresh_same = same_text(account.refresh_token.as_str(), live.refresh_token.as_str());
    if refresh_same && id_token_same {
        if !is_dated {
            account.token_updated_at_ms = match observed_time {
                Some(observed) => if observed > 0 {
                    observed
                } else {
                    now_ms
                },
                None => now_ms,
            };
        } else if is_later {
            match observed_time {
                Some(observed) => {
                    account.token_updated_at_ms = observed;
                },
                None => {},
            }
        }
        RefreshTokenAdoptionOutcome::Synchronized { state_changed: !is_dated || is_later }
    } else if mode == RefreshTokenAdoptionMode::RejectedManagerToken || (is_dated && is_later) {
        let next: i64 = if known_time < i64::MAX {
            known_time + 1
        } else {
            known_time
        };
        let adopted_at: i64 = match observed_time {
            Some(observed) => if observed > known_time {
                observed
            } else if now_ms > next {
                now_ms
            } else {
                next
            },
            None => if now_ms > next {
                now_ms
            } else {
                next
            },
        };
        account.refresh_token = live.refresh_token;
        if !id_token_same {
            account.id_token = incoming;
        }
        account.token_updated_at_ms = adopted_at;
        assert(account@ == with_tokens_of(before, live_model, now_ms));
        let workspace = account.synced_chatgpt_account_id();
        account.chatgpt_account_id = workspace;
        RefreshTokenAdoptionOutcome::Adopted
    } else if is_dated && is_earlier {
        RefreshTokenAdoptionOutcome::ProvablyOlder
    } else {
        RefreshTokenAdoptionOutcome::Ambiguous
    }
}

} // verus!
