//! The errors of the OAuth flows.
use vstd::prelude::*;
use vstd::string::*;

verus! {

/// An error of an OAuth flow.
#[derive(Debug)]
pub enum CodexOAuthError {
    /// The user has not decided yet.
    AuthorizationPending,
    /// The user has refused.
    AccessDenied,
    /// The device code has expired.
    ExpiredToken,
    /// The tokens could not be obtained.
    TokenFetchFailed(String),
    /// The server no longer accepts the refresh token.
    RefreshTokenInvalid,
    /// The server could not be reached.
    NetworkError(String),
    /// A reply or a file could not be read.
    ParseError(String),
    /// A file could not be accessed.
    IoError(String),
    /// There is no such account.
    AccountNotFound(String),
}

/// The model of [`CodexOAuthError`].
pub enum ErrorModel {
    AuthorizationPending,
    AccessDenied,
    ExpiredToken,
    TokenFetchFailed(Seq<char>),
    RefreshTokenInvalid,
    NetworkError(Seq<char>),
    ParseError(Seq<char>),
    IoError(Seq<char>),
    AccountNotFound(Seq<char>),
}

impl View for CodexOAuthError {
    type V = ErrorModel;

    open spec fn view(&self) -> ErrorModel {
        match self {
            CodexOAuthError::AuthorizationPending => ErrorModel::AuthorizationPending,
            CodexOAuthError::AccessDenied => ErrorModel::AccessDenied,
            CodexOAuthError::ExpiredToken => ErrorModel::ExpiredToken,
            CodexOAuthError::TokenFetchFailed(detail) => ErrorModel::TokenFetchFailed(detail@),
            CodexOAuthError::RefreshTokenInvalid => ErrorModel::RefreshTokenInvalid,
            CodexOAuthError::NetworkError(detail) => ErrorModel::NetworkError(detail@),
            CodexOAuthError::ParseError(detail) => ErrorModel::ParseError(detail@),
            CodexOAuthError::IoError(detail) => ErrorModel::IoError(detail@),
            CodexOAuthError::AccountNotFound(account_id) => ErrorModel::AccountNotFound(
                account_id@,
            ),
        }
    }
}

impl ErrorModel {
    /// The text that is shown for the error.
    pub open spec fn message(self) -> Seq<char> {
        match self {
            ErrorModel::AuthorizationPending => "等待用户授权中"@,
            ErrorModel::AccessDenied => "用户拒绝授权"@,
            ErrorModel::ExpiredToken => "Device Code 已过期"@,
            ErrorModel::TokenFetchFailed(detail) => "OAuth Token 获取失败: "@ + detail,
            ErrorModel::RefreshTokenInvalid => "Refresh Token 失效或已过期"@,
            ErrorModel::NetworkError(detail) => "网络错误: "@ + detail,
            ErrorModel::ParseError(detail) => "解析错误: "@ + detail,
            ErrorModel::IoError(detail) => "IO 错误: "@ + detail,
            ErrorModel::AccountNotFound(account_id) => "账号不存在: "@ + account_id,
        }
    }
}

/// The model of the outcome of an operation.
pub open spec fn view_result<T: View>(result: Result<T, CodexOAuthError>) -> Result<
    T::V,
    ErrorModel,
> {
    match result {
        Ok(value) => Ok(value@),
        Err(error) => Err(error@),
    }
}

impl Clone for CodexOAuthError {
    fn clone(&self) -> (result: Self)
        ensures
            result@ == self@,
    {
        match self {
            CodexOAuthError::AuthorizationPending => CodexOAuthError::AuthorizationPending,
            CodexOAuthError::AccessDenied => CodexOAuthError::AccessDenied,
            CodexOAuthError::ExpiredToken => CodexOAuthError::ExpiredToken,
            CodexOAuthError::TokenFetchFailed(detail) => CodexOAuthError::TokenFetchFailed(
                detail.clone(),
            ),
            CodexOAuthError::RefreshTokenInvalid => CodexOAuthError::RefreshTokenInvalid,
            CodexOAuthError::NetworkError(detail) => CodexOAuthError::NetworkError(detail.clone()),
            CodexOAuthError::ParseError(detail) => CodexOAuthError::ParseError(detail.clone()),
            CodexOAuthError::IoError(detail) => CodexOAuthError::IoError(detail.clone()),
            CodexOAuthError::AccountNotFound(account_id) => CodexOAuthError::AccountNotFound(
                account_id.clone(),
            ),
        }
    }
}

impl CodexOAuthError {
    /// The text that is shown for the error.
    pub fn message(&self) -> (result: String)
        ensures
            result@ == self@.message(),
    {
        match self {
            CodexOAuthError::AuthorizationPending => "等待用户授权中".to_owned(),
            CodexOAuthError::AccessDenied => "用户拒绝授权".to_owned(),
            CodexOAuthError::ExpiredToken => "Device Code 已过期".to_owned(),
            CodexOAuthError::TokenFetchFailed(detail) => {
                "OAuth Token 获取失败: ".to_owned().concat(detail.as_str())
            },
            CodexOAuthError::RefreshTokenInvalid => "Refresh Token 失效或已过期".to_owned(),
            CodexOAuthError::NetworkError(detail) => "网络错误: ".to_owned().concat(detail.as_str()),
            CodexOAuthError::ParseError(detail) => "解析错误: ".to_owned().concat(detail.as_str()),
            CodexOAuthError::IoError(detail) => "IO 错误: ".to_owned().concat(detail.as_str()),
            CodexOAuthError::AccountNotFound(account_id) => {
                "账号不存在: ".to_owned().concat(account_id.as_str())
            },
        }
    }

    /// The error for an account that is not there.
    pub(crate) fn not_found(account_id: &str) -> (result: Self)
        ensures
            result@ == ErrorModel::AccountNotFound(account_id@),
    {
        CodexOAuthError::AccountNotFound(account_id.to_owned())
    }
}

} // verus!
