//! The ways a synchronisation pass can fail.
use vstd::prelude::*;
use vstd::string::StringExecFns;

verus! {

/// Why a pass stopped. Every failure ends the pass; nothing is retried.
#[derive(Debug, PartialEq)]
pub enum SyncError {
    /// No log file could be found.
    NoLogFile,
    /// The log files hold no record page address for the requested player.
    CredentialNotFound,
    /// The record page address found cannot be read as an address.
    InvalidUrl(String),
    /// The pattern that finds record page addresses was refused.
    BadPattern(String),
    /// The record service answered with a status other than zero.
    CredentialRejected,
    /// The record service could not be reached.
    NetworkFailure(String),
    /// The answer of the record service could not be read.
    MalformedResponse(String),
    /// Reading, backing up or writing a file failed.
    PersistenceFailure(String),
    /// A pool holds more pulls than the statistics can count.
    HistoryTooLong,
    /// There are no cached statistics.
    NoCacheAvailable,
    /// An outcome was reported that the pass was not waiting for.
    OutOfTurn,
}

/// The mathematical value of a [`SyncError`].
pub enum SyncErrorView {
    NoLogFile,
    CredentialNotFound,
    InvalidUrl(Seq<char>),
    BadPattern(Seq<char>),
    CredentialRejected,
    NetworkFailure(Seq<char>),
    MalformedResponse(Seq<char>),
    PersistenceFailure(Seq<char>),
    HistoryTooLong,
    NoCacheAvailable,
    OutOfTurn,
}

impl View for SyncError {
    type V = SyncErrorView;

    open spec fn view(&self) -> SyncErrorView {
        match *self {
            SyncError::NoLogFile => SyncErrorView::NoLogFile,
            SyncError::CredentialNotFound => SyncErrorView::CredentialNotFound,
            SyncError::InvalidUrl(cause) => SyncErrorView::InvalidUrl(cause@),
            SyncError::BadPattern(cause) => SyncErrorView::BadPattern(cause@),
            SyncError::CredentialRejected => SyncErrorView::CredentialRejected,
            SyncError::NetworkFailure(cause) => SyncErrorView::NetworkFailure(cause@),
            SyncError::MalformedResponse(cause) => SyncErrorView::MalformedResponse(cause@),
            SyncError::PersistenceFailure(cause) => SyncErrorView::PersistenceFailure(cause@),
            SyncError::HistoryTooLong => SyncErrorView::HistoryTooLong,
            SyncError::NoCacheAvailable => SyncErrorView::NoCacheAvailable,
            SyncError::OutOfTurn => SyncErrorView::OutOfTurn,
        }
    }
}

/// The text shown to the user for each failure.
pub open spec fn message_of(error: SyncErrorView) -> Seq<char> {
    match error {
        SyncErrorView::NoLogFile => "未找到游戏进程"@,
        SyncErrorView::CredentialNotFound => "未打开过抽卡页面"@,
        SyncErrorView::InvalidUrl(cause) => cause,
        SyncErrorView::BadPattern(cause) => cause,
        SyncErrorView::CredentialRejected => "抽卡链接可能已经失效，请打开抽卡页面后重新获取。"@,
        SyncErrorView::NetworkFailure(cause) => "网络连接异常："@ + cause,
        SyncErrorView::MalformedResponse(cause) => cause,
        SyncErrorView::PersistenceFailure(cause) => cause,
        SyncErrorView::HistoryTooLong => "抽卡记录过多，无法统计"@,
        SyncErrorView::NoCacheAvailable => "无缓存"@,
        SyncErrorView::OutOfTurn => "内部状态异常"@,
    }
}

impl Clone for SyncError {
    fn clone(&self) -> (copy: Self)
        ensures
            copy == *self,
    {
        match self {
            SyncError::NoLogFile => SyncError::NoLogFile,
            SyncError::CredentialNotFound => SyncError::CredentialNotFound,
            SyncError::InvalidUrl(cause) => SyncError::InvalidUrl(cause.clone()),
            SyncError::BadPattern(cause) => SyncError::BadPattern(cause.clone()),
            SyncError::CredentialRejected => SyncError::CredentialRejected,
            SyncError::NetworkFailure(cause) => SyncError::NetworkFailure(cause.clone()),
            SyncError::MalformedResponse(cause) => SyncError::MalformedResponse(cause.clone()),
            SyncError::PersistenceFailure(cause) => SyncError::PersistenceFailure(cause.clone()),
            SyncError::HistoryTooLong => SyncError::HistoryTooLong,
            SyncError::NoCacheAvailable => SyncError::NoCacheAvailable,
            SyncError::OutOfTurn => SyncError::OutOfTurn,
        }
    }
}

impl SyncError {
    /// The text shown to the user for this failure.
    pub fn message(&self) -> (text: String)
        ensures
            text@ == message_of(self@),
    {
        match self {
            SyncError::NoLogFile => "未找到游戏进程".to_owned(),
            SyncError::CredentialNotFound => "未打开过抽卡页面".to_owned(),
            SyncError::InvalidUrl(cause) => cause.clone(),
            SyncError::BadPattern(cause) => cause.clone(),
            SyncError::CredentialRejected => "抽卡链接可能已经失效，请打开抽卡页面后重新获取。".to_owned(),
            SyncError::NetworkFailure(cause) => "网络连接异常：".to_owned().concat(cause.as_str()),
            SyncError::MalformedResponse(cause) => cause.clone(),
            SyncError::PersistenceFailure(cause) => cause.clone(),
            SyncError::HistoryTooLong => "抽卡记录过多，无法统计".to_owned(),
            SyncError::NoCacheAvailable => "无缓存".to_owned(),
            SyncError::OutOfTurn => "内部状态异常".to_owned(),
        }
    }
}

} // verus!
