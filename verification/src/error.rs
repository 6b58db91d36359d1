//! The error types shared across the crate.

use vstd::prelude::*;

use crate::text::{concat, decimal_digits, u64_to_decimal};

verus! {

/// An error of a speech synthesis engine operation.
#[derive(Debug)]
pub enum TtsError {
    /// The HTTP request itself failed.
    Http(String),
    /// The engine answered with a status outside 2xx.
    BadResponse { status: u16, body: String },
    /// The response body could not be decoded.
    Decode(String),
    /// The engine does not offer this operation (such as dictionary entries).
    Unsupported(String),
}

/// An error of the voice settings store.
#[derive(Debug)]
pub enum StoreError {
    /// Reading or writing the settings file failed.
    Io(String),
    /// Decoding or encoding the settings JSON failed.
    Serde(String),
}

/// An error reading the configuration from the environment.
#[derive(Debug)]
pub enum ConfigError {
    /// A required environment variable is not set (or is empty).
    Missing(&'static str),
    /// An environment variable's value cannot be converted to its type.
    Invalid { name: &'static str, value: String },
}

impl TtsError {
    /// The text shown for this error.
    pub open spec fn text(&self) -> Seq<char> {
        match self {
            TtsError::Http(m) => "HTTP リクエストに失敗しました: "@ + m@,
            TtsError::BadResponse { status, body } => "エンジンがステータス "@ + decimal_digits(
                *status as nat,
            ) + " を返しました: "@ + body@,
            TtsError::Decode(m) => "レスポンスの解析に失敗しました: "@ + m@,
            TtsError::Unsupported(e) => "エンジン '"@ + e@ + "' はこの操作に対応していません"@,
        }
    }

    /// The message shown for this error.
    pub fn message(&self) -> (r: String)
        ensures
            r@ == self.text(),
    {
        match self {
            TtsError::Http(m) => concat("HTTP リクエストに失敗しました: ", m.as_str()),
            TtsError::BadResponse { status, body } => {
                let a = concat("エンジンがステータス ", u64_to_decimal(*status as u64).as_str());
                let b = concat(a.as_str(), " を返しました: ");
                concat(b.as_str(), body.as_str())
            },
            TtsError::Decode(m) => concat("レスポンスの解析に失敗しました: ", m.as_str()),
            TtsError::Unsupported(e) => {
                let a = concat("エンジン '", e.as_str());
                concat(a.as_str(), "' はこの操作に対応していません")
            },
        }
    }
}

impl StoreError {
    /// The text shown for this error.
    pub open spec fn text(&self) -> Seq<char> {
        match self {
            StoreError::Io(m) => "設定ファイルの I/O に失敗しました: "@ + m@,
            StoreError::Serde(m) => "設定ファイルの解析に失敗しました: "@ + m@,
        }
    }

    /// The message shown for this error.
    pub fn message(&self) -> (r: String)
        ensures
            r@ == self.text(),
    {
        match self {
            StoreError::Io(m) => concat("設定ファイルの I/O に失敗しました: ", m.as_str()),
            StoreError::Serde(m) => concat("設定ファイルの解析に失敗しました: ", m.as_str()),
        }
    }
}

impl ConfigError {
    /// The text shown for this error.
    pub open spec fn text(&self) -> Seq<char> {
        match self {
            ConfigError::Missing(name) => "必須の環境変数 `"@ + name@ + "` が設定されていません"@,
            ConfigError::Invalid { name, value } => "環境変数 `"@ + name@ + "` の値が不正です: "@
                + value@,
        }
    }

    /// The message shown for this error.
    pub fn message(&self) -> (r: String)
        ensures
            r@ == self.text(),
    {
        match self {
            ConfigError::Missing(name) => {
                let a = concat("必須の環境変数 `", name);
                concat(a.as_str(), "` が設定されていません")
            },
            ConfigError::Invalid { name, value } => {
                let a = concat("環境変数 `", name);
                let b = concat(a.as_str(), "` の値が不正です: ");
                concat(b.as_str(), value.as_str())
            },
        }
    }
}

} // verus!
