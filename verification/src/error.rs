//! Errors of the audio layer.
use vstd::prelude::*;

use crate::text::joined;

verus! {

/// What can go wrong while listing devices or recording.
#[derive(Debug, PartialEq, Eq)]
pub enum WasapiError {
    /// A call into Windows failed; the text is what Windows says of it.
    Windows(String),
    /// A string of Windows is not valid text.
    BadString,
    /// The audio format cannot be recorded; the text says which it is.
    UnsupportedFormat(String),
    /// The WAV file could not be written; the text says why.
    Wav(String),
    /// The capture thread ended by a panic.
    ThreadPanic,
}

impl WasapiError {
    /// The message shown to the user.
    pub open spec fn text(self) -> Seq<char> {
        match self {
            WasapiError::Windows(cause) => "Windows API 调用失败: "@ + cause@,
            WasapiError::BadString => "字符串解码失败"@,
            WasapiError::UnsupportedFormat(what) => "不支持的音频格式: "@ + what@,
            WasapiError::Wav(cause) => "WAV 写入失败: "@ + cause@,
            WasapiError::ThreadPanic => "捕获线程 panic"@,
        }
    }

    /// The message shown to the user.
    pub fn message(&self) -> (s: String)
        ensures
            s@ == self.text(),
    {
        match self {
            WasapiError::Windows(cause) => joined("Windows API 调用失败: ", cause.as_str()),
            WasapiError::BadString => "字符串解码失败".to_string(),
            WasapiError::UnsupportedFormat(what) => joined("不支持的音频格式: ", what.as_str()),
            WasapiError::Wav(cause) => joined("WAV 写入失败: ", cause.as_str()),
            WasapiError::ThreadPanic => "捕获线程 panic".to_string(),
        }
    }
}

/// A message says what went wrong and carries its cause to the last character.
pub proof fn law_messages(e: WasapiError)
    ensures
        match e {
            WasapiError::Windows(cause) => e.text() == "Windows API 调用失败: "@ + cause@,
            WasapiError::BadString => e.text() == "字符串解码失败"@,
            WasapiError::UnsupportedFormat(what) => e.text() == "不支持的音频格式: "@ + what@,
            WasapiError::Wav(cause) => e.text() == "WAV 写入失败: "@ + cause@,
            WasapiError::ThreadPanic => e.text() == "捕获线程 panic"@,
        },
{
}

} // verus!
