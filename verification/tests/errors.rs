use system_recorder::error::WasapiError;

#[test]
fn every_error_has_its_message() {
    assert_eq!(
        WasapiError::Windows("拒绝访问。 (0x80070005)".to_string()).message(),
        "Windows API 调用失败: 拒绝访问。 (0x80070005)"
    );
    assert_eq!(WasapiError::BadString.message(), "字符串解码失败");
    assert_eq!(
        WasapiError::UnsupportedFormat("tag=0x0055 bits=16".to_string()).message(),
        "不支持的音频格式: tag=0x0055 bits=16"
    );
    assert_eq!(WasapiError::Wav("disk full".to_string()).message(), "WAV 写入失败: disk full");
    assert_eq!(WasapiError::ThreadPanic.message(), "捕获线程 panic");
}
