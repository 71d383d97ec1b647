//! The file-loading error boundary.

use kira::sound::static_sound::FromFileError;

#[test]
fn static_error_messages() {
    assert_eq!(FromFileError::NoAudio.message(), "The file does not contain any audio");
    assert_eq!(
        FromFileError::VariableSampleRate.message(),
        "The audio has multiple sample rates, which is not supported by StaticSounds"
    );
    assert_eq!(
        FromFileError::UnsupportedChannelConfiguration.message(),
        "Only mono and stereo audio is supported"
    );
}

#[test]
fn wrapped_errors_keep_their_own_messages() {
    let io_error = std::io::Error::new(std::io::ErrorKind::NotFound, "missing file");
    let wrapped = FromFileError::from(io_error);
    assert!(matches!(wrapped, FromFileError::IoError(_)));
    assert_eq!(wrapped.message(), "missing file");
    let decode_error = symphonia::core::errors::Error::DecodeError("bad packet");
    let wrapped = FromFileError::from(decode_error);
    assert!(matches!(wrapped, FromFileError::SymphoniaError(_)));
    assert_eq!(wrapped.message(), "malformed stream: bad packet");
}
