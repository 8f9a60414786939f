use audio_stream::errors::AudioError;
use audio_stream::resolver::SampleFormat;
use audio_stream::resolver::StreamConfig;
use audio_stream::resolver::StreamFactory;

fn good_config() -> StreamConfig {
    StreamConfig { sample_format: SampleFormat::F32, sample_rate: 44100, channels: 2 }
}

#[test]
fn no_default_device_fails_with_device_error() {
    // A backend with zero output devices: construction fails up front and no
    // factory (no device, no config) ever exists.
    let r = StreamFactory::<u32>::new(None, Ok("any".to_owned()), Ok(good_config()));
    assert!(r.is_err());
    assert!(matches!(r, Err(AudioError::DeviceError)));
}

#[test]
fn missing_device_wins_over_other_failures() {
    let r = StreamFactory::<u32>::new(None, Err("boom".to_owned()), Err("bad".to_owned()));
    assert!(matches!(r, Err(AudioError::DeviceError)));
}

#[test]
fn name_query_failure_propagates() {
    let r = StreamFactory::new(Some(7u32), Err("name query failed".to_owned()), Ok(good_config()));
    match r {
        Err(AudioError::DeviceNameError(m)) => assert_eq!(m, "name query failed"),
        _ => panic!("expected a device name error"),
    }
}

#[test]
fn config_negotiation_failure_propagates() {
    let r = StreamFactory::new(Some(7u32), Ok("dev".to_owned()), Err("no default config".to_owned()));
    match r {
        Err(AudioError::DefaultStreamConfigError(m)) => assert_eq!(m, "no default config"),
        _ => panic!("expected a config negotiation error"),
    }
}

#[test]
fn zero_rate_config_is_rejected() {
    let cfg = StreamConfig { sample_format: SampleFormat::I16, sample_rate: 0, channels: 2 };
    let r = StreamFactory::new(Some(7u32), Ok("dev".to_owned()), Ok(cfg));
    assert!(matches!(r, Err(AudioError::DefaultStreamConfigError(_))));
}

#[test]
fn zero_channel_config_is_rejected() {
    let cfg = StreamConfig { sample_format: SampleFormat::U16, sample_rate: 48000, channels: 0 };
    let r = StreamFactory::new(Some(7u32), Ok("dev".to_owned()), Ok(cfg));
    assert!(matches!(r, Err(AudioError::DefaultStreamConfigError(_))));
}

#[test]
fn successful_resolution_holds_device_and_config() {
    let factory = StreamFactory::new(Some(7u32), Ok("dev".to_owned()), Ok(good_config()))
        .expect("resolution succeeds");
    assert_eq!(*factory.device(), 7u32);
    assert_eq!(*factory.config(), good_config());
}

#[test]
fn initial_request_starts_at_zero_with_negotiated_rate() {
    let req = good_config().initial_request();
    assert_eq!(req.sample_rate, 44100);
    assert_eq!(req.sample_clock, 0);
}

#[test]
fn device_error_message_is_fixed_text() {
    assert_eq!(AudioError::DeviceError.message(), "default output device is not available");
}

#[test]
fn wrapped_error_messages_carry_backend_text() {
    assert_eq!(AudioError::DeviceNameError("n".to_owned()).message(), "n");
    assert_eq!(AudioError::DefaultStreamConfigError("c".to_owned()).message(), "c");
    assert_eq!(AudioError::BuildStreamError("b".to_owned()).message(), "b");
}
