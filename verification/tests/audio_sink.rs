use live_player::audio::sink::{
    create_audio_sink, list_asio_devices, AsioDevice, AudioDevice, AudioSinkFactory, AudioSinkPlan,
};
use live_player::output::native_handle::Platform;
use live_player::types::{AudioDriver, OutputTarget, OutputType};

fn audio_output(driver: Option<AudioDriver>) -> OutputTarget {
    OutputTarget {
        id: "a".to_string(),
        name: "Audio".to_string(),
        output_type: OutputType::Audio,
        brightness: None,
        display_index: None,
        fullscreen: None,
        ndi_name: None,
        audio_driver: driver,
        audio_device: Some("{CLSID-1}".to_string()),
        audio_channels: Some(vec![1, 2, 12]),
        syphon_name: None,
        spout_name: None,
    }
}

fn plain(factory: AudioSinkFactory) -> AudioSinkPlan {
    AudioSinkPlan { factory, device_clsid: None, output_channels: None, low_latency: false }
}

#[test]
fn asio_sink_carries_device_and_channels() {
    let expected = AudioSinkPlan {
        factory: AudioSinkFactory::AsioSink,
        device_clsid: Some("{CLSID-1}".to_string()),
        output_channels: Some("1,2,12".to_string()),
        low_latency: false,
    };
    let config = audio_output(Some(AudioDriver::Asio));
    assert_eq!(create_audio_sink(&config, Platform::Windows, false), expected);
    assert_eq!(create_audio_sink(&audio_output(None), Platform::Windows, true), expected);
    assert_eq!(
        create_audio_sink(&audio_output(Some(AudioDriver::Auto)), Platform::Windows, true),
        expected
    );
    let mut bare = audio_output(Some(AudioDriver::Asio));
    bare.audio_device = None;
    bare.audio_channels = None;
    assert_eq!(
        create_audio_sink(&bare, Platform::Windows, true),
        plain(AudioSinkFactory::AsioSink)
    );
}

#[test]
fn wasapi_sink_runs_with_low_latency() {
    let expected = AudioSinkPlan {
        factory: AudioSinkFactory::WasapiSink,
        device_clsid: None,
        output_channels: None,
        low_latency: true,
    };
    assert_eq!(
        create_audio_sink(&audio_output(Some(AudioDriver::Wasapi)), Platform::Windows, true),
        expected
    );
    assert_eq!(create_audio_sink(&audio_output(None), Platform::Windows, false), expected);
}

#[test]
fn sinks_of_other_platforms() {
    let sink = |driver, platform, preferred| {
        create_audio_sink(&audio_output(driver), platform, preferred)
    };
    assert_eq!(sink(None, Platform::MacOs, false), plain(AudioSinkFactory::OsxAudioSink));
    assert_eq!(
        sink(Some(AudioDriver::CoreAudio), Platform::MacOs, true),
        plain(AudioSinkFactory::OsxAudioSink)
    );
    assert_eq!(
        sink(Some(AudioDriver::Jack), Platform::MacOs, true),
        plain(AudioSinkFactory::AutoAudioSink)
    );
    assert_eq!(
        sink(Some(AudioDriver::Jack), Platform::Linux, false),
        plain(AudioSinkFactory::JackAudioSink)
    );
    assert_eq!(
        sink(Some(AudioDriver::Alsa), Platform::Linux, true),
        plain(AudioSinkFactory::AlsaSink)
    );
    assert_eq!(sink(None, Platform::Linux, true), plain(AudioSinkFactory::JackAudioSink));
    assert_eq!(sink(None, Platform::Linux, false), plain(AudioSinkFactory::AlsaSink));
    assert_eq!(
        sink(Some(AudioDriver::Asio), Platform::Linux, true),
        plain(AudioSinkFactory::AutoAudioSink)
    );
    assert_eq!(
        sink(Some(AudioDriver::CoreAudio), Platform::Windows, true),
        plain(AudioSinkFactory::AutoAudioSink)
    );
    assert_eq!(sink(None, Platform::Other, true), plain(AudioSinkFactory::AutoAudioSink));
}

#[test]
fn audio_sink_names() {
    assert_eq!(AudioSinkFactory::AsioSink.name(), "asiosink");
    assert_eq!(AudioSinkFactory::WasapiSink.name(), "wasapisink");
    assert_eq!(AudioSinkFactory::OsxAudioSink.name(), "osxaudiosink");
    assert_eq!(AudioSinkFactory::JackAudioSink.name(), "jackaudiosink");
    assert_eq!(AudioSinkFactory::AlsaSink.name(), "alsasink");
    assert_eq!(AudioSinkFactory::AutoAudioSink.name(), "autoaudiosink");
}

#[test]
fn asio_devices_are_filtered() {
    let device = |name: &str, api: Option<&str>, clsid: Option<&str>| AudioDevice {
        display_name: name.to_string(),
        api: api.map(|a| a.to_string()),
        clsid: clsid.map(|c| c.to_string()),
    };
    let devices = vec![
        device("Interface A", Some("asio"), Some("{A}")),
        device("Speakers", Some("wasapi"), Some("{S}")),
        device("No properties", None, None),
        device("Broken", Some("asio"), None),
        device("Interface B", Some("asio"), Some("{B}")),
    ];
    assert_eq!(
        list_asio_devices(Platform::Windows, &devices),
        vec![
            AsioDevice { name: "Interface A".to_string(), clsid: "{A}".to_string() },
            AsioDevice { name: "Interface B".to_string(), clsid: "{B}".to_string() },
        ]
    );
    assert_eq!(list_asio_devices(Platform::Linux, &devices), vec![]);
    assert_eq!(list_asio_devices(Platform::MacOs, &devices), vec![]);
    assert_eq!(list_asio_devices(Platform::Windows, &vec![]), vec![]);
}
