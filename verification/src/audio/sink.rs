//! The choice of audio sink for an output, and the list of ASIO devices.

use vstd::prelude::*;
use vstd::string::*;
use crate::output::native_handle::Platform;
use crate::text::{join_decimals, joined_decimals};
use crate::types::{AudioDriver, OutputTarget, OutputTargetView};
use crate::types::media::{clone_opt_text, opt_chars};

verus! {

/// An audio sink element of the media framework.
#[derive(Debug, Clone, Copy, PartialEq, Eq, Structural)]
pub enum AudioSinkFactory {
    AsioSink,
    WasapiSink,
    OsxAudioSink,
    JackAudioSink,
    AlsaSink,
    AutoAudioSink,
}

/// The name under which the media framework knows an audio sink.
pub open spec fn audio_factory_name_of(factory: AudioSinkFactory) -> Seq<char> {
    match factory {
        AudioSinkFactory::AsioSink => "asiosink"@,
        AudioSinkFactory::WasapiSink => "wasapisink"@,
        AudioSinkFactory::OsxAudioSink => "osxaudiosink"@,
        AudioSinkFactory::JackAudioSink => "jackaudiosink"@,
        AudioSinkFactory::AlsaSink => "alsasink"@,
        AudioSinkFactory::AutoAudioSink => "autoaudiosink"@,
    }
}

impl AudioSinkFactory {
    /// The name under which the media framework knows this sink.
    pub fn name(&self) -> (n: &'static str)
        ensures
            n@ == audio_factory_name_of(*self),
    {
        match self {
            AudioSinkFactory::AsioSink => "asiosink",
            AudioSinkFactory::WasapiSink => "wasapisink",
            AudioSinkFactory::OsxAudioSink => "osxaudiosink",
            AudioSinkFactory::JackAudioSink => "jackaudiosink",
            AudioSinkFactory::AlsaSink => "alsasink",
            AudioSinkFactory::AutoAudioSink => "autoaudiosink",
        }
    }
}

/// The audio sink of an output and the properties it is made with.
#[derive(Debug, PartialEq, Eq)]
pub struct AudioSinkPlan {
    pub factory: AudioSinkFactory,
    /// The `device-clsid` property of an ASIO sink.
    pub device_clsid: Option<String>,
    /// The `output-channels` property of an ASIO sink: channel numbers
    /// separated by commas.
    pub output_channels: Option<String>,
    /// The `low-latency` property of a WASAPI sink.
    pub low_latency: bool,
}

/// An audio sink plan with its texts as characters.
pub struct AudioSinkPlanView {
    pub factory: AudioSinkFactory,
    pub device_clsid: Option<Seq<char>>,
    pub output_channels: Option<Seq<char>>,
    pub low_latency: bool,
}

impl View for AudioSinkPlan {
    type V = AudioSinkPlanView;

    open spec fn view(&self) -> AudioSinkPlanView {
        AudioSinkPlanView {
            factory: self.factory,
            device_clsid: opt_chars(self.device_clsid),
            output_channels: opt_chars(self.output_channels),
            low_latency: self.low_latency,
        }
    }
}

impl Clone for AudioSinkPlan {
    fn clone(&self) -> (r: Self)
        ensures
            r@ == self@,
    {
        AudioSinkPlan {
            factory: self.factory,
            device_clsid: clone_opt_text(&self.device_clsid),
            output_channels: clone_opt_text(&self.output_channels),
            low_latency: self.low_latency,
        }
    }
}

/// The driver an output asks for; automatic where it names none.
pub open spec fn driver_of(driver: Option<AudioDriver>) -> AudioDriver {
    match driver {
        Some(d) => d,
        None => AudioDriver::Auto,
    }
}

/// The audio sink for a driver on a platform. `preferred` says whether the
/// platform's preferred low-latency sink is installed: the ASIO sink on
/// Windows, the JACK sink on Linux. A driver that the platform does not have
/// gets the sink that picks a device of its own.
pub open spec fn audio_factory_of(
    driver: AudioDriver,
    platform: Platform,
    preferred: bool,
) -> AudioSinkFactory {
    match (platform, driver) {
        (Platform::Windows, AudioDriver::Asio) => AudioSinkFactory::AsioSink,
        (Platform::Windows, AudioDriver::Wasapi) => AudioSinkFactory::WasapiSink,
        (Platform::Windows, AudioDriver::Auto) => if preferred {
            AudioSinkFactory::AsioSink
        } else {
            AudioSinkFactory::WasapiSink
        },
        (Platform::MacOs, AudioDriver::CoreAudio) => AudioSinkFactory::OsxAudioSink,
        (Platform::MacOs, AudioDriver::Auto) => AudioSinkFactory::OsxAudioSink,
        (Platform::Linux, AudioDriver::Jack) => AudioSinkFactory::JackAudioSink,
        (Platform::Linux, AudioDriver::Alsa) => AudioSinkFactory::AlsaSink,
        (Platform::Linux, AudioDriver::Auto) => if preferred {
            AudioSinkFactory::JackAudioSink
        } else {
            AudioSinkFactory::AlsaSink
        },
        _ => AudioSinkFactory::AutoAudioSink,
    }
}

/// The low-latency sink that a platform prefers where it is installed: the
/// ASIO sink on Windows, the JACK sink on Linux.
pub open spec fn preferred_sink_of(platform: Platform) -> Option<AudioSinkFactory> {
    match platform {
        Platform::Windows => Some(AudioSinkFactory::AsioSink),
        Platform::Linux => Some(AudioSinkFactory::JackAudioSink),
        _ => None,
    }
}

/// The sink whose presence decides what the automatic driver picks on a
/// platform.
pub fn preferred_sink(platform: Platform) -> (sink: Option<AudioSinkFactory>)
    ensures
        sink == preferred_sink_of(platform),
{
    match platform {
        Platform::Windows => Some(AudioSinkFactory::AsioSink),
        Platform::Linux => Some(AudioSinkFactory::JackAudioSink),
        _ => None,
    }
}

/// The plan for the audio sink of an output: the ASIO sink carries the
/// output's device and its channels joined by commas, the WASAPI sink runs
/// with low latency, every other sink has no properties.
pub open spec fn audio_sink_plan_of(
    config: OutputTargetView,
    platform: Platform,
    preferred: bool,
) -> AudioSinkPlanView {
    let factory = audio_factory_of(driver_of(config.audio_driver), platform, preferred);
    AudioSinkPlanView {
        factory,
        device_clsid: if factory == AudioSinkFactory::AsioSink {
            config.audio_device
        } else {
            None
        },
        output_channels: if factory == AudioSinkFactory::AsioSink {
            match config.audio_channels {
                Some(c) => Some(joined_decimals(c, ","@)),
                None => None,
            }
        } else {
            None
        },
        low_latency: factory == AudioSinkFactory::WasapiSink,
    }
}

/// Plans the audio sink of an output.
pub fn create_audio_sink(config: &OutputTarget, platform: Platform, preferred: bool) -> (plan:
    AudioSinkPlan)
    ensures
        plan@ == audio_sink_plan_of(config@, platform, preferred),
{
    let driver = match config.audio_driver {
        Some(d) => d,
        None => AudioDriver::Auto,
    };
    let factory = match (platform, driver) {
        (Platform::Windows, AudioDriver::Asio) => AudioSinkFactory::AsioSink,
        (Platform::Windows, AudioDriver::Wasapi) => AudioSinkFactory::WasapiSink,
        (Platform::Windows, AudioDriver::Auto) => if preferred {
            AudioSinkFactory::AsioSink
        } else {
            AudioSinkFactory::WasapiSink
        },
        (Platform::MacOs, AudioDriver::CoreAudio) => AudioSinkFactory::OsxAudioSink,
        (Platform::MacOs, AudioDriver::Auto) => AudioSinkFactory::OsxAudioSink,
        (Platform::Linux, AudioDriver::Jack) => AudioSinkFactory::JackAudioSink,
        (Platform::Linux, AudioDriver::Alsa) => AudioSinkFactory::AlsaSink,
        (Platform::Linux, AudioDriver::Auto) => if preferred {
            AudioSinkFactory::JackAudioSink
        } else {
            AudioSinkFactory::AlsaSink
        },
        _ => AudioSinkFactory::AutoAudioSink,
    };
    match factory {
        AudioSinkFactory::AsioSink => create_asio_sink(config),
        AudioSinkFactory::WasapiSink => create_wasapi_sink(),
        _ => AudioSinkPlan {
            factory,
            device_clsid: None,
            output_channels: None,
            low_latency: false,
        },
    }
}

/// The ASIO sink with the output's device and channels.
fn create_asio_sink(config: &OutputTarget) -> (plan: AudioSinkPlan)
    ensures
        plan.factory == AudioSinkFactory::AsioSink,
        opt_chars(plan.device_clsid) == config@.audio_device,
        opt_chars(plan.output_channels) == match config@.audio_channels {
            Some(c) => Some(joined_decimals(c, ","@)),
            None => None,
        },
        !plan.low_latency,
{
    let output_channels = match &config.audio_channels {
        Some(channels) => Some(join_decimals(channels, ",")),
        None => None,
    };
    AudioSinkPlan {
        factory: AudioSinkFactory::AsioSink,
        device_clsid: clone_opt_text(&config.audio_device),
        output_channels,
        low_latency: false,
    }
}

/// The WASAPI sink, running with low latency.
fn create_wasapi_sink() -> (plan: AudioSinkPlan)
    ensures
        plan.factory == AudioSinkFactory::WasapiSink,
        plan.device_clsid is None,
        plan.output_channels is None,
        plan.low_latency,
{
    AudioSinkPlan {
        factory: AudioSinkFactory::WasapiSink,
        device_clsid: None,
        output_channels: None,
        low_latency: true,
    }
}

/// An audio device as the media framework's device monitor reports it.
#[derive(Debug, PartialEq, Eq)]
pub struct AudioDevice {
    pub display_name: String,
    /// The `device.api` property, where the device has it.
    pub api: Option<String>,
    /// The `device.clsid` property, where the device has it.
    pub clsid: Option<String>,
}

/// An ASIO device that an audio output can name.
#[derive(Debug, PartialEq, Eq)]
pub struct AsioDevice {
    pub name: String,
    pub clsid: String,
}

/// An ASIO device with its texts as characters.
pub struct AsioDeviceView {
    pub name: Seq<char>,
    pub clsid: Seq<char>,
}

impl View for AsioDevice {
    type V = AsioDeviceView;

    open spec fn view(&self) -> AsioDeviceView {
        AsioDeviceView { name: self.name@, clsid: self.clsid@ }
    }
}

impl Clone for AsioDevice {
    fn clone(&self) -> (r: Self)
        ensures
            r@ == self@,
    {
        AsioDevice { name: self.name.clone(), clsid: self.clsid.clone() }
    }
}

/// Whether a device is listed: its API is `asio` and it has a class id.
pub open spec fn is_asio(device: AudioDevice) -> bool {
    device.api matches Some(api) && api@ == "asio"@ && device.clsid is Some
}

/// The ASIO devices among `devices`, in order. Only Windows has any.
pub open spec fn asio_devices_of(platform: Platform, devices: Seq<AudioDevice>) -> Seq<
    AsioDeviceView,
>
    decreases devices.len(),
{
    if platform != Platform::Windows || devices.len() == 0 {
        Seq::empty()
    } else if is_asio(devices.last()) {
        asio_devices_of(platform, devices.drop_last()).push(
            AsioDeviceView {
                name: devices.last().display_name@,
                clsid: devices.last().clsid->0@,
            },
        )
    } else {
        asio_devices_of(platform, devices.drop_last())
    }
}

/// The views of a list of ASIO devices.
pub open spec fn asio_views(list: Seq<AsioDevice>) -> Seq<AsioDeviceView> {
    Seq::new(list.len(), |i: int| list[i]@)
}

/// Lists the ASIO devices among the audio sinks that the device monitor
/// reports. On every platform but Windows the list is empty.
pub fn list_asio_devices(platform: Platform, devices: &Vec<AudioDevice>) -> (list: Vec<AsioDevice>)
    ensures
        asio_views(list@) == asio_devices_of(platform, devices@),
{
    let mut list: Vec<AsioDevice> = Vec::new();
    match platform {
        Platform::Windows => {},
        _ => {
            assert(asio_views(list@) =~= asio_devices_of(platform, devices@));
            return list;
        },
    }
    let wanted = String::from_str("asio");
    let mut i: usize = 0;
    assert(devices@.take(0) =~= Seq::empty());
    assert(asio_views(list@) =~= asio_devices_of(platform, devices@.take(0)));
    while i < devices.len()
        invariant
            i <= devices.len(),
            platform == Platform::Windows,
            wanted@ == "asio"@,
            asio_views(list@) == asio_devices_of(platform, devices@.take(i as int)),
        decreases devices.len() - i,
    {
        let device = &devices[i];
        proof {
            let next = devices@.take(i as int + 1);
            assert(next.drop_last() =~= devices@.take(i as int));
            assert(next.last() == devices@[i as int]);
        }
        let listed = match (&device.api, &device.clsid) {
            (Some(api), Some(clsid)) => {
                if *api == wanted {
                    Some(AsioDevice { name: device.display_name.clone(), clsid: clsid.clone() })
                } else {
                    None
                }
            },
            _ => None,
        };
        let ghost before = asio_views(list@);
        match listed {
            Some(found) => {
                list.push(found);
                assert(asio_views(list@) =~= before.push(
                    AsioDeviceView {
                        name: device.display_name@,
                        clsid: device.clsid->0@,
                    },
                ));
            },
            None => {},
        }
        i = i + 1;
    }
    assert(devices@.take(devices.len() as int) =~= devices@);
    list
}

} // verus!
