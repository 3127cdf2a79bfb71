//! Output destinations and the monitors they can be shown on.

use vstd::prelude::*;
use vstd::string::*;
use super::media::{clone_opt_text, opt_chars};

verus! {

/// The kind of destination an output stands for.
#[derive(Debug, Clone, Copy, PartialEq, Eq, Structural)]
pub enum OutputType {
    /// A window on a screen.
    Display,
    /// A network video feed.
    Ndi,
    /// An audio device.
    Audio,
    /// A GPU texture share on macOS.
    Syphon,
    /// A GPU texture share on Windows.
    Spout,
}

/// The audio driver an audio output asks for.
#[derive(Debug, Clone, Copy, PartialEq, Eq, Structural)]
pub enum AudioDriver {
    Auto,
    Asio,
    Wasapi,
    CoreAudio,
    Jack,
    Alsa,
}

/// One named destination of a project.
#[derive(Debug, PartialEq, Eq)]
pub struct OutputTarget {
    /// Unique within a project; media items refer to it.
    pub id: String,
    pub name: String,
    pub output_type: OutputType,
    /// Brightness override in thousandths; `None` follows the master.
    pub brightness: Option<u32>,
    pub display_index: Option<usize>,
    pub fullscreen: Option<bool>,
    pub ndi_name: Option<String>,
    pub audio_driver: Option<AudioDriver>,
    pub audio_device: Option<String>,
    pub audio_channels: Option<Vec<u32>>,
    pub syphon_name: Option<String>,
    pub spout_name: Option<String>,
}

/// An output with its texts as character sequences.
pub struct OutputTargetView {
    pub id: Seq<char>,
    pub name: Seq<char>,
    pub output_type: OutputType,
    pub brightness: Option<u32>,
    pub display_index: Option<usize>,
    pub fullscreen: Option<bool>,
    pub ndi_name: Option<Seq<char>>,
    pub audio_driver: Option<AudioDriver>,
    pub audio_device: Option<Seq<char>>,
    pub audio_channels: Option<Seq<u32>>,
    pub syphon_name: Option<Seq<char>>,
    pub spout_name: Option<Seq<char>>,
}

/// The channel numbers of an optional channel list.
pub open spec fn opt_channels(channels: Option<Vec<u32>>) -> Option<Seq<u32>> {
    match channels {
        Some(c) => Some(c@),
        None => None,
    }
}

/// A copy of an optional channel list.
pub fn clone_opt_channels(channels: &Option<Vec<u32>>) -> (r: Option<Vec<u32>>)
    ensures
        opt_channels(r) == opt_channels(*channels),
{
    match channels {
        Some(c) => {
            let mut out: Vec<u32> = Vec::new();
            let mut i: usize = 0;
            while i < c.len()
                invariant
                    i <= c.len(),
                    out@ == c@.take(i as int),
                decreases c.len() - i,
            {
                out.push(c[i]);
                i = i + 1;
                assert(out@ =~= c@.take(i as int));
            }
            assert(c@.take(c.len() as int) =~= c@);
            Some(out)
        },
        None => None,
    }
}

impl View for OutputTarget {
    type V = OutputTargetView;

    open spec fn view(&self) -> OutputTargetView {
        OutputTargetView {
            id: self.id@,
            name: self.name@,
            output_type: self.output_type,
            brightness: self.brightness,
            display_index: self.display_index,
            fullscreen: self.fullscreen,
            ndi_name: opt_chars(self.ndi_name),
            audio_driver: self.audio_driver,
            audio_device: opt_chars(self.audio_device),
            audio_channels: opt_channels(self.audio_channels),
            syphon_name: opt_chars(self.syphon_name),
            spout_name: opt_chars(self.spout_name),
        }
    }
}

impl Clone for OutputTarget {
    fn clone(&self) -> (r: Self)
        ensures
            r@ == self@,
    {
        OutputTarget {
            id: self.id.clone(),
            name: self.name.clone(),
            output_type: self.output_type,
            brightness: self.brightness,
            display_index: self.display_index,
            fullscreen: self.fullscreen,
            ndi_name: clone_opt_text(&self.ndi_name),
            audio_driver: self.audio_driver,
            audio_device: clone_opt_text(&self.audio_device),
            audio_channels: clone_opt_channels(&self.audio_channels),
            syphon_name: clone_opt_text(&self.syphon_name),
            spout_name: clone_opt_text(&self.spout_name),
        }
    }
}

/// The views of a sequence of outputs.
pub open spec fn output_views(outputs: Seq<OutputTarget>) -> Seq<OutputTargetView> {
    Seq::new(outputs.len(), |i: int| outputs[i]@)
}

/// One monitor of the machine, as the windowing shell lists it.
#[derive(Debug, PartialEq, Eq)]
pub struct MonitorInfo {
    pub index: usize,
    pub name: String,
    pub width: u32,
    pub height: u32,
    pub x: i32,
    pub y: i32,
    pub is_primary: bool,
}

impl Clone for MonitorInfo {
    fn clone(&self) -> (r: Self)
        ensures
            r == *self,
    {
        MonitorInfo {
            index: self.index,
            name: self.name.clone(),
            width: self.width,
            height: self.height,
            x: self.x,
            y: self.y,
            is_primary: self.is_primary,
        }
    }
}

/// A network video source seen on the network.
#[derive(Debug, PartialEq, Eq)]
pub struct NdiSource {
    pub name: String,
    pub url_address: String,
}

impl Clone for NdiSource {
    fn clone(&self) -> (r: Self)
        ensures
            r == *self,
    {
        NdiSource { name: self.name.clone(), url_address: self.url_address.clone() }
    }
}

} // verus!
