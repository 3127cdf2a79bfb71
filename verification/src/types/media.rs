//! Media items and cues.

use vstd::prelude::*;
use vstd::string::*;

verus! {

/// Whether a media item is played as video or as audio.
#[derive(Debug, Clone, Copy, PartialEq, Eq, Structural)]
pub enum MediaType {
    Video,
    Audio,
}

/// One media file of a cue, routed to one output.
#[derive(Debug, PartialEq, Eq)]
pub struct MediaItem {
    pub id: String,
    pub media_type: MediaType,
    pub name: String,
    pub path: String,
    /// The id of the output this item plays on.
    pub output_id: String,
    /// Start offset inside the cue, in nanoseconds.
    pub offset: Option<i64>,
    /// Where playback of the file starts, in nanoseconds.
    pub trim_start: Option<u64>,
    /// Where playback of the file ends, in nanoseconds.
    pub trim_end: Option<u64>,
}

/// A media item with its texts as character sequences.
pub struct MediaItemView {
    pub id: Seq<char>,
    pub media_type: MediaType,
    pub name: Seq<char>,
    pub path: Seq<char>,
    pub output_id: Seq<char>,
    pub offset: Option<i64>,
    pub trim_start: Option<u64>,
    pub trim_end: Option<u64>,
}

impl View for MediaItem {
    type V = MediaItemView;

    open spec fn view(&self) -> MediaItemView {
        MediaItemView {
            id: self.id@,
            media_type: self.media_type,
            name: self.name@,
            path: self.path@,
            output_id: self.output_id@,
            offset: self.offset,
            trim_start: self.trim_start,
            trim_end: self.trim_end,
        }
    }
}

impl Clone for MediaItem {
    fn clone(&self) -> (r: Self)
        ensures
            r@ == self@,
    {
        MediaItem {
            id: self.id.clone(),
            media_type: self.media_type,
            name: self.name.clone(),
            path: self.path.clone(),
            output_id: self.output_id.clone(),
            offset: self.offset,
            trim_start: self.trim_start,
            trim_end: self.trim_end,
        }
    }
}

/// A playback unit: media items that start together.
#[derive(Debug, PartialEq, Eq)]
pub struct Cue {
    pub id: String,
    pub name: String,
    pub items: Vec<MediaItem>,
    /// Duration hint in nanoseconds.
    pub duration: u64,
    pub loop_playback: bool,
    pub auto_advance: bool,
    pub color: Option<String>,
}

/// A cue with its texts as character sequences and its items as a sequence.
pub struct CueView {
    pub id: Seq<char>,
    pub name: Seq<char>,
    pub items: Seq<MediaItemView>,
    pub duration: u64,
    pub loop_playback: bool,
    pub auto_advance: bool,
    pub color: Option<Seq<char>>,
}

/// The views of a sequence of media items.
pub open spec fn item_views(items: Seq<MediaItem>) -> Seq<MediaItemView> {
    Seq::new(items.len(), |i: int| items[i]@)
}

/// The characters of an optional text.
pub open spec fn opt_chars(text: Option<String>) -> Option<Seq<char>> {
    match text {
        Some(t) => Some(t@),
        None => None,
    }
}

/// A copy of an optional text.
pub fn clone_opt_text(text: &Option<String>) -> (r: Option<String>)
    ensures
        r == *text,
        opt_chars(r) == opt_chars(*text),
{
    match text {
        Some(t) => Some(t.clone()),
        None => None,
    }
}

impl View for Cue {
    type V = CueView;

    open spec fn view(&self) -> CueView {
        CueView {
            id: self.id@,
            name: self.name@,
            items: item_views(self.items@),
            duration: self.duration,
            loop_playback: self.loop_playback,
            auto_advance: self.auto_advance,
            color: opt_chars(self.color),
        }
    }
}

impl Clone for Cue {
    fn clone(&self) -> (r: Self)
        ensures
            r@ == self@,
    {
        let mut items: Vec<MediaItem> = Vec::new();
        let mut i: usize = 0;
        while i < self.items.len()
            invariant
                i <= self.items.len(),
                items.len() == i,
                forall|j: int| 0 <= j < i ==> items[j]@ == self.items[j]@,
            decreases self.items.len() - i,
        {
            items.push(self.items[i].clone());
            i = i + 1;
        }
        assert(item_views(items@) =~= item_views(self.items@));
        Cue {
            id: self.id.clone(),
            name: self.name.clone(),
            items,
            duration: self.duration,
            loop_playback: self.loop_playback,
            auto_advance: self.auto_advance,
            color: clone_opt_text(&self.color),
        }
    }
}

} // verus!
