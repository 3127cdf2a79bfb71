//! Projects and their settings.

use vstd::prelude::*;
use vstd::string::*;
use super::media::{Cue, CueView};
use super::output::{output_views, OutputTarget, OutputTargetView};

verus! {

/// The neutral brightness level, in thousandths.
pub const NEUTRAL_BRIGHTNESS: u32 = 100_000;

/// The full volume level, in thousandths.
pub const FULL_VOLUME: u32 = 100_000;

/// How much detail the preview shows.
#[derive(Debug, Clone, Copy, PartialEq, Eq, Structural)]
pub enum PreviewQuality {
    Low,
    Medium,
    High,
}

/// Settings stored with a project.
#[derive(Debug, Clone, Copy, PartialEq, Eq, Structural)]
pub struct ProjectSettings {
    /// Brightness level of new outputs, in thousandths.
    pub default_brightness: u32,
    pub auto_save: bool,
    pub preview_quality: PreviewQuality,
}

impl Default for ProjectSettings {
    /// Neutral brightness, automatic saving, medium preview.
    fn default() -> (r: Self)
        ensures
            r == (ProjectSettings {
                default_brightness: NEUTRAL_BRIGHTNESS,
                auto_save: true,
                preview_quality: PreviewQuality::Medium,
            }),
    {
        ProjectSettings {
            default_brightness: NEUTRAL_BRIGHTNESS,
            auto_save: true,
            preview_quality: PreviewQuality::Medium,
        }
    }
}

/// A show file: outputs, cues and master levels.
#[derive(Debug, PartialEq, Eq)]
pub struct Project {
    pub id: String,
    pub name: String,
    /// Master brightness in thousandths, 0 to 200_000; 100_000 is neutral.
    pub master_brightness: u32,
    /// Master volume in thousandths, 0 to 100_000.
    pub master_volume: u32,
    pub outputs: Vec<OutputTarget>,
    pub cues: Vec<Cue>,
    pub settings: ProjectSettings,
}

/// A project with its texts as character sequences.
pub struct ProjectView {
    pub id: Seq<char>,
    pub name: Seq<char>,
    pub master_brightness: u32,
    pub master_volume: u32,
    pub outputs: Seq<OutputTargetView>,
    pub cues: Seq<CueView>,
    pub settings: ProjectSettings,
}

/// The views of a sequence of cues.
pub open spec fn cue_views(cues: Seq<Cue>) -> Seq<CueView> {
    Seq::new(cues.len(), |i: int| cues[i]@)
}

impl View for Project {
    type V = ProjectView;

    open spec fn view(&self) -> ProjectView {
        ProjectView {
            id: self.id@,
            name: self.name@,
            master_brightness: self.master_brightness,
            master_volume: self.master_volume,
            outputs: output_views(self.outputs@),
            cues: cue_views(self.cues@),
            settings: self.settings,
        }
    }
}

/// The position of the first output with the given id.
pub open spec fn first_output(outputs: Seq<OutputTargetView>, id: Seq<char>) -> Option<int> {
    if exists|i: int| 0 <= i < outputs.len() && outputs[i].id == id {
        Some(
            choose|i: int|
                0 <= i < outputs.len() && outputs[i].id == id && forall|k: int|
                    0 <= k < i ==> outputs[k].id != id,
        )
    } else {
        None
    }
}

/// The outputs with the brightness override of the first output of the
/// given id replaced.
pub open spec fn outputs_with_brightness(
    outputs: Seq<OutputTargetView>,
    id: Seq<char>,
    value: Option<u32>,
) -> Seq<OutputTargetView> {
    match first_output(outputs, id) {
        Some(i) => outputs.update(i, OutputTargetView { brightness: value, ..outputs[i] }),
        None => outputs,
    }
}

/// An output with the id that no earlier output has is the first with it.
pub proof fn lemma_first_output(outputs: Seq<OutputTargetView>, id: Seq<char>, i: int)
    requires
        0 <= i < outputs.len(),
        outputs[i].id == id,
        forall|k: int| 0 <= k < i ==> outputs[k].id != id,
    ensures
        first_output(outputs, id) == Some(i),
{
    let c = choose|c: int|
        0 <= c < outputs.len() && outputs[c].id == id && forall|k: int|
            0 <= k < c ==> outputs[k].id != id;
    assert(0 <= c < outputs.len() && outputs[c].id == id && forall|k: int|
        0 <= k < c ==> outputs[k].id != id);
    if c < i {
        assert(outputs[c].id != id);
    } else if i < c {
        assert(outputs[i].id != id);
    }
}

/// Where an output has the id, the first one with it is one of the outputs.
pub proof fn lemma_first_output_found(outputs: Seq<OutputTargetView>, id: Seq<char>)
    requires
        first_output(outputs, id) is Some,
    ensures
        0 <= first_output(outputs, id)->0 < outputs.len(),
        outputs[first_output(outputs, id)->0].id == id,
{
    let w = choose|i: int| 0 <= i < outputs.len() && outputs[i].id == id;
    lemma_least_output(outputs, id, w);
}

/// Among the outputs up to one with the id there is a first with it.
proof fn lemma_least_output(outputs: Seq<OutputTargetView>, id: Seq<char>, w: int)
    requires
        0 <= w < outputs.len(),
        outputs[w].id == id,
    ensures
        exists|i: int|
            0 <= i < outputs.len() && outputs[i].id == id && forall|k: int|
                0 <= k < i ==> outputs[k].id != id,
    decreases w,
{
    if exists|k: int| 0 <= k < w && outputs[k].id == id {
        let k = choose|k: int| 0 <= k < w && outputs[k].id == id;
        lemma_least_output(outputs, id, k);
    } else {
        assert(0 <= w < outputs.len() && outputs[w].id == id && forall|k: int|
            0 <= k < w ==> outputs[k].id != id);
    }
}

/// The project that `Project::new` makes from an id and a name.
pub open spec fn new_project_view(id: Seq<char>, name: Seq<char>) -> ProjectView {
    ProjectView {
        id,
        name,
        master_brightness: NEUTRAL_BRIGHTNESS,
        master_volume: FULL_VOLUME,
        outputs: Seq::empty(),
        cues: Seq::empty(),
        settings: ProjectSettings {
            default_brightness: NEUTRAL_BRIGHTNESS,
            auto_save: true,
            preview_quality: PreviewQuality::Medium,
        },
    }
}

/// Makes a fresh project id with `uuid::Uuid::new_v4` and renders it with
/// the `to_string` of `uuid::Uuid`: 36 characters, with hyphens after 8, 12,
/// 16 and 20 hexadecimal digits. The id is random; nothing else is claimed of
/// it.
#[verifier::external_body]
fn new_project_id() -> (id: String)
    ensures
        is_hyphenated(id@),
{
    uuid::Uuid::new_v4().to_string()
}

/// Whether a text has the shape of a hyphenated id: 36 characters with
/// hyphens at the positions 8, 13, 18 and 23.
pub open spec fn is_hyphenated(id: Seq<char>) -> bool {
    &&& id.len() == 36
    &&& id[8] == '-'
    &&& id[13] == '-'
    &&& id[18] == '-'
    &&& id[23] == '-'
}

impl Default for Project {
    /// An empty, untitled project with a fresh id.
    fn default() -> (p: Self)
        ensures
            p@ == new_project_view(p@.id, "Untitled Project"@),
            is_hyphenated(p@.id),
    {
        Project::new(new_project_id(), String::from_str("Untitled Project"))
    }
}

impl Project {
    /// An empty project with the given name and a fresh id.
    pub fn named(name: String) -> (p: Self)
        ensures
            p@ == new_project_view(p@.id, name@),
            is_hyphenated(p@.id),
    {
        Project::new(new_project_id(), name)
    }

    /// Records the brightness override of the first output with the given
    /// id; a project without such an output stays as it is.
    pub fn set_output_brightness(&mut self, output_id: &str, value: Option<u32>)
        ensures
            final(self)@ == (ProjectView {
                outputs: outputs_with_brightness(old(self)@.outputs, output_id@, value),
                ..old(self)@
            }),
    {
        let wanted = String::from_str(output_id);
        let mut i: usize = 0;
        while i < self.outputs.len()
            invariant
                i <= self.outputs.len(),
                wanted@ == output_id@,
                *self == *old(self),
                forall|k: int| 0 <= k < i ==> (#[trigger] self.outputs[k])@.id != output_id@,
            decreases self.outputs.len() - i,
        {
            if self.outputs[i].id == wanted {
                let mut changed = self.outputs[i].clone();
                changed.brightness = value;
                self.outputs.set(i, changed);
                proof {
                    let before = old(self)@.outputs;
                    let after = output_views(self.outputs@);
                    assert(first_output(before, output_id@) == Some(i as int)) by {
                        lemma_first_output(before, output_id@, i as int);
                    }
                    assert(after =~= outputs_with_brightness(before, output_id@, value));
                }
                return;
            }
            i = i + 1;
        }
        proof {
            let before = old(self)@.outputs;
            if first_output(before, output_id@) is Some {
                lemma_first_output_found(before, output_id@);
            }
            assert(output_views(self.outputs@) =~= outputs_with_brightness(
                before,
                output_id@,
                value,
            ));
        }
    }

    /// An empty project with neutral master levels and default settings.
    pub fn new(id: String, name: String) -> (p: Self)
        ensures
            p@ == new_project_view(id@, name@),
    {
        let p = Project {
            id,
            name,
            master_brightness: NEUTRAL_BRIGHTNESS,
            master_volume: FULL_VOLUME,
            outputs: Vec::new(),
            cues: Vec::new(),
            settings: ProjectSettings::default(),
        };
        assert(output_views(p.outputs@) =~= Seq::empty());
        assert(cue_views(p.cues@) =~= Seq::empty());
        p
    }
}

impl Clone for Project {
    fn clone(&self) -> (r: Self)
        ensures
            r@ == self@,
    {
        let mut outputs: Vec<OutputTarget> = Vec::new();
        let mut i: usize = 0;
        while i < self.outputs.len()
            invariant
                i <= self.outputs.len(),
                outputs.len() == i,
                forall|j: int| 0 <= j < i ==> outputs[j]@ == self.outputs[j]@,
            decreases self.outputs.len() - i,
        {
            outputs.push(self.outputs[i].clone());
            i = i + 1;
        }
        let mut cues: Vec<Cue> = Vec::new();
        let mut k: usize = 0;
        while k < self.cues.len()
            invariant
                k <= self.cues.len(),
                cues.len() == k,
                forall|j: int| 0 <= j < k ==> cues[j]@ == self.cues[j]@,
            decreases self.cues.len() - k,
        {
            cues.push(self.cues[k].clone());
            k = k + 1;
        }
        assert(output_views(outputs@) =~= output_views(self.outputs@));
        assert(cue_views(cues@) =~= cue_views(self.cues@));
        Project {
            id: self.id.clone(),
            name: self.name.clone(),
            master_brightness: self.master_brightness,
            master_volume: self.master_volume,
            outputs,
            cues,
            settings: self.settings,
        }
    }
}

} // verus!
