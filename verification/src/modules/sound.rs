//! Sound / volume module: configuration, the shared audio state with its
//! optimistic updates, and the decisions around querying and mutating the
//! audio server. The processes themselves run in the application runtime.

use vstd::prelude::*;
use crate::find::{
    first_match, lemma_any_match_has_first, lemma_filter_take_step, lemma_first_match_is,
    lemma_first_match_none, update_first,
};
use crate::text::{
    chars_of, contains_text, ends_with, find_char, is_char, lemma_nat_digits, nat_digits, opt_text,
    parse_u32,
    parse_u32_spec,
    split_all, split_at_first, split_first, split_pieces, str_contains, str_ends_with, trim,
    trim_bounds, u64_to_string,
};
use crate::module::DisplayMode;
use crate::modules::weather::elapsed_ms;

verus! {

/// Which audio backend to use.
#[derive(Debug, Clone, Copy, Default, PartialEq, Eq, Structural)]
pub enum AudioBackend {
    /// Auto-detect: try pactl → wpctl → amixer.
    #[default]
    Auto,
    Pipewire,
    Pulseaudio,
    Alsa,
}

/// Configuration for the sound module.
#[derive(Debug, Clone, PartialEq, Eq)]
pub struct SoundConfig {
    /// `icon` — square icon only; `verbose` — icon left half + volume % right half.
    pub display: DisplayMode,
    /// Preferred audio backend.
    pub backend: AudioBackend,
    /// How often to poll the audio backend (milliseconds).
    pub poll_interval_ms: u64,
    /// Volume change per scroll step (percent).
    pub volume_step: u32,
    /// Show the launcher for the system's advanced mixer.
    pub show_pavucontrol: bool,
    /// Show the expanded input and per-application mixer.
    pub show_mixer: bool,
    /// Show default-source controls in the expanded mixer.
    pub show_input: bool,
    /// Show per-application playback stream controls in the expanded mixer.
    pub show_applications: bool,
    /// Bound the expanded popup when many applications are producing audio.
    pub max_applications: usize,
}

/// Milliseconds between queries when none is configured.
pub fn default_poll_ms() -> (r: u64)
    ensures
        r == 500,
{
    500
}

/// Volume change per wheel step, in percent, when none is configured.
pub fn default_volume_step() -> (r: u32)
    ensures
        r == 5,
{
    5
}

/// Whether the mixer offers to launch pavucontrol, when not configured.
pub fn default_show_pavucontrol() -> (r: bool)
    ensures
        r,
{
    true
}

/// Whether the mixer shows the default input, when not configured.
pub fn default_show_input() -> (r: bool)
    ensures
        r,
{
    true
}

/// Whether the mixer shows playback streams, when not configured.
pub fn default_show_applications() -> (r: bool)
    ensures
        r,
{
    true
}

/// How many playback streams the mixer lists, when not configured.
pub fn default_max_applications() -> (r: usize)
    ensures
        r == 6,
{
    6
}

impl Default for SoundConfig {
    fn default() -> (r: Self)
        ensures
            r.display == DisplayMode::Icon,
            r.backend == AudioBackend::Auto,
            r.poll_interval_ms == 500,
            r.volume_step == 5,
            r.show_pavucontrol,
            !r.show_mixer,
            r.show_input,
            r.show_applications,
            r.max_applications == 6,
    {
        SoundConfig {
            display: DisplayMode::Icon,
            backend: AudioBackend::Auto,
            poll_interval_ms: default_poll_ms(),
            volume_step: default_volume_step(),
            show_pavucontrol: default_show_pavucontrol(),
            show_mixer: false,
            show_input: default_show_input(),
            show_applications: default_show_applications(),
            max_applications: default_max_applications(),
        }
    }
}

} // verus!

verus! {

/// A PulseAudio/PipeWire endpoint exposed to the expanded mixer.
#[derive(Debug, Default, PartialEq, Eq)]
pub struct AudioDevice {
    pub index: u32,
    pub name: String,
    pub description: String,
    pub volume_percent: u32,
    pub muted: bool,
}

/// A playback stream belonging to an application.
#[derive(Debug, Default, PartialEq, Eq)]
pub struct AudioApplication {
    pub index: u32,
    pub name: String,
    pub volume_percent: u32,
    pub muted: bool,
}

/// What the audio server last reported (or what was optimistically assumed).
#[derive(Debug, Default, PartialEq, Eq)]
pub struct SoundState {
    pub volume_percent: u32,
    pub muted: bool,
    pub sink_name: String,
    pub backend_name: String,
    pub outputs: Vec<AudioDevice>,
    pub inputs: Vec<AudioDevice>,
    pub default_input: Option<AudioDevice>,
    pub applications: Vec<AudioApplication>,
}

/// Content of an [`AudioDevice`].
pub struct DeviceModel {
    pub index: u32,
    pub name: Seq<char>,
    pub description: Seq<char>,
    pub volume_percent: u32,
    pub muted: bool,
}

/// Content of an [`AudioApplication`].
pub struct ApplicationModel {
    pub index: u32,
    pub name: Seq<char>,
    pub volume_percent: u32,
    pub muted: bool,
}

/// Content of a [`SoundState`].
pub struct SoundModel {
    pub volume_percent: u32,
    pub muted: bool,
    pub sink_name: Seq<char>,
    pub backend_name: Seq<char>,
    pub outputs: Seq<DeviceModel>,
    pub inputs: Seq<DeviceModel>,
    pub default_input: Option<DeviceModel>,
    pub applications: Seq<ApplicationModel>,
}

impl View for AudioDevice {
    type V = DeviceModel;

    open spec fn view(&self) -> DeviceModel {
        DeviceModel {
            index: self.index,
            name: self.name@,
            description: self.description@,
            volume_percent: self.volume_percent,
            muted: self.muted,
        }
    }
}

impl View for AudioApplication {
    type V = ApplicationModel;

    open spec fn view(&self) -> ApplicationModel {
        ApplicationModel {
            index: self.index,
            name: self.name@,
            volume_percent: self.volume_percent,
            muted: self.muted,
        }
    }
}

/// Contents of a list of devices.
pub open spec fn devices_view(s: Seq<AudioDevice>) -> Seq<DeviceModel> {
    s.map_values(|d: AudioDevice| d@)
}

/// Contents of a list of applications.
pub open spec fn applications_view(s: Seq<AudioApplication>) -> Seq<ApplicationModel> {
    s.map_values(|a: AudioApplication| a@)
}

/// Content of an optional device.
pub open spec fn opt_device(d: Option<AudioDevice>) -> Option<DeviceModel> {
    match d {
        Some(x) => Some(x@),
        None => None,
    }
}

impl View for SoundState {
    type V = SoundModel;

    open spec fn view(&self) -> SoundModel {
        SoundModel {
            volume_percent: self.volume_percent,
            muted: self.muted,
            sink_name: self.sink_name@,
            backend_name: self.backend_name@,
            outputs: devices_view(self.outputs@),
            inputs: devices_view(self.inputs@),
            default_input: opt_device(self.default_input),
            applications: applications_view(self.applications@),
        }
    }
}

impl Clone for AudioDevice {
    fn clone(&self) -> (r: Self)
        ensures
            r@ == self@,
    {
        AudioDevice {
            index: self.index,
            name: self.name.clone(),
            description: self.description.clone(),
            volume_percent: self.volume_percent,
            muted: self.muted,
        }
    }
}

impl Clone for AudioApplication {
    fn clone(&self) -> (r: Self)
        ensures
            r@ == self@,
    {
        AudioApplication {
            index: self.index,
            name: self.name.clone(),
            volume_percent: self.volume_percent,
            muted: self.muted,
        }
    }
}

/// One entry of a `pactl -f json list …` answer, as far as the mixer reads
/// it: each field is present only when the entry holds it with the right
/// JSON type. The volume comes already read as a percentage (0 when the
/// entry has none).
#[derive(Debug, Clone, Default, PartialEq, Eq)]
pub struct PactlEntry {
    /// `index`.
    pub index: Option<u64>,
    /// `name`.
    pub name: Option<String>,
    /// `description`.
    pub description: Option<String>,
    /// `properties."application.name"`.
    pub application_name: Option<String>,
    /// `properties."media.name"`.
    pub media_name: Option<String>,
    /// The first channel's volume, in percent.
    pub volume_percent: u32,
    /// `mute`.
    pub mute: Option<bool>,
}

/// The device a sink or source entry describes: it needs an index and a
/// name; the description falls back to the name, the mute flag to off.
pub open spec fn device_of_entry(e: PactlEntry) -> Option<DeviceModel> {
    match (e.index, opt_text(e.name)) {
        (Some(i), Some(n)) => Some(
            DeviceModel {
                index: i as u32,
                name: n,
                description: match opt_text(e.description) {
                    Some(d) => d,
                    None => n,
                },
                volume_percent: e.volume_percent,
                muted: e.mute == Some(true),
            },
        ),
        _ => None,
    }
}

/// The playback stream a sink-input entry describes: it needs an index; it
/// is named by its application, else by its media, else `Application`.
pub open spec fn application_of_entry(e: PactlEntry) -> Option<ApplicationModel> {
    match e.index {
        Some(i) => Some(
            ApplicationModel {
                index: i as u32,
                name: match opt_text(e.application_name) {
                    Some(a) => a,
                    None => match opt_text(e.media_name) {
                        Some(m) => m,
                        None => "Application"@,
                    },
                },
                volume_percent: e.volume_percent,
                muted: e.mute == Some(true),
            },
        ),
        None => None,
    }
}

/// The devices of a list of entries, in order, skipping entries that
/// describe none.
pub open spec fn devices_of_entries(es: Seq<PactlEntry>) -> Seq<DeviceModel>
    decreases es.len(),
{
    if es.len() == 0 {
        Seq::empty()
    } else {
        let rest = devices_of_entries(es.drop_last());
        match device_of_entry(es.last()) {
            Some(d) => rest.push(d),
            None => rest,
        }
    }
}

/// The playback streams of a list of entries, in order, skipping entries
/// without an index.
pub open spec fn applications_of_entries(es: Seq<PactlEntry>) -> Seq<ApplicationModel>
    decreases es.len(),
{
    if es.len() == 0 {
        Seq::empty()
    } else {
        let rest = applications_of_entries(es.drop_last());
        match application_of_entry(es.last()) {
            Some(a) => rest.push(a),
            None => rest,
        }
    }
}

/// The device a sink or source entry describes (see [`device_of_entry`]).
pub fn device_from_entry(e: &PactlEntry) -> (r: Option<AudioDevice>)
    ensures
        opt_device(r) == device_of_entry(*e),
{
    let index = match e.index {
        Some(i) => i,
        None => return None,
    };
    let name = match &e.name {
        Some(n) => n.clone(),
        None => return None,
    };
    let description = match &e.description {
        Some(d) => d.clone(),
        None => name.clone(),
    };
    let muted = match e.mute {
        Some(m) => m,
        None => false,
    };
    Some(AudioDevice { index: index as u32, name, description, volume_percent: e.volume_percent, muted })
}

/// The playback stream a sink-input entry describes (see
/// [`application_of_entry`]).
pub fn application_from_entry(e: &PactlEntry) -> (r: Option<AudioApplication>)
    ensures
        match r {
            Some(a) => application_of_entry(*e) == Some(a@),
            None => application_of_entry(*e) is None,
        },
{
    let index = match e.index {
        Some(i) => i,
        None => return None,
    };
    let name = match &e.application_name {
        Some(a) => a.clone(),
        None => match &e.media_name {
            Some(m) => m.clone(),
            None => "Application".to_owned(),
        },
    };
    let muted = match e.mute {
        Some(m) => m,
        None => false,
    };
    Some(AudioApplication { index: index as u32, name, volume_percent: e.volume_percent, muted })
}

/// The devices of a `pactl -f json list sinks|sources` answer.
pub fn devices_from_entries(entries: &Vec<PactlEntry>) -> (r: Vec<AudioDevice>)
    ensures
        devices_view(r@) == devices_of_entries(entries@),
{
    let mut r: Vec<AudioDevice> = Vec::new();
    let mut i: usize = 0;
    while i < entries.len()
        invariant
            i <= entries@.len(),
            devices_view(r@) == devices_of_entries(entries@.take(i as int)),
        decreases entries@.len() - i,
    {
        assert(entries@.take(i as int + 1).drop_last() =~= entries@.take(i as int));
        let ghost before = r@;
        match device_from_entry(&entries[i]) {
            Some(d) => {
                r.push(d);
                assert(devices_view(r@) =~= devices_view(before).push(d@));
            },
            None => {},
        }
        i += 1;
    }
    assert(entries@.take(entries@.len() as int) =~= entries@);
    r
}

/// The playback streams of a `pactl -f json list sink-inputs` answer.
pub fn applications_from_entries(entries: &Vec<PactlEntry>) -> (r: Vec<AudioApplication>)
    ensures
        applications_view(r@) == applications_of_entries(entries@),
{
    let mut r: Vec<AudioApplication> = Vec::new();
    let mut i: usize = 0;
    while i < entries.len()
        invariant
            i <= entries@.len(),
            applications_view(r@) == applications_of_entries(entries@.take(i as int)),
        decreases entries@.len() - i,
    {
        assert(entries@.take(i as int + 1).drop_last() =~= entries@.take(i as int));
        let ghost before = r@;
        match application_from_entry(&entries[i]) {
            Some(a) => {
                r.push(a);
                assert(applications_view(r@) =~= applications_view(before).push(a@));
            },
            None => {},
        }
        i += 1;
    }
    assert(entries@.take(entries@.len() as int) =~= entries@);
    r
}

fn clone_devices(v: &Vec<AudioDevice>) -> (r: Vec<AudioDevice>)
    ensures
        devices_view(r@) == devices_view(v@),
{
    let mut r: Vec<AudioDevice> = Vec::new();
    let mut i: usize = 0;
    while i < v.len()
        invariant
            i <= v@.len(),
            devices_view(r@) == devices_view(v@).take(i as int),
        decreases v@.len() - i,
    {
        let x = v[i].clone();
        let ghost before = r@;
        r.push(x);
        assert(devices_view(r@) =~= devices_view(before).push(x@));
        assert(devices_view(v@).take(i as int + 1) =~= devices_view(v@).take(i as int).push(x@));
        i += 1;
    }
    assert(devices_view(v@).take(v@.len() as int) =~= devices_view(v@));
    r
}

fn clone_applications(v: &Vec<AudioApplication>) -> (r: Vec<AudioApplication>)
    ensures
        applications_view(r@) == applications_view(v@),
{
    let mut r: Vec<AudioApplication> = Vec::new();
    let mut i: usize = 0;
    while i < v.len()
        invariant
            i <= v@.len(),
            applications_view(r@) == applications_view(v@).take(i as int),
        decreases v@.len() - i,
    {
        let x = v[i].clone();
        let ghost before = r@;
        r.push(x);
        assert(applications_view(r@) =~= applications_view(before).push(x@));
        assert(applications_view(v@).take(i as int + 1) =~= applications_view(v@).take(i as int).push(x@));
        i += 1;
    }
    assert(applications_view(v@).take(v@.len() as int) =~= applications_view(v@));
    r
}

fn clone_opt_device(d: &Option<AudioDevice>) -> (r: Option<AudioDevice>)
    ensures
        opt_device(r) == opt_device(*d),
{
    match d {
        Some(x) => Some(x.clone()),
        None => None,
    }
}

impl Clone for SoundState {
    fn clone(&self) -> (r: Self)
        ensures
            r@ == self@,
    {
        SoundState {
            volume_percent: self.volume_percent,
            muted: self.muted,
            sink_name: self.sink_name.clone(),
            backend_name: self.backend_name.clone(),
            outputs: clone_devices(&self.outputs),
            inputs: clone_devices(&self.inputs),
            default_input: clone_opt_device(&self.default_input),
            applications: clone_applications(&self.applications),
        }
    }
}

fn same_device(a: &AudioDevice, b: &AudioDevice) -> (r: bool)
    ensures
        r == (a@ == b@),
{
    a.index == b.index && a.name == b.name && a.description == b.description && a.volume_percent
        == b.volume_percent && a.muted == b.muted
}

fn same_devices(a: &Vec<AudioDevice>, b: &Vec<AudioDevice>) -> (r: bool)
    ensures
        r == (devices_view(a@) == devices_view(b@)),
{
    if a.len() != b.len() {
        assert(devices_view(a@).len() != devices_view(b@).len());
        return false;
    }
    let mut i: usize = 0;
    while i < a.len()
        invariant
            a@.len() == b@.len(),
            i <= a@.len(),
            forall|j: int| 0 <= j < i ==> a@[j]@ == #[trigger] b@[j]@,
        decreases a@.len() - i,
    {
        if !same_device(&a[i], &b[i]) {
            assert(devices_view(a@)[i as int] != devices_view(b@)[i as int]);
            return false;
        }
        i += 1;
    }
    assert(devices_view(a@) =~= devices_view(b@));
    true
}

fn same_applications(a: &Vec<AudioApplication>, b: &Vec<AudioApplication>) -> (r: bool)
    ensures
        r == (applications_view(a@) == applications_view(b@)),
{
    if a.len() != b.len() {
        assert(applications_view(a@).len() != applications_view(b@).len());
        return false;
    }
    let mut i: usize = 0;
    while i < a.len()
        invariant
            a@.len() == b@.len(),
            i <= a@.len(),
            forall|j: int| 0 <= j < i ==> a@[j]@ == #[trigger] b@[j]@,
        decreases a@.len() - i,
    {
        let x = &a[i];
        let y = &b[i];
        if !(x.index == y.index && x.name == y.name && x.volume_percent == y.volume_percent
            && x.muted == y.muted) {
            assert(applications_view(a@)[i as int] != applications_view(b@)[i as int]);
            return false;
        }
        i += 1;
    }
    assert(applications_view(a@) =~= applications_view(b@));
    true
}

/// Do two sound states hold the same information?
pub fn same_sound_state(a: &SoundState, b: &SoundState) -> (r: bool)
    ensures
        r == (a@ == b@),
{
    let same_input = match (&a.default_input, &b.default_input) {
        (Some(x), Some(y)) => same_device(x, y),
        (None, None) => true,
        _ => false,
    };
    a.volume_percent == b.volume_percent && a.muted == b.muted && a.sink_name == b.sink_name
        && a.backend_name == b.backend_name && same_devices(&a.outputs, &b.outputs)
        && same_devices(&a.inputs, &b.inputs) && same_input && same_applications(
        &a.applications,
        &b.applications,
    )
}

} // verus!

verus! {

/// A requested change to the audio server. Requests are coalesced while a
/// slider is dragged; only the newest one is sent.
#[derive(Debug, PartialEq, Eq)]
pub enum AudioMutation {
    SetOutputVolume(u32),
    ToggleOutputMute,
    SetInputVolume(u32),
    ToggleInputMute,
    SetApplicationVolume(u32, u32),
    ToggleApplicationMute(u32),
    SetDefaultOutput(String),
    SetDefaultInput(String),
}

/// Content of an [`AudioMutation`].
pub enum MutationModel {
    SetOutputVolume(u32),
    ToggleOutputMute,
    SetInputVolume(u32),
    ToggleInputMute,
    SetApplicationVolume(u32, u32),
    ToggleApplicationMute(u32),
    SetDefaultOutput(Seq<char>),
    SetDefaultInput(Seq<char>),
}

impl View for AudioMutation {
    type V = MutationModel;

    open spec fn view(&self) -> MutationModel {
        match self {
            AudioMutation::SetOutputVolume(v) => MutationModel::SetOutputVolume(*v),
            AudioMutation::ToggleOutputMute => MutationModel::ToggleOutputMute,
            AudioMutation::SetInputVolume(v) => MutationModel::SetInputVolume(*v),
            AudioMutation::ToggleInputMute => MutationModel::ToggleInputMute,
            AudioMutation::SetApplicationVolume(i, v) => MutationModel::SetApplicationVolume(*i, *v),
            AudioMutation::ToggleApplicationMute(i) => MutationModel::ToggleApplicationMute(*i),
            AudioMutation::SetDefaultOutput(n) => MutationModel::SetDefaultOutput(n@),
            AudioMutation::SetDefaultInput(n) => MutationModel::SetDefaultInput(n@),
        }
    }
}

impl Clone for AudioMutation {
    fn clone(&self) -> (r: Self)
        ensures
            r@ == self@,
    {
        match self {
            AudioMutation::SetOutputVolume(v) => AudioMutation::SetOutputVolume(*v),
            AudioMutation::ToggleOutputMute => AudioMutation::ToggleOutputMute,
            AudioMutation::SetInputVolume(v) => AudioMutation::SetInputVolume(*v),
            AudioMutation::ToggleInputMute => AudioMutation::ToggleInputMute,
            AudioMutation::SetApplicationVolume(i, v) => AudioMutation::SetApplicationVolume(*i, *v),
            AudioMutation::ToggleApplicationMute(i) => AudioMutation::ToggleApplicationMute(*i),
            AudioMutation::SetDefaultOutput(n) => AudioMutation::SetDefaultOutput(n.clone()),
            AudioMutation::SetDefaultInput(n) => AudioMutation::SetDefaultInput(n.clone()),
        }
    }
}

/// Predicate "is the playback stream with this index".
pub open spec fn app_with_index(index: u32) -> spec_fn(ApplicationModel) -> bool {
    |a: ApplicationModel| a.index == index
}

/// The optimistic effect of a mutation on the state shown: the requested
/// value is assumed at once. Input changes need a default input; stream
/// changes touch the first stream with the index, if any.
pub open spec fn apply_mutation(s: SoundModel, m: MutationModel) -> SoundModel {
    match m {
        MutationModel::SetOutputVolume(v) => SoundModel { volume_percent: v, ..s },
        MutationModel::ToggleOutputMute => SoundModel { muted: !s.muted, ..s },
        MutationModel::SetInputVolume(v) => SoundModel {
            default_input: match s.default_input {
                Some(d) => Some(DeviceModel { volume_percent: v, ..d }),
                None => None,
            },
            ..s
        },
        MutationModel::ToggleInputMute => SoundModel {
            default_input: match s.default_input {
                Some(d) => Some(DeviceModel { muted: !d.muted, ..d }),
                None => None,
            },
            ..s
        },
        MutationModel::SetApplicationVolume(i, v) => SoundModel {
            applications: update_first(
                s.applications,
                app_with_index(i),
                |a: ApplicationModel| ApplicationModel { volume_percent: v, ..a },
            ),
            ..s
        },
        MutationModel::ToggleApplicationMute(i) => SoundModel {
            applications: update_first(
                s.applications,
                app_with_index(i),
                |a: ApplicationModel| ApplicationModel { muted: !a.muted, ..a },
            ),
            ..s
        },
        MutationModel::SetDefaultOutput(n) => SoundModel { sink_name: n, ..s },
        MutationModel::SetDefaultInput(n) => SoundModel {
            default_input: match s.default_input {
                Some(d) => Some(DeviceModel { name: n, ..d }),
                None => None,
            },
            ..s
        },
    }
}

/// State shared by the sound module and any popup it opens.
#[derive(Debug, Default)]
pub struct SharedSoundState {
    pub state: SoundState,
    /// Bumped (wrapping) whenever anything observers show changes.
    pub revision: u64,
    /// The newest requested mutation and the clock reading (ms) it was queued at.
    pub pending_mutation: Option<(AudioMutation, u64)>,
    pub mutation_running: bool,
    pub last_error: Option<String>,
}

/// Delay a queued mutation waits for newer ones before it is sent.
pub const MUTATION_DEBOUNCE_MS: u64 = 75;

/// `revision + 1`, wrapping.
pub open spec fn next_revision(r: u64) -> u64 {
    if r == u64::MAX {
        0
    } else {
        (r + 1) as u64
    }
}

fn bump(r: u64) -> (n: u64)
    ensures
        n == next_revision(r),
{
    if r == u64::MAX {
        0
    } else {
        r + 1
    }
}

/// Index of the first stream with this index.
fn find_application(apps: &Vec<AudioApplication>, index: u32) -> (r: Option<usize>)
    ensures
        match r {
            Some(i) => i < apps@.len() && first_match(applications_view(apps@), app_with_index(index))
                == Some(i as int),
            None => first_match(applications_view(apps@), app_with_index(index)) is None,
        },
{
    let ghost s = applications_view(apps@);
    let mut i: usize = 0;
    while i < apps.len()
        invariant
            i <= apps@.len(),
            s == applications_view(apps@),
            forall|j: int| 0 <= j < i ==> !app_with_index(index)(#[trigger] s[j]),
        decreases apps@.len() - i,
    {
        if apps[i].index == index {
            proof {
                lemma_first_match_is(s, app_with_index(index), i as int);
            }
            return Some(i);
        }
        i += 1;
    }
    proof {
        lemma_first_match_none(s, app_with_index(index));
    }
    None
}

impl SharedSoundState {
    /// Take a freshly queried state; true (and a new revision) when it
    /// differs from the one shown.
    pub fn replace_state(&mut self, state: SoundState) -> (r: bool)
        ensures
            r == (state@ != old(self).state@),
            final(self).state@ == state@,
            final(self).revision == (if r { next_revision(old(self).revision) } else { old(self).revision }),
            final(self).pending_mutation == old(self).pending_mutation,
            final(self).mutation_running == old(self).mutation_running,
            final(self).last_error == old(self).last_error,
    {
        if same_sound_state(&self.state, &state) {
            return false;
        }
        self.state = state;
        self.revision = bump(self.revision);
        true
    }

    /// Queue a mutation: show its effect at once, bump the revision and make
    /// it the pending request (replacing an older one), stamped `now_ms`.
    pub fn enqueue(&mut self, mutation: AudioMutation, now_ms: u64)
        ensures
            final(self).state@ == apply_mutation(old(self).state@, mutation@),
            final(self).revision == next_revision(old(self).revision),
            final(self).pending_mutation == Some((mutation, now_ms)),
            final(self).mutation_running == old(self).mutation_running,
            final(self).last_error == old(self).last_error,
    {
        let ghost s = self.state@;
        match &mutation {
            AudioMutation::SetOutputVolume(volume) => {
                self.state.volume_percent = *volume;
            },
            AudioMutation::ToggleOutputMute => {
                self.state.muted = !self.state.muted;
            },
            AudioMutation::SetInputVolume(volume) => {
                let input = self.state.default_input.take();
                match input {
                    Some(mut d) => {
                        d.volume_percent = *volume;
                        self.state.default_input = Some(d);
                    },
                    None => {},
                }
            },
            AudioMutation::ToggleInputMute => {
                let input = self.state.default_input.take();
                match input {
                    Some(mut d) => {
                        d.muted = !d.muted;
                        self.state.default_input = Some(d);
                    },
                    None => {},
                }
            },
            AudioMutation::SetApplicationVolume(index, volume) => {
                match find_application(&self.state.applications, *index) {
                    Some(i) => {
                        let mut a = self.state.applications[i].clone();
                        a.volume_percent = *volume;
                        let ghost before = self.state.applications@;
                        self.state.applications.set(i, a);
                        assert(applications_view(self.state.applications@) =~= applications_view(
                            before,
                        ).update(i as int, a@));
                    },
                    None => {},
                }
            },
            AudioMutation::ToggleApplicationMute(index) => {
                match find_application(&self.state.applications, *index) {
                    Some(i) => {
                        let mut a = self.state.applications[i].clone();
                        a.muted = !a.muted;
                        let ghost before = self.state.applications@;
                        self.state.applications.set(i, a);
                        assert(applications_view(self.state.applications@) =~= applications_view(
                            before,
                        ).update(i as int, a@));
                    },
                    None => {},
                }
            },
            AudioMutation::SetDefaultOutput(name) => {
                self.state.sink_name = name.clone();
            },
            AudioMutation::SetDefaultInput(name) => {
                let input = self.state.default_input.take();
                match input {
                    Some(mut d) => {
                        d.name = name.clone();
                        self.state.default_input = Some(d);
                    },
                    None => {},
                }
            },
        }
        assert(self.state@ == apply_mutation(s, mutation@));
        self.revision = bump(self.revision);
        self.pending_mutation = Some((mutation, now_ms));
    }

    /// Hand out the pending mutation when none is running and it has waited
    /// the debounce delay; it then counts as running.
    pub fn take_due_mutation(&mut self, now_ms: u64) -> (r: Option<AudioMutation>)
        ensures
            match old(self).pending_mutation {
                Some(p) => if !old(self).mutation_running && elapsed_ms(p.1, now_ms)
                    >= MUTATION_DEBOUNCE_MS {
                    r == Some(p.0) && final(self).pending_mutation is None
                        && final(self).mutation_running
                } else {
                    r is None && final(self).pending_mutation == old(self).pending_mutation
                        && final(self).mutation_running == old(self).mutation_running
                },
                None => r is None && final(self).pending_mutation is None
                    && final(self).mutation_running == old(self).mutation_running,
            },
            final(self).state == old(self).state,
            final(self).revision == old(self).revision,
            final(self).last_error == old(self).last_error,
    {
        if self.mutation_running {
            return None;
        }
        let due = match &self.pending_mutation {
            Some(p) => {
                let elapsed = if now_ms >= p.1 { now_ms - p.1 } else { 0 };
                elapsed >= MUTATION_DEBOUNCE_MS
            },
            None => false,
        };
        if !due {
            return None;
        }
        match self.pending_mutation.take() {
            Some(p) => {
                self.mutation_running = true;
                Some(p.0)
            },
            None => None,
        }
    }

    /// A sent mutation finished: it no longer runs, its error (if any) is
    /// shown, and observers are told to redraw.
    pub fn finish_mutation(&mut self, result: Result<(), String>)
        ensures
            !final(self).mutation_running,
            final(self).last_error == (match result {
                Ok(()) => None,
                Err(e) => Some(e),
            }),
            final(self).revision == next_revision(old(self).revision),
            final(self).state == old(self).state,
            final(self).pending_mutation == old(self).pending_mutation,
    {
        self.mutation_running = false;
        match result {
            Ok(()) => self.last_error = None,
            Err(error) => self.last_error = Some(error),
        }
        self.revision = bump(self.revision);
    }

    /// A query finished: a new state replaces the shown one (true when it
    /// differs) and clears the error; a failure is shown and always asks for
    /// a redraw.
    pub fn record_query(&mut self, result: Result<SoundState, String>) -> (r: bool)
        ensures
            match result {
                Ok(s) => {
                    &&& r == (s@ != old(self).state@)
                    &&& final(self).state@ == s@
                    &&& final(self).last_error is None
                    &&& final(self).revision == (if r {
                        next_revision(old(self).revision)
                    } else {
                        old(self).revision
                    })
                },
                Err(e) => {
                    &&& r
                    &&& final(self).state == old(self).state
                    &&& final(self).last_error == Some(e)
                    &&& final(self).revision == next_revision(old(self).revision)
                },
            },
            final(self).pending_mutation == old(self).pending_mutation,
            final(self).mutation_running == old(self).mutation_running,
    {
        match result {
            Ok(state) => {
                self.last_error = None;
                self.replace_state(state)
            },
            Err(error) => {
                self.last_error = Some(error);
                self.revision = bump(self.revision);
                true
            },
        }
    }
}

} // verus!

verus! {

/// Predicate "is the output device described as `description`".
pub open spec fn device_described(description: Seq<char>) -> spec_fn(DeviceModel) -> bool {
    |d: DeviceModel| d.description == description
}

/// Predicate "is the device called `name`".
pub open spec fn device_named(name: Seq<char>) -> spec_fn(DeviceModel) -> bool {
    |d: DeviceModel| d.name == name
}

/// The device after the first one matching `p`, wrapping around; none when
/// no device matches.
pub open spec fn next_after(devices: Seq<DeviceModel>, p: spec_fn(DeviceModel) -> bool) -> Option<DeviceModel> {
    match first_match(devices, p) {
        Some(i) => Some(devices[if i + 1 < devices.len() { i + 1 } else { 0 }]),
        None => None,
    }
}

fn position_described(devices: &Vec<AudioDevice>, description: &String) -> (r: Option<usize>)
    ensures
        match r {
            Some(i) => i < devices@.len() && first_match(devices_view(devices@), device_described(description@))
                == Some(i as int),
            None => first_match(devices_view(devices@), device_described(description@)) is None,
        },
{
    let ghost s = devices_view(devices@);
    let mut i: usize = 0;
    while i < devices.len()
        invariant
            i <= devices@.len(),
            s == devices_view(devices@),
            forall|j: int| 0 <= j < i ==> !device_described(description@)(#[trigger] s[j]),
        decreases devices@.len() - i,
    {
        if devices[i].description == *description {
            proof {
                lemma_first_match_is(s, device_described(description@), i as int);
            }
            return Some(i);
        }
        i += 1;
    }
    proof {
        lemma_first_match_none(s, device_described(description@));
    }
    None
}

fn position_named(devices: &Vec<AudioDevice>, name: &String) -> (r: Option<usize>)
    ensures
        match r {
            Some(i) => i < devices@.len() && first_match(devices_view(devices@), device_named(name@))
                == Some(i as int),
            None => first_match(devices_view(devices@), device_named(name@)) is None,
        },
{
    let ghost s = devices_view(devices@);
    let mut i: usize = 0;
    while i < devices.len()
        invariant
            i <= devices@.len(),
            s == devices_view(devices@),
            forall|j: int| 0 <= j < i ==> !device_named(name@)(#[trigger] s[j]),
        decreases devices@.len() - i,
    {
        if devices[i].name == *name {
            proof {
                lemma_first_match_is(s, device_named(name@), i as int);
            }
            return Some(i);
        }
        i += 1;
    }
    proof {
        lemma_first_match_none(s, device_named(name@));
    }
    None
}

/// Name of the output to switch to when the output row is clicked: the one
/// after the current default sink (found by its description), wrapping.
pub fn next_output_name(state: &SoundState) -> (r: Option<String>)
    ensures
        match next_after(state@.outputs, device_described(state@.sink_name)) {
            Some(d) => r matches Some(n) && n@ == d.name,
            None => r is None,
        },
{
    match position_described(&state.outputs, &state.sink_name) {
        Some(i) => {
            let n = state.outputs.len();
            let next = if i + 1 < n { i + 1 } else { 0 };
            Some(state.outputs[next].name.clone())
        },
        None => None,
    }
}

/// Name of the input to switch to when the input row is clicked: the one
/// after the current default input (found by its name), wrapping.
pub fn next_input_name(state: &SoundState) -> (r: Option<String>)
    ensures
        match state@.default_input {
            Some(input) => match next_after(state@.inputs, device_named(input.name)) {
                Some(d) => r matches Some(n) && n@ == d.name,
                None => r is None,
            },
            None => r is None,
        },
{
    match &state.default_input {
        Some(input) => match position_named(&state.inputs, &input.name) {
            Some(i) => {
                let n = state.inputs.len();
                let next = if i + 1 < n { i + 1 } else { 0 };
                    Some(state.inputs[next].name.clone())
            },
            None => None,
        },
        None => None,
    }
}

/// `v` limited to `lo..=hi`.
pub open spec fn clamp_int(v: int, lo: int, hi: int) -> int {
    if v < lo {
        lo
    } else if v > hi {
        hi
    } else {
        v
    }
}

/// Volume after one scroll step up or down, kept within 0–150 %.
pub fn scroll_volume(volume_percent: u32, volume_step: u32, up: bool) -> (r: u32)
    requires
        volume_percent + volume_step <= i32::MAX,
    ensures
        r == clamp_int(
            if up {
                volume_percent + volume_step
            } else {
                volume_percent - volume_step
            },
            0,
            150,
        ),
{
    let step = volume_step as i64;
    let delta = if up { step } else { -step };
    let v = volume_percent as i64 + delta;
    if v < 0 {
        0
    } else if v > 150 {
        150
    } else {
        v as u32
    }
}

} // verus!

verus! {

/// A sink or source whose name marks it as the monitor of an output.
pub open spec fn is_monitor(d: DeviceModel) -> bool {
    ends_with(d.name, ".monitor"@)
}

/// Predicate "is a real input, not an output's monitor".
pub open spec fn not_monitor() -> spec_fn(DeviceModel) -> bool {
    |d: DeviceModel| !is_monitor(d)
}

/// The device called `name`, else the first device, else none.
pub open spec fn named_or_first(devices: Seq<DeviceModel>, name: Seq<char>) -> Option<DeviceModel> {
    match first_match(devices, device_named(name)) {
        Some(i) => Some(devices[i]),
        None => if devices.len() > 0 {
            Some(devices[0])
        } else {
            None
        },
    }
}

/// The state a PulseAudio-compatible server reports: the default sink (or
/// the first one) gives volume, mute and name; monitors of outputs are not
/// inputs; the default source (or the first input) is the default input.
/// Without any sink the report is an error.
pub open spec fn pactl_state_spec(
    outputs: Seq<DeviceModel>,
    inputs: Seq<DeviceModel>,
    applications: Seq<ApplicationModel>,
    default_sink: Seq<char>,
    default_source: Seq<char>,
) -> Result<SoundModel, Seq<char>> {
    let real_inputs = inputs.filter(not_monitor());
    match named_or_first(outputs, default_sink) {
        Some(o) => Ok(
            SoundModel {
                volume_percent: o.volume_percent,
                muted: o.muted,
                sink_name: o.description,
                backend_name: "PulseAudio"@,
                outputs,
                inputs: real_inputs,
                default_input: named_or_first(real_inputs, default_source),
                applications,
            },
        ),
        None => Err("pactl reported no output sinks"@),
    }
}

/// Copy of the device called `name`, else of the first device.
fn pick_named_or_first(devices: &Vec<AudioDevice>, name: &String) -> (r: Option<AudioDevice>)
    ensures
        opt_device(r) == named_or_first(devices_view(devices@), name@),
{
    match position_named(devices, name) {
        Some(i) => Some(devices[i].clone()),
        None => if devices.len() > 0 {
            Some(devices[0].clone())
        } else {
            None
        },
    }
}

/// Build the sound state from what `pactl -f json` listed: sinks, sources,
/// playback streams and the server's default sink and source names.
pub fn assemble_pactl_state(
    outputs: Vec<AudioDevice>,
    inputs: Vec<AudioDevice>,
    applications: Vec<AudioApplication>,
    default_sink: &String,
    default_source: &String,
) -> (r: Result<SoundState, String>)
    ensures
        match pactl_state_spec(
            devices_view(outputs@),
            devices_view(inputs@),
            applications_view(applications@),
            default_sink@,
            default_source@,
        ) {
            Ok(m) => r matches Ok(s) && s@ == m,
            Err(e) => r matches Err(msg) && msg@ == e,
        },
{
    let ghost iv = devices_view(inputs@);
    let mut real_inputs: Vec<AudioDevice> = Vec::new();
    let mut i: usize = 0;
    while i < inputs.len()
        invariant
            i <= inputs@.len(),
            iv == devices_view(inputs@),
            devices_view(real_inputs@) == iv.take(i as int).filter(not_monitor()),
        decreases inputs@.len() - i,
    {
        proof {
            lemma_filter_take_step(iv, not_monitor(), i as int);
        }
        if !str_ends_with(inputs[i].name.as_str(), ".monitor") {
            let d = inputs[i].clone();
            let ghost before = real_inputs@;
            real_inputs.push(d);
            assert(devices_view(real_inputs@) =~= devices_view(before).push(d@));
        }
        i += 1;
    }
    assert(iv.take(iv.len() as int) =~= iv);
    let output = match pick_named_or_first(&outputs, default_sink) {
        Some(o) => o,
        None => {
            return Err("pactl reported no output sinks".to_owned());
        },
    };
    let default_input = pick_named_or_first(&real_inputs, default_source);
    Ok(
        SoundState {
            volume_percent: output.volume_percent,
            muted: output.muted,
            sink_name: output.description,
            backend_name: "PulseAudio".to_owned(),
            outputs,
            inputs: real_inputs,
            default_input,
            applications,
        },
    )
}

} // verus!

verus! {

/// Which audio backend was detected.
#[derive(Debug, Clone, Copy, PartialEq, Eq, Structural)]
pub enum DetectedBackend {
    Pipewire,
    Pulseaudio,
    Alsa,
    /// No supported audio tool is installed.
    NotFound,
}

/// The backend to use: the configured one, or for `auto` the first of
/// `pactl` (a PulseAudio-compatible server, PipeWire included), `wpctl`
/// (PipeWire) and `amixer` (ALSA) that is installed.
pub open spec fn detect_backend_spec(preferred: AudioBackend, has_pactl: bool, has_wpctl: bool, has_amixer: bool) -> DetectedBackend {
    match preferred {
        AudioBackend::Pipewire => DetectedBackend::Pipewire,
        AudioBackend::Pulseaudio => DetectedBackend::Pulseaudio,
        AudioBackend::Alsa => DetectedBackend::Alsa,
        AudioBackend::Auto => if has_pactl {
            DetectedBackend::Pulseaudio
        } else if has_wpctl {
            DetectedBackend::Pipewire
        } else if has_amixer {
            DetectedBackend::Alsa
        } else {
            DetectedBackend::NotFound
        },
    }
}

/// Decide the backend from the preference and which tools were found.
pub fn detect_backend(preferred: AudioBackend, has_pactl: bool, has_wpctl: bool, has_amixer: bool) -> (r: DetectedBackend)
    ensures
        r == detect_backend_spec(preferred, has_pactl, has_wpctl, has_amixer),
{
    match preferred {
        AudioBackend::Pipewire => DetectedBackend::Pipewire,
        AudioBackend::Pulseaudio => DetectedBackend::Pulseaudio,
        AudioBackend::Alsa => DetectedBackend::Alsa,
        AudioBackend::Auto => if has_pactl {
            DetectedBackend::Pulseaudio
        } else if has_wpctl {
            DetectedBackend::Pipewire
        } else if has_amixer {
            DetectedBackend::Alsa
        } else {
            DetectedBackend::NotFound
        },
    }
}

/// A process to run for a mutation: program, arguments, and the label its
/// failure is reported under.
#[derive(Debug)]
pub struct AudioCommand {
    pub program: String,
    pub args: Vec<String>,
    pub label: String,
}

/// Characters of each string.
pub open spec fn strings_view(v: Seq<String>) -> Seq<Seq<char>> {
    v.map_values(|s: String| s@)
}

/// `<p>%` with `p` capped at `max`.
pub open spec fn percent_text(p: u32, max: u32) -> Seq<char> {
    nat_digits((if p < max { p } else { max }) as nat) + "%"@
}

/// The command that carries out `m` on backend `b`: PipeWire and ALSA can
/// set and toggle the output only, a PulseAudio-compatible server can do
/// everything; without a backend nothing can be done.
pub open spec fn mutation_command_spec(b: DetectedBackend, m: MutationModel) -> Result<
    (Seq<char>, Seq<Seq<char>>, Seq<char>),
    Seq<char>,
> {
    match (b, m) {
        (DetectedBackend::Pipewire, MutationModel::SetOutputVolume(v)) => Ok(
            (
                "wpctl"@,
                seq!["set-volume"@, "-l"@, "1.5"@, "@DEFAULT_AUDIO_SINK@"@, percent_text(v, 150)],
                "wpctl set-volume"@,
            ),
        ),
        (DetectedBackend::Pipewire, MutationModel::ToggleOutputMute) => Ok(
            ("wpctl"@, seq!["set-mute"@, "@DEFAULT_AUDIO_SINK@"@, "toggle"@], "wpctl set-mute"@),
        ),
        (DetectedBackend::Pulseaudio, MutationModel::SetOutputVolume(v)) => Ok(
            (
                "pactl"@,
                seq!["set-sink-volume"@, "@DEFAULT_SINK@"@, percent_text(v, 150)],
                "pactl set-sink-volume"@,
            ),
        ),
        (DetectedBackend::Pulseaudio, MutationModel::ToggleOutputMute) => Ok(
            ("pactl"@, seq!["set-sink-mute"@, "@DEFAULT_SINK@"@, "toggle"@], "pactl set-sink-mute"@),
        ),
        (DetectedBackend::Pulseaudio, MutationModel::SetInputVolume(v)) => Ok(
            (
                "pactl"@,
                seq!["set-source-volume"@, "@DEFAULT_SOURCE@"@, percent_text(v, 150)],
                "pactl"@,
            ),
        ),
        (DetectedBackend::Pulseaudio, MutationModel::ToggleInputMute) => Ok(
            ("pactl"@, seq!["set-source-mute"@, "@DEFAULT_SOURCE@"@, "toggle"@], "pactl"@),
        ),
        (DetectedBackend::Pulseaudio, MutationModel::SetApplicationVolume(i, v)) => Ok(
            (
                "pactl"@,
                seq!["set-sink-input-volume"@, nat_digits(i as nat), percent_text(v, 150)],
                "pactl"@,
            ),
        ),
        (DetectedBackend::Pulseaudio, MutationModel::ToggleApplicationMute(i)) => Ok(
            ("pactl"@, seq!["set-sink-input-mute"@, nat_digits(i as nat), "toggle"@], "pactl"@),
        ),
        (DetectedBackend::Pulseaudio, MutationModel::SetDefaultOutput(n)) => Ok(
            ("pactl"@, seq!["set-default-sink"@, n], "pactl"@),
        ),
        (DetectedBackend::Pulseaudio, MutationModel::SetDefaultInput(n)) => Ok(
            ("pactl"@, seq!["set-default-source"@, n], "pactl"@),
        ),
        (DetectedBackend::Alsa, MutationModel::SetOutputVolume(v)) => Ok(
            ("amixer"@, seq!["sset"@, "Master"@, percent_text(v, 100)], "amixer sset Master"@),
        ),
        (DetectedBackend::Alsa, MutationModel::ToggleOutputMute) => Ok(
            ("amixer"@, seq!["sset"@, "Master"@, "toggle"@], "amixer sset Master toggle"@),
        ),
        (DetectedBackend::NotFound, _) => Err("no supported audio backend is available"@),
        (_, _) => Err("expanded mixer controls require a pactl-compatible audio server"@),
    }
}

/// The subcommands that act on a capture device (a source).
pub open spec fn source_subcommands() -> Set<Seq<char>> {
    set!["set-source-volume"@, "set-source-mute"@, "set-default-source"@]
}

/// A mutation of the microphone side of the mixer.
pub open spec fn is_input_mutation(m: MutationModel) -> bool {
    m is SetInputVolume || m is ToggleInputMute || m is SetDefaultInput
}

/// Microphone and speakers are never confused: a command for an input-side
/// mutation uses a source subcommand on the default source (or, to change
/// the default, on the chosen source); a command for any other mutation
/// uses no source subcommand and never names the default source. A
/// PulseAudio-compatible server can carry out every mutation.
pub proof fn law_mutation_sides(b: DetectedBackend, m: MutationModel)
    ensures
        mutation_command_spec(b, m) matches Ok((program, args, label)) ==> {
            &&& args.len() >= 2
            &&& is_input_mutation(m) ==> source_subcommands().contains(args[0]) && args[1] == (match m {
                MutationModel::SetDefaultInput(n) => n,
                _ => "@DEFAULT_SOURCE@"@,
            })
            &&& !is_input_mutation(m) ==> !source_subcommands().contains(args[0])
            &&& !is_input_mutation(m) && !(m is SetDefaultOutput) ==> forall|i: int|
                0 <= i < args.len() ==> #[trigger] args[i] != "@DEFAULT_SOURCE@"@
        },
        b == DetectedBackend::Pulseaudio ==> mutation_command_spec(b, m) is Ok,
{
    reveal_strlit("set-source-volume");
    reveal_strlit("set-source-mute");
    reveal_strlit("set-default-source");
    reveal_strlit("@DEFAULT_SOURCE@");
    reveal_strlit("set-volume");
    reveal_strlit("-l");
    reveal_strlit("1.5");
    reveal_strlit("@DEFAULT_AUDIO_SINK@");
    reveal_strlit("set-mute");
    reveal_strlit("toggle");
    reveal_strlit("set-sink-volume");
    reveal_strlit("@DEFAULT_SINK@");
    reveal_strlit("set-sink-mute");
    reveal_strlit("set-sink-input-volume");
    reveal_strlit("set-sink-input-mute");
    reveal_strlit("set-default-sink");
    reveal_strlit("sset");
    reveal_strlit("Master");
    reveal_strlit("%");
    let src = "@DEFAULT_SOURCE@"@;
    assert(src.len() == 16 && src[0] == '@');
    assert(!source_subcommands().contains("set-volume"@)) by {
        assert("set-volume"@.len() == 10);
        assert("set-source-volume"@.len() == 17 && "set-source-mute"@.len() == 15);
        assert("set-default-source"@.len() == 18);
    }
    assert(!source_subcommands().contains("set-mute"@)) by {
        assert("set-mute"@.len() == 8);
        assert("set-source-volume"@.len() == 17 && "set-source-mute"@.len() == 15);
        assert("set-default-source"@.len() == 18);
    }
    assert(!source_subcommands().contains("set-sink-volume"@)) by {
        assert("set-sink-volume"@.len() == 15 && "set-sink-volume"@[5] == 'i');
        assert("set-source-mute"@[5] == 'o');
        assert("set-source-volume"@.len() == 17 && "set-source-mute"@.len() == 15);
        assert("set-default-source"@.len() == 18);
    }
    assert(!source_subcommands().contains("set-sink-mute"@)) by {
        assert("set-sink-mute"@.len() == 13);
        assert("set-source-volume"@.len() == 17 && "set-source-mute"@.len() == 15);
        assert("set-default-source"@.len() == 18);
    }
    assert(!source_subcommands().contains("set-sink-input-volume"@)) by {
        assert("set-sink-input-volume"@.len() == 21);
        assert("set-source-volume"@.len() == 17 && "set-source-mute"@.len() == 15);
        assert("set-default-source"@.len() == 18);
    }
    assert(!source_subcommands().contains("set-sink-input-mute"@)) by {
        assert("set-sink-input-mute"@.len() == 19);
        assert("set-source-volume"@.len() == 17 && "set-source-mute"@.len() == 15);
        assert("set-default-source"@.len() == 18);
    }
    assert(!source_subcommands().contains("set-default-sink"@)) by {
        assert("set-default-sink"@.len() == 16);
        assert("set-source-volume"@.len() == 17 && "set-source-mute"@.len() == 15);
        assert("set-default-source"@.len() == 18);
    }
    assert(!source_subcommands().contains("sset"@)) by {
        assert("sset"@.len() == 4);
        assert("set-source-volume"@.len() == 17 && "set-source-mute"@.len() == 15);
        assert("set-default-source"@.len() == 18);
    }
    match m {
        MutationModel::SetApplicationVolume(i, v) => {
            lemma_nat_digits(i as nat);
            assert(nat_digits(i as nat)[0] != '@');
        },
        MutationModel::ToggleApplicationMute(i) => {
            lemma_nat_digits(i as nat);
            assert(nat_digits(i as nat)[0] != '@');
        },
        _ => {},
    }
    if let Ok((program, args, label)) = mutation_command_spec(b, m) {
        assert forall|i: int| 0 <= i < args.len() && !is_input_mutation(m) && !(m is SetDefaultOutput)
            implies #[trigger] args[i] != src by {
            let a = args[i];
            if a.len() > 0 && a.last() == '%' {
                assert(src.last() == '@');
            }
        }
    }
}

/// The level a volume command asks for: the requested percentage, capped at
/// 100 for ALSA and at 150 otherwise.
pub open spec fn capped_level(b: DetectedBackend, v: u32) -> nat {
    let cap: nat = if b == DetectedBackend::Alsa { 100 } else { 150 };
    if v < cap { v as nat } else { cap }
}

/// What each command carries: a volume command ends with the requested
/// level followed by `%`; a mute command ends with `toggle`; output commands
/// name the default sink (`@DEFAULT_SINK@`, `@DEFAULT_AUDIO_SINK@` or ALSA's
/// `Master`); application commands name the stream by its index; changing a
/// default names the chosen device.
pub proof fn law_mutation_arguments(b: DetectedBackend, m: MutationModel)
    ensures
        mutation_command_spec(b, m) matches Ok((program, args, label)) ==> {
            &&& args.len() >= 2
            &&& m matches MutationModel::SetOutputVolume(v) ==> args.last() == nat_digits(
                capped_level(b, v),
            ) + "%"@
            &&& m matches MutationModel::SetInputVolume(v) ==> args.last() == nat_digits(
                capped_level(b, v),
            ) + "%"@
            &&& m matches MutationModel::SetApplicationVolume(_, v) ==> args.last() == nat_digits(
                capped_level(b, v),
            ) + "%"@
            &&& (m is ToggleOutputMute || m is ToggleInputMute || m is ToggleApplicationMute)
                ==> args.last() == "toggle"@
            &&& (m is SetOutputVolume || m is ToggleOutputMute) ==> exists|i: int|
                0 <= i < args.len() && (#[trigger] args[i] == "@DEFAULT_SINK@"@ || args[i]
                    == "@DEFAULT_AUDIO_SINK@"@ || args[i] == "Master"@)
            &&& m matches MutationModel::SetApplicationVolume(i, _) ==> args[1] == nat_digits(i as nat)
            &&& m matches MutationModel::ToggleApplicationMute(i) ==> args[1] == nat_digits(i as nat)
            &&& m matches MutationModel::SetDefaultOutput(n) ==> args[0] == "set-default-sink"@ && args[1] == n
        },
{
    if let Ok((program, args, label)) = mutation_command_spec(b, m) {
        match (b, m) {
            (DetectedBackend::Pipewire, MutationModel::SetOutputVolume(v)) => {
                assert(args[3] == "@DEFAULT_AUDIO_SINK@"@);
            },
            (DetectedBackend::Pipewire, MutationModel::ToggleOutputMute) => {
                assert(args[1] == "@DEFAULT_AUDIO_SINK@"@);
            },
            (DetectedBackend::Pulseaudio, MutationModel::SetOutputVolume(v)) => {
                assert(args[1] == "@DEFAULT_SINK@"@);
            },
            (DetectedBackend::Pulseaudio, MutationModel::ToggleOutputMute) => {
                assert(args[1] == "@DEFAULT_SINK@"@);
            },
            (DetectedBackend::Alsa, MutationModel::SetOutputVolume(v)) => {
                assert(args[1] == "Master"@);
            },
            (DetectedBackend::Alsa, MutationModel::ToggleOutputMute) => {
                assert(args[1] == "Master"@);
            },
            _ => {},
        }
    }
}

fn percent_arg(p: u32, max: u32) -> (r: String)
    ensures
        r@ == percent_text(p, max),
{
    let mut s = u64_to_string(if p < max { p as u64 } else { max as u64 });
    s.append("%");
    s
}

fn command(program: &str, args: Vec<String>, label: &str) -> (r: AudioCommand)
    ensures
        r.program@ == program@,
        r.args == args,
        r.label@ == label@,
{
    AudioCommand { program: program.to_owned(), args, label: label.to_owned() }
}

fn args2(a: String, b: String) -> (r: Vec<String>)
    ensures
        strings_view(r@) == seq![a@, b@],
{
    let mut v: Vec<String> = Vec::new();
    v.push(a);
    v.push(b);
    assert(strings_view(v@) =~= seq![a@, b@]);
    v
}

fn args3(a: String, b: String, c: String) -> (r: Vec<String>)
    ensures
        strings_view(r@) == seq![a@, b@, c@],
{
    let mut v: Vec<String> = Vec::new();
    v.push(a);
    v.push(b);
    v.push(c);
    assert(strings_view(v@) =~= seq![a@, b@, c@]);
    v
}

/// The command that carries out a mutation on the detected backend, or why
/// there is none.
pub fn mutation_command(backend: DetectedBackend, mutation: &AudioMutation) -> (r: Result<AudioCommand, String>)
    ensures
        match mutation_command_spec(backend, mutation@) {
            Ok((program, args, label)) => r matches Ok(c) && c.program@ == program && strings_view(
                c.args@,
            ) == args && c.label@ == label,
            Err(e) => r matches Err(msg) && msg@ == e,
        },
{
    match (backend, mutation) {
        (DetectedBackend::Pipewire, AudioMutation::SetOutputVolume(v)) => {
            let mut args: Vec<String> = Vec::new();
            args.push("set-volume".to_owned());
            args.push("-l".to_owned());
            args.push("1.5".to_owned());
            args.push("@DEFAULT_AUDIO_SINK@".to_owned());
            let p = percent_arg(*v, 150);
            args.push(p);
            assert(strings_view(args@) =~= seq![
                "set-volume"@,
                "-l"@,
                "1.5"@,
                "@DEFAULT_AUDIO_SINK@"@,
                percent_text(*v, 150),
            ]);
            Ok(command("wpctl", args, "wpctl set-volume"))
        },
        (DetectedBackend::Pipewire, AudioMutation::ToggleOutputMute) => Ok(
            command(
                "wpctl",
                args3("set-mute".to_owned(), "@DEFAULT_AUDIO_SINK@".to_owned(), "toggle".to_owned()),
                "wpctl set-mute",
            ),
        ),
        (DetectedBackend::Pulseaudio, AudioMutation::SetOutputVolume(v)) => Ok(
            command(
                "pactl",
                args3("set-sink-volume".to_owned(), "@DEFAULT_SINK@".to_owned(), percent_arg(*v, 150)),
                "pactl set-sink-volume",
            ),
        ),
        (DetectedBackend::Pulseaudio, AudioMutation::ToggleOutputMute) => Ok(
            command(
                "pactl",
                args3("set-sink-mute".to_owned(), "@DEFAULT_SINK@".to_owned(), "toggle".to_owned()),
                "pactl set-sink-mute",
            ),
        ),
        (DetectedBackend::Pulseaudio, AudioMutation::SetInputVolume(v)) => Ok(
            command(
                "pactl",
                args3(
                    "set-source-volume".to_owned(),
                    "@DEFAULT_SOURCE@".to_owned(),
                    percent_arg(*v, 150),
                ),
                "pactl",
            ),
        ),
        (DetectedBackend::Pulseaudio, AudioMutation::ToggleInputMute) => Ok(
            command(
                "pactl",
                args3("set-source-mute".to_owned(), "@DEFAULT_SOURCE@".to_owned(), "toggle".to_owned()),
                "pactl",
            ),
        ),
        (DetectedBackend::Pulseaudio, AudioMutation::SetApplicationVolume(i, v)) => Ok(
            command(
                "pactl",
                args3(
                    "set-sink-input-volume".to_owned(),
                    u64_to_string(*i as u64),
                    percent_arg(*v, 150),
                ),
                "pactl",
            ),
        ),
        (DetectedBackend::Pulseaudio, AudioMutation::ToggleApplicationMute(i)) => Ok(
            command(
                "pactl",
                args3("set-sink-input-mute".to_owned(), u64_to_string(*i as u64), "toggle".to_owned()),
                "pactl",
            ),
        ),
        (DetectedBackend::Pulseaudio, AudioMutation::SetDefaultOutput(n)) => Ok(
            command("pactl", args2("set-default-sink".to_owned(), n.clone()), "pactl"),
        ),
        (DetectedBackend::Pulseaudio, AudioMutation::SetDefaultInput(n)) => Ok(
            command("pactl", args2("set-default-source".to_owned(), n.clone()), "pactl"),
        ),
        (DetectedBackend::Alsa, AudioMutation::SetOutputVolume(v)) => Ok(
            command(
                "amixer",
                args3("sset".to_owned(), "Master".to_owned(), percent_arg(*v, 100)),
                "amixer sset Master",
            ),
        ),
        (DetectedBackend::Alsa, AudioMutation::ToggleOutputMute) => Ok(
            command(
                "amixer",
                args3("sset".to_owned(), "Master".to_owned(), "toggle".to_owned()),
                "amixer sset Master toggle",
            ),
        ),
        (DetectedBackend::NotFound, _) => Err("no supported audio backend is available".to_owned()),
        (_, _) => Err("expanded mixer controls require a pactl-compatible audio server".to_owned()),
    }
}

} // verus!

verus! {

/// The sound module's own bookkeeping: configuration, the state shown on the
/// bar, and where backend detection, queries and the `pactl subscribe`
/// watcher stand. The application runtime runs the processes these
/// decisions ask for and reports back.
#[derive(Debug)]
pub struct SoundModule {
    pub config: SoundConfig,
    pub state: SoundState,
    pub detected_backend: DetectedBackend,
    /// Whether backend detection has finished.
    pub backend_detected: bool,
    /// Whether a detection task was started.
    pub detection_running: bool,
    /// Clock reading (ms) of the last query start or finish.
    pub last_poll_ms: Option<u64>,
    pub query_running: bool,
    /// Count of `pactl subscribe` change events already acted on.
    pub last_pactl_event: u64,
    /// Whether the `pactl subscribe` watcher runs.
    pub subscription_active: bool,
    /// Earliest clock reading (ms) at which a stopped watcher may restart.
    pub subscription_retry_at_ms: Option<u64>,
}

/// Delay before a stopped `pactl subscribe` watcher is restarted.
pub const SUBSCRIPTION_RETRY_MS: u64 = 2000;

/// A query is due when a backend was found and none ran yet or the poll
/// interval has passed.
pub open spec fn sound_poll_due(m: SoundModule, now: u64) -> bool {
    m.detected_backend != DetectedBackend::NotFound && match m.last_poll_ms {
        None => true,
        Some(t) => elapsed_ms(t, now) >= m.config.poll_interval_ms,
    }
}

impl SoundModule {
    /// A module that has detected nothing and shows an empty state.
    pub fn new(config: SoundConfig) -> (r: Self)
        ensures
            r.config == config,
            r.state@.volume_percent == 0,
            !r.state@.muted,
            r.state@.backend_name.len() == 0,
            r.detected_backend == DetectedBackend::NotFound,
            !r.backend_detected,
            !r.detection_running,
            r.last_poll_ms is None,
            !r.query_running,
            r.last_pactl_event == 0,
            !r.subscription_active,
            r.subscription_retry_at_ms is None,
    {
        SoundModule {
            config,
            state: SoundState {
                volume_percent: 0,
                muted: false,
                sink_name: String::new(),
                backend_name: String::new(),
                outputs: Vec::new(),
                inputs: Vec::new(),
                default_input: None,
                applications: Vec::new(),
            },
            detected_backend: DetectedBackend::NotFound,
            backend_detected: false,
            detection_running: false,
            last_poll_ms: None,
            query_running: false,
            last_pactl_event: 0,
            subscription_active: false,
            subscription_retry_at_ms: None,
        }
    }

    /// Stable module identifier.
    pub fn id(&self) -> (r: &'static str)
        ensures
            r@ == "sound"@,
    {
        "sound"
    }

    /// The sound module always offers its mixer popup.
    pub fn has_popup(&self) -> (r: bool)
        ensures
            r,
    {
        true
    }

    /// Is a query due at `now_ms`?
    pub fn should_poll(&self, now_ms: u64) -> (r: bool)
        ensures
            r == sound_poll_due(*self, now_ms),
    {
        if self.detected_backend == DetectedBackend::NotFound {
            return false;
        }
        match self.last_poll_ms {
            None => true,
            Some(t) => {
                let elapsed = if now_ms >= t { now_ms - t } else { 0 };
                elapsed >= self.config.poll_interval_ms
            },
        }
    }

    /// Start backend detection once: true when the runtime must start it now.
    pub fn start_detection(&mut self) -> (r: bool)
        ensures
            r == (!old(self).backend_detected && !old(self).detection_running),
            final(self).detection_running == (old(self).detection_running || r),
            final(self).backend_detected == old(self).backend_detected,
            final(self).detected_backend == old(self).detected_backend,
    {
        if !self.backend_detected && !self.detection_running {
            self.detection_running = true;
            true
        } else {
            false
        }
    }

    /// Detection finished; the first answer is kept.
    pub fn finish_detection(&mut self, backend: DetectedBackend)
        ensures
            final(self).backend_detected,
            final(self).detected_backend == (if old(self).backend_detected {
                old(self).detected_backend
            } else {
                backend
            }),
            final(self).detection_running == old(self).detection_running,
            final(self).last_poll_ms == old(self).last_poll_ms,
            final(self).query_running == old(self).query_running,
    {
        if !self.backend_detected {
            self.detected_backend = backend;
            self.backend_detected = true;
        }
    }

    /// Start the `pactl subscribe` watcher when a PulseAudio-compatible
    /// backend was detected, none runs, and any retry delay has passed.
    pub fn start_subscription(&mut self, now_ms: u64) -> (r: bool)
        ensures
            r == (old(self).backend_detected && !old(self).subscription_active
                && old(self).detected_backend == DetectedBackend::Pulseaudio && !(match old(
                self,
            ).subscription_retry_at_ms {
                Some(t) => now_ms < t,
                None => false,
            })),
            final(self).subscription_active == (old(self).subscription_active || r),
            final(self).subscription_retry_at_ms == old(self).subscription_retry_at_ms,
    {
        if !self.backend_detected || self.subscription_active || self.detected_backend
            != DetectedBackend::Pulseaudio {
            return false;
        }
        match self.subscription_retry_at_ms {
            Some(t) => if now_ms < t {
                return false;
            },
            None => {},
        }
        self.subscription_active = true;
        true
    }

    /// The watcher stopped: it may restart after the retry delay.
    pub fn subscription_ended(&mut self, now_ms: u64)
        requires
            now_ms <= u64::MAX - SUBSCRIPTION_RETRY_MS,
        ensures
            !final(self).subscription_active,
            final(self).subscription_retry_at_ms == Some((now_ms + SUBSCRIPTION_RETRY_MS) as u64),
    {
        self.subscription_active = false;
        self.subscription_retry_at_ms = Some(now_ms + SUBSCRIPTION_RETRY_MS);
    }

    /// Start a query when one is due or the server reported a change
    /// (`pactl_events` moved on) and none runs; stamps the time and the
    /// event count.
    pub fn begin_query(&mut self, now_ms: u64, pactl_events: u64) -> (r: bool)
        ensures
            r == ((sound_poll_due(*old(self), now_ms) || pactl_events != old(self).last_pactl_event)
                && !old(self).query_running),
            r ==> final(self).last_poll_ms == Some(now_ms) && final(self).last_pactl_event
                == pactl_events && final(self).query_running,
            !r ==> final(self).last_poll_ms == old(self).last_poll_ms && final(self).last_pactl_event
                == old(self).last_pactl_event && final(self).query_running == old(self).query_running,
            final(self).detected_backend == old(self).detected_backend,
            final(self).state == old(self).state,
    {
        if (self.should_poll(now_ms) || pactl_events != self.last_pactl_event) && !self.query_running {
            self.last_poll_ms = Some(now_ms);
            self.last_pactl_event = pactl_events;
            self.query_running = true;
            true
        } else {
            false
        }
    }

    /// A query finished at `now_ms`; a successful one replaces the state shown.
    pub fn finish_query(&mut self, now_ms: u64, state: Option<SoundState>)
        ensures
            !final(self).query_running,
            final(self).last_poll_ms == Some(now_ms),
            match state {
                Some(s) => final(self).state == s,
                None => final(self).state == old(self).state,
            },
            final(self).detected_backend == old(self).detected_backend,
    {
        self.query_running = false;
        self.last_poll_ms = Some(now_ms);
        match state {
            Some(s) => self.state = s,
            None => {},
        }
    }

    /// A mutation finished: query again at once so the optimistic values
    /// converge to what the server reports.
    pub fn mutation_finished(&mut self)
        ensures
            final(self).last_poll_ms is None,
            final(self).query_running == old(self).query_running,
            final(self).detected_backend == old(self).detected_backend,
            final(self).state == old(self).state,
    {
        self.last_poll_ms = None;
    }
}

/// Readout of the verbose display: `--` before any backend answered, else
/// the volume (capped at 100) and `%`.
pub open spec fn volume_readout_spec(s: SoundModel) -> Seq<char> {
    if s.backend_name.len() == 0 {
        "--"@
    } else {
        nat_digits((if s.volume_percent < 100 { s.volume_percent } else { 100 }) as nat) + "%"@
    }
}

/// Readout of the verbose display (see [`volume_readout_spec`]).
pub fn volume_readout(state: &SoundState) -> (r: String)
    ensures
        r@ == volume_readout_spec(state@),
{
    if state.backend_name.as_str().is_empty() {
        "--".to_owned()
    } else {
        percent_arg(state.volume_percent, 100)
    }
}

} // verus!

verus! {

/// Changing the stream that `first_match` found keeps it the first match
/// when the change keeps its index.
proof fn lemma_first_match_after_update(s: Seq<ApplicationModel>, index: u32, a: ApplicationModel)
    requires
        first_match(s, app_with_index(index)) is Some,
        a.index == index,
    ensures
        first_match(
            s.update(first_match(s, app_with_index(index))->0, a),
            app_with_index(index),
        ) == first_match(s, app_with_index(index)),
{
    let k = first_match(s, app_with_index(index))->0;
    let t = s.update(k, a);
    crate::find::lemma_first_match_spec(s, app_with_index(index));
    assert forall|j: int| 0 <= j < k implies !app_with_index(index)(#[trigger] t[j]) by {
        assert(t[j] == s[j]);
    }
    lemma_first_match_is(t, app_with_index(index), k);
}

/// Every toggle undoes itself: toggling the output mute, the default
/// input's mute or a stream's mute twice shows the state as before.
pub proof fn law_toggles_undo_themselves(s: SoundModel, m: MutationModel)
    requires
        m is ToggleOutputMute || m is ToggleInputMute || m is ToggleApplicationMute,
    ensures
        apply_mutation(apply_mutation(s, m), m) == s,
{
    match m {
        MutationModel::ToggleOutputMute => {},
        MutationModel::ToggleInputMute => {
            match s.default_input {
                Some(d) => {
                    assert(DeviceModel { muted: !!d.muted, ..d } == d);
                },
                None => {},
            }
        },
        MutationModel::ToggleApplicationMute(i) => {
            let f = |a: ApplicationModel| ApplicationModel { muted: !a.muted, ..a };
            match first_match(s.applications, app_with_index(i)) {
                Some(k) => {
                    crate::find::lemma_first_match_spec(s.applications, app_with_index(i));
                    let once = s.applications.update(k, f(s.applications[k]));
                    lemma_first_match_after_update(s.applications, i, f(s.applications[k]));
                    assert(once[k] == f(s.applications[k]));
                    assert(f(once[k]) == s.applications[k]);
                    assert(once.update(k, f(once[k])) =~= s.applications);
                },
                None => {},
            }
        },
        _ => {},
    }
}

/// A volume request is shown at once, whatever was shown before.
pub proof fn law_volume_request_shown(s: SoundModel, v: u32)
    ensures
        apply_mutation(s, MutationModel::SetOutputVolume(v)).volume_percent == v,
        apply_mutation(s, MutationModel::SetOutputVolume(v)).muted == s.muted,
        apply_mutation(s, MutationModel::SetOutputVolume(v)).applications == s.applications,
{
}

} // verus!

verus! {

/// Predicate "holds a `%`".
pub open spec fn has_percent() -> spec_fn(Seq<char>) -> bool {
    |p: Seq<char>| p.contains('%')
}

/// The volume `amixer sget Master` reports: in the first `[`-separated
/// piece holding a `%`, the text before the `%`, trimmed, read as a whole
/// number; 0 when there is none.
pub open spec fn amixer_volume_spec(out: Seq<char>) -> u32 {
    let pieces = split_pieces(out, '[');
    match first_match(pieces, has_percent()) {
        Some(i) => match parse_u32_spec(trim(split_first(pieces[i], '%').0)) {
            Some(v) => v,
            None => 0,
        },
        None => 0,
    }
}

/// Does the text hold `c`?
fn has_char(s: &String, c: char) -> (r: bool)
    ensures
        r == s@.contains(c),
{
    let v = chars_of(s.as_str());
    let n = v.len();
    match find_char(&v, 0, n, c) {
        Some(i) => {
            assert(v@.subrange(0, n as int)[i as int] == c);
            assert(s@[i as int] == c);
            true
        },
        None => {
            proof {
                assert(v@.subrange(0, n as int) =~= s@);
                if s@.contains(c) {
                    let k = choose|k: int| 0 <= k < s@.len() && s@[k] == c;
                    assert(is_char(c)(s@[k]));
                    lemma_any_match_has_first(s@, is_char(c));
                }
            }
            false
        },
    }
}

/// The volume `amixer sget Master` reports (see [`amixer_volume_spec`]).
fn amixer_volume(out: &str) -> (r: u32)
    ensures
        r == amixer_volume_spec(out@),
{
    let pieces = split_all(out, '[');
    let ghost ps = pieces@.map_values(|p: String| p@);
    let mut i: usize = 0;
    while i < pieces.len()
        invariant
            i <= pieces@.len(),
            ps == pieces@.map_values(|p: String| p@),
            ps == split_pieces(out@, '['),
            forall|j: int| 0 <= j < i ==> !has_percent()(#[trigger] ps[j]),
        decreases pieces@.len() - i,
    {
        if has_char(&pieces[i], '%') {
            proof {
                lemma_first_match_is(ps, has_percent(), i as int);
            }
            let pv = chars_of(pieces[i].as_str());
            let (before_end, _) = split_at_first(&pv, 0, pv.len(), '%');
            assert(pv@.subrange(0, pv@.len() as int) =~= ps[i as int]);
            let (a, b) = trim_bounds(&pv, 0, before_end);
            return match parse_u32(&pv, a, b) {
                Some(v) => v,
                None => 0,
            };
        }
        i += 1;
    }
    proof {
        lemma_first_match_none(ps, has_percent());
    }
    0
}

/// The state `amixer sget Master` reports (see [`amixer_volume_spec`]);
/// muted when the text holds `[off]`.
pub fn alsa_state(out: &str) -> (r: SoundState)
    ensures
        r@.volume_percent == amixer_volume_spec(out@),
        r@.muted == contains_text(out@, "[off]"@),
        r@.backend_name == "ALSA"@,
        r@.sink_name.len() == 0,
        r@.outputs.len() == 0,
        r@.inputs.len() == 0,
        r@.default_input is None,
        r@.applications.len() == 0,
{
    let volume = amixer_volume(out);
    SoundState {
        volume_percent: volume,
        muted: str_contains(out, "[off]"),
        sink_name: String::new(),
        backend_name: "ALSA".to_owned(),
        outputs: Vec::new(),
        inputs: Vec::new(),
        default_input: None,
        applications: Vec::new(),
    }
}

} // verus!
