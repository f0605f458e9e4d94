//! The patient-files panel: its channel to the backend, its records and its
//! selection.

use crate::models::{
    ids_of, lemma_last_set, pick, reconcile, resolve, select_clicked, selection_valid, Id,
};
use crate::slot;
use crate::slot::texts;
use vstd::prelude::*;

verus! {

/// Told to a producer whose slot no reader holds any more. Nothing is lost
/// but the list that was to be published; the producer may go on or stop.
#[derive(PartialEq, Eq, Structural, Clone, Copy, Debug)]
pub struct Disconnected;

/// The backend's side of the panel's channels: it publishes. There is one
/// such bundle per slot, and it cannot be cloned, so whoever holds it is
/// the slot's only writer.
pub struct ChannelsBackend {
    patient_names: tokio::sync::watch::Sender<Vec<String>>,
}

/// The panel's side of its channels: it reads the latest value.
pub struct ChannelsFrontend {
    patient_names: tokio::sync::watch::Receiver<Vec<String>>,
}

/// What a slot of names holds after a publish that was accepted: the names
/// published, whatever it held before.
pub open spec fn overwritten(held: Seq<Seq<char>>, names: Seq<Seq<char>>) -> Seq<Seq<char>> {
    names
}

/// What a slot of names holds after the lists of `batches` were published
/// to it one after the other, each of them accepted.
pub open spec fn overwritten_in_turn(
    held: Seq<Seq<char>>,
    batches: Seq<Seq<Seq<char>>>,
) -> Seq<Seq<char>>
    decreases batches.len(),
{
    if batches.len() == 0 {
        held
    } else {
        overwritten(overwritten_in_turn(held, batches.drop_last()), batches.last())
    }
}

/// Builds the panel's channels, as one matched pair: the second half reads
/// what the first publishes. The slot of patient names starts out empty.
pub fn app_channels() -> (halves: (ChannelsBackend, ChannelsFrontend))
    ensures
        halves.1.reads(&halves.0),
        halves.0.held_names() == Seq::<Seq<char>>::empty(),
{
    let (patient_names_backend, patient_names_frontend) = slot::open(Vec::new());
    assert(texts(Seq::<String>::empty()) =~= Seq::<Seq<char>>::empty());
    (
        ChannelsBackend { patient_names: patient_names_backend },
        ChannelsFrontend { patient_names: patient_names_frontend },
    )
}

impl ChannelsBackend {
    /// The names that the slot holds: those published last and accepted,
    /// or none before the first.
    pub closed spec fn held_names(&self) -> Seq<Seq<char>> {
        slot::slot_held(self.patient_names)
    }

    /// Which slot the names are published to.
    pub closed spec fn names_slot(&self) -> int {
        slot::sender_slot(self.patient_names)
    }

    /// Puts `names` into the slot, over whatever it held. Never waits for a
    /// reader. Fails only where every reader is gone, which depends on the
    /// readers alone; the slot then stays as it was.
    pub fn publish_patient_names(&mut self, names: Vec<String>) -> (sent: Result<(), Disconnected>)
        ensures
            sent is Ok ==> final(self).held_names() == overwritten(
                old(self).held_names(),
                texts(names@),
            ),
            sent is Err ==> final(self).held_names() == old(self).held_names(),
            final(self).names_slot() == old(self).names_slot(),
    {
        // Whether the send is accepted is the channel's to say; what the
        // caller is told of either answer is for `publish_outcome` to say.
        let sent = slot::send(&mut self.patient_names, names);
        publish_outcome(sent)
    }
}

impl ChannelsFrontend {
    /// Which slot the names are read from.
    pub closed spec fn names_slot(&self) -> int {
        slot::receiver_slot(self.patient_names)
    }

    /// Whether this half reads what `backend` publishes.
    pub open spec fn reads(&self, backend: &ChannelsBackend) -> bool {
        self.names_slot() == backend.names_slot()
    }

    /// A copy of the names that the slot holds at this moment. Does not
    /// wait, and leaves the slot as it is. The backend may publish at any
    /// time, so nothing is promised of the names: see
    /// [`ChannelsFrontend::latest_patient_names_from`].
    pub fn latest_patient_names(&self) -> (names: Vec<String>) {
        slot::latest(&self.patient_names, None)
    }

    /// A copy of the names that the slot holds, read while `backend` is at
    /// rest: the names it published last, or none before its first publish.
    /// Reading again gives the same names. There is nothing to read where
    /// this half does not belong to `backend`.
    pub fn latest_patient_names_from(
        &self,
        backend: &ChannelsBackend,
    ) -> (names: Option<Vec<String>>)
        ensures
            names is Some <==> self.reads(backend),
            names matches Some(held) ==> texts(held@) == backend.held_names(),
    {
        if slot::same_slot(&self.patient_names, &backend.patient_names) {
            Some(slot::latest(&self.patient_names, Some(&backend.patient_names)))
        } else {
            None
        }
    }
}

impl Clone for ChannelsFrontend {
    /// A further reader of the same slots, independent of this one.
    fn clone(&self) -> (twin: Self)
        ensures
            twin.names_slot() == self.names_slot(),
    {
        ChannelsFrontend { patient_names: slot::subscribe_again(&self.patient_names) }
    }
}

/// What a publish tells its caller, given what the channel said of the
/// send: the publish was accepted where the send was, and met no reader
/// where it was not.
pub fn publish_outcome(
    sent: Result<(), tokio::sync::watch::error::SendError<Vec<String>>>,
) -> (outcome: Result<(), Disconnected>)
    ensures
        sent is Ok ==> outcome == Ok::<(), Disconnected>(()),
        sent is Err ==> outcome == Err::<(), Disconnected>(Disconnected),
{
    match sent {
        Ok(()) => Ok(()),
        Err(_) => Err(Disconnected),
    }
}

/// Latest wins: after a run of publishes, each accepted, the slot holds the
/// list published last and nothing of the earlier ones.
pub proof fn law_latest_wins(held: Seq<Seq<char>>, batches: Seq<Seq<Seq<char>>>)
    requires
        batches.len() > 0,
    ensures
        overwritten_in_turn(held, batches) == batches.last(),
{
}

/// The slot keeps no history: two runs of publishes that end with the same
/// list leave the same in it, however long they were and whatever the slot
/// held before them.
pub proof fn law_slot_keeps_no_history(
    held: Seq<Seq<char>>,
    batches: Seq<Seq<Seq<char>>>,
    other_held: Seq<Seq<char>>,
    other_batches: Seq<Seq<Seq<char>>>,
)
    requires
        batches.len() > 0,
        other_batches.len() > 0,
        batches.last() == other_batches.last(),
    ensures
        overwritten_in_turn(held, batches) == overwritten_in_turn(other_held, other_batches),
{
}

/// One entry of the patient list: an identifier and the name on show.
#[derive(Debug, PartialEq, Eq)]
pub struct PatientName {
    pub id: usize,
    pub name: String,
}

/// A patient entry as contracts see it.
pub struct PatientNameView {
    pub id: usize,
    pub name: Seq<char>,
}

impl View for PatientName {
    type V = PatientNameView;

    open spec fn view(&self) -> PatientNameView {
        PatientNameView { id: self.id, name: self.name@ }
    }
}

impl Id for PatientName {
    open spec fn id_value(&self) -> usize {
        self.id
    }

    fn id(&self) -> (id: usize) {
        self.id
    }
}

impl Clone for PatientName {
    fn clone(&self) -> (twin: Self)
        ensures
            twin == *self,
    {
        PatientName { id: self.id, name: self.name.clone() }
    }
}

impl Default for PatientName {
    /// The entry that stands in where a stored entry lacks a part.
    fn default() -> (entry: Self)
        ensures
            entry@ == (PatientNameView { id: 1, name: "Johnny Boy!"@ }),
    {
        PatientName { id: 1, name: "Johnny Boy!".to_owned() }
    }
}

/// The entries of a list, as contracts see them.
pub open spec fn entry_views(entries: Seq<PatientName>) -> Seq<PatientNameView> {
    Seq::new(entries.len(), |i: int| entries[i]@)
}

/// The scratch value of a fresh panel: the bits of the single-precision
/// number 2.7.
pub const DEFAULT_VALUE: u32 = 0x402C_CCCD;

/// The key under which the panel stores its own state.
pub const PANEL_KEY: &'static str = "app";

/// What the panel keeps across restarts. The scratch value and the names
/// read from the backend are left out: they start afresh.
#[derive(Debug, PartialEq, Eq)]
pub struct SavedFiles {
    pub label: String,
    pub selected_patient: usize,
    pub patient_names: Vec<PatientName>,
}

/// Stored panel state as contracts see it.
pub struct SavedFilesView {
    pub label: Seq<char>,
    pub selected_patient: usize,
    pub patient_names: Seq<PatientNameView>,
}

impl View for SavedFiles {
    type V = SavedFilesView;

    open spec fn view(&self) -> SavedFilesView {
        SavedFilesView {
            label: self.label@,
            selected_patient: self.selected_patient,
            patient_names: entry_views(self.patient_names@),
        }
    }
}

impl Clone for SavedFiles {
    fn clone(&self) -> (twin: Self)
        ensures
            twin@ == self@,
    {
        let patient_names = self.patient_names.clone();
        assert(patient_names@ =~= self.patient_names@);
        SavedFiles {
            label: self.label.clone(),
            selected_patient: self.selected_patient,
            patient_names,
        }
    }
}

/// The state of the patient-files panel.
#[derive(Debug, PartialEq, Eq)]
pub struct PatientFiles {
    label: String,
    /// Scratch value, as the bits of a single-precision number. Not stored.
    value: u32,
    selected_patient: usize,
    patient_names: Vec<PatientName>,
    /// The names last read from the backend. Not stored.
    latest_names: Vec<String>,
}

/// The panel's state as contracts see it.
pub struct PatientFilesView {
    pub label: Seq<char>,
    pub value: u32,
    pub selected_patient: usize,
    pub patient_names: Seq<PatientNameView>,
    pub latest_names: Seq<Seq<char>>,
}

impl PatientFilesView {
    /// The identifiers of the entries, in list order.
    pub open spec fn ids(self) -> Seq<usize> {
        Seq::new(self.patient_names.len(), |i: int| self.patient_names[i].id)
    }

    /// Whether the selection names an entry of the list, or is
    /// [`crate::models::NO_SELECTION`] over an empty list.
    pub open spec fn selection_valid(self) -> bool {
        selection_valid(self.ids(), self.selected_patient)
    }

    /// The state with the selection held against the list: a selection whose
    /// entry is gone falls to the first entry, or to
    /// [`crate::models::NO_SELECTION`] where the list is empty.
    pub open spec fn reconciled(self) -> Self {
        PatientFilesView { selected_patient: resolve(self.ids(), self.selected_patient), ..self }
    }

    /// The state after one frame's clicks on the entries' labels: the last
    /// entry clicked is selected.
    pub open spec fn clicked(self, clicks: Seq<bool>) -> Self {
        PatientFilesView {
            selected_patient: pick(self.ids(), clicks, self.selected_patient),
            ..self
        }
    }

    /// The state after one frame in which the backend's names were `latest`
    /// and the entries' labels were clicked as `clicks` tells.
    pub open spec fn refreshed(self, latest: Seq<Seq<char>>, clicks: Seq<bool>) -> Self {
        PatientFilesView { latest_names: latest, ..self }.reconciled().clicked(clicks)
    }

    /// What is stored of the state.
    pub open spec fn saved(self) -> SavedFilesView {
        SavedFilesView {
            label: self.label,
            selected_patient: self.selected_patient,
            patient_names: self.patient_names,
        }
    }
}

/// The state of a panel that starts from nothing.
pub open spec fn fresh_files() -> PatientFilesView {
    PatientFilesView {
        label: "Hello World!"@,
        value: DEFAULT_VALUE,
        selected_patient: 1,
        patient_names: seq![
            PatientNameView { id: 1, name: "Jean"@ },
            PatientNameView { id: 2, name: "Paul"@ },
        ],
        latest_names: Seq::empty(),
    }
}

/// The state of a panel that starts from stored state.
pub open spec fn restored_files(saved: SavedFilesView) -> PatientFilesView {
    PatientFilesView {
        label: saved.label,
        value: DEFAULT_VALUE,
        selected_patient: saved.selected_patient,
        patient_names: saved.patient_names,
        latest_names: Seq::empty(),
    }
}

impl View for PatientFiles {
    type V = PatientFilesView;

    closed spec fn view(&self) -> PatientFilesView {
        PatientFilesView {
            label: self.label@,
            value: self.value,
            selected_patient: self.selected_patient,
            patient_names: entry_views(self.patient_names@),
            latest_names: texts(self.latest_names@),
        }
    }
}

impl Clone for PatientFiles {
    fn clone(&self) -> (twin: Self)
        ensures
            twin@ == self@,
    {
        let patient_names = self.patient_names.clone();
        assert(patient_names@ =~= self.patient_names@);
        let latest_names = self.latest_names.clone();
        assert(latest_names@ =~= self.latest_names@);
        PatientFiles {
            label: self.label.clone(),
            value: self.value,
            selected_patient: self.selected_patient,
            patient_names,
            latest_names,
        }
    }
}

impl Default for PatientFiles {
    fn default() -> (panel: Self)
        ensures
            panel@ == fresh_files(),
    {
        let mut patient_names: Vec<PatientName> = Vec::new();
        patient_names.push(PatientName { id: 1, name: "Jean".to_owned() });
        patient_names.push(PatientName { id: 2, name: "Paul".to_owned() });
        let panel = PatientFiles {
            label: "Hello World!".to_owned(),
            value: DEFAULT_VALUE,
            patient_names,
            selected_patient: 1,
            latest_names: Vec::new(),
        };
        assert(panel@.patient_names =~= fresh_files().patient_names);
        assert(panel@.latest_names =~= fresh_files().latest_names);
        panel
    }
}

impl PatientFiles {
    /// The panel before its first frame: from what was stored, or fresh
    /// where nothing was or where it could not be read.
    pub fn new(saved: Option<SavedFiles>) -> (panel: Self)
        ensures
            saved matches Some(s) ==> panel@ == restored_files(s@),
            saved is None ==> panel@ == fresh_files(),
    {
        match saved {
            Some(s) => {
                let panel = PatientFiles {
                    label: s.label,
                    value: DEFAULT_VALUE,
                    selected_patient: s.selected_patient,
                    patient_names: s.patient_names,
                    latest_names: Vec::new(),
                };
                assert(panel@.latest_names =~= Seq::empty());
                panel
            },
            None => PatientFiles::default(),
        }
    }

    /// Applies one frame's clicks on the entries' labels: `clicks[i]` tells
    /// whether the label of entry `i` was clicked. The last entry clicked
    /// becomes the selection.
    pub fn sidebar_contents(&mut self, clicks: &[bool])
        ensures
            final(self)@ == old(self)@.clicked(clicks@),
            old(self)@.selection_valid() ==> final(self)@.selection_valid(),
    {
        proof {
            self.lemma_ids();
        }
        self.selected_patient = select_clicked(&self.patient_names, clicks, self.selected_patient);
    }

    /// One frame of the panel, given the names that the backend published
    /// last: keeps them for display, holds the selection against the list,
    /// then applies the frame's clicks. The selection never names an entry
    /// that is gone.
    pub fn refresh(&mut self, latest: Vec<String>, clicks: &[bool])
        ensures
            final(self)@ == old(self)@.refreshed(texts(latest@), clicks@),
            final(self)@.selection_valid(),
    {
        proof {
            self.lemma_ids();
        }
        self.latest_names = latest;
        self.selected_patient = reconcile(&self.patient_names, self.selected_patient);
        self.selected_patient = select_clicked(&self.patient_names, clicks, self.selected_patient);
    }

    /// One frame of the panel: reads the backend's latest names without
    /// waiting, then does what [`PatientFiles::refresh`] does with them.
    /// Whatever the slot held, the state is refreshed by the names now kept.
    pub fn update(&mut self, channels: &ChannelsFrontend, clicks: &[bool])
        ensures
            final(self)@ == old(self)@.refreshed(final(self)@.latest_names, clicks@),
            final(self)@.selection_valid(),
    {
        let latest = channels.latest_patient_names();
        self.refresh(latest, clicks);
    }

    /// What is to be stored of the panel.
    pub fn save(&self) -> (saved: SavedFiles)
        ensures
            saved@ == self@.saved(),
    {
        let patient_names = self.patient_names.clone();
        assert(patient_names@ =~= self.patient_names@);
        SavedFiles {
            label: self.label.clone(),
            selected_patient: self.selected_patient,
            patient_names,
        }
    }

    /// The panel's label.
    pub fn label(&self) -> (label: &str)
        ensures
            label@ == self@.label,
    {
        self.label.as_str()
    }

    /// The scratch value, as the bits of a single-precision number.
    pub fn value(&self) -> (value: u32)
        ensures
            value == self@.value,
    {
        self.value
    }

    /// The identifier of the selected entry, or [`crate::models::NO_SELECTION`].
    pub fn selected_patient(&self) -> (selected: usize)
        ensures
            selected == self@.selected_patient,
    {
        self.selected_patient
    }

    /// The entries of the list, in the order on show.
    pub fn patient_names(&self) -> (entries: &Vec<PatientName>)
        ensures
            entry_views(entries@) == self@.patient_names,
    {
        &self.patient_names
    }

    /// The names that the panel read from the backend in its last frame.
    pub fn latest_names(&self) -> (names: &Vec<String>)
        ensures
            texts(names@) == self@.latest_names,
    {
        &self.latest_names
    }

    /// Replaces the label, as typed.
    pub fn set_label(&mut self, label: String)
        ensures
            final(self)@ == (PatientFilesView { label: label@, ..old(self)@ }),
    {
        self.label = label;
    }

    /// Replaces the scratch value, given as the bits of a single-precision
    /// number.
    pub fn set_value(&mut self, value: u32)
        ensures
            final(self)@ == (PatientFilesView { value, ..old(self)@ }),
    {
        self.value = value;
    }

    /// Replaces the list of entries. The selection is left as it is: the
    /// panel's next frame holds it against the new list.
    pub fn set_patient_names(&mut self, patient_names: Vec<PatientName>)
        ensures
            final(self)@ == (PatientFilesView {
                patient_names: entry_views(patient_names@),
                ..old(self)@
            }),
    {
        self.patient_names = patient_names;
    }

    proof fn lemma_ids(&self)
        ensures
            ids_of(self.patient_names@) == self@.ids(),
    {
        assert(ids_of(self.patient_names@) =~= self@.ids());
    }
}

/// Storing a panel and starting from what was stored gives the panel back,
/// but for the scratch value and the backend's names, which start afresh.
pub proof fn law_files_round_trip(panel: PatientFilesView)
    ensures
        restored_files(panel.saved()) == (PatientFilesView {
            value: DEFAULT_VALUE,
            latest_names: Seq::empty(),
            ..panel
        }),
        restored_files(panel.saved()).saved() == panel.saved(),
{
}

/// A frame leaves a selection that names an entry of the list, whatever the
/// selection was before, and a second look at the same list changes nothing.
pub proof fn law_selection_never_stale(
    panel: PatientFilesView,
    latest: Seq<Seq<char>>,
    clicks: Seq<bool>,
)
    ensures
        panel.reconciled().selection_valid(),
        panel.refreshed(latest, clicks).selection_valid(),
        panel.reconciled().reconciled() == panel.reconciled(),
{
    lemma_last_set(clicks, panel.ids().len() as int);
}

} // verus!
