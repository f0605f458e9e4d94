//! The tab registry, the root state of the shell, and the channels between
//! the backend and the panels.

use crate::apps::patient_files;
use crate::apps::patient_files::{
    fresh_files, restored_files, PatientFiles, PatientFilesView, SavedFiles, SavedFilesView,
};
use crate::apps::{Agenda, Billing, Management};
use crate::models::{last_click, last_set, lemma_last_set, lemma_last_set_at_least, ticked};
use crate::slot::texts;
use vstd::prelude::*;
use vstd::string::StringExecFns;

verus! {

/// Builds every channel of the shell, as one matched pair of bundles: one
/// for the backend, which publishes, and one for the panels, which read it.
/// Called once, at start; each slot starts out empty.
pub fn app_channels() -> (halves: (ChannelsBackend, ChannelsFrontend))
    ensures
        halves.1.reads(&halves.0),
        halves.0.patient_files.held_names() == Seq::<Seq<char>>::empty(),
{
    let (patient_files_back, patient_files_front) = patient_files::app_channels();
    (
        ChannelsBackend { patient_files: patient_files_back },
        ChannelsFrontend { patient_files: patient_files_front },
    )
}

/// The backend's side of every channel of the shell, one bundle per panel
/// that takes results from the backend.
pub struct ChannelsBackend {
    pub patient_files: patient_files::ChannelsBackend,
}

/// The panels' side of every channel of the shell.
pub struct ChannelsFrontend {
    pub patient_files: patient_files::ChannelsFrontend,
}

impl ChannelsFrontend {
    /// Whether each bundle of this half reads what its counterpart in
    /// `backend` publishes.
    pub open spec fn reads(&self, backend: &ChannelsBackend) -> bool {
        self.patient_files.reads(&backend.patient_files)
    }
}

impl Clone for ChannelsFrontend {
    /// A further reader of the same slots, independent of this one.
    fn clone(&self) -> (twin: Self)
        ensures
            twin.patient_files.names_slot() == self.patient_files.names_slot(),
    {
        ChannelsFrontend { patient_files: self.patient_files.clone() }
    }
}

/// The panels of the shell, in the order in which the tab bar shows them.
#[derive(PartialEq, Eq, Structural, Clone, Copy, Debug)]
pub enum TabAnchor {
    PatientFiles,
    Agenda,
    Billing,
    Management,
}

/// The tabs in the order of the tab bar.
pub open spec fn tab_order() -> Seq<TabAnchor> {
    seq![TabAnchor::PatientFiles, TabAnchor::Agenda, TabAnchor::Billing, TabAnchor::Management]
}

impl TabAnchor {
    /// The text of the tab's label.
    pub open spec fn name_text(self) -> Seq<char> {
        match self {
            TabAnchor::PatientFiles => "Dossiers de patients"@,
            TabAnchor::Agenda => "Agenda"@,
            TabAnchor::Billing => "Facturation et plans de traitement"@,
            TabAnchor::Management => "Gestion"@,
        }
    }

    /// The text of the tab's anchor token.
    pub open spec fn anchor_text(self) -> Seq<char> {
        match self {
            TabAnchor::PatientFiles => "patients"@,
            TabAnchor::Agenda => "agenda"@,
            TabAnchor::Billing => "billing"@,
            TabAnchor::Management => "management"@,
        }
    }

    /// The text of the address fragment that opens the tab.
    pub open spec fn fragment_text(self) -> Seq<char> {
        "#"@ + self.anchor_text()
    }

    /// The tab's place in the tab bar, counted from 0.
    pub open spec fn position(self) -> int {
        match self {
            TabAnchor::PatientFiles => 0,
            TabAnchor::Agenda => 1,
            TabAnchor::Billing => 2,
            TabAnchor::Management => 3,
        }
    }

    /// The label shown for the tab.
    pub fn name(&self) -> (label: &'static str)
        ensures
            label@ == self.name_text(),
    {
        match self {
            TabAnchor::PatientFiles => "Dossiers de patients",
            TabAnchor::Agenda => "Agenda",
            TabAnchor::Billing => "Facturation et plans de traitement",
            TabAnchor::Management => "Gestion",
        }
    }

    /// The token by which an address names the tab.
    pub fn anchor(&self) -> (token: &'static str)
        ensures
            token@ == self.anchor_text(),
    {
        match self {
            TabAnchor::PatientFiles => "patients",
            TabAnchor::Agenda => "agenda",
            TabAnchor::Billing => "billing",
            TabAnchor::Management => "management",
        }
    }

    /// The address fragment that opens the tab: `#` and the anchor token.
    pub fn fragment(&self) -> (fragment: String)
        ensures
            fragment@ == self.fragment_text(),
    {
        let mut fragment = "#".to_owned();
        fragment.append(self.anchor());
        fragment
    }

    /// Every tab, once, in the order of the tab bar.
    pub fn all() -> (tabs: [TabAnchor; 4])
        ensures
            tabs@ == tab_order(),
    {
        let tabs = [
            TabAnchor::PatientFiles,
            TabAnchor::Agenda,
            TabAnchor::Billing,
            TabAnchor::Management,
        ];
        assert(tabs@ =~= tab_order());
        tabs
    }
}

/// The tab that one frame's clicks on the tab bar open, if any: the last
/// tab of the bar whose label was clicked. `clicks[i]` tells whether the
/// label of the tab at place `i` was clicked.
pub open spec fn clicked_tab(clicks: Seq<bool>) -> Option<TabAnchor> {
    let hit = last_set(clicks, tab_order().len() as int);
    if hit >= 0 {
        Some(tab_order()[hit])
    } else {
        None
    }
}

/// The address that one frame's clicks on the tab bar ask the browser to
/// open: the fragment of the tab they open, where the shell runs in a
/// browser.
pub open spec fn opened_url(clicks: Seq<bool>, on_web: bool) -> Option<Seq<char>> {
    match clicked_tab(clicks) {
        Some(tab) if on_web => Some(tab.fragment_text()),
        _ => None,
    }
}

/// The key under which the root state is stored.
pub const APP_KEY: &'static str = "Dentrust";

/// What the shell keeps across restarts: the open tab and what each panel
/// stores.
#[derive(Debug, PartialEq, Eq)]
pub struct SavedApp {
    pub open_tab: TabAnchor,
    pub files: SavedFiles,
}

/// Stored root state as contracts see it.
pub struct SavedAppView {
    pub open_tab: TabAnchor,
    pub files: SavedFilesView,
}

impl View for SavedApp {
    type V = SavedAppView;

    open spec fn view(&self) -> SavedAppView {
        SavedAppView { open_tab: self.open_tab, files: self.files@ }
    }
}

impl Clone for SavedApp {
    fn clone(&self) -> (twin: Self)
        ensures
            twin@ == self@,
    {
        SavedApp { open_tab: self.open_tab, files: self.files.clone() }
    }
}

/// The root state of the shell: the open tab and the state of each panel.
/// Only the UI thread touches it, once per frame.
#[derive(Debug, PartialEq, Eq)]
pub struct DentrustApp {
    files: PatientFiles,
    agenda: Agenda,
    billing: Billing,
    management: Management,
    open_tab: TabAnchor,
}

/// The root state as contracts see it. A placeholder panel is the number of
/// frames for which it was on show.
pub struct DentrustAppView {
    pub files: PatientFilesView,
    pub agenda: nat,
    pub billing: nat,
    pub management: nat,
    pub open_tab: TabAnchor,
}

impl DentrustAppView {
    /// The state with `tab` open.
    pub open spec fn selected(self, tab: TabAnchor) -> Self {
        DentrustAppView { open_tab: tab, ..self }
    }

    /// The state after one frame's clicks on the tab bar.
    pub open spec fn after_bar(self, clicks: Seq<bool>) -> Self {
        match clicked_tab(clicks) {
            Some(tab) => self.selected(tab),
            None => self,
        }
    }

    /// The state after the open panel, and no other, has had its frame.
    /// `latest` and `record_clicks` are what the patient-files panel is
    /// given; the other panels take nothing.
    pub open spec fn dispatched(self, latest: Seq<Seq<char>>, record_clicks: Seq<bool>) -> Self {
        match self.open_tab {
            TabAnchor::PatientFiles => DentrustAppView {
                files: self.files.refreshed(latest, record_clicks),
                ..self
            },
            TabAnchor::Agenda => DentrustAppView { agenda: ticked(self.agenda), ..self },
            TabAnchor::Billing => DentrustAppView { billing: ticked(self.billing), ..self },
            TabAnchor::Management => DentrustAppView {
                management: ticked(self.management),
                ..self
            },
        }
    }

    /// What is stored of the state.
    pub open spec fn saved(self) -> SavedAppView {
        SavedAppView { open_tab: self.open_tab, files: self.files.saved() }
    }
}

/// The state of a shell that starts from nothing: the agenda is open.
pub open spec fn fresh_app() -> DentrustAppView {
    DentrustAppView {
        files: fresh_files(),
        agenda: 0,
        billing: 0,
        management: 0,
        open_tab: TabAnchor::Agenda,
    }
}

/// The state of a shell that starts from stored state.
pub open spec fn restored_app(saved: SavedAppView) -> DentrustAppView {
    DentrustAppView {
        files: restored_files(saved.files),
        agenda: 0,
        billing: 0,
        management: 0,
        open_tab: saved.open_tab,
    }
}

impl View for DentrustApp {
    type V = DentrustAppView;

    closed spec fn view(&self) -> DentrustAppView {
        DentrustAppView {
            files: self.files@,
            agenda: self.agenda@,
            billing: self.billing@,
            management: self.management@,
            open_tab: self.open_tab,
        }
    }
}

impl Clone for DentrustApp {
    fn clone(&self) -> (twin: Self)
        ensures
            twin@ == self@,
    {
        DentrustApp {
            files: self.files.clone(),
            agenda: self.agenda,
            billing: self.billing,
            management: self.management,
            open_tab: self.open_tab,
        }
    }
}

impl Default for DentrustApp {
    fn default() -> (app: Self)
        ensures
            app@ == fresh_app(),
    {
        DentrustApp {
            files: PatientFiles::default(),
            agenda: Agenda::default(),
            billing: Billing::default(),
            management: Management::default(),
            open_tab: TabAnchor::Agenda,
        }
    }
}

impl DentrustApp {
    /// The shell before its first frame: from what was stored under
    /// [`APP_KEY`], or fresh where nothing was stored or where it could not
    /// be read.
    pub fn new(saved: Option<SavedApp>) -> (app: Self)
        ensures
            saved matches Some(s) ==> app@ == restored_app(s@),
            saved is None ==> app@ == fresh_app(),
    {
        match saved {
            Some(s) => DentrustApp {
                files: PatientFiles::new(Some(s.files)),
                agenda: Agenda::default(),
                billing: Billing::default(),
                management: Management::default(),
                open_tab: s.open_tab,
            },
            None => DentrustApp::default(),
        }
    }

    /// Opens `tab`.
    pub fn select(&mut self, tab: TabAnchor)
        ensures
            final(self)@ == old(self)@.selected(tab),
    {
        self.open_tab = tab;
    }

    /// Gives the open panel, and no other, its frame. `latest` is what the
    /// backend published last for the patient-files panel, `record_clicks`
    /// the clicks on that panel's entries.
    pub fn dispatch_update(&mut self, latest: Vec<String>, record_clicks: &[bool])
        ensures
            final(self)@ == old(self)@.dispatched(texts(latest@), record_clicks@),
            final(self)@.open_tab == old(self)@.open_tab,
            old(self)@.open_tab == TabAnchor::PatientFiles
                ==> final(self)@.files.selection_valid(),
    {
        match self.open_tab {
            TabAnchor::PatientFiles => self.files.refresh(latest, record_clicks),
            TabAnchor::Agenda => self.agenda.update(),
            TabAnchor::Billing => self.billing.update(),
            TabAnchor::Management => self.management.update(),
        }
    }

    /// Gives the open panel, and no other, its frame, reading for it what
    /// the backend published last. Whatever the slots held, the state is
    /// the one that [`DentrustApp::dispatch_update`] reaches with the names
    /// now kept.
    pub fn show_selected_app(&mut self, channels: &ChannelsFrontend, record_clicks: &[bool])
        ensures
            final(self)@ == old(self)@.dispatched(
                final(self)@.files.latest_names,
                record_clicks@,
            ),
            final(self)@.open_tab == old(self)@.open_tab,
    {
        let latest = match self.open_tab {
            TabAnchor::PatientFiles => channels.patient_files.latest_patient_names(),
            _ => Vec::new(),
        };
        self.dispatch_update(latest, record_clicks);
    }

    /// Applies one frame's clicks on the tab bar: `clicks[i]` tells whether
    /// the label of the tab at place `i` of [`TabAnchor::all`] was clicked.
    /// The last tab clicked is opened. Where the shell runs in a browser,
    /// the result is the address to open for it.
    pub fn bar_contents(&mut self, clicks: &[bool], on_web: bool) -> (url: Option<String>)
        ensures
            final(self)@ == old(self)@.after_bar(clicks@),
            url matches Some(u) ==> opened_url(clicks@, on_web) == Some(u@),
            url is None ==> opened_url(clicks@, on_web) is None,
    {
        let tabs = TabAnchor::all();
        proof {
            lemma_last_set(clicks@, tabs@.len() as int);
        }
        match last_click(clicks, tabs.len()) {
            Some(i) => {
                let tab = tabs[i];
                self.open_tab = tab;
                if on_web {
                    Some(tab.fragment())
                } else {
                    None
                }
            },
            None => None,
        }
    }

    /// One frame of the shell: the clicks on the tab bar first, then the
    /// frame of the panel that is open after them.
    pub fn update(
        &mut self,
        channels: &ChannelsFrontend,
        tab_clicks: &[bool],
        on_web: bool,
        record_clicks: &[bool],
    ) -> (url: Option<String>)
        ensures
            final(self)@ == old(self)@.after_bar(tab_clicks@).dispatched(
                final(self)@.files.latest_names,
                record_clicks@,
            ),
            url matches Some(u) ==> opened_url(tab_clicks@, on_web) == Some(u@),
            url is None ==> opened_url(tab_clicks@, on_web) is None,
    {
        let url = self.bar_contents(tab_clicks, on_web);
        self.show_selected_app(channels, record_clicks);
        url
    }

    /// What is to be stored of the shell under [`APP_KEY`].
    pub fn save(&self) -> (saved: SavedApp)
        ensures
            saved@ == self@.saved(),
    {
        SavedApp { open_tab: self.open_tab, files: self.files.save() }
    }

    /// The tab that is open.
    pub fn open_tab(&self) -> (tab: TabAnchor)
        ensures
            tab == self@.open_tab,
    {
        self.open_tab
    }

    /// The patient-files panel.
    pub fn files(&self) -> (panel: &PatientFiles)
        ensures
            panel@ == self@.files,
    {
        &self.files
    }

    /// The patient-files panel, to be changed in place. Nothing else of
    /// the shell changes with it.
    pub fn files_mut(&mut self) -> (panel: &mut PatientFiles)
        ensures
            panel@ == old(self)@.files,
            final(self)@ == (DentrustAppView { files: final(panel)@, ..old(self)@ }),
    {
        &mut self.files
    }

    /// The agenda panel.
    pub fn agenda(&self) -> (panel: &Agenda)
        ensures
            panel@ == self@.agenda,
    {
        &self.agenda
    }

    /// The billing panel.
    pub fn billing(&self) -> (panel: &Billing)
        ensures
            panel@ == self@.billing,
    {
        &self.billing
    }

    /// The management panel.
    pub fn management(&self) -> (panel: &Management)
        ensures
            panel@ == self@.management,
    {
        &self.management
    }
}

/// Storing the shell and starting from what was stored gives it back: the
/// same tab is open and the patient-files panel keeps all that it stores.
/// What is not stored starts afresh.
pub proof fn law_app_round_trip(app: DentrustAppView)
    ensures
        restored_app(app.saved()).saved() == app.saved(),
        restored_app(app.saved()) == (DentrustAppView {
            files: restored_files(app.files.saved()),
            agenda: 0,
            billing: 0,
            management: 0,
            ..app
        }),
{
}

/// A frame reaches the open panel and no other: the open tab stays, the
/// panels that are not open stay as they were, and a placeholder panel that
/// is open has been on show once more.
pub proof fn law_dispatch_reaches_open_panel_only(
    app: DentrustAppView,
    latest: Seq<Seq<char>>,
    record_clicks: Seq<bool>,
)
    ensures
        ({
            let next = app.dispatched(latest, record_clicks);
            &&& next.open_tab == app.open_tab
            &&& next.files == if app.open_tab == TabAnchor::PatientFiles {
                app.files.refreshed(latest, record_clicks)
            } else {
                app.files
            }
            &&& next.agenda == if app.open_tab == TabAnchor::Agenda {
                ticked(app.agenda)
            } else {
                app.agenda
            }
            &&& next.billing == if app.open_tab == TabAnchor::Billing {
                ticked(app.billing)
            } else {
                app.billing
            }
            &&& next.management == if app.open_tab == TabAnchor::Management {
                ticked(app.management)
            } else {
                app.management
            }
        }),
{
}

/// A click on the label of a tab opens that tab, whichever tab was open
/// before, where no tab after it in the bar was clicked in the same frame.
pub proof fn law_click_opens_tab(app: DentrustAppView, clicks: Seq<bool>, tab: TabAnchor)
    requires
        tab.position() < clicks.len(),
        clicks[tab.position()],
        forall|j: int| tab.position() < j < clicks.len() ==> !#[trigger] clicks[j],
    ensures
        clicked_tab(clicks) == Some(tab),
        app.after_bar(clicks).open_tab == tab,
        app.after_bar(clicks) == app.selected(tab),
{
    lemma_last_set(clicks, tab_order().len() as int);
    lemma_last_set_at_least(clicks, tab_order().len() as int, tab.position());
}

/// Frames without a click on the tab bar leave the open tab as it is.
pub proof fn law_no_click_keeps_tab(app: DentrustAppView, clicks: Seq<bool>)
    requires
        forall|j: int| 0 <= j < clicks.len() ==> !#[trigger] clicks[j],
    ensures
        app.after_bar(clicks) == app,
{
    lemma_last_set(clicks, tab_order().len() as int);
}

/// The tab bar shows each tab once, at its place.
pub proof fn law_tab_order_complete(tab: TabAnchor)
    ensures
        tab_order().len() == 4,
        0 <= tab.position() < 4,
        tab_order()[tab.position()] == tab,
{
}

} // verus!
