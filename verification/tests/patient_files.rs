use dentrust::apps::patient_files::{
    app_channels, PatientFiles, PatientName, SavedFiles, DEFAULT_VALUE, PANEL_KEY,
};
use dentrust::apps::PatientFiles as PanelByShortPath;
use dentrust::models::NO_SELECTION;

fn entry(id: usize, name: &str) -> PatientName {
    PatientName { id, name: name.to_string() }
}

fn stored(label: &str, selected_patient: usize, patient_names: Vec<PatientName>) -> SavedFiles {
    SavedFiles { label: label.to_string(), selected_patient, patient_names }
}

#[test]
fn default_entry_is_johnny_boy() {
    assert_eq!(PatientName::default(), entry(1, "Johnny Boy!"));
}

#[test]
fn fresh_panel_has_the_built_in_content() {
    let panel = PatientFiles::default();
    assert_eq!(panel.label(), "Hello World!");
    assert_eq!(panel.value(), DEFAULT_VALUE);
    assert_eq!(f32::from_bits(panel.value()), 2.7f32);
    assert_eq!(panel.selected_patient(), 1);
    assert_eq!(panel.patient_names(), &vec![entry(1, "Jean"), entry(2, "Paul")]);
    assert_eq!(panel.latest_names(), &Vec::<String>::new());
}

#[test]
fn default_value_is_the_bit_pattern_of_2_7() {
    assert_eq!(DEFAULT_VALUE, 0x402C_CCCD);
    assert_eq!(DEFAULT_VALUE, 2.7f32.to_bits());
}

#[test]
fn panel_key_is_app() {
    assert_eq!(PANEL_KEY, "app");
}

#[test]
fn panel_without_stored_state_is_the_fresh_panel() {
    assert_eq!(PatientFiles::new(None), PatientFiles::default());
    assert_eq!(PanelByShortPath::new(None), PatientFiles::default());
}

#[test]
fn panel_from_stored_state_takes_what_was_stored() {
    let panel = PatientFiles::new(Some(stored("Cabinet", 7, vec![entry(7, "Anne")])));
    assert_eq!(panel.label(), "Cabinet");
    assert_eq!(panel.selected_patient(), 7);
    assert_eq!(panel.patient_names(), &vec![entry(7, "Anne")]);
    assert_eq!(panel.value(), DEFAULT_VALUE);
    assert_eq!(panel.latest_names(), &Vec::<String>::new());
}

#[test]
fn save_keeps_label_selection_and_entries() {
    let mut panel = PatientFiles::default();
    panel.set_label("Cabinet".to_string());
    panel.sidebar_contents(&[false, true]);
    assert_eq!(panel.save(), stored("Cabinet", 2, vec![entry(1, "Jean"), entry(2, "Paul")]));
}

#[test]
fn stored_panel_comes_back_but_for_what_is_not_stored() {
    let (mut backend, frontend) = app_channels();
    assert_eq!(backend.publish_patient_names(vec!["Luc".to_string()]), Ok(()));
    let mut panel = PatientFiles::default();
    panel.set_label("Cabinet".to_string());
    panel.set_value(1.5f32.to_bits());
    panel.set_patient_names(vec![entry(4, "Luc"), entry(8, "Anne"), entry(15, "Paul")]);
    panel.update(&frontend, &[false, true, false]);
    assert_eq!(panel.latest_names(), &vec!["Luc".to_string()]);
    assert_eq!(panel.selected_patient(), 8);

    let back = PatientFiles::new(Some(panel.save()));
    assert_eq!(back.label(), panel.label());
    assert_eq!(back.selected_patient(), panel.selected_patient());
    assert_eq!(back.patient_names(), panel.patient_names());
    assert_eq!(back.save(), panel.save());
    assert_eq!(back.value(), DEFAULT_VALUE);
    assert_eq!(f32::from_bits(back.value()), 2.7f32);
    assert_eq!(back.latest_names(), &Vec::<String>::new());
}

#[test]
fn clone_is_equal_to_the_panel() {
    let mut panel = PatientFiles::default();
    panel.set_value(3);
    panel.refresh(vec!["Luc".to_string()], &[false, true]);
    let twin = panel.clone();
    assert_eq!(twin, panel);
    assert_eq!(twin.save(), panel.save().clone());
}

#[test]
fn sidebar_click_selects_the_entry() {
    let mut panel = PatientFiles::default();
    panel.sidebar_contents(&[false, true]);
    assert_eq!(panel.selected_patient(), 2);
    panel.sidebar_contents(&[true, false]);
    assert_eq!(panel.selected_patient(), 1);
}

#[test]
fn sidebar_without_click_keeps_the_selection() {
    let mut panel = PatientFiles::new(Some(stored("x", 2, vec![entry(1, "Jean"), entry(2, "Paul")])));
    panel.sidebar_contents(&[false, false]);
    assert_eq!(panel.selected_patient(), 2);
    panel.sidebar_contents(&[]);
    assert_eq!(panel.selected_patient(), 2);
}

#[test]
fn sidebar_with_two_clicks_takes_the_later_entry() {
    let mut panel = PatientFiles::default();
    panel.sidebar_contents(&[true, true]);
    assert_eq!(panel.selected_patient(), 2);
}

#[test]
fn selection_of_a_vanished_entry_falls_back_on_the_next_frame() {
    let mut panel = PatientFiles::new(Some(stored("x", 2, vec![entry(1, "Jean"), entry(2, "Paul")])));
    assert_eq!(panel.selected_patient(), 2);
    panel.set_patient_names(vec![entry(1, "Jean")]);
    assert_eq!(panel.selected_patient(), 2);
    panel.refresh(Vec::new(), &[false]);
    assert_eq!(panel.selected_patient(), 1);
    assert_eq!(panel.patient_names(), &vec![entry(1, "Jean")]);
}

#[test]
fn stale_stored_selection_falls_back_on_the_first_frame() {
    let (_backend, frontend) = app_channels();
    let mut panel = PatientFiles::new(Some(stored("x", 2, vec![entry(1, "Jean")])));
    panel.update(&frontend, &[false]);
    assert_eq!(panel.selected_patient(), 1);
}

#[test]
fn selection_over_an_empty_list_is_no_selection() {
    let mut panel = PatientFiles::default();
    panel.set_patient_names(Vec::new());
    panel.refresh(Vec::new(), &[true, true]);
    assert_eq!(panel.selected_patient(), NO_SELECTION);
    assert_eq!(panel.selected_patient(), 0);
}

#[test]
fn selection_on_show_survives_a_reordered_list() {
    let mut panel = PatientFiles::new(Some(stored("x", 2, vec![entry(1, "Jean"), entry(2, "Paul")])));
    panel.set_patient_names(vec![entry(2, "Paul"), entry(3, "Anne"), entry(1, "Jean")]);
    panel.refresh(Vec::new(), &[false, false, false]);
    assert_eq!(panel.selected_patient(), 2);
}

#[test]
fn click_in_the_frame_wins_over_the_fallback() {
    let mut panel = PatientFiles::new(Some(stored("x", 9, vec![entry(1, "Jean"), entry(2, "Paul")])));
    panel.refresh(Vec::new(), &[false, true]);
    assert_eq!(panel.selected_patient(), 2);
}

#[test]
fn refresh_keeps_the_names_it_was_given() {
    let mut panel = PatientFiles::default();
    panel.refresh(vec!["Luc".to_string(), "Anne".to_string()], &[false, false]);
    assert_eq!(panel.latest_names(), &vec!["Luc".to_string(), "Anne".to_string()]);
    assert_eq!(panel.label(), "Hello World!");
    assert_eq!(panel.value(), DEFAULT_VALUE);
    assert_eq!(panel.selected_patient(), 1);
    panel.refresh(Vec::new(), &[false, false]);
    assert_eq!(panel.latest_names(), &Vec::<String>::new());
}

#[test]
fn update_reads_what_the_backend_published_last() {
    let (mut backend, frontend) = app_channels();
    let mut panel = PatientFiles::default();
    panel.update(&frontend, &[false, false]);
    assert_eq!(panel.latest_names(), &Vec::<String>::new());
    assert_eq!(backend.publish_patient_names(vec!["Jean".to_string()]), Ok(()));
    assert_eq!(backend.publish_patient_names(vec!["Paul".to_string(), "Luc".to_string()]), Ok(()));
    panel.update(&frontend, &[false, true]);
    assert_eq!(panel.latest_names(), &vec!["Paul".to_string(), "Luc".to_string()]);
    assert_eq!(panel.selected_patient(), 2);
    panel.update(&frontend, &[false, false]);
    assert_eq!(panel.latest_names(), &vec!["Paul".to_string(), "Luc".to_string()]);
    assert_eq!(panel.selected_patient(), 2);
}

#[test]
fn setters_change_one_part_only() {
    let mut panel = PatientFiles::default();
    panel.set_value(0x3FC0_0000);
    assert_eq!(f32::from_bits(panel.value()), 1.5f32);
    assert_eq!(panel.label(), "Hello World!");
    panel.set_label("Cabinet".to_string());
    assert_eq!(panel.label(), "Cabinet");
    assert_eq!(panel.value(), 0x3FC0_0000);
    assert_eq!(panel.selected_patient(), 1);
    assert_eq!(panel.patient_names(), &vec![entry(1, "Jean"), entry(2, "Paul")]);
}
