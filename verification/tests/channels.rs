use dentrust::app;
use dentrust::apps::patient_files;
use dentrust::apps::patient_files::{publish_outcome, Disconnected};
use tokio::sync::watch::error::SendError;

fn list(names: &[&str]) -> Vec<String> {
    names.iter().map(|name| name.to_string()).collect()
}

#[test]
fn slot_starts_out_empty() {
    let (backend, frontend) = patient_files::app_channels();
    assert_eq!(frontend.latest_patient_names(), Vec::<String>::new());
    assert_eq!(frontend.latest_patient_names_from(&backend), Some(Vec::new()));
}

#[test]
fn reader_sees_the_last_of_a_run_of_publishes() {
    let (mut backend, frontend) = patient_files::app_channels();
    assert_eq!(backend.publish_patient_names(list(&["Jean"])), Ok(()));
    assert_eq!(backend.publish_patient_names(list(&["Jean", "Paul"])), Ok(()));
    assert_eq!(backend.publish_patient_names(list(&["Paul", "Anne", "Luc"])), Ok(()));
    assert_eq!(frontend.latest_patient_names(), list(&["Paul", "Anne", "Luc"]));
    assert_eq!(
        frontend.latest_patient_names_from(&backend),
        Some(list(&["Paul", "Anne", "Luc"]))
    );
}

#[test]
fn reading_twice_without_a_publish_gives_the_same_names() {
    let (mut backend, frontend) = patient_files::app_channels();
    assert_eq!(backend.publish_patient_names(list(&["Jean"])), Ok(()));
    let first = frontend.latest_patient_names();
    let second = frontend.latest_patient_names();
    assert_eq!(first, list(&["Jean"]));
    assert_eq!(second, first);
}

#[test]
fn reader_that_never_reads_does_not_hold_back_the_producer() {
    let (mut backend, frontend) = patient_files::app_channels();
    let mut round: usize = 0;
    while round < 10_000 {
        let names = vec![format!("patient {}", round)];
        assert_eq!(backend.publish_patient_names(names), Ok(()));
        round += 1;
    }
    assert_eq!(frontend.latest_patient_names(), vec!["patient 9999".to_string()]);
}

#[test]
fn two_clones_observe_the_same_publish() {
    let (mut backend, frontend) = patient_files::app_channels();
    let first = frontend.clone();
    let second = frontend.clone();
    assert_eq!(backend.publish_patient_names(list(&["A", "B"])), Ok(()));
    assert_eq!(first.latest_patient_names(), list(&["A", "B"]));
    assert_eq!(second.latest_patient_names(), list(&["A", "B"]));
    assert_eq!(first.latest_patient_names(), list(&["A", "B"]));
    assert_eq!(first.latest_patient_names_from(&backend), Some(list(&["A", "B"])));
    assert_eq!(second.latest_patient_names_from(&backend), Some(list(&["A", "B"])));
}

#[test]
fn clone_made_after_a_publish_sees_it_too() {
    let (mut backend, frontend) = patient_files::app_channels();
    assert_eq!(backend.publish_patient_names(list(&["Jean"])), Ok(()));
    let late = frontend.clone();
    assert_eq!(late.latest_patient_names(), list(&["Jean"]));
    drop(frontend);
    assert_eq!(backend.publish_patient_names(list(&["Paul"])), Ok(()));
    assert_eq!(late.latest_patient_names(), list(&["Paul"]));
}

#[test]
fn publish_without_any_reader_is_disconnected() {
    let (mut backend, frontend) = patient_files::app_channels();
    drop(frontend);
    assert_eq!(backend.publish_patient_names(list(&["Jean"])), Err(Disconnected));
    assert_eq!(backend.publish_patient_names(list(&["Paul"])), Err(Disconnected));
}

#[test]
fn reader_outlives_its_backend() {
    let (mut backend, frontend) = patient_files::app_channels();
    assert_eq!(backend.publish_patient_names(list(&["Jean"])), Ok(()));
    drop(backend);
    assert_eq!(frontend.latest_patient_names(), list(&["Jean"]));
}

#[test]
fn halves_of_different_pairs_do_not_belong_together() {
    let (mut backend, frontend) = patient_files::app_channels();
    let (mut other_backend, other_frontend) = patient_files::app_channels();
    assert_eq!(backend.publish_patient_names(list(&["Jean"])), Ok(()));
    assert_eq!(other_backend.publish_patient_names(list(&["Paul"])), Ok(()));
    assert_eq!(frontend.latest_patient_names_from(&other_backend), None);
    assert_eq!(other_frontend.latest_patient_names_from(&backend), None);
    assert_eq!(frontend.latest_patient_names_from(&backend), Some(list(&["Jean"])));
    assert_eq!(other_frontend.latest_patient_names_from(&other_backend), Some(list(&["Paul"])));
    assert_eq!(frontend.latest_patient_names(), list(&["Jean"]));
    assert_eq!(other_frontend.latest_patient_names(), list(&["Paul"]));
}

#[test]
fn shell_channels_come_as_one_matched_pair() {
    let (mut backend, frontend) = app::app_channels();
    assert_eq!(
        frontend.patient_files.latest_patient_names_from(&backend.patient_files),
        Some(Vec::new())
    );
    assert_eq!(backend.patient_files.publish_patient_names(list(&["Jean", "Paul"])), Ok(()));
    let twin = frontend.clone();
    assert_eq!(frontend.patient_files.latest_patient_names(), list(&["Jean", "Paul"]));
    assert_eq!(twin.patient_files.latest_patient_names(), list(&["Jean", "Paul"]));
    assert_eq!(
        twin.patient_files.latest_patient_names_from(&backend.patient_files),
        Some(list(&["Jean", "Paul"]))
    );
}

#[test]
fn accepted_send_is_an_accepted_publish() {
    assert_eq!(publish_outcome(Ok(())), Ok(()));
}

#[test]
fn refused_send_is_a_disconnected_publish() {
    assert_eq!(publish_outcome(Err(SendError(list(&["Jean"])))), Err(Disconnected));
    assert_eq!(publish_outcome(Err(SendError(Vec::new()))), Err(Disconnected));
}
