use log_sender::error::TransferError;
use log_sender::naming::{assemble_path, canonical_path, normalize};
use log_sender::transfer::{copy_outcome, status_message, TransferRequest};

fn request(sess: &str, mode: &str, name: &str, desc: &str) -> TransferRequest {
    TransferRequest::new("/tmp/a.log", "/tmp/out", sess, mode, name, desc)
}

#[test]
fn valid_request_targets_canonical_path() {
    let req = request("01", "2trio", "Manu", "fatal error");
    let target = req.plan(true, true);
    assert_eq!(target, Ok("/tmp/out/01[2trio][manu]_fatal_error".to_string()));
    let outcome = copy_outcome(Ok(1234));
    assert_eq!(outcome, Ok(()));
    assert_eq!(status_message(&outcome), "Sent!");
}

#[test]
fn empty_description_is_refused() {
    let req = request("01", "2trio", "Manu", "");
    let verdict = req.plan(true, true);
    assert_eq!(verdict, Err(TransferError::InvalidDescription));
    assert_eq!(status_message(&Err(TransferError::InvalidDescription)), "Description is not valid");
}

#[test]
fn missing_source_wins_over_everything() {
    for (dest_exists, sess, mode, name, desc) in [
        (true, "01", "2trio", "Manu", "fatal error"),
        (false, "", "", "", ""),
        (true, "x", "", "n", ""),
        (false, "01", "m", "", "d"),
    ] {
        let req = request(sess, mode, name, desc);
        assert_eq!(req.plan(false, dest_exists), Err(TransferError::SourceNotFound));
        assert_eq!(req.validate(false, dest_exists), Err(TransferError::SourceNotFound));
    }
}

#[test]
fn missing_destination_is_refused() {
    let req = request("01", "2trio", "Manu", "fatal error");
    assert_eq!(req.plan(true, false), Err(TransferError::DestinationNotFound));
    assert_eq!(TransferError::DestinationNotFound.message(), "Destination does not exist");
    assert_eq!(TransferError::SourceNotFound.message(), "File does not exist");
}

#[test]
fn short_session_is_refused() {
    for sess in ["", "1", "é", " "] {
        let req = request(sess, "2trio", "Manu", "fatal error");
        assert_eq!(req.plan(true, true), Err(TransferError::InvalidSession));
    }
    assert_eq!(TransferError::InvalidSession.message(), "Session ID is not valid");
}

#[test]
fn two_character_session_is_enough() {
    for sess in ["ab", "éé", "  "] {
        let req = request(sess, "m", "n", "d");
        assert!(req.validate(true, true).is_ok());
    }
}

#[test]
fn empty_mode_and_name_are_refused_in_order() {
    let req = request("01", "", "", "");
    assert_eq!(req.plan(true, true), Err(TransferError::InvalidMode));
    let req = request("01", "m", "", "");
    assert_eq!(req.plan(true, true), Err(TransferError::InvalidName));
    assert_eq!(TransferError::InvalidMode.message(), "Mode is not valid");
    assert_eq!(TransferError::InvalidName.message(), "Name is not valid");
}

#[test]
fn every_field_is_normalized() {
    let req = request("A B", "X Y", "Jo Ann", "Disk Full Again");
    assert_eq!(req.plan(true, true), Ok("/tmp/out/a_b[x_y][jo_ann]_disk_full_again".to_string()));
    assert_eq!(
        canonical_path("/tmp/out", "A B", "X Y", "Jo Ann", "Disk Full Again"),
        "/tmp/out/a_b[x_y][jo_ann]_disk_full_again"
    );
}

#[test]
fn normalization_is_idempotent() {
    let once = normalize("Fatal Error  Here");
    assert_eq!(once, "fatal_error__here");
    assert_eq!(normalize(&once), once);
}

#[test]
fn normalization_replaces_spaces_and_lowercases() {
    assert_eq!(normalize("ABC"), "abc");
    assert_eq!(normalize("a b"), "a_b");
    assert_eq!(normalize(""), "");
    assert_eq!(normalize("ÄÖ Ü"), "äö_ü");
}

#[test]
fn path_is_assembled_from_fragments() {
    assert_eq!(assemble_path("/d", "s", "m", "n", "x"), "/d/s[m][n]_x");
    assert_eq!(assemble_path("", "", "", "", ""), "/[][]_");
}

#[test]
fn failure_repeats_identically() {
    let req = request("01", "2trio", "", "fatal error");
    let first = req.plan(true, true);
    let second = req.plan(true, true);
    assert_eq!(first, Err(TransferError::InvalidName));
    assert_eq!(first, second);
    let again = request("01", "2trio", "", "fatal error").plan(true, true);
    assert_eq!(first, again);
}

#[test]
fn failed_copy_keeps_error_text() {
    let outcome = copy_outcome(Err("permission denied".to_string()));
    assert_eq!(outcome, Err(TransferError::CopyFailed("permission denied".to_string())));
    assert_eq!(status_message(&outcome), "Failed to copy file: permission denied");
}
