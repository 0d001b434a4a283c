use timecard::error::ServiceError;
use timecard::models::{Driver, IcNonReg, IcRecord};
use timecard::ic_non_reg::{
    delete_command, encoded, ICNonRegServiceImpl, IcNonRegEntry, DEFAULT_RESERVATION_OFFSET_SECS,
};
use timecard::registration::{written, FinalizePhase, Finalization, ReservePhase, Reservation};
use timecard::registration_model::{run_cancellation, run_finalization, run_reservation};
use timecard::store::{sort_newest_first, MemoryStore, RowChange, StoreReply, StoreRequest};

fn store_with_drivers() -> MemoryStore {
    let mut store = MemoryStore::new();
    store.add_driver(Driver { id: 1, name: "Alice".to_string() });
    store.add_driver(Driver { id: 2, name: "Bob".to_string() });
    store
}

fn rows_of(store: &MemoryStore, card: &str) -> Vec<IcNonReg> {
    store.pending_rows().into_iter().filter(|row| row.id == card).collect()
}

fn live_rows(store: &MemoryStore, card: &str) -> usize {
    store
        .registry_rows()
        .iter()
        .filter(|r| r.ic_id == card && matches!(r.deleted, None | Some(0)))
        .count()
}

fn is_internal(error: &ServiceError, text: &str) -> bool {
    matches!(error, ServiceError::Internal(t) if t == text)
}

#[test]
fn reservation_creates_an_open_row() {
    let mut store = store_with_drivers();
    let result = run_reservation(&mut store, "CARD1".to_string(), 1, 1000);
    assert_eq!(result.unwrap(), "Alice");
    let rows = rows_of(&store, "CARD1");
    assert_eq!(rows.len(), 1);
    assert_eq!(rows[0].registered_id, Some(1));
    assert_eq!(rows[0].datetime, 1000);
    assert_eq!(rows[0].deleted, Some(0));
}

#[test]
fn second_reservation_replaces_the_driver() {
    let mut store = store_with_drivers();
    assert_eq!(run_reservation(&mut store, "CARD1".to_string(), 1, 1000).unwrap(), "Alice");
    assert_eq!(run_reservation(&mut store, "CARD1".to_string(), 2, 2000).unwrap(), "Bob");
    let rows = rows_of(&store, "CARD1");
    assert_eq!(rows.len(), 1);
    assert_eq!(rows[0].registered_id, Some(2));
    assert_eq!(rows[0].datetime, 2000);
    assert_eq!(store.pending_rows().len(), 1);
}

#[test]
fn reservations_of_other_cards_stay() {
    let mut store = store_with_drivers();
    run_reservation(&mut store, "CARD1".to_string(), 1, 1000).unwrap();
    run_reservation(&mut store, "CARD2".to_string(), 2, 1500).unwrap();
    run_reservation(&mut store, "CARD1".to_string(), 2, 2000).unwrap();
    let all = store.pending_rows();
    assert_eq!(all.len(), 2);
    assert_eq!(all[0].id, "CARD1");
    assert_eq!(all[0].registered_id, Some(2));
    assert_eq!(all[1].id, "CARD2");
    assert_eq!(all[1].registered_id, Some(2));
    assert_eq!(all[1].datetime, 1500);
}

#[test]
fn cancelled_reservation_is_listed_without_driver() {
    let mut store = store_with_drivers();
    run_reservation(&mut store, "CARD1".to_string(), 1, 1000).unwrap();
    assert!(run_cancellation(&mut store, "CARD1".to_string()).is_ok());
    let listed = store.list_pending(0);
    assert_eq!(listed.len(), 1);
    assert_eq!(listed[0].id, "CARD1");
    assert_eq!(listed[0].registered_id, None);
    assert_eq!(listed[0].deleted, Some(0));
    assert_eq!(listed[0].datetime, 1000);
}

#[test]
fn cancellation_succeeds_when_nothing_was_reserved() {
    let mut store = store_with_drivers();
    assert!(run_cancellation(&mut store, "NOPE".to_string()).is_ok());
    assert!(store.pending_rows().is_empty());
    assert!(run_cancellation(&mut store, "NOPE".to_string()).is_ok());
    assert!(store.pending_rows().is_empty());
}

#[test]
fn cancellation_reopens_a_completed_row() {
    let mut store = store_with_drivers();
    run_reservation(&mut store, "CARD1".to_string(), 1, 1000).unwrap();
    assert!(store.update_where(&"CARD1".to_string(), RowChange::Complete { driver_id: 1 }));
    assert!(store.list_pending(0).is_empty());
    run_cancellation(&mut store, "CARD1".to_string()).unwrap();
    let listed = store.list_pending(0);
    assert_eq!(listed.len(), 1);
    assert_eq!(listed[0].registered_id, None);
}

#[test]
fn reservation_for_an_unknown_driver_is_not_found() {
    let mut store = store_with_drivers();
    let result = run_reservation(&mut store, "CARD1".to_string(), 999, 1000);
    assert!(matches!(result, Err(ServiceError::NotFound)));
    assert!(store.pending_rows().is_empty());
    assert!(store.registry_rows().is_empty());
}

#[test]
fn reservation_of_a_registered_card_is_a_conflict() {
    let mut store = store_with_drivers();
    store.add_record(IcRecord { ic_id: "CARD1".to_string(), emp_id: 2, deleted: Some(0), date: 5 });
    run_reservation(&mut store, "OTHER".to_string(), 1, 900).unwrap();
    let result = run_reservation(&mut store, "CARD1".to_string(), 1, 1000);
    assert!(matches!(result, Err(ServiceError::Conflict)));
    let pending = store.pending_rows();
    assert_eq!(pending.len(), 1);
    assert_eq!(pending[0].id, "OTHER");
    assert_eq!(store.registry_rows().len(), 1);
}

#[test]
fn unknown_driver_is_reported_before_a_conflict() {
    let mut store = store_with_drivers();
    store.add_record(IcRecord { ic_id: "CARD1".to_string(), emp_id: 2, deleted: Some(0), date: 5 });
    let result = run_reservation(&mut store, "CARD1".to_string(), 999, 1000);
    assert!(matches!(result, Err(ServiceError::NotFound)));
}

#[test]
fn withdrawn_record_does_not_block_a_reservation() {
    let mut store = store_with_drivers();
    store.add_record(IcRecord { ic_id: "CARD1".to_string(), emp_id: 2, deleted: Some(1), date: 5 });
    assert_eq!(run_reservation(&mut store, "CARD1".to_string(), 1, 1000).unwrap(), "Alice");
}

#[test]
fn finalization_writes_a_record_and_completes_the_row() {
    let mut store = store_with_drivers();
    run_reservation(&mut store, "CARD1".to_string(), 1, 1000).unwrap();
    assert!(run_finalization(&mut store, "CARD1".to_string(), 1, 1200).is_ok());
    let registry = store.registry_rows();
    assert_eq!(registry.len(), 1);
    assert_eq!(registry[0].ic_id, "CARD1");
    assert_eq!(registry[0].emp_id, 1);
    assert_eq!(registry[0].deleted, Some(0));
    assert_eq!(registry[0].date, 1200);
    let rows = rows_of(&store, "CARD1");
    assert_eq!(rows.len(), 1);
    assert_eq!(rows[0].deleted, Some(1));
    assert_eq!(rows[0].registered_id, Some(1));
    assert!(store.list_pending(0).is_empty());
}

#[test]
fn finalization_twice_writes_one_record() {
    let mut store = store_with_drivers();
    run_reservation(&mut store, "CARD1".to_string(), 1, 1000).unwrap();
    assert!(run_finalization(&mut store, "CARD1".to_string(), 1, 1200).is_ok());
    let second = run_finalization(&mut store, "CARD1".to_string(), 1, 1300);
    assert!(matches!(second, Err(ServiceError::Conflict)));
    assert_eq!(live_rows(&store, "CARD1"), 1);
    assert_eq!(store.registry_rows().len(), 1);
    assert_eq!(store.registry_rows()[0].date, 1200);
}

#[test]
fn reservation_after_finalization_is_a_conflict() {
    let mut store = store_with_drivers();
    run_reservation(&mut store, "CARD1".to_string(), 1, 1000).unwrap();
    run_finalization(&mut store, "CARD1".to_string(), 1, 1200).unwrap();
    let result = run_reservation(&mut store, "CARD1".to_string(), 2, 1400);
    assert!(matches!(result, Err(ServiceError::Conflict)));
    assert_eq!(rows_of(&store, "CARD1")[0].registered_id, Some(1));
}

fn step_reservation(store: &mut MemoryStore, reservation: Reservation) -> (Reservation, Option<Result<String, ServiceError>>) {
    let request = reservation.pending_request().expect("the reservation is not finished");
    let reply = store.execute(request);
    reservation.resume(reply)
}

fn step_finalization(store: &mut MemoryStore, finalization: Finalization) -> (Finalization, Option<Result<(), ServiceError>>) {
    let request = finalization.pending_request().expect("the completion is not finished");
    let reply = store.execute(request);
    finalization.resume(reply)
}

#[test]
fn interleaved_reservation_and_finalization_write_one_record() {
    let schedules: [[bool; 6]; 5] = [
        [true, true, true, false, false, false],
        [false, false, false, true, true, true],
        [true, false, true, false, true, false],
        [false, true, false, true, false, true],
        [false, true, true, false, true, false],
    ];
    for schedule in schedules.iter() {
        let mut store = store_with_drivers();
        let mut reservation = Some(Reservation::begin("CARD1".to_string(), 1, Some(1000)));
        let mut finalization = Some(Finalization::begin("CARD1".to_string(), 2, 1100));
        for reservation_moves in schedule.iter() {
            if *reservation_moves {
                if let Some(machine) = reservation.take() {
                    let (next, done) = step_reservation(&mut store, machine);
                    if done.is_none() {
                        reservation = Some(next);
                    }
                }
            } else if let Some(machine) = finalization.take() {
                let (next, done) = step_finalization(&mut store, machine);
                if done.is_none() {
                    finalization = Some(next);
                }
            }
        }
        assert!(live_rows(&store, "CARD1") <= 1);
        assert!(rows_of(&store, "CARD1").len() <= 1);
    }
}

#[test]
fn reservation_asks_driver_then_registry_then_writes() {
    let reservation = Reservation::begin("CARD1".to_string(), 7, Some(1000));
    assert!(matches!(reservation.phase, ReservePhase::FindingDriver));
    assert!(matches!(
        reservation.pending_request(),
        Some(StoreRequest::FindDriver { driver_id: 7 })
    ));
    let (reservation, done) = reservation.resume(StoreReply::Driver(Some("Carol".to_string())));
    assert!(done.is_none());
    match reservation.pending_request() {
        Some(StoreRequest::FindActiveRecord { card_id }) => assert_eq!(card_id, "CARD1"),
        other => panic!("unexpected request {:?}", other),
    }
    let (reservation, done) = reservation.resume(StoreReply::ActiveRecord(false));
    assert!(done.is_none());
    match reservation.pending_request() {
        Some(StoreRequest::UpsertPending { card_id, driver_id, reservation_time }) => {
            assert_eq!(card_id, "CARD1");
            assert_eq!(driver_id, 7);
            assert_eq!(reservation_time, 1000);
        }
        other => panic!("unexpected request {:?}", other),
    }
    let (reservation, done) = reservation.resume(StoreReply::Written);
    assert_eq!(done.unwrap().unwrap(), "Carol");
    assert!(reservation.pending_request().is_none());
    assert!(matches!(reservation.phase, ReservePhase::Finished));
}

#[test]
fn reservation_stops_without_writing_when_the_driver_is_missing() {
    let reservation = Reservation::begin("CARD1".to_string(), 7, Some(1000));
    let (reservation, done) = reservation.resume(StoreReply::Driver(None));
    assert!(matches!(done, Some(Err(ServiceError::NotFound))));
    assert!(reservation.pending_request().is_none());
}

#[test]
fn reservation_stops_without_writing_on_a_conflict() {
    let reservation = Reservation::begin("CARD1".to_string(), 7, Some(1000));
    let (reservation, _) = reservation.resume(StoreReply::Driver(Some("Carol".to_string())));
    let (reservation, done) = reservation.resume(StoreReply::ActiveRecord(true));
    assert!(matches!(done, Some(Err(ServiceError::Conflict))));
    assert!(reservation.pending_request().is_none());
}

#[test]
fn store_failure_is_internal_with_the_diagnostic() {
    let reservation = Reservation::begin("CARD1".to_string(), 7, Some(1000));
    let (_, done) = reservation.resume(StoreReply::Failed("pool timed out".to_string()));
    assert!(is_internal(&done.unwrap().unwrap_err(), "pool timed out"));

    let reservation = Reservation::begin("CARD1".to_string(), 7, Some(1000));
    let (reservation, _) = reservation.resume(StoreReply::Driver(Some("Carol".to_string())));
    let (_, done) = reservation.resume(StoreReply::Failed("gone away".to_string()));
    assert!(is_internal(&done.unwrap().unwrap_err(), "gone away"));

    let reservation = Reservation::begin("CARD1".to_string(), 7, Some(1000));
    let (reservation, _) = reservation.resume(StoreReply::Driver(Some("Carol".to_string())));
    let (reservation, _) = reservation.resume(StoreReply::ActiveRecord(false));
    let (_, done) = reservation.resume(StoreReply::Failed("deadlock".to_string()));
    assert!(is_internal(&done.unwrap().unwrap_err(), "deadlock"));

    let finalization = Finalization::begin("CARD1".to_string(), 7, 1000);
    let (_, done) = finalization.resume(StoreReply::Failed("down".to_string()));
    assert!(is_internal(&done.unwrap().unwrap_err(), "down"));
}

#[test]
fn reply_that_does_not_answer_the_request_is_internal() {
    let reservation = Reservation::begin("CARD1".to_string(), 7, Some(1000));
    let (reservation, done) = reservation.resume(StoreReply::Written);
    assert!(is_internal(&done.unwrap().unwrap_err(), "store reply does not answer the request"));
    let (_, done) = reservation.resume(StoreReply::Written);
    assert!(is_internal(&done.unwrap().unwrap_err(), "store reply does not answer the request"));

    let finalization = Finalization::begin("CARD1".to_string(), 7, 1000);
    let (_, done) = finalization.resume(StoreReply::Driver(None));
    assert!(is_internal(&done.unwrap().unwrap_err(), "store reply does not answer the request"));
}

#[test]
fn finalization_checks_then_inserts_then_marks() {
    let finalization = Finalization::begin("CARD1".to_string(), 7, 1000);
    assert!(matches!(finalization.phase, FinalizePhase::CheckingCard));
    match finalization.pending_request() {
        Some(StoreRequest::FindActiveRecord { card_id }) => assert_eq!(card_id, "CARD1"),
        other => panic!("unexpected request {:?}", other),
    }
    let (finalization, done) = finalization.resume(StoreReply::ActiveRecord(false));
    assert!(done.is_none());
    match finalization.pending_request() {
        Some(StoreRequest::InsertRecord { card_id, driver_id, registered_at }) => {
            assert_eq!(card_id, "CARD1");
            assert_eq!(driver_id, 7);
            assert_eq!(registered_at, 1000);
        }
        other => panic!("unexpected request {:?}", other),
    }
    let (finalization, done) = finalization.resume(StoreReply::Written);
    assert!(done.is_none());
    match finalization.pending_request() {
        Some(StoreRequest::MarkCompleted { card_id, driver_id }) => {
            assert_eq!(card_id, "CARD1");
            assert_eq!(driver_id, 7);
        }
        other => panic!("unexpected request {:?}", other),
    }
    let (finalization, done) = finalization.resume(StoreReply::Written);
    assert!(matches!(done, Some(Ok(()))));
    assert!(finalization.pending_request().is_none());
}

#[test]
fn written_maps_the_reply_of_a_single_write() {
    assert!(written(StoreReply::Written).is_ok());
    assert!(is_internal(&written(StoreReply::Failed("disk full".to_string())).unwrap_err(), "disk full"));
    assert!(is_internal(
        &written(StoreReply::ActiveRecord(true)).unwrap_err(),
        "store reply does not answer the request"
    ));
}

#[test]
fn service_dates_reservations_ahead_by_the_offset() {
    assert_eq!(DEFAULT_RESERVATION_OFFSET_SECS, 9 * 60 * 60);
    let service = ICNonRegServiceImpl::new();
    assert!(!service.socketio);
    let reservation = service.register_direct("CARD1".to_string(), 1, 1_700_000_000);
    assert_eq!(reservation.reservation_time, Some(1_700_032_400));
    assert_eq!(reservation.card_id, "CARD1");
    assert_eq!(reservation.driver_id, 1);
    let service = ICNonRegServiceImpl::new().with_reservation_offset(0);
    assert_eq!(service.register_direct("CARD1".to_string(), 1, 55).reservation_time, Some(55));
    let service = ICNonRegServiceImpl::with_socketio().with_reservation_offset(-60);
    assert!(service.socketio);
    assert_eq!(service.register_direct("CARD1".to_string(), 1, 100).reservation_time, Some(40));
    assert_eq!(
        service.register_direct("CARD1".to_string(), 1, i64::MIN + 60).reservation_time,
        Some(i64::MIN)
    );
    assert_eq!(service.register_direct("CARD1".to_string(), 1, i64::MIN + 59).reservation_time, None);
    let reservation = ICNonRegServiceImpl::new().register_direct("CARD1".to_string(), 1, i64::MAX);
    assert_eq!(reservation.reservation_time, None);
}

#[test]
fn reservation_without_a_time_fails_only_in_place_of_the_write() {
    let service = ICNonRegServiceImpl::new();
    let reservation = service.register_direct("CARD1".to_string(), 7, i64::MAX);
    let (_, done) = reservation.resume(StoreReply::Driver(None));
    assert!(matches!(done, Some(Err(ServiceError::NotFound))));

    let reservation = service.register_direct("CARD1".to_string(), 7, i64::MAX);
    let (reservation, done) = reservation.resume(StoreReply::Driver(Some("Carol".to_string())));
    assert!(done.is_none());
    let (_, done) = reservation.resume(StoreReply::ActiveRecord(true));
    assert!(matches!(done, Some(Err(ServiceError::Conflict))));

    let reservation = service.register_direct("CARD1".to_string(), 7, i64::MAX);
    let (reservation, _) = reservation.resume(StoreReply::Driver(Some("Carol".to_string())));
    let (reservation, done) = reservation.resume(StoreReply::ActiveRecord(false));
    assert!(is_internal(&done.unwrap().unwrap_err(), "reservation time is out of range"));
    assert!(reservation.pending_request().is_none());
    assert!(matches!(reservation.phase, ReservePhase::Finished));
}

#[test]
fn service_requests_for_cancel_update_and_finalize() {
    let service = ICNonRegServiceImpl::new();
    match service.cancel_reservation("CARD1".to_string()) {
        StoreRequest::ClearReservation { card_id } => assert_eq!(card_id, "CARD1"),
        other => panic!("unexpected request {:?}", other),
    }
    match service.update("CARD1".to_string(), 4) {
        StoreRequest::AssignDriver { card_id, driver_id } => {
            assert_eq!(card_id, "CARD1");
            assert_eq!(driver_id, 4);
        }
        other => panic!("unexpected request {:?}", other),
    }
    let finalization = service.finalize("CARD1".to_string(), 4, 77);
    assert_eq!(finalization.card_id, "CARD1");
    assert_eq!(finalization.driver_id, 4);
    assert_eq!(finalization.registered_at, 77);
}

#[test]
fn update_names_the_driver_and_keeps_the_rest() {
    let mut store = store_with_drivers();
    run_reservation(&mut store, "CARD1".to_string(), 1, 1000).unwrap();
    let service = ICNonRegServiceImpl::new();
    let reply = store.execute(service.update("CARD1".to_string(), 2));
    assert!(written(reply).is_ok());
    let rows = rows_of(&store, "CARD1");
    assert_eq!(rows[0].registered_id, Some(2));
    assert_eq!(rows[0].datetime, 1000);
    assert_eq!(rows[0].deleted, Some(0));
}

#[test]
fn delete_without_realtime_layer_is_unavailable() {
    let service = ICNonRegServiceImpl::new();
    assert!(matches!(service.delete_ic("ab12"), Err(ServiceError::Unavailable)));
}

#[test]
fn delete_command_is_encoded_twice_and_in_uppercase() {
    let service = ICNonRegServiceImpl::with_socketio();
    let command = service.delete_ic("ab12").unwrap();
    assert_eq!(command.ic_id, "AB12");
    assert_eq!(command.payload, "\"{\\\"ic\\\":\\\"AB12\\\",\\\"status\\\":\\\"delete_ic\\\"}\"");
    let once: String = serde_json::from_str(&command.payload).unwrap();
    assert_eq!(once, "{\"ic\":\"AB12\",\"status\":\"delete_ic\"}");
    let twice: serde_json::Value = serde_json::from_str(&once).unwrap();
    assert_eq!(twice["status"], "delete_ic");
    assert_eq!(twice["ic"], "AB12");
    let response = ICNonRegServiceImpl::delete_ic_response(&command);
    assert!(response.success);
    assert_eq!(response.message, "IC削除リクエストを送信しました: AB12");
}

#[test]
fn delete_command_escapes_the_card() {
    assert_eq!(delete_command("A\"B").unwrap(), "{\"ic\":\"A\\\"B\",\"status\":\"delete_ic\"}");
    assert_eq!(delete_command("").unwrap(), "{\"ic\":\"\",\"status\":\"delete_ic\"}");
}

#[test]
fn listing_leaves_out_old_completed_and_superseded_rows() {
    let mut store = store_with_drivers();
    run_reservation(&mut store, "OLD".to_string(), 1, 100).unwrap();
    run_reservation(&mut store, "DONE".to_string(), 1, 500).unwrap();
    run_reservation(&mut store, "OPEN".to_string(), 2, 600).unwrap();
    run_reservation(&mut store, "LATE".to_string(), 2, 700).unwrap();
    run_reservation(&mut store, "EARLY".to_string(), 2, 800).unwrap();
    assert!(store.update_where(&"DONE".to_string(), RowChange::Complete { driver_id: 1 }));
    store.add_record(IcRecord { ic_id: "LATE".to_string(), emp_id: 2, deleted: Some(0), date: 700 });
    store.add_record(IcRecord { ic_id: "EARLY".to_string(), emp_id: 2, deleted: Some(0), date: 799 });
    store.add_record(IcRecord { ic_id: "OPEN".to_string(), emp_id: 2, deleted: Some(1), date: 900 });
    let listed: Vec<String> = store.list_pending(500).into_iter().map(|row| row.id).collect();
    assert_eq!(listed, vec!["OPEN".to_string(), "EARLY".to_string()]);
    let listed: Vec<String> = store.list_pending(100).into_iter().map(|row| row.id).collect();
    assert_eq!(listed, vec!["OLD".to_string(), "OPEN".to_string(), "EARLY".to_string()]);
    let listed = store.list_pending(801);
    assert!(listed.is_empty());
    let listed = store.list_pending(800);
    assert_eq!(listed.len(), 1);
    assert_eq!(listed[0].id, "EARLY");
}

#[test]
fn store_answers_lookups() {
    let mut store = store_with_drivers();
    store.add_driver(Driver { id: 1, name: "Shadow".to_string() });
    assert_eq!(store.find_driver(1), Some("Alice".to_string()));
    assert_eq!(store.find_driver(2), Some("Bob".to_string()));
    assert_eq!(store.find_driver(3), None);
    assert!(!store.has_active_record(&"CARD1".to_string()));
    store.insert_record("CARD1".to_string(), 1, 10);
    assert!(store.has_active_record(&"CARD1".to_string()));
    assert!(!store.has_active_record(&"card1".to_string()));
    assert!(matches!(
        store.execute(StoreRequest::FindDriver { driver_id: 2 }),
        StoreReply::Driver(Some(name)) if name == "Bob"
    ));
    assert!(matches!(
        store.execute(StoreRequest::FindActiveRecord { card_id: "CARD1".to_string() }),
        StoreReply::ActiveRecord(true)
    ));
    assert!(!store.update_where(&"NOPE".to_string(), RowChange::Clear));
    let row = IcNonReg { id: "X".to_string(), datetime: 1, deleted: None, registered_id: None };
    assert!(row.open());
    assert!(!store.is_superseded(&row));
    let closed = IcNonReg { id: "X".to_string(), datetime: 1, deleted: Some(1), registered_id: None };
    assert!(!closed.open());
    let copy = closed.clone();
    assert_eq!(copy.id, "X");
    assert_eq!(copy.deleted, Some(1));
}

#[test]
fn service_lists_pending_registrations_as_text() {
    let mut store = store_with_drivers();
    run_reservation(&mut store, "OLD".to_string(), 1, 100).unwrap();
    run_reservation(&mut store, "NEW".to_string(), 2, 1_714_550_400).unwrap();
    run_cancellation(&mut store, "NEW".to_string()).unwrap();
    let service = ICNonRegServiceImpl::new();
    let entries = service.get_all(&store, 0);
    assert_eq!(entries.len(), 2);
    assert_eq!(entries[0].id, "NEW");
    assert_eq!(entries[0].datetime, "2024-05-01 08:00:00");
    assert_eq!(entries[0].registered_id, None);
    assert_eq!(entries[1].id, "OLD");
    assert_eq!(entries[1].datetime, "1970-01-01 00:01:40");
    assert_eq!(entries[1].deleted, Some(false));
    assert_eq!(entries[1].registered_id, Some(1));
    let entries = service.get_all(&store, 101);
    assert_eq!(entries.len(), 1);
    assert_eq!(entries[0].id, "NEW");
    let entry = IcNonRegEntry::from_row(&IcNonReg {
        id: "X".to_string(),
        datetime: i64::MIN,
        deleted: Some(3),
        registered_id: None,
    });
    assert_eq!(entry.datetime, "");
    assert_eq!(entry.deleted, Some(true));
    let entry = IcNonRegEntry::from_row(&IcNonReg {
        id: "X".to_string(),
        datetime: 0,
        deleted: None,
        registered_id: None,
    });
    assert_eq!(entry.deleted, None);
}

#[test]
fn rows_are_sorted_newest_first() {
    let row = |id: &str, datetime: i64| IcNonReg {
        id: id.to_string(),
        datetime,
        deleted: None,
        registered_id: None,
    };
    let sorted = sort_newest_first(vec![
        row("a", 5),
        row("b", 9),
        row("c", 5),
        row("d", -1),
        row("e", 9),
        row("f", 7),
    ]);
    let order: Vec<(String, i64)> = sorted.into_iter().map(|r| (r.id, r.datetime)).collect();
    assert_eq!(
        order,
        vec![
            ("b".to_string(), 9),
            ("e".to_string(), 9),
            ("f".to_string(), 7),
            ("a".to_string(), 5),
            ("c".to_string(), 5),
            ("d".to_string(), -1),
        ]
    );
    assert!(sort_newest_first(Vec::new()).is_empty());
    let mut store = store_with_drivers();
    run_reservation(&mut store, "A".to_string(), 1, 10).unwrap();
    run_reservation(&mut store, "B".to_string(), 1, 30).unwrap();
    run_reservation(&mut store, "C".to_string(), 1, 20).unwrap();
    let listed: Vec<String> = store.list_pending_newest_first(15).into_iter().map(|r| r.id).collect();
    assert_eq!(listed, vec!["B".to_string(), "C".to_string()]);
}

#[test]
fn failure_to_write_json_is_internal() {
    assert_eq!(encoded(Ok("text".to_string())).unwrap(), "text");
    let error = serde_json::from_str::<serde_json::Value>("{").unwrap_err();
    let display = error.to_string();
    match encoded(Err(error)) {
        Err(ServiceError::Internal(text)) => {
            assert_eq!(text, format!("JSON serialization error: {}", display))
        }
        other => panic!("unexpected result {:?}", other),
    }
}

#[test]
fn record_without_a_flag_does_not_block_a_reservation() {
    let mut store = store_with_drivers();
    store.add_record(IcRecord { ic_id: "CARD1".to_string(), emp_id: 2, deleted: None, date: 5 });
    assert!(!store.has_active_record(&"CARD1".to_string()));
    assert_eq!(run_reservation(&mut store, "CARD1".to_string(), 1, 1000).unwrap(), "Alice");
    assert_eq!(rows_of(&store, "CARD1").len(), 1);
    let listed = store.list_pending(0);
    assert_eq!(listed.len(), 1);
    assert!(run_finalization(&mut store, "CARD1".to_string(), 1, 1200).is_ok());
    assert_eq!(store.registry_rows().len(), 2);
}

#[test]
fn later_record_without_a_flag_keeps_the_card_out_of_the_listing() {
    let mut store = store_with_drivers();
    store.add_record(IcRecord { ic_id: "CARD1".to_string(), emp_id: 2, deleted: None, date: 2000 });
    assert_eq!(run_reservation(&mut store, "CARD1".to_string(), 1, 1000).unwrap(), "Alice");
    run_cancellation(&mut store, "CARD1".to_string()).unwrap();
    assert!(store.list_pending(0).is_empty());
    assert_eq!(rows_of(&store, "CARD1")[0].registered_id, None);
}
