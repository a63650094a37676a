use s3_stream::errors::{map_operation_error, ObjectOperationError, StorageErrorKind,
    StreamErrorKind};
use s3_stream::stream::{plan_read, resolve_seek, take_fetched, ReadPlan, SeekFrom};

#[test]
fn seek_start_within_length() {
    assert_eq!(resolve_seek(0, 10, SeekFrom::Start(5)).unwrap(), 5);
    assert_eq!(resolve_seek(7, 10, SeekFrom::Start(0)).unwrap(), 0);
    assert_eq!(resolve_seek(0, 10, SeekFrom::Start(10)).unwrap(), 10);
}

#[test]
fn seek_start_past_end_clamps() {
    assert_eq!(resolve_seek(0, 10, SeekFrom::Start(11)).unwrap(), 10);
    assert_eq!(resolve_seek(3, 10, SeekFrom::Start(100)).unwrap(), 10);
    assert_eq!(resolve_seek(0, 0, SeekFrom::Start(1)).unwrap(), 0);
}

#[test]
fn seek_end_nonnegative_is_seek_to_length() {
    assert_eq!(resolve_seek(2, 10, SeekFrom::End(0)).unwrap(), 10);
    assert_eq!(resolve_seek(2, 10, SeekFrom::End(5)).unwrap(), 10);
    assert_eq!(
        resolve_seek(2, 10, SeekFrom::End(7)).unwrap(),
        resolve_seek(2, 10, SeekFrom::Start(10)).unwrap()
    );
}

#[test]
fn seek_end_negative_steps_back_from_end() {
    assert_eq!(resolve_seek(0, 10, SeekFrom::End(-2)).unwrap(), 8);
    assert_eq!(resolve_seek(9, 10, SeekFrom::End(-10)).unwrap(), 0);
}

#[test]
fn seek_end_negative_past_start_is_invalid_input() {
    let e = resolve_seek(0, 10, SeekFrom::End(-11)).unwrap_err();
    assert_eq!(e.kind, StreamErrorKind::InvalidInput);
    let e = resolve_seek(5, 10, SeekFrom::End(i64::MIN)).unwrap_err();
    assert_eq!(e.kind, StreamErrorKind::InvalidInput);
}

#[test]
fn seek_current_nonnegative_moves_forward_and_clamps() {
    assert_eq!(resolve_seek(5, 10, SeekFrom::Current(0)).unwrap(), 5);
    assert_eq!(resolve_seek(5, 10, SeekFrom::Current(3)).unwrap(), 8);
    assert_eq!(resolve_seek(5, 10, SeekFrom::Current(7)).unwrap(), 10);
    assert_eq!(resolve_seek(5, 10, SeekFrom::Current(i64::MAX)).unwrap(), 10);
}

#[test]
fn seek_current_negative_steps_back_from_cursor() {
    assert_eq!(resolve_seek(5, 10, SeekFrom::Current(-3)).unwrap(), 2);
    assert_eq!(resolve_seek(5, 10, SeekFrom::Current(-5)).unwrap(), 0);
}

#[test]
fn seek_current_negative_past_start_is_invalid_input() {
    let e = resolve_seek(5, 10, SeekFrom::Current(-6)).unwrap_err();
    assert_eq!(e.kind, StreamErrorKind::InvalidInput);
    let e = resolve_seek(5, 10, SeekFrom::Current(i64::MIN)).unwrap_err();
    assert_eq!(e.kind, StreamErrorKind::InvalidInput);
}

#[test]
fn plan_covers_buffer_within_object() {
    assert_eq!(plan_read(5, 10, 3), ReadPlan::Fetch { first: 5, last: 7 });
    assert_eq!(plan_read(0, 10, 10), ReadPlan::Fetch { first: 0, last: 9 });
}

#[test]
fn plan_is_clipped_to_final_byte() {
    assert_eq!(plan_read(8, 10, 5), ReadPlan::Fetch { first: 8, last: 9 });
    assert_eq!(plan_read(9, 10, 1), ReadPlan::Fetch { first: 9, last: 9 });
}

#[test]
fn plan_is_done_at_or_past_end_and_for_empty_buffers() {
    assert_eq!(plan_read(10, 10, 5), ReadPlan::Done);
    assert_eq!(plan_read(11, 10, 5), ReadPlan::Done);
    assert_eq!(plan_read(0, 0, 5), ReadPlan::Done);
    assert_eq!(plan_read(3, 10, 0), ReadPlan::Done);
}

#[test]
fn take_fetched_copies_everything_that_fits() {
    let mut buf = vec![0u8; 5];
    let fetched = vec![1u8, 2, 3];
    let n = take_fetched(&mut buf, &fetched, 10);
    assert_eq!(n, 3);
    assert_eq!(buf, vec![1u8, 2, 3, 0, 0]);
}

#[test]
fn take_fetched_is_clamped_by_the_buffer() {
    let mut buf = vec![9u8; 2];
    let fetched = vec![1u8, 2, 3];
    let n = take_fetched(&mut buf, &fetched, 10);
    assert_eq!(n, 2);
    assert_eq!(buf, vec![1u8, 2]);
}

#[test]
fn take_fetched_is_clamped_by_what_remains() {
    let mut buf = vec![9u8; 5];
    let fetched = vec![1u8, 2, 3];
    let n = take_fetched(&mut buf, &fetched, 2);
    assert_eq!(n, 2);
    assert_eq!(buf, vec![1u8, 2, 9, 9, 9]);
}

#[test]
fn retrieval_failures_map_by_kind() {
    assert_eq!(
        map_operation_error(&ObjectOperationError::GetObject(StorageErrorKind::Timeout)),
        StreamErrorKind::TimedOut
    );
    assert_eq!(
        map_operation_error(&ObjectOperationError::GetObject(StorageErrorKind::NotFound)),
        StreamErrorKind::NotFound
    );
    assert_eq!(
        map_operation_error(&ObjectOperationError::GetObject(
            StorageErrorKind::InvalidObjectState
        )),
        StreamErrorKind::InvalidData
    );
    assert_eq!(
        map_operation_error(&ObjectOperationError::GetObject(
            StorageErrorKind::ConstructionFailure
        )),
        StreamErrorKind::Other
    );
    assert_eq!(
        map_operation_error(&ObjectOperationError::GetObject(
            StorageErrorKind::DispatchFailure
        )),
        StreamErrorKind::Other
    );
    assert_eq!(
        map_operation_error(&ObjectOperationError::GetObject(
            StorageErrorKind::ResponseError
        )),
        StreamErrorKind::Other
    );
    assert_eq!(
        map_operation_error(&ObjectOperationError::GetObject(StorageErrorKind::Unhandled)),
        StreamErrorKind::Other
    );
}

#[test]
fn metadata_and_internal_failures_map_to_other() {
    assert_eq!(
        map_operation_error(&ObjectOperationError::HeadObject(StorageErrorKind::Timeout)),
        StreamErrorKind::Other
    );
    assert_eq!(
        map_operation_error(&ObjectOperationError::HeadObject(StorageErrorKind::NotFound)),
        StreamErrorKind::Other
    );
    assert_eq!(
        map_operation_error(&ObjectOperationError::Other {
            msg: String::from("content length out of range"),
            data: Vec::new(),
        }),
        StreamErrorKind::Other
    );
}
