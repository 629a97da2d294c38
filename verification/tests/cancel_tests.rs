use largejson::cancel::{race_outcome, RaceEvent};
use largejson::error::MyError;

#[test]
fn cancellation_first_yields_cancelled() {
    let r: Result<u32, MyError> = race_outcome(RaceEvent::Cancelled);
    assert!(matches!(r, Err(MyError::Cancelled)));
}

#[test]
fn work_first_keeps_its_own_outcome() {
    let ok: Result<u32, MyError> = race_outcome(RaceEvent::Completed(Ok(7)));
    assert!(matches!(ok, Ok(7)));
    let err: Result<u32, MyError> =
        race_outcome(RaceEvent::Completed(Err(MyError::Message("boom".to_string()))));
    match err {
        Err(MyError::Message(m)) => assert_eq!(m, "boom"),
        other => panic!("expected the work's own error, got {other:?}"),
    }
}

#[test]
fn cancelled_race_with_tokio_resolves_to_cancelled() {
    let cancel = tokio_util::sync::CancellationToken::new();
    cancel.cancel();
    let runtime = tokio::runtime::Builder::new_current_thread()
        .enable_all()
        .build()
        .expect("Runtime created in current thread");
    let outcome: Result<u32, MyError> = runtime.block_on(async {
        let cancelled = Box::pin(cancel.cancelled());
        let work = Box::pin(async { Ok(5u32) });
        let event = match futures::future::select(cancelled, work).await {
            futures::future::Either::Left((_, _)) => RaceEvent::Cancelled,
            futures::future::Either::Right((z, _)) => RaceEvent::Completed(z),
        };
        race_outcome(event)
    });
    assert!(matches!(outcome, Err(MyError::Cancelled)));
}
