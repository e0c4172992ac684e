use mail_smtp::resolve_all::{AltFuse, FusePollEvent, ResolveAll};

#[test]
fn resolves_only_after_every_operation_completed() {
    let mut batch: ResolveAll<u32, &str> = ResolveAll::from_iter(3);

    // First round: only the middle operation completes.
    let round = batch.poll(vec![
        FusePollEvent::NotReady,
        FusePollEvent::Ready(7),
        FusePollEvent::NotReady,
    ]);
    assert!(round.is_none());

    // Second round: one fails, one still pending; the resolved one is fused
    // and its event is ignored.
    let round = batch.poll(vec![
        FusePollEvent::Failed("broken"),
        FusePollEvent::NotReady,
        FusePollEvent::NotReady,
    ]);
    assert!(round.is_none());

    // Third round: the last one completes; results come in input order,
    // successes and failures preserved verbatim.
    let round = batch.poll(vec![
        FusePollEvent::NotReady,
        FusePollEvent::NotReady,
        FusePollEvent::Ready(9),
    ]);
    assert_eq!(round, Some(vec![Err("broken"), Ok(7), Ok(9)]));
}

#[test]
fn failures_do_not_prevent_other_operations_from_completing() {
    let mut batch: ResolveAll<u32, &str> = ResolveAll::from_iter(2);
    let round = batch.poll(vec![FusePollEvent::Failed("first"), FusePollEvent::Ready(1)]);
    assert_eq!(round, Some(vec![Err("first"), Ok(1)]));
}

#[test]
fn a_resolved_operation_keeps_its_outcome() {
    let mut fuse: AltFuse<u32, &str> = AltFuse::Future;
    assert!(!fuse.poll(FusePollEvent::NotReady));
    assert!(fuse.poll(FusePollEvent::Ready(5)));
    // A later event never rewrites the stored outcome.
    assert!(fuse.poll(FusePollEvent::Failed("late")));
    assert_eq!(fuse, AltFuse::Resolved(Ok(5)));
}

#[test]
fn empty_batch_resolves_immediately() {
    let mut batch: ResolveAll<u32, &str> = ResolveAll::from_iter(0);
    assert_eq!(batch.poll(vec![]), Some(vec![]));
}

#[test]
fn batch_of_all_failures_still_resolves_in_order() {
    let mut batch: ResolveAll<u32, &str> = ResolveAll::from_iter(3);
    let round = batch.poll(vec![
        FusePollEvent::Failed("a"),
        FusePollEvent::Failed("b"),
        FusePollEvent::Failed("c"),
    ]);
    assert_eq!(round, Some(vec![Err("a"), Err("b"), Err("c")]));
}
