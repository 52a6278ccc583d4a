use datafusion_bridge::cross_rt_stream::{
    driver_report, forward_step, AfterDriver, CrossRtProgress, ForwardAction, ForwardEvent,
    InnerPoll, JobError, StreamPoll,
};

#[test]
fn stream_ends_only_when_both_sides_are_done() {
    let mut p = CrossRtProgress::new();
    assert!(matches!(p.poll_next(false, InnerPoll::Item(1)), StreamPoll::Item(1)));
    assert!(matches!(p.poll_next::<i32>(false, InnerPoll::Pending), StreamPoll::Pending));
    assert!(matches!(p.poll_next::<i32>(false, InnerPoll::Closed), StreamPoll::Pending));
    assert!(p.inner_done);
    assert!(matches!(p.poll_next::<i32>(false, InnerPoll::Pending), StreamPoll::Pending));
    assert!(matches!(p.poll_next::<i32>(true, InnerPoll::Pending), StreamPoll::Ended));
    assert!(matches!(p.poll_next(false, InnerPoll::Item(2)), StreamPoll::Ended));
}

#[test]
fn a_finished_driver_still_lets_the_channel_run_dry() {
    let mut p = CrossRtProgress::new();
    assert!(matches!(p.poll_next(true, InnerPoll::Item(1)), StreamPoll::Item(1)));
    assert!(!p.wants_driver());
    assert!(matches!(p.poll_next(false, InnerPoll::Item(2)), StreamPoll::Item(2)));
    assert!(matches!(p.poll_next::<i32>(false, InnerPoll::Closed), StreamPoll::Ended));
}

#[test]
fn the_two_halves_of_a_poll() {
    let mut p = CrossRtProgress::new();
    assert!(p.wants_driver());
    assert_eq!(p.driver_polled(false), AfterDriver::PollInner);
    assert!(matches!(p.inner_polled::<u8>(InnerPoll::Closed), StreamPoll::Pending));
    assert_eq!(p.driver_polled(false), AfterDriver::Wait);
    assert_eq!(p.driver_polled(true), AfterDriver::End);
    assert_eq!(p.driver_polled(false), AfterDriver::End);
}

#[test]
fn driver_reports_what_went_wrong() {
    assert_eq!(driver_report(Ok(())), None);
    assert_eq!(driver_report(Err(JobError::WorkerGone)), Some("Worker gone".to_string()));
    assert_eq!(
        driver_report(Err(JobError::Panic { msg: "boom".to_string() })),
        Some("Panic: boom".to_string())
    );
}

#[test]
fn items_are_forwarded_until_the_reader_is_gone() {
    let items = [3, 1, 2];
    for accepts in 0..5usize {
        let mut source = items.iter();
        let mut sent = Vec::new();
        let mut event: ForwardEvent<&i32> = ForwardEvent::Sent;
        loop {
            event = match forward_step(event) {
                ForwardAction::Send(item) => {
                    if sent.len() == accepts {
                        ForwardEvent::ReaderGone
                    } else {
                        sent.push(*item);
                        ForwardEvent::Sent
                    }
                }
                ForwardAction::PullSource => match source.next() {
                    Some(item) => ForwardEvent::SourceItem(item),
                    None => ForwardEvent::SourceEnd,
                },
                ForwardAction::Stop => break,
            };
        }
        assert_eq!(sent, items[..accepts.min(3)].to_vec());
    }
}

#[test]
fn the_reader_gets_the_source_and_then_the_end() {
    for turns in 1..4usize {
        let mut source = vec![Ok(1), Err("bad"), Ok(3)].into_iter();
        let mut event: ForwardEvent<Result<i32, &str>> = ForwardEvent::Sent;
        let mut held = None;
        let mut channel: Option<Result<i32, &str>> = None;
        let mut task_over = false;
        let mut progress = CrossRtProgress::new();
        let mut out = Vec::new();
        let mut ended = false;
        for _ in 0..40 {
            for _ in 0..turns {
                if task_over {
                    break;
                }
                if let Some(item) = held.take() {
                    if channel.is_none() {
                        channel = Some(item);
                        event = ForwardEvent::Sent;
                    } else {
                        held = Some(item);
                        break;
                    }
                }
                event = match forward_step(event) {
                    ForwardAction::Send(item) => {
                        held = Some(item);
                        ForwardEvent::Sent
                    }
                    ForwardAction::PullSource => match source.next() {
                        Some(item) => ForwardEvent::SourceItem(item),
                        None => ForwardEvent::SourceEnd,
                    },
                    ForwardAction::Stop => {
                        task_over = true;
                        ForwardEvent::SourceEnd
                    }
                };
            }
            let inner = match channel.take() {
                Some(item) => InnerPoll::Item(item),
                None if task_over => InnerPoll::Closed,
                None => InnerPoll::Pending,
            };
            match progress.poll_next(task_over, inner) {
                StreamPoll::Item(item) => {
                    assert!(!ended);
                    out.push(item);
                }
                StreamPoll::Ended => ended = true,
                StreamPoll::Pending => assert!(!ended),
            }
        }
        assert!(ended);
        assert_eq!(out, vec![Ok(1), Err("bad"), Ok(3)]);
    }
}

#[test]
fn a_failed_task_is_heard_to_the_end() {
    for queued in [vec![], vec!["item".to_string()]] {
        let report = driver_report(Err(JobError::WorkerGone));
        let mut pending = report.clone();
        let mut channel = queued.clone();
        let mut progress = CrossRtProgress::new();
        let mut out = Vec::new();
        let mut ended = false;
        for _ in 0..3 {
            if progress.wants_driver() && channel.is_empty() {
                channel.extend(pending.take());
            }
            let driver = pending.is_none();
            let inner = if channel.is_empty() {
                InnerPoll::Closed
            } else {
                InnerPoll::Item(channel.remove(0))
            };
            match progress.poll_next(driver, inner) {
                StreamPoll::Item(item) => out.push(item),
                StreamPoll::Ended => ended = true,
                StreamPoll::Pending => panic!("there is always something to read"),
            }
        }
        let mut expected = queued;
        expected.push("Worker gone".to_string());
        assert!(ended);
        assert_eq!(out, expected);
    }
}
