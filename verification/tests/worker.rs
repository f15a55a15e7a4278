use lv2_worker::codec::Envelope;
use lv2_worker::codec::ResponseItem;
use lv2_worker::codec::WorkItem;
use lv2_worker::host::Event;
use lv2_worker::host::HostTransport;
use lv2_worker::schedule::Schedule;
use lv2_worker::status::WorkerError;
use lv2_worker::status::WORK_ERR_NO_SPACE;
use lv2_worker::status::WORK_ERR_UNKNOWN;
use lv2_worker::status::WORK_SUCCESS;
use lv2_worker::worker::ResponseHandler;
use lv2_worker::worker::Worker;
use lv2_worker::worker::WorkerDescriptor;

const HANDLE: usize = 7;

/// A plugin that counts every invocation of its user logic and sends a
/// fixed number of responses from each work invocation.
struct CountingWorker {
    work_calls: u32,
    response_calls: u32,
    end_calls: u32,
    responses_per_work: usize,
    seen_work: Vec<Vec<u8>>,
    seen_responses: Vec<Vec<u8>>,
    send_results: Vec<Result<(), WorkerError>>,
}

impl CountingWorker {
    fn new(responses_per_work: usize) -> Self {
        CountingWorker {
            work_calls: 0,
            response_calls: 0,
            end_calls: 0,
            responses_per_work,
            seen_work: Vec::new(),
            seen_responses: Vec::new(),
            send_results: Vec::new(),
        }
    }
}

impl Worker for CountingWorker {
    fn work(
        &mut self,
        response_handler: &mut ResponseHandler,
        data: WorkItem,
    ) -> Result<(), WorkerError> {
        self.work_calls += 1;
        self.seen_work.push(data.bytes.clone());
        for i in 0..self.responses_per_work {
            let r = response_handler.respond(ResponseItem {
                bytes: vec![i as u8],
                drop_limit: 0,
            });
            self.send_results.push(r);
        }
        Ok(())
    }

    fn work_response(&mut self, data: ResponseItem) -> Result<(), WorkerError> {
        self.response_calls += 1;
        self.seen_responses.push(data.bytes);
        Ok(())
    }

    fn end_run(&mut self) -> Result<(), WorkerError> {
        self.end_calls += 1;
        Ok(())
    }
}

fn item(bytes: Vec<u8>, drop_limit: u32) -> WorkItem {
    WorkItem { bytes, drop_limit }
}

#[test]
fn schedule_must_not_drop() {
    let mut host = HostTransport::new(4);
    let schedule = Schedule::new(true);
    let r = schedule.schedule_work(&mut host, item(vec![1, 2, 3], 0));
    assert!(r.is_ok());
    assert_eq!(host.destructions(0), 0);
    assert_eq!(host.pending_work(), 1);
}

#[test]
fn respond_must_not_drop() {
    let mut host = HostTransport::new(4);
    let schedule = Schedule::new(true);
    let mut descriptor = WorkerDescriptor::new(CountingWorker::new(1), HANDLE);
    schedule.schedule_work(&mut host, item(vec![9], 0)).unwrap();
    let env = host.take_work().unwrap();
    let status = descriptor.work(&mut host, HANDLE, true, env.size, &env);
    assert_eq!(status, WORK_SUCCESS);
    // The response entered the transport under token 1; its destructor is
    // suspended until the host delivers it back.
    assert_eq!(host.pending_responses(), 1);
    assert_eq!(host.destructions(1), 0);
}

#[test]
fn extern_work_should_not_drop_twice() {
    let mut host = HostTransport::new(4);
    let schedule = Schedule::new(true);
    let mut descriptor = WorkerDescriptor::new(CountingWorker::new(0), HANDLE);
    schedule.schedule_work(&mut host, item(vec![5, 6], 1)).unwrap();
    let env = host.take_work().unwrap();
    let status = descriptor.work(&mut host, HANDLE, true, env.size, &env);
    assert_eq!(status, WORK_SUCCESS);
    assert_eq!(host.destructions(0), 1);
    assert!(!host.over_dropped(0));
}

#[test]
fn extern_work_response_should_not_drop_twice() {
    let mut host = HostTransport::new(4);
    let schedule = Schedule::new(true);
    let mut descriptor = WorkerDescriptor::new(CountingWorker::new(1), HANDLE);
    schedule.schedule_work(&mut host, item(vec![1], 0)).unwrap();
    let env = host.take_work().unwrap();
    descriptor.work(&mut host, HANDLE, true, env.size, &env);
    let resp = host.take_response().unwrap();
    let status = descriptor.work_response(&mut host, HANDLE, resp.size, &resp);
    assert_eq!(status, WORK_SUCCESS);
    assert_eq!(host.destructions(resp.token), 1);
    assert!(!host.over_dropped(resp.token));
}

#[test]
fn transfer_destructs_exactly_once() {
    // A value with no tolerated duplicate destructions survives a correct
    // transfer: exactly one destructor execution, guard untripped.
    let mut host = HostTransport::new(4);
    let schedule = Schedule::new(true);
    let mut descriptor = WorkerDescriptor::new(CountingWorker::new(0), HANDLE);
    let r = schedule.schedule_work(&mut host, item(vec![42; 8], 0));
    assert!(r.is_ok());
    assert_eq!(host.destructions(0), 0);
    let env = host.take_work().unwrap();
    let status = descriptor.work(&mut host, HANDLE, true, env.size, &env);
    assert_eq!(status, WORK_SUCCESS);
    assert_eq!(host.destructions(0), 1);
    assert!(!host.over_dropped(0));
    assert_eq!(descriptor.plugin().work_calls, 1);
    assert_eq!(descriptor.plugin().seen_work[0], vec![42; 8]);
}

#[test]
fn absent_enqueue_returns_unknown_and_drops_once() {
    // No enqueue capability: the caller keeps and destructs the value.
    let mut host = HostTransport::new(4);
    let schedule = Schedule::new(false);
    let r = schedule.schedule_work(&mut host, item(vec![1, 2], 0));
    assert!(matches!(r, Err(WorkerError::Unknown)));
    assert_eq!(host.destructions(0), 1);
    assert!(!host.over_dropped(0));
    assert_eq!(host.pending_work(), 0);
}

#[test]
fn full_transport_returns_no_space_and_drops_once() {
    let mut host = HostTransport::new(0);
    let schedule = Schedule::new(true);
    let r = schedule.schedule_work(&mut host, item(vec![1], 0));
    assert!(matches!(r, Err(WorkerError::NoSpace)));
    assert_eq!(host.destructions(0), 1);
    assert_eq!(host.pending_work(), 0);
}

#[test]
fn work_size_mismatch_is_rejected_without_user_logic() {
    let mut host = HostTransport::new(4);
    let schedule = Schedule::new(true);
    let mut descriptor = WorkerDescriptor::new(CountingWorker::new(0), HANDLE);
    schedule.schedule_work(&mut host, item(vec![1, 2, 3], 0)).unwrap();
    let env = host.take_work().unwrap();
    let status = descriptor.work(&mut host, HANDLE, true, env.size + 1, &env);
    assert_eq!(status, WORK_ERR_UNKNOWN);
    assert_eq!(descriptor.plugin().work_calls, 0);
    assert_eq!(host.destructions(0), 0);
    assert_eq!(host.event_count(), 0);
}

#[test]
fn work_unknown_handle_is_rejected() {
    let mut host = HostTransport::new(4);
    let schedule = Schedule::new(true);
    let mut descriptor = WorkerDescriptor::new(CountingWorker::new(0), HANDLE);
    schedule.schedule_work(&mut host, item(vec![1], 0)).unwrap();
    let env = host.take_work().unwrap();
    let status = descriptor.work(&mut host, HANDLE + 1, true, env.size, &env);
    assert_eq!(status, WORK_ERR_UNKNOWN);
    assert_eq!(descriptor.plugin().work_calls, 0);
}

#[test]
fn work_unknown_token_is_rejected() {
    let mut host = HostTransport::new(4);
    let mut descriptor = WorkerDescriptor::new(CountingWorker::new(0), HANDLE);
    // An envelope the transport never saw: its token names no value.
    let env = Envelope { token: 99, size: 1, bytes: vec![1], drop_limit: 0 };
    let status = descriptor.work(&mut host, HANDLE, true, env.size, &env);
    assert_eq!(status, WORK_ERR_UNKNOWN);
    assert_eq!(descriptor.plugin().work_calls, 0);
}

#[test]
fn double_delivery_trips_the_over_drop_guard() {
    // The host misbehaves and delivers the same bytes twice: the codec does
    // not protect against that, and the second reconstruction is a
    // duplicate destruction beyond the value's tolerance.
    let mut host = HostTransport::new(4);
    let schedule = Schedule::new(true);
    let mut descriptor = WorkerDescriptor::new(CountingWorker::new(0), HANDLE);
    schedule.schedule_work(&mut host, item(vec![3, 1, 4], 0)).unwrap();
    let env = host.take_work().unwrap();
    let first = descriptor.work(&mut host, HANDLE, true, env.size, &env);
    assert_eq!(first, WORK_SUCCESS);
    assert_eq!(host.destructions(0), 1);
    assert!(!host.over_dropped(0));
    let second = descriptor.work(&mut host, HANDLE, true, env.size, &env);
    assert_eq!(second, WORK_SUCCESS);
    assert_eq!(host.destructions(0), 2);
    assert!(host.over_dropped(0));
    assert_eq!(descriptor.plugin().work_calls, 2);
}

#[test]
fn cycle_observes_responses_then_end_run_in_order() {
    // One cycle: work logic responds twice, the host delivers both
    // responses, then signals the end of the cycle. User logic observes the
    // steps in exactly that relative order.
    let mut host = HostTransport::new(4);
    let schedule = Schedule::new(true);
    let mut descriptor = WorkerDescriptor::new(CountingWorker::new(2), HANDLE);
    schedule.schedule_work(&mut host, item(vec![8], 0)).unwrap();
    let env = host.take_work().unwrap();
    assert_eq!(descriptor.work(&mut host, HANDLE, true, env.size, &env), WORK_SUCCESS);
    let r1 = host.take_response().unwrap();
    assert_eq!(descriptor.work_response(&mut host, HANDLE, r1.size, &r1), WORK_SUCCESS);
    let r2 = host.take_response().unwrap();
    assert_eq!(descriptor.work_response(&mut host, HANDLE, r2.size, &r2), WORK_SUCCESS);
    assert_eq!(descriptor.end_run(&mut host, HANDLE), WORK_SUCCESS);

    assert_eq!(host.event_count(), 6);
    assert_eq!(host.event_at(0), Some(Event::WorkInvoked { token: 0 }));
    assert_eq!(host.event_at(1), Some(Event::Responded { token: 1 }));
    assert_eq!(host.event_at(2), Some(Event::Responded { token: 2 }));
    assert_eq!(host.event_at(3), Some(Event::WorkResponseInvoked { token: 1 }));
    assert_eq!(host.event_at(4), Some(Event::WorkResponseInvoked { token: 2 }));
    assert_eq!(host.event_at(5), Some(Event::EndRunInvoked));

    let plugin = descriptor.plugin();
    assert_eq!(plugin.work_calls, 1);
    assert_eq!(plugin.response_calls, 2);
    assert_eq!(plugin.end_calls, 1);
    assert_eq!(plugin.seen_responses, vec![vec![0u8], vec![1u8]]);
}

#[test]
fn work_response_size_mismatch_is_rejected() {
    let mut host = HostTransport::new(4);
    let schedule = Schedule::new(true);
    let mut descriptor = WorkerDescriptor::new(CountingWorker::new(1), HANDLE);
    schedule.schedule_work(&mut host, item(vec![1], 0)).unwrap();
    let env = host.take_work().unwrap();
    descriptor.work(&mut host, HANDLE, true, env.size, &env);
    let resp = host.take_response().unwrap();
    let status = descriptor.work_response(&mut host, HANDLE, resp.size + 1, &resp);
    assert_eq!(status, WORK_ERR_UNKNOWN);
    assert_eq!(descriptor.plugin().response_calls, 0);
    assert_eq!(host.destructions(resp.token), 0);
}

#[test]
fn end_run_unknown_handle_is_rejected() {
    let mut host = HostTransport::new(4);
    let mut descriptor = WorkerDescriptor::new(CountingWorker::new(0), HANDLE);
    let status = descriptor.end_run(&mut host, HANDLE + 1);
    assert_eq!(status, WORK_ERR_UNKNOWN);
    assert_eq!(descriptor.plugin().end_calls, 0);
    assert_eq!(host.event_count(), 0);
}

#[test]
fn respond_without_capability_returns_unknown() {
    let mut handler = ResponseHandler::new(false, 4);
    let r = handler.respond(ResponseItem { bytes: vec![1], drop_limit: 0 });
    assert!(matches!(r, Err(WorkerError::Unknown)));
    assert_eq!(handler.accepted_count(), 0);
    assert_eq!(handler.rejected_count(), 1);
}

#[test]
fn respond_without_space_returns_no_space() {
    let mut handler = ResponseHandler::new(true, 0);
    let r = handler.respond(ResponseItem { bytes: vec![1], drop_limit: 0 });
    assert!(matches!(r, Err(WorkerError::NoSpace)));
    assert_eq!(handler.accepted_count(), 0);
    assert_eq!(handler.rejected_count(), 1);
}

#[test]
fn rejected_response_is_destructed_on_the_worker_side() {
    // Work logic responds, but the host supplied no respond capability:
    // the response value is destructed exactly once in the emitter's scope.
    let mut host = HostTransport::new(4);
    let schedule = Schedule::new(true);
    let mut descriptor = WorkerDescriptor::new(CountingWorker::new(1), HANDLE);
    schedule.schedule_work(&mut host, item(vec![1], 0)).unwrap();
    let env = host.take_work().unwrap();
    let status = descriptor.work(&mut host, HANDLE, false, env.size, &env);
    assert_eq!(status, WORK_SUCCESS);
    assert!(matches!(descriptor.plugin().send_results[0], Err(WorkerError::Unknown)));
    assert_eq!(host.pending_responses(), 0);
    // Token 1 is the rejected response: one destruction, never delivered.
    assert_eq!(host.destructions(1), 1);
    assert!(!host.over_dropped(1));
}

#[test]
fn empty_payload_round_trips() {
    // A zero-sized value: the emitted size is zero and the exact-size check
    // accepts the delivery.
    let mut host = HostTransport::new(4);
    let schedule = Schedule::new(true);
    let mut descriptor = WorkerDescriptor::new(CountingWorker::new(0), HANDLE);
    schedule.schedule_work(&mut host, item(Vec::new(), 0)).unwrap();
    let env = host.take_work().unwrap();
    assert_eq!(env.size, 0);
    let status = descriptor.work(&mut host, HANDLE, true, env.size, &env);
    assert_eq!(status, WORK_SUCCESS);
    assert_eq!(descriptor.plugin().seen_work[0], Vec::<u8>::new());
    assert_eq!(host.destructions(0), 1);
}

#[test]
fn queued_work_is_delivered_oldest_first() {
    let mut host = HostTransport::new(4);
    let schedule = Schedule::new(true);
    let mut descriptor = WorkerDescriptor::new(CountingWorker::new(0), HANDLE);
    schedule.schedule_work(&mut host, item(vec![1], 0)).unwrap();
    schedule.schedule_work(&mut host, item(vec![2], 0)).unwrap();
    schedule.schedule_work(&mut host, item(vec![3], 0)).unwrap();
    while let Some(env) = host.take_work() {
        descriptor.work(&mut host, HANDLE, true, env.size, &env);
    }
    assert_eq!(descriptor.plugin().seen_work, vec![vec![1u8], vec![2u8], vec![3u8]]);
    assert_eq!(host.destructions(0), 1);
    assert_eq!(host.destructions(1), 1);
    assert_eq!(host.destructions(2), 1);
}
