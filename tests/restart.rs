use std::cell::Cell;

use middleware::{RestartAction, RestartError, RestartEvent, RestartPhase};

#[derive(Debug, PartialEq)]
enum FakeError {
    Error,
}

#[derive(Debug, PartialEq)]
struct TestRestartService {
    id: usize,
    value: usize,
}

impl TestRestartService {
    fn request(&self, msg: u64) -> Result<(), FakeError> {
        if msg as usize == self.value {
            Ok(())
        } else {
            Err(FakeError::Error)
        }
    }
}

struct TestGeneratorService {
    counter: Cell<usize>,
}

impl TestGeneratorService {
    fn request(&self, msg: usize) -> Result<TestRestartService, FakeError> {
        if msg > 1 {
            self.counter.set(self.counter.get() + 1);
            Ok(TestRestartService { id: self.counter.get(), value: msg })
        } else {
            Err(FakeError::Error)
        }
    }
}

// One call through a restarting service, run one event at a time.
fn call(
    instance: &mut TestRestartService,
    generator: &TestGeneratorService,
    generator_msg: usize,
    msg: u64,
) -> Result<(), RestartError<FakeError, FakeError>> {
    let mut phase = RestartPhase::start();
    let mut event = RestartEvent::Served(instance.request(msg));
    loop {
        assert!(phase.expects(&event));
        let (next, action) = phase.step(event);
        phase = next;
        event = match action {
            RestartAction::Finish(result) => {
                assert!(phase.is_finished());
                return result;
            }
            RestartAction::Regenerate => RestartEvent::Generated(generator.request(generator_msg)),
            RestartAction::Replace(fresh) => {
                *instance = fresh;
                RestartEvent::Served(instance.request(msg))
            }
        };
    }
}

#[test]
fn test_restart_service() {
    let generator = TestGeneratorService { counter: Cell::new(0) };

    assert!(
        generator.request(1).is_err(),
        "This generator will not start the service"
    );

    let mut instance = generator.request(2).unwrap();
    assert_eq!(instance.id, 1);
    assert!(call(&mut instance, &generator, 2, 2).is_ok(), "Value is OK");
    assert_eq!(instance.id, 1, "OK value did not cause a restart");

    match call(&mut instance, &generator, 2, 3).unwrap_err() {
        RestartError::ServiceError(_) => {
            assert_eq!(instance.id, 2, "At this point the service should have restarted and inner id should be 2 instead of 1");
        }
        RestartError::RestartingFailed(_, _) => {
            panic!("Restart service failed and did not restart")
        }
    };
}

#[test]
fn failed_regeneration_keeps_old_instance() {
    let generator = TestGeneratorService { counter: Cell::new(0) };
    let mut instance = TestRestartService { id: 7, value: 5 };
    assert_eq!(
        call(&mut instance, &generator, 1, 4),
        Err(RestartError::RestartingFailed(FakeError::Error, FakeError::Error))
    );
    assert_eq!(instance, TestRestartService { id: 7, value: 5 });
    assert_eq!(generator.counter.get(), 0);
}

#[test]
fn retry_on_new_instance_succeeds() {
    let generator = TestGeneratorService { counter: Cell::new(0) };
    let mut instance = TestRestartService { id: 0, value: 9 };
    assert_eq!(call(&mut instance, &generator, 4, 4), Ok(()));
    assert_eq!(instance, TestRestartService { id: 1, value: 4 });
    assert_eq!(generator.counter.get(), 1);
}

#[test]
fn single_step_transitions() {
    type Event = RestartEvent<u8, &'static str, char, i32>;
    type Action = RestartAction<u8, &'static str, char, i32>;

    let (p, a) = RestartPhase::start().step::<u8, char, i32>(Event::Served(Ok(1)));
    assert_eq!((p, a), (RestartPhase::Finished, Action::Finish(Ok(1))));

    let (p, a) = RestartPhase::start().step::<u8, char, i32>(Event::Served(Err("down")));
    assert_eq!(p, RestartPhase::Regenerating("down"));
    assert_eq!(a, Action::Regenerate);

    let (p2, a2) = p.step::<u8, char, i32>(Event::Generated(Err(-1)));
    assert_eq!(p2, RestartPhase::Finished);
    assert_eq!(a2, Action::Finish(Err(RestartError::RestartingFailed(-1, "down"))));

    let (p, a) = RestartPhase::Regenerating("down").step::<u8, char, i32>(Event::Generated(Ok('n')));
    assert_eq!((p, a), (RestartPhase::Retrying, Action::Replace('n')));

    let (p, a) = RestartPhase::<&str>::Retrying.step::<u8, char, i32>(Event::Served(Err("again")));
    assert_eq!((p, a), (RestartPhase::Finished, Action::Finish(Err(RestartError::ServiceError("again")))));

    assert!(!RestartPhase::<&str>::Finished.expects(&Event::Served(Ok(1))));
    assert!(!RestartPhase::<&str>::Serving.expects(&Event::Generated(Ok('x'))));
    assert!(RestartPhase::<&str>::Retrying.expects(&Event::Served(Ok(1))));
}
