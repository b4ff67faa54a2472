use std::time::Duration;

use middleware::{Timeout, TimeoutError};

#[derive(Debug, PartialEq)]
struct TestTimeoutService {}

#[derive(Debug, PartialEq)]
enum FakeError {
    Error,
}

impl TestTimeoutService {
    async fn request(&self, msg: u64) -> Result<u64, FakeError> {
        tokio::time::sleep(Duration::from_millis(msg)).await;
        if msg == 14 || msg == 18 {
            Err(FakeError::Error)
        } else {
            Ok(msg * 2)
        }
    }
}

async fn call(
    service: &Timeout<u64, TestTimeoutService>,
    msg: u64,
) -> Result<u64, TimeoutError<FakeError>> {
    let raced = tokio::time::timeout(service.duration(), service.inner_service().request(msg)).await;
    Timeout::<u64, TestTimeoutService>::settle(raced)
}

fn runtime() -> tokio::runtime::Runtime {
    tokio::runtime::Builder::new_current_thread()
        .enable_time()
        .build()
        .unwrap()
}

#[test]
fn timeout_test() {
    runtime().block_on(async {
        let service = TestTimeoutService {};

        assert_eq!(service.request(10).await.unwrap(), 20);
        assert!(service.request(14).await.is_err());
        assert!(service.request(18).await.is_err());
        assert_eq!(service.request(20).await.unwrap(), 40);

        let service_timeout = Timeout::new(service, Duration::from_millis(15));

        assert_eq!(call(&service_timeout, 10).await.unwrap(), 20);
        assert_eq!(
            call(&service_timeout, 14).await,
            Err(TimeoutError::ServiceError(FakeError::Error))
        );
        assert_eq!(
            call(&service_timeout, 18).await.unwrap_err(),
            TimeoutError::TimeoutError
        );
        assert_eq!(
            call(&service_timeout, 20).await.unwrap_err(),
            TimeoutError::TimeoutError
        );
    });
}

#[test]
fn settle_maps_each_outcome() {
    assert_eq!(Timeout::<(), ()>::settle::<u8, FakeError>(Ok(Ok(3))), Ok(3));
    assert_eq!(
        Timeout::<(), ()>::settle::<u8, FakeError>(Ok(Err(FakeError::Error))),
        Err(TimeoutError::ServiceError(FakeError::Error))
    );
    let elapsed = runtime()
        .block_on(async {
            tokio::time::timeout(Duration::from_millis(1), std::future::pending::<()>()).await
        })
        .unwrap_err();
    assert_eq!(
        Timeout::<(), ()>::settle::<u8, FakeError>(Err(elapsed)),
        Err(TimeoutError::TimeoutError)
    );
}

#[test]
fn timeout_configuration_is_kept() {
    let timeout = Timeout::<u64, u8>::new(4, Duration::from_millis(15));
    assert_eq!(timeout.duration(), Duration::from_millis(15));
    assert_eq!(*timeout.inner_service(), 4);
    assert_eq!(timeout.duration(), Duration::from_millis(15));
}
