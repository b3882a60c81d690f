use rest_server::error::{RequestFault, ServerError};
use rest_server::listener::{next_action, ListenAction, ListenEvent};

#[test]
fn bind_failure_stops_the_loop() {
    assert_eq!(
        next_action(&ListenEvent::BindFailed { cause: "address in use".to_string() }),
        ListenAction::Stop(ServerError::BindError { cause: "address in use".to_string() })
    );
}

#[test]
fn connection_failures_are_reported_and_the_loop_goes_on() {
    assert_eq!(next_action(&ListenEvent::Handled), ListenAction::Continue);
    assert_eq!(
        next_action(&ListenEvent::AcceptFailed { cause: "reset".to_string() }),
        ListenAction::Report("Error in connection: reset".to_string())
    );
    assert_eq!(
        next_action(&ListenEvent::HandleFailed(ServerError::NotFound { path: "/x".to_string() })),
        ListenAction::Report(
            "Error in handling connection: HTTP request is invalid: No handler found for path /x"
                .to_string()
        )
    );
    assert_eq!(
        next_action(&ListenEvent::HandleFailed(ServerError::Io { cause: "broken pipe".to_string() })),
        ListenAction::Report("Error in handling connection: broken pipe".to_string())
    );
    assert_eq!(
        next_action(&ListenEvent::HandleFailed(ServerError::InvalidRequest(RequestFault::Empty))),
        ListenAction::Report("Error in handling connection: HTTP request is invalid".to_string())
    );
}
