use lightning_net_tokio::setup::{
    connect_outbound, initial_send_ended, setup_inbound, setup_outbound, ConnectOutcome, SetupStep,
    CONNECT_TIMEOUT_SECS,
};

#[test]
fn an_accepted_inbound_connection_is_read() {
    assert_eq!(setup_inbound(true), SetupStep::StartReading);
    assert_eq!(setup_inbound(false), SetupStep::Abandon);
}

#[test]
fn an_accepted_outbound_connection_speaks_first() {
    assert_eq!(setup_outbound(true), SetupStep::SendInitial { resume_read: true });
    assert_eq!(setup_outbound(false), SetupStep::Abandon);
}

#[test]
fn the_opening_message_has_to_go_out_whole() {
    assert_eq!(initial_send_ended(50, 50), SetupStep::StartReading);
    assert_eq!(initial_send_ended(50, 49), SetupStep::ReportDisconnect);
    assert_eq!(initial_send_ended(50, 0), SetupStep::ReportDisconnect);
    assert_eq!(initial_send_ended(0, 0), SetupStep::StartReading);
}

#[test]
fn connecting_gives_a_socket_in_time_or_nothing() {
    assert_eq!(CONNECT_TIMEOUT_SECS, 10);
    assert_eq!(connect_outbound(ConnectOutcome::Connected(3)), Some(3));
    assert_eq!(connect_outbound::<u8>(ConnectOutcome::Failed), None);
    assert_eq!(connect_outbound::<u8>(ConnectOutcome::TimedOut), None);
}
