use gps_link::broadcaster::config::{BroadcasterConfig, UdpConfig};
use gps_link::cmd::{
    ChannelResponse, Cmd, CommandError, PollOutcome, PollStep, Response, StartOptions, command_ack,
    poll_channel_response_step, RESPONSE_CHANNEL_RETRIES, RESPONSE_CHANNEL_RETRY_DELAY_MS,
};
use gps_link::system::messages::{RefreshRate, RequestContext, SimConnectPing, StopMessage};

fn ctx() -> RequestContext {
    RequestContext { id: 3 }
}

#[test]
fn a_value_on_the_channel_becomes_the_response() {
    let step = poll_channel_response_step(
        0,
        PollOutcome::Value(ChannelResponse { context: ctx(), data: true }),
    );
    match step {
        PollStep::Done(Ok(response)) => assert!(response.data),
        _ => panic!("expected the command's response"),
    }
}

#[test]
fn an_empty_channel_is_retried_with_the_fixed_delay() {
    let step = poll_channel_response_step::<bool>(0, PollOutcome::Empty);
    match step {
        PollStep::RetryAfter { counter, delay_ms } => {
            assert_eq!(counter, 1);
            assert_eq!(delay_ms, RESPONSE_CHANNEL_RETRY_DELAY_MS);
        },
        _ => panic!("expected a retry"),
    }
}

#[test]
fn the_retry_budget_ends_in_the_timeout_outcome() {
    let step = poll_channel_response_step::<bool>(RESPONSE_CHANNEL_RETRIES - 1, PollOutcome::Empty);
    match step {
        PollStep::Done(Err(e)) => assert_eq!(e.message(), "TIMEOUT"),
        _ => panic!("expected the timeout error"),
    }
}

#[test]
fn a_closed_channel_is_the_distinct_error_outcome() {
    let step = poll_channel_response_step::<bool>(0, PollOutcome::Closed);
    match step {
        PollStep::Done(Err(e)) => assert_eq!(e.message(), "ERROR"),
        _ => panic!("expected the channel-closed error"),
    }
}

#[test]
fn the_whole_poll_loop_times_out_after_ten_empty_polls() {
    let mut counter = 0u64;
    let mut rounds = 0u64;
    loop {
        match poll_channel_response_step::<bool>(counter, PollOutcome::Empty) {
            PollStep::RetryAfter { counter: next, .. } => {
                counter = next;
                rounds += 1;
            },
            PollStep::Done(Err(e)) => {
                assert_eq!(e.message(), "TIMEOUT");
                break;
            },
            _ => panic!("expected a retry or the timeout"),
        }
    }
    assert_eq!(rounds, RESPONSE_CHANNEL_RETRIES - 1);
}

#[test]
fn enqueue_acknowledgement_is_immediate() {
    match command_ack(true) {
        Ok(response) => assert!(response.data),
        Err(_) => panic!("expected success"),
    }
    match command_ack(false) {
        Err(e) => assert_eq!(e.message(), "the mpsc channel has closed"),
        Ok(_) => panic!("expected the channel-closed error"),
    }
}

#[test]
fn command_error_keeps_its_message() {
    let e = CommandError::new("no driver".to_string());
    assert_eq!(e.message(), "no driver");
}

#[test]
fn the_command_vocabulary_round_trips_by_value() {
    let options = StartOptions {
        refresh_rate: RefreshRate::Fast,
        config: BroadcasterConfig::Udp(UdpConfig {
            port: 49002,
            netmask: "192.168.1.255".to_string(),
        }),
    };
    let cmd = Cmd::Start {
        request_id: "r-1".to_string(),
        options,
        callback: "onOk".to_string(),
        error: "onErr".to_string(),
    };
    match cmd {
        Cmd::Start { request_id, options, .. } => {
            assert_eq!(request_id, "r-1");
            assert!(matches!(options.refresh_rate, RefreshRate::Fast));
        },
        _ => panic!("expected the start command"),
    }
    let ack = Response { message: "OK" };
    assert_eq!(ack.message, "OK");
    let stop = StopMessage { reason: "Stop".to_string(), context: ctx() };
    assert_eq!(stop.reason, "Stop");
    let _ping = SimConnectPing;
}
