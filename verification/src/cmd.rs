use vstd::prelude::*;

verus! {

use crate::broadcaster::config::BroadcasterConfig;
use crate::system::messages::{RequestContext, RefreshRate};

/// How often the front end polls the reply channel of a `Status` call
/// before giving up.
pub const RESPONSE_CHANNEL_RETRIES: u64 = 10;

/// How long the front end waits between two polls of the reply channel,
/// in milliseconds.
pub const RESPONSE_CHANNEL_RETRY_DELAY_MS: u64 = 100;

/// What a `Start` command asks for.
#[derive(Debug, Clone)]
pub struct StartOptions {
    pub refresh_rate: RefreshRate,
    pub config: BroadcasterConfig,
}

/// The payload of a successful command.
#[derive(Debug, Clone, Copy, PartialEq, Eq, Structural)]
pub struct CommandResponse<T> {
    pub data: T,
}

/// The user-visible failure of a command.
#[derive(Debug, Clone)]
pub struct CommandError {
    message: String,
}

impl View for CommandError {
    type V = Seq<char>;

    closed spec fn view(&self) -> Seq<char> {
        self.message@
    }
}

impl CommandError {
    pub fn new(message: String) -> (e: CommandError)
        ensures
            e@ == message@,
    {
        CommandError { message }
    }

    /// The user-visible text of the failure.
    pub fn message(&self) -> (r: &str)
        ensures
            r@ == self@,
    {
        self.message.as_str()
    }
}

/// The acknowledgement of a remote-callable command.
#[derive(Debug)]
pub struct Response<'a> {
    pub message: &'a str,
}

/// What the coordinator puts on a caller's reply channel.
#[derive(Debug)]
pub struct ChannelResponse<T> {
    pub context: RequestContext,
    pub data: T,
}

/// A remote-callable command as the front end deserialises it.
#[derive(Debug)]
pub enum Cmd {
    Start { request_id: String, options: StartOptions, callback: String, error: String },
    Stop { request_id: String, callback: String, error: String },
    Status { request_id: String, callback: String, error: String },
}

/// One poll of a command's reply channel, as the runtime reports it.
#[derive(Debug)]
pub enum PollOutcome<T> {
    Value(ChannelResponse<T>),
    Empty,
    Closed,
}

/// What the front end does after one poll of the reply channel: pass a
/// result through, or poll again after a fixed delay.
#[derive(Debug)]
pub enum PollStep<T> {
    Done(Result<CommandResponse<T>, CommandError>),
    RetryAfter { counter: u64, delay_ms: u64 },
}

/// Decide one round of the bounded reply-channel poll loop: a value is
/// returned as the command's response; a closed channel is the `ERROR`
/// outcome; an empty channel is retried after the fixed delay until the
/// retry budget is spent, which is the distinct `TIMEOUT` outcome.
pub fn poll_channel_response_step<T>(counter: u64, outcome: PollOutcome<T>) -> (r: PollStep<T>)
    requires
        counter < RESPONSE_CHANNEL_RETRIES,
    ensures
        match outcome {
            PollOutcome::Value(v) => r == PollStep::Done(
                Result::<CommandResponse<T>, CommandError>::Ok(CommandResponse { data: v.data }),
            ),
            PollOutcome::Empty => {
                if counter + 1 >= RESPONSE_CHANNEL_RETRIES {
                    match r {
                        PollStep::Done(Result::Err(e)) => e@ == "TIMEOUT"@,
                        _ => false,
                    }
                } else {
                    r == PollStep::<T>::RetryAfter {
                        counter: (counter + 1) as u64,
                        delay_ms: RESPONSE_CHANNEL_RETRY_DELAY_MS,
                    }
                }
            },
            PollOutcome::Closed => match r {
                PollStep::Done(Result::Err(e)) => e@ == "ERROR"@,
                _ => false,
            },
        },
{
    match outcome {
        PollOutcome::Value(v) => PollStep::Done(Ok(CommandResponse { data: v.data })),
        PollOutcome::Empty => {
            let next = counter + 1;
            if next >= RESPONSE_CHANNEL_RETRIES {
                PollStep::Done(Err(CommandError::new("TIMEOUT".to_owned())))
            } else {
                PollStep::RetryAfter { counter: next, delay_ms: RESPONSE_CHANNEL_RETRY_DELAY_MS }
            }
        },
        PollOutcome::Closed => PollStep::Done(Err(CommandError::new("ERROR".to_owned()))),
    }
}

/// The immediate acknowledgement of a fire-and-forget `Start` or `Stop`:
/// success if the command could be enqueued, and the channel-closed error
/// if it could not — inbox saturation is never silently dropped.
pub fn command_ack(sent: bool) -> (r: Result<CommandResponse<bool>, CommandError>)
    ensures
        sent ==> r == Result::<CommandResponse<bool>, CommandError>::Ok(
            CommandResponse { data: true },
        ),
        !sent ==> match r {
            Result::Err(e) => e@ == "the mpsc channel has closed"@,
            _ => false,
        },
{
    if sent {
        Ok(CommandResponse { data: true })
    } else {
        Err(CommandError::new("the mpsc channel has closed".to_owned()))
    }
}

} // verus!
