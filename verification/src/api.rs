//! The answers of the three requests that the volume control takes: the
//! state of the machine, a new level, and a new mute flag.
//!
//! Each answer is an envelope with a transport status. A request that failed
//! is answered with the error's description and no data; one that succeeded
//! with the data of its kind.
use crate::error::VolumeError;
use crate::level::Level;
use crate::mixer::Session;
use crate::volume::{mute_write, volume_write};
use vstd::prelude::*;
use vstd::string::StringExecFns;

verus! {

/// The transport status of an answer.
#[derive(Clone, Copy, Debug, PartialEq, Eq, Structural)]
pub enum Status {
    /// The request was carried out.
    Success,
    /// The request failed on the server's side.
    ServerError,
}

impl Status {
    /// The status as a number.
    pub open spec fn number(self) -> u16 {
        match self {
            Status::Success => 200,
            Status::ServerError => 500,
        }
    }

    /// The status as a number.
    pub fn code(self) -> (code: u16)
        ensures
            code == self.number(),
    {
        match self {
            Status::Success => 200,
            Status::ServerError => 500,
        }
    }
}

/// The envelope of an answer.
#[derive(Debug, PartialEq, Eq)]
pub struct Response {
    /// Whether the request was carried out.
    pub success: bool,
    /// A volume level: the machine's, or the one that was asked for.
    pub volume: Option<Level>,
    /// A mute flag: the machine's, or the one that was asked for.
    pub muted: Option<bool>,
    /// A confirmation, or the description of an error.
    pub message: Option<String>,
}

/// An envelope with its message as text.
pub struct ResponseView {
    pub success: bool,
    pub volume: Option<Level>,
    pub muted: Option<bool>,
    pub message: Option<Seq<char>>,
}

impl View for Response {
    type V = ResponseView;

    open spec fn view(&self) -> ResponseView {
        ResponseView {
            success: self.success,
            volume: self.volume,
            muted: self.muted,
            message: match self.message {
                Some(text) => Some(text@),
                None => None,
            },
        }
    }
}

/// An answer: the envelope and the status it travels with.
#[derive(Debug, PartialEq, Eq)]
pub struct Reply {
    pub status: Status,
    pub body: Response,
}

/// An answer with its message as text.
pub struct ReplyView {
    pub status: Status,
    pub body: ResponseView,
}

impl View for Reply {
    type V = ReplyView;

    open spec fn view(&self) -> ReplyView {
        ReplyView { status: self.status, body: self.body@ }
    }
}

/// What every answer obeys: the status is `Success` exactly on success, and a
/// failure carries a message and no data.
pub open spec fn well_formed(reply: ReplyView) -> bool {
    &&& reply.status == Status::Success <==> reply.body.success
    &&& !reply.body.success ==> reply.body.volume is None && reply.body.muted is None
        && reply.body.message is Some
}

/// The answer to a request that failed.
pub open spec fn failure_reply(error: VolumeError) -> ReplyView {
    ReplyView {
        status: Status::ServerError,
        body: ResponseView {
            success: false,
            volume: None,
            muted: None,
            message: Some("Error: "@ + error.text()),
        },
    }
}

/// The answer to a request for the machine's state, given what the reads of
/// its level and of its mute flag came to. The level decides: without it the
/// request has failed, with it the request has succeeded, and a mute flag
/// that could not be read is reported as `false`.
pub open spec fn state_reply(
    volume: Result<Level, VolumeError>,
    muted: Result<bool, VolumeError>,
) -> ReplyView {
    match volume {
        Ok(level) => ReplyView {
            status: Status::Success,
            body: ResponseView {
                success: true,
                volume: Some(level),
                muted: Some(
                    match muted {
                        Ok(flag) => flag,
                        Err(_) => false,
                    },
                ),
                message: None,
            },
        },
        Err(error) => failure_reply(error),
    }
}

/// The answer to a request for a new level, given what the write came to.
/// A success echoes the level as it was asked for, not as it was clamped, and
/// confirms it with `percent`, the rendering of that level in percent.
pub open spec fn volume_reply<T>(
    level: Level,
    percent: Seq<char>,
    written: Result<T, VolumeError>,
) -> ReplyView {
    match written {
        Ok(_) => ReplyView {
            status: Status::Success,
            body: ResponseView {
                success: true,
                volume: Some(level),
                muted: None,
                message: Some("Volume set to "@ + percent + "%"@),
            },
        },
        Err(error) => failure_reply(error),
    }
}

/// The answer to a request for a new mute flag, given what the write came
/// to. A success echoes the flag and confirms it.
pub open spec fn mute_reply<T>(muted: bool, written: Result<T, VolumeError>) -> ReplyView {
    match written {
        Ok(_) => ReplyView {
            status: Status::Success,
            body: ResponseView {
                success: true,
                volume: None,
                muted: Some(muted),
                message: Some(
                    "Mute set to "@ + if muted {
                        "true"@
                    } else {
                        "false"@
                    },
                ),
            },
        },
        Err(error) => failure_reply(error),
    }
}

fn failure(error: &VolumeError) -> (reply: Reply)
    ensures
        reply@ == failure_reply(*error),
{
    let description = error.message();
    Reply {
        status: Status::ServerError,
        body: Response {
            success: false,
            volume: None,
            muted: None,
            message: Some(String::from_str("Error: ").concat(description.as_str())),
        },
    }
}

/// Answers a request for the machine's state.
pub fn get_volume(
    volume: &Result<Level, VolumeError>,
    muted: &Result<bool, VolumeError>,
) -> (reply: Reply)
    ensures
        reply@ == state_reply(*volume, *muted),
        well_formed(reply@),
{
    match volume {
        Ok(level) => {
            let flag = match muted {
                Ok(flag) => *flag,
                Err(_) => false,
            };
            Reply {
                status: Status::Success,
                body: Response {
                    success: true,
                    volume: Some(*level),
                    muted: Some(flag),
                    message: None,
                },
            }
        },
        Err(error) => failure(error),
    }
}

/// Answers a request for a new level. `percent` is the rendering of the
/// requested level in percent, without the percent sign.
pub fn set_volume<T>(level: Level, percent: &str, written: &Result<T, VolumeError>) -> (reply: Reply)
    ensures
        reply@ == volume_reply(level, percent@, *written),
        well_formed(reply@),
{
    match written {
        Ok(_) => {
            let message = String::from_str("Volume set to ").concat(percent).concat("%");
            Reply {
                status: Status::Success,
                body: Response {
                    success: true,
                    volume: Some(level),
                    muted: None,
                    message: Some(message),
                },
            }
        },
        Err(error) => failure(error),
    }
}

/// Answers a request for a new mute flag.
pub fn set_mute<T>(muted: bool, written: &Result<T, VolumeError>) -> (reply: Reply)
    ensures
        reply@ == mute_reply(muted, *written),
        well_formed(reply@),
{
    match written {
        Ok(_) => {
            let flag = if muted {
                "true"
            } else {
                "false"
            };
            Reply {
                status: Status::Success,
                body: Response {
                    success: true,
                    volume: None,
                    muted: Some(muted),
                    message: Some(String::from_str("Mute set to ").concat(flag)),
                },
            }
        },
        Err(error) => failure(error),
    }
}

/// Every answer is well-formed, whatever the reads and writes came to.
pub proof fn law_replies_are_well_formed<T>(
    level: Level,
    percent: Seq<char>,
    flag: bool,
    volume: Result<Level, VolumeError>,
    muted: Result<bool, VolumeError>,
    written: Result<T, VolumeError>,
)
    ensures
        well_formed(state_reply(volume, muted)),
        well_formed(volume_reply(level, percent, written)),
        well_formed(mute_reply(flag, written)),
{
}

/// The state degrades gracefully: with the level read and the mute flag
/// not, the request succeeds and reports the machine as not muted.
pub proof fn law_state_without_mute_flag(level: Level, error: VolumeError)
    ensures
        state_reply(Ok(level), Err(error)) == (ReplyView {
            status: Status::Success,
            body: ResponseView {
                success: true,
                volume: Some(level),
                muted: Some(false),
                message: None,
            },
        }),
{
}

/// A new level succeeds exactly where the enumeration went through and
/// found a session; a new mute flag exactly where the enumeration went
/// through, with or without sessions.
pub proof fn law_success_of_writes(
    level: Level,
    percent: Seq<char>,
    muted: bool,
    enumeration: Result<Seq<Session>, String>,
)
    ensures
        volume_reply(level, percent, volume_write(level, enumeration)).body.success <==> (
        enumeration matches Ok(sessions) && sessions.len() > 0),
        mute_reply(muted, mute_write(muted, enumeration)).body.success <==> enumeration is Ok,
{
}

} // verus!
