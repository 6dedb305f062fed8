//! The desktop side of the handoff: the decisions of a client that waits for
//! the channel, opens it, writes the user name and then the password, and
//! closes it. The caller performs each action and reports whether it
//! succeeded.
use vstd::prelude::*;
use crate::listener::CHANNEL_WAIT_TIMEOUT_MS;
use crate::wide::{encode_message, le_bytes, message_units};

verus! {

/// The well-known name of the channel, shared by both sides.
pub const PIPE_NAME: &'static str = "\\\\.\\pipe\\MansonWindowsUnlockRust";

/// Why a delivery failed; a session reports the first failure.
#[derive(Debug, Clone, Copy, PartialEq, Eq, Structural)]
pub enum ClientError {
    /// The channel did not appear within the wait timeout.
    ChannelUnavailable,
    /// The channel appeared but could not be opened for writing.
    OpenFailed,
    /// Writing the user name failed.
    UsernameNotSent,
    /// Writing the password failed.
    PasswordNotSent,
}

/// Where a client session stands.
#[derive(Debug, Clone, Copy, PartialEq, Eq, Structural)]
pub enum ClientPhase {
    WaitingForChannel,
    Opening,
    WritingUsername,
    WritingPassword,
    Closing,
    Done,
}

/// What the caller is to do next.
pub enum ClientAction {
    /// Wait up to the given number of milliseconds for the channel.
    WaitForChannel(u32),
    /// Open the channel write-only and exclusively.
    OpenChannel,
    /// Write these bytes as one message.
    Write(Vec<u8>),
    /// Close the channel.
    CloseChannel,
    /// The session is over, with this outcome.
    Report(Result<(), ClientError>),
    /// Nothing more to do.
    Nothing,
}

/// One delivery of a user name and a password.
pub struct ClientSession {
    pub phase: ClientPhase,
    pub username_message: Vec<u8>,
    pub password_message: Vec<u8>,
    pub first_error: Option<ClientError>,
}

/// The first failure, given the one recorded so far and the latest.
pub open spec fn first_of(recorded: Option<ClientError>, latest: Option<ClientError>) -> Option<
    ClientError,
> {
    if recorded is Some {
        recorded
    } else {
        latest
    }
}

/// The outcome a finished session reports.
pub open spec fn outcome_of(first_error: Option<ClientError>) -> Result<(), ClientError> {
    match first_error {
        Some(e) => Err(e),
        None => Ok(()),
    }
}

impl ClientSession {
    /// A session for the given user name and password; its first action is
    /// to wait for the channel.
    pub fn new(username: &str, password: &str) -> (r: (ClientSession, ClientAction))
        ensures
            r.0.phase == ClientPhase::WaitingForChannel,
            r.0.username_message@ == le_bytes(message_units(username@)),
            r.0.password_message@ == le_bytes(message_units(password@)),
            r.0.first_error is None,
            r.1 matches ClientAction::WaitForChannel(t) && t == CHANNEL_WAIT_TIMEOUT_MS,
    {
        let s = ClientSession {
            phase: ClientPhase::WaitingForChannel,
            username_message: encode_message(username),
            password_message: encode_message(password),
            first_error: None,
        };
        (s, ClientAction::WaitForChannel(CHANNEL_WAIT_TIMEOUT_MS))
    }

    /// Takes whether the last action succeeded and decides the next one.
    /// Both messages are written once the channel is open, the user name
    /// first, and the channel is closed whatever the writes did.
    pub fn step(&mut self, ok: bool) -> (r: ClientAction)
        ensures
            final(self).username_message == old(self).username_message,
            final(self).password_message == old(self).password_message,
            old(self).phase == ClientPhase::WaitingForChannel ==> if ok {
                final(self).phase == ClientPhase::Opening && r is OpenChannel
            } else {
                final(self).phase == ClientPhase::Done && r == ClientAction::Report(
                    Err(ClientError::ChannelUnavailable),
                )
            },
            old(self).phase == ClientPhase::Opening ==> if ok {
                final(self).phase == ClientPhase::WritingUsername && (r matches ClientAction::Write(
                    b,
                ) && b@ == old(self).username_message@)
            } else {
                final(self).phase == ClientPhase::Done && r == ClientAction::Report(
                    Err(ClientError::OpenFailed),
                )
            },
            old(self).phase == ClientPhase::WritingUsername ==> final(self).phase
                == ClientPhase::WritingPassword && (r matches ClientAction::Write(b) && b@ == old(
                self,
            ).password_message@) && final(self).first_error == first_of(
                old(self).first_error,
                if ok {
                    None
                } else {
                    Some(ClientError::UsernameNotSent)
                },
            ),
            old(self).phase == ClientPhase::WritingPassword ==> final(self).phase
                == ClientPhase::Closing && r is CloseChannel && final(self).first_error == first_of(
                old(self).first_error,
                if ok {
                    None
                } else {
                    Some(ClientError::PasswordNotSent)
                },
            ),
            old(self).phase == ClientPhase::Closing ==> final(self).phase == ClientPhase::Done
                && r == ClientAction::Report(outcome_of(old(self).first_error)),
            old(self).phase == ClientPhase::Done ==> final(self).phase == ClientPhase::Done
                && r is Nothing,
            old(self).phase != ClientPhase::WritingUsername && old(self).phase
                != ClientPhase::WritingPassword ==> final(self).first_error == old(
                self,
            ).first_error,
    {
        match self.phase {
            ClientPhase::WaitingForChannel => {
                if ok {
                    self.phase = ClientPhase::Opening;
                    ClientAction::OpenChannel
                } else {
                    self.phase = ClientPhase::Done;
                    ClientAction::Report(Err(ClientError::ChannelUnavailable))
                }
            },
            ClientPhase::Opening => {
                if ok {
                    self.phase = ClientPhase::WritingUsername;
                    ClientAction::Write(self.username_message.clone())
                } else {
                    self.phase = ClientPhase::Done;
                    ClientAction::Report(Err(ClientError::OpenFailed))
                }
            },
            ClientPhase::WritingUsername => {
                if !ok && self.first_error.is_none() {
                    self.first_error = Some(ClientError::UsernameNotSent);
                }
                self.phase = ClientPhase::WritingPassword;
                ClientAction::Write(self.password_message.clone())
            },
            ClientPhase::WritingPassword => {
                if !ok && self.first_error.is_none() {
                    self.first_error = Some(ClientError::PasswordNotSent);
                }
                self.phase = ClientPhase::Closing;
                ClientAction::CloseChannel
            },
            ClientPhase::Closing => {
                self.phase = ClientPhase::Done;
                match self.first_error {
                    Some(e) => ClientAction::Report(Err(e)),
                    None => ClientAction::Report(Ok(())),
                }
            },
            ClientPhase::Done => ClientAction::Nothing,
        }
    }
}

} // verus!
