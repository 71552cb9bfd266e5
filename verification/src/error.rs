//! Errors of the library and their messages.
use vstd::prelude::*;

verus! {

/// Alias for a result whose error is a [`TaimenError`].
pub type Result<T> = core::result::Result<T, TaimenError>;

/// Errors that can occur within Taimen.
#[derive(Debug)]
pub enum TaimenError {
    /// A room-related error (creation, lookup, state transition).
    Room(String),
    /// A signaling-protocol error.
    Signal(String),
    /// A media-pipeline error (track negotiation, codec mismatch).
    Media(String),
    /// An authentication or authorization error.
    Auth(String),
    /// A WebRTC transport error.
    WebRTC(String),
    /// The room has reached its maximum participant capacity.
    Capacity(String),
}

impl TaimenError {
    /// The detail text that the error carries.
    pub open spec fn detail(self) -> Seq<char> {
        match self {
            TaimenError::Room(s) => s@,
            TaimenError::Signal(s) => s@,
            TaimenError::Media(s) => s@,
            TaimenError::Auth(s) => s@,
            TaimenError::WebRTC(s) => s@,
            TaimenError::Capacity(s) => s@,
        }
    }

    /// The prefix that names the kind of error.
    pub open spec fn prefix(self) -> Seq<char> {
        match self {
            TaimenError::Room(_) => "room error: "@,
            TaimenError::Signal(_) => "signal error: "@,
            TaimenError::Media(_) => "media error: "@,
            TaimenError::Auth(_) => "auth error: "@,
            TaimenError::WebRTC(_) => "webrtc error: "@,
            TaimenError::Capacity(_) => "capacity error: "@,
        }
    }

    /// The human-readable message: the kind's prefix followed by the detail.
    pub fn message(&self) -> (s: String)
        ensures
            s@ == self.prefix() + self.detail(),
    {
        let (prefix, detail) = match self {
            TaimenError::Room(d) => ("room error: ", d),
            TaimenError::Signal(d) => ("signal error: ", d),
            TaimenError::Media(d) => ("media error: ", d),
            TaimenError::Auth(d) => ("auth error: ", d),
            TaimenError::WebRTC(d) => ("webrtc error: ", d),
            TaimenError::Capacity(d) => ("capacity error: ", d),
        };
        let mut s = prefix.to_owned();
        s.append(detail.as_str());
        s
    }
}

} // verus!
