//! What the editor tells its user: the file it edits and the message of the
//! moment.

use vstd::prelude::*;
use vstd::string::StringExecFns;

verus! {

/// A point in time, in nanoseconds since an epoch that the caller chooses.
pub type Nanos = u128;

/// How long a message stays on the screen, in nanoseconds: five seconds.
pub const MESSAGE_TTL: Nanos = 5_000_000_000;

/// The file that a buffer belongs to, as a value.
pub struct FileName {
    pub path: Seq<char>,
    pub display: Seq<char>,
}

/// The file that a buffer belongs to: the path by which it is opened and
/// written, and the name by which it is shown.
pub struct FilePath {
    path: String,
    display: String,
}

impl View for FilePath {
    type V = FileName;

    closed spec fn view(&self) -> FileName {
        FileName { path: self.path@, display: self.display@ }
    }
}

impl FilePath {
    /// The file at `path`, shown under that same text.
    pub fn from(path: &str) -> (file: FilePath)
        ensures
            file@ == (FileName { path: path@, display: path@ }),
    {
        FilePath { path: String::from_str(path), display: String::from_str(path) }
    }

    /// The path by which the file is opened and written.
    pub fn path(&self) -> (path: &str)
        ensures
            path@ == self@.path,
    {
        self.path.as_str()
    }

    /// The name by which the file is shown.
    pub fn display(&self) -> (display: &str)
        ensures
            display@ == self@.display,
    {
        self.display.as_str()
    }
}

/// A message and the time of its making, as a value.
pub struct Notice {
    pub text: Seq<char>,
    pub timestamp: Nanos,
}

impl Notice {
    /// Whether the message is still to be shown at the time `now`: it is,
    /// from its making until its time to live has passed.
    pub open spec fn visible_at(self, now: Nanos) -> bool {
        self.timestamp <= now && now - self.timestamp < MESSAGE_TTL
    }
}

/// A message for the user, with the time at which it was made.
pub struct StatusMessage {
    text: String,
    timestamp: Nanos,
}

impl View for StatusMessage {
    type V = Notice;

    closed spec fn view(&self) -> Notice {
        Notice { text: self.text@, timestamp: self.timestamp }
    }
}

impl StatusMessage {
    /// The message `message`, made at the time `now`.
    pub fn new(message: &str, now: Nanos) -> (status: StatusMessage)
        ensures
            status@ == (Notice { text: message@, timestamp: now }),
    {
        StatusMessage { text: String::from_str(message), timestamp: now }
    }

    /// The text of the message.
    pub fn text(&self) -> (text: &str)
        ensures
            text@ == self@.text,
    {
        self.text.as_str()
    }

    /// The time at which the message was made.
    pub fn timestamp(&self) -> (timestamp: Nanos)
        ensures
            timestamp == self@.timestamp,
    {
        self.timestamp
    }

    /// Whether the message is still to be shown at the time `now`.
    pub fn is_visible(&self, now: Nanos) -> (visible: bool)
        ensures
            visible == self@.visible_at(now),
    {
        self.timestamp <= now && now - self.timestamp < MESSAGE_TTL
    }
}

} // verus!
