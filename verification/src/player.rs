//! The media controller: which commands go to the player, and how they
//! are spelled on the wire.

use vstd::prelude::*;
use vstd::string::StringExecFns;
use crate::text::decimal;
use crate::text::push_decimal;
use crate::video::is_id;
use crate::video::MediaId;

verus! {

/// The loudest volume that the player knows.
pub const FULL_VOLUME: u32 = 100;

/// A transport command for the player.
#[derive(Clone, Copy, Debug, PartialEq, Eq, Structural)]
pub enum PlayerCommand {
    /// Stop playing.
    Pause,
    /// Set the volume, in percent.
    SetVolume(u32),
}

/// The message that asks the player to call `func` with the argument
/// list `args`.
pub open spec fn message_text(func: Seq<char>, args: Seq<char>) -> Seq<char> {
    "{\"event\":\"command\",\"func\":\""@ + func + "\",\"args\":["@ + args + "]}"@
}

/// The address of the embedded player for the video `id`.
pub open spec fn embed_address(id: Seq<char>) -> Seq<char> {
    "https://www.youtube.com/embed/"@ + id + "?autoplay=1&enablejsapi=1"@
}

/// Spells out the message that asks the player to call `func` with the
/// argument list `args`.
pub fn command_message(func: &str, args: &str) -> (message: String)
    ensures
        message@ == message_text(func@, args@),
{
    let mut message = String::from_str("{\"event\":\"command\",\"func\":\"");
    message.append(func);
    message.append("\",\"args\":[");
    message.append(args);
    message.append("]}");
    message
}

/// The address of the embedded player for the video `id`.
pub fn embed_url(id: &MediaId) -> (address: String)
    ensures
        address@ == embed_address(id@),
{
    let mut address = String::from_str("https://www.youtube.com/embed/");
    address.append(id.as_str());
    address.append("?autoplay=1&enablejsapi=1");
    address
}

impl PlayerCommand {
    /// The name of the player function that carries out this command.
    pub open spec fn func_spec(self) -> Seq<char> {
        match self {
            PlayerCommand::Pause => "pauseVideo"@,
            PlayerCommand::SetVolume(_) => "setVolume"@,
        }
    }

    /// The argument list of this command.
    pub open spec fn args_spec(self) -> Seq<char> {
        match self {
            PlayerCommand::Pause => Seq::empty(),
            PlayerCommand::SetVolume(percent) => decimal(percent as nat),
        }
    }

    /// The message that carries this command to the player.
    pub fn message(self) -> (message: String)
        ensures
            message@ == message_text(self.func_spec(), self.args_spec()),
    {
        match self {
            PlayerCommand::Pause => {
                proof {
                    reveal_strlit("");
                    assert(""@ =~= Seq::<char>::empty());
                }
                command_message("pauseVideo", "")
            },
            PlayerCommand::SetVolume(percent) => {
                let mut args = String::new();
                push_decimal(&mut args, percent);
                assert(args@ =~= decimal(percent as nat));
                command_message("setVolume", args.as_str())
            },
        }
    }
}

/// The player that is attached, if any. Commands are handed out only
/// while one is.
#[derive(Clone, Debug)]
pub struct MediaController {
    attached: Option<MediaId>,
}

impl View for MediaController {
    type V = Option<Seq<char>>;

    closed spec fn view(&self) -> Option<Seq<char>> {
        match self.attached {
            Some(id) => Some(id@),
            None => None,
        }
    }
}

impl Default for MediaController {
    /// A controller with no player attached.
    fn default() -> (controller: MediaController)
        ensures
            controller@ is None,
    {
        MediaController::new()
    }
}

impl MediaController {
    /// A controller with no player attached.
    pub fn new() -> (controller: MediaController)
        ensures
            controller@ is None,
    {
        MediaController { attached: None }
    }

    /// Whether a player is attached.
    pub fn is_attached(&self) -> (yes: bool)
        ensures
            yes == self@ is Some,
    {
        self.attached.is_some()
    }

    /// The video that the attached player shows.
    pub fn media(&self) -> (id: Option<&MediaId>)
        ensures
            id is Some == self@ is Some,
            id matches Some(video) ==> self@ == Some(video@) && is_id(video@),
    {
        match &self.attached {
            Some(video) => {
                let _ = video.as_str();
                Some(video)
            },
            None => None,
        }
    }

    /// Attaches the player for the video `id`, in place of any other.
    pub fn attach(&mut self, id: MediaId)
        ensures
            final(self)@ == Some(id@),
        no_unwind
    {
        self.attached = Some(id);
    }

    /// Lets the player go. The volume is left as it is.
    pub fn detach(&mut self)
        ensures
            final(self)@ is None,
        no_unwind
    {
        self.attached = None;
    }

    /// The command that pauses the player, where one is attached.
    pub fn pause(&self) -> (command: Option<PlayerCommand>)
        ensures
            command == if self@ is Some {
                Some(PlayerCommand::Pause)
            } else {
                None
            },
    {
        if self.attached.is_some() {
            Some(PlayerCommand::Pause)
        } else {
            None
        }
    }

    /// The command that sets the volume to `percent`, where a player is
    /// attached. The value is passed on as it is.
    pub fn set_volume(&self, percent: u32) -> (command: Option<PlayerCommand>)
        ensures
            command == if self@ is Some {
                Some(PlayerCommand::SetVolume(percent))
            } else {
                None
            },
    {
        if self.attached.is_some() {
            Some(PlayerCommand::SetVolume(percent))
        } else {
            None
        }
    }
}

} // verus!
