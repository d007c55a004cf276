//! The client: where the target application listens, the default voice
//! settings, the exchange each operation performs, and what its reply means.
use vstd::prelude::*;
use vstd::string::StringSliceAdditionalSpecFns;
use crate::config::{default_config, TalkConfig};
use crate::error::MyError;
use crate::protocol::{
    command_packet, encode_command, encode_talk, is_query, reply_byte, talk_packet, Command,
};

verus! {

/// A client of the target application, listening by default on
/// `127.0.0.1:50001`. Each operation is one fresh exchange; the client keeps
/// no connection.
pub struct BouyomiClient {
    host: String,
    port: String,
    config: TalkConfig,
}

/// What a client holds, as plain values.
pub struct ClientView {
    pub host: Seq<char>,
    pub port: Seq<char>,
    pub config: TalkConfig,
}

impl View for BouyomiClient {
    type V = ClientView;

    closed spec fn view(&self) -> ClientView {
        ClientView { host: self.host@, port: self.port@, config: self.config }
    }
}

/// The target and settings of a fresh client.
pub open spec fn default_client() -> ClientView {
    ClientView { host: "127.0.0.1"@, port: "50001"@, config: default_config() }
}

/// One exchange with the target application: connect to `host:port`, write
/// `packet`, flush, and read the reply to its end when `expects_reply`.
pub struct Request {
    pub host: String,
    pub port: String,
    pub packet: Vec<u8>,
    pub expects_reply: bool,
}

/// The flag that a status query reports: set when the application answered
/// with a nonzero byte, clear on a zero byte and on a failed exchange.
pub open spec fn reply_flag(reply: Result<Vec<u8>, MyError>) -> bool {
    reply matches Ok(bytes) && bytes@.len() > 0 && bytes@[0] != 0
}

impl Default for BouyomiClient {
    fn default() -> (r: Self)
        ensures
            r@ == default_client(),
    {
        BouyomiClient {
            host: "127.0.0.1".to_owned(),
            port: "50001".to_owned(),
            config: TalkConfig::new(),
        }
    }
}

impl BouyomiClient {
    /// A client of `127.0.0.1:50001` with the default voice settings.
    pub fn new() -> (r: Self)
        ensures
            r@ == default_client(),
    {
        Self::default()
    }

    /// Replaces the host to connect to.
    pub fn set_host(self, host: &str) -> (r: Self)
        ensures
            r@ == (ClientView { host: host@, ..self@ }),
    {
        BouyomiClient { host: host.to_owned(), ..self }
    }

    /// Replaces the port to connect to.
    pub fn set_port(self, port: &str) -> (r: Self)
        ensures
            r@ == (ClientView { port: port@, ..self@ }),
    {
        BouyomiClient { port: port.to_owned(), ..self }
    }

    /// Replaces the voice settings that `talk` uses.
    pub fn set_config(self, config: TalkConfig) -> (r: Self)
        ensures
            r@ == (ClientView { config, ..self@ }),
    {
        BouyomiClient { config, ..self }
    }

    /// The host to connect to.
    pub fn host(&self) -> (r: &str)
        ensures
            r@ == self@.host,
    {
        self.host.as_str()
    }

    /// The port to connect to.
    pub fn port(&self) -> (r: &str)
        ensures
            r@ == self@.port,
    {
        self.port.as_str()
    }

    /// The voice settings that `talk` uses.
    pub fn config(&self) -> (r: &TalkConfig)
        ensures
            *r == self@.config,
    {
        &self.config
    }

    fn exchange(&self, packet: Vec<u8>, expects_reply: bool) -> (r: Request)
        ensures
            r.host@ == self@.host,
            r.port@ == self@.port,
            r.packet@ == packet@,
            r.expects_reply == expects_reply,
    {
        Request { host: self.host.clone(), port: self.port.clone(), packet, expects_reply }
    }

    /// The exchange that sends `command` to this client's target.
    pub fn request(&self, command: Command) -> (r: Request)
        ensures
            r.host@ == self@.host,
            r.port@ == self@.port,
            r.packet@ == command_packet(command),
            r.expects_reply == is_query(command),
    {
        self.exchange(encode_command(command), command.expects_reply())
    }

    /// The exchange that has `message` spoken with `talk_config`; nothing is
    /// read back.
    pub fn talk_with_config(&self, message: &str, talk_config: &TalkConfig) -> (r: Request)
        requires
            message.spec_bytes().len() <= u32::MAX,
        ensures
            r.host@ == self@.host,
            r.port@ == self@.port,
            r.packet@ == talk_packet(*talk_config, message.spec_bytes()),
            !r.expects_reply,
    {
        self.exchange(encode_talk(talk_config, message), false)
    }

    /// The exchange that has `message` spoken with this client's settings.
    pub fn talk(&self, message: &str) -> (r: Request)
        requires
            message.spec_bytes().len() <= u32::MAX,
        ensures
            r.host@ == self@.host,
            r.port@ == self@.port,
            r.packet@ == talk_packet(self@.config, message.spec_bytes()),
            !r.expects_reply,
    {
        self.talk_with_config(message, &self.config)
    }

    /// The exchange that pauses speech.
    pub fn pause(&self) -> (r: Request)
        ensures
            r.host@ == self@.host,
            r.port@ == self@.port,
            r.packet@ == command_packet(Command::Pause),
            !r.expects_reply,
    {
        self.request(Command::Pause)
    }

    /// The exchange that resumes paused speech.
    pub fn resume(&self) -> (r: Request)
        ensures
            r.host@ == self@.host,
            r.port@ == self@.port,
            r.packet@ == command_packet(Command::Resume),
            !r.expects_reply,
    {
        self.request(Command::Resume)
    }

    /// The exchange that skips the message being spoken.
    pub fn skip(&self) -> (r: Request)
        ensures
            r.host@ == self@.host,
            r.port@ == self@.port,
            r.packet@ == command_packet(Command::Skip),
            !r.expects_reply,
    {
        self.request(Command::Skip)
    }

    /// The exchange that drops every queued message.
    pub fn clear(&self) -> (r: Request)
        ensures
            r.host@ == self@.host,
            r.port@ == self@.port,
            r.packet@ == command_packet(Command::Clear),
            !r.expects_reply,
    {
        self.request(Command::Clear)
    }

    fn status_flag(reply: Result<Vec<u8>, MyError>) -> (r: bool)
        ensures
            r == reply_flag(reply),
    {
        match reply {
            Ok(bytes) => match reply_byte(&bytes) {
                Ok(b) => b != 0,
                Err(_) => false,
            },
            Err(_) => false,
        }
    }

    /// Whether speech is paused, from the reply to `Command::QueryPause`.
    /// A failed exchange reads as not paused.
    pub fn is_pause(reply: Result<Vec<u8>, MyError>) -> (r: Result<bool, MyError>)
        ensures
            r matches Ok(p) && p == reply_flag(reply),
    {
        Ok(Self::status_flag(reply))
    }

    /// Whether a message is being spoken, from the reply to
    /// `Command::QueryPlaying`. A failed exchange reads as not playing.
    pub fn is_now_playing(reply: Result<Vec<u8>, MyError>) -> (r: Result<bool, MyError>)
        ensures
            r matches Ok(p) && p == reply_flag(reply),
    {
        Ok(Self::status_flag(reply))
    }

    /// The number of queued messages, from the reply to
    /// `Command::QueryRemainingTasks`. The reply is one byte, so the count
    /// never exceeds 255. A failed exchange is passed on; an empty reply is a
    /// protocol error.
    pub fn get_remaining_tasks(reply: Result<Vec<u8>, MyError>) -> (r: Result<u32, MyError>)
        ensures
            r is Ok <==> (reply matches Ok(bytes) && bytes@.len() > 0),
            r matches Ok(n) ==> (reply matches Ok(bytes) && n == bytes@[0]),
            reply matches Err(e) ==> (r matches Err(f) && f == e),
            (reply matches Ok(bytes) && bytes@.len() == 0) ==> r matches Err(MyError::OtherError(_)),
    {
        match reply {
            Ok(bytes) => match reply_byte(&bytes) {
                Ok(b) => Ok(b as u32),
                Err(e) => Err(e),
            },
            Err(e) => Err(e),
        }
    }
}

} // verus!
