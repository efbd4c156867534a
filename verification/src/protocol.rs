//! The per-connection protocol state machine: it honours just enough of the
//! chat wire protocol's textual command grammar to satisfy the target client's
//! login handshake, and forwards bus signals to the socket as chat lines.

use vstd::prelude::*;
use vstd::string::StrSliceExecFns;
use vstd::string::StringExecFns;
use crate::registry::Registry;
use crate::signal::Signal;
use crate::signal::SignalView;

verus! {

/// An inbound protocol line, reduced to the closed set of commands the
/// gateway honours: a registration command, a join command, or anything else.
pub enum Cmd {
    /// A registration command carrying the nickname to record.
    Nick(String),
    /// A join command carrying its channel argument, hash prefix included.
    Join(String),
    /// Any other recognized-but-unhandled command, or an unparseable line.
    Other,
}

/// The mathematical model of a `Cmd`.
pub enum CmdView {
    Nick(Seq<char>),
    Join(Seq<char>),
    Other,
}

impl View for Cmd {
    type V = CmdView;

    open spec fn view(&self) -> CmdView {
        match self {
            Cmd::Nick(nick) => CmdView::Nick(nick@),
            Cmd::Join(token) => CmdView::Join(token@),
            Cmd::Other => CmdView::Other,
        }
    }
}

/// The command that the protocol parser reads from one line of text; it
/// depends on the line alone.
pub uninterp spec fn parse_of(line: Seq<char>) -> CmdView;

/// Relies on irc_proto's message parser (`Message` implements `FromStr`): the
/// command read from a line depends on the line's text alone, and the parser
/// returns a result for every input rather than panicking. A line parsing as
/// NICK yields its nickname argument; one parsing as JOIN yields its channel
/// list argument; every other command, and every line that fails to parse, is
/// classed as unhandled.
#[verifier::external_body]
fn parse_command(line: &str) -> (cmd: Cmd)
    ensures
        cmd@ == parse_of(line@),
{
    match line.parse::<irc_proto::Message>() {
        Ok(message) => match message.command {
            irc_proto::Command::NICK(nick) => Cmd::Nick(nick),
            irc_proto::Command::JOIN(chanlist, _, _) => Cmd::Join(chanlist),
            _ => Cmd::Other,
        },
        Err(_) => Cmd::Other,
    }
}

/// A join argument with one leading hash mark stripped, the token the
/// argument names a channel by.
pub open spec fn strip_hash(token: Seq<char>) -> Seq<char> {
    if token.len() > 0 && token[0] == '#' {
        token.subrange(1, token.len() as int)
    } else {
        token
    }
}

fn strip_hash_exec(token: &str) -> (stripped: String)
    ensures
        stripped@ == strip_hash(token@),
{
    let n = token.unicode_len();
    if n > 0 && token.get_char(0) == '#' {
        token.substring_char(1, n).to_owned()
    } else {
        token.to_owned()
    }
}

/// The fixed multi-line welcome sequence addressed to a nickname: numeric
/// replies 001 through 004, then the 375/372/376 message-of-the-day lines.
pub open spec fn welcome_lines(nick: Seq<char>) -> Seq<char> {
    ":tmi.twitch.tv 001 "@ + nick + " :Welcome, GLHF!\r\n:tmi.twitch.tv 002 "@ + nick
        + " :Your host is tmi.twitch.tv\r\n:tmi.twitch.tv 003 "@ + nick
        + " :This server is rather new\r\n:tmi.twitch.tv 004 "@ + nick + " :-\r\n:tmi.twitch.tv 375 "@
        + nick + " :-\r\n:tmi.twitch.tv 372 "@ + nick
        + " :You are in a maze of twisty passages, all alike.\r\n:tmi.twitch.tv 376 "@ + nick
        + " :>\r\n"@
}

fn build_welcome(nick: &str) -> (reply: String)
    ensures
        reply@ == welcome_lines(nick@),
{
    let mut s: String = ":tmi.twitch.tv 001 ".to_owned();
    s.append(nick);
    s.append(" :Welcome, GLHF!\r\n:tmi.twitch.tv 002 ");
    s.append(nick);
    s.append(" :Your host is tmi.twitch.tv\r\n:tmi.twitch.tv 003 ");
    s.append(nick);
    s.append(" :This server is rather new\r\n:tmi.twitch.tv 004 ");
    s.append(nick);
    s.append(" :-\r\n:tmi.twitch.tv 375 ");
    s.append(nick);
    s.append(" :-\r\n:tmi.twitch.tv 372 ");
    s.append(nick);
    s.append(" :You are in a maze of twisty passages, all alike.\r\n:tmi.twitch.tv 376 ");
    s.append(nick);
    s.append(" :>\r\n");
    s
}

/// The join-confirmation sequence addressed to a nickname and channel: the
/// JOIN echo, numeric 353 listing only the joining user, and numeric 366
/// ending the names list.
pub open spec fn join_lines(nick: Seq<char>, channel: Seq<char>) -> Seq<char> {
    ":"@ + nick + "!"@ + nick + "@"@ + nick + ".tmi.twitch.tv JOIN #"@ + channel + "\r\n:"@ + nick
        + ".tmi.twitch.tv 353 "@ + nick + " = #"@ + channel + " :"@ + nick
        + "\r\n:"@ + nick + ".tmi.twitch.tv 366 "@ + nick + " #"@ + channel
        + " :End of /NAMES list\r\n"@
}

fn build_join(nick: &str, channel: &str) -> (reply: String)
    ensures
        reply@ == join_lines(nick@, channel@),
{
    let mut s: String = ":".to_owned();
    s.append(nick);
    s.append("!");
    s.append(nick);
    s.append("@");
    s.append(nick);
    s.append(".tmi.twitch.tv JOIN #");
    s.append(channel);
    s.append("\r\n:");
    s.append(nick);
    s.append(".tmi.twitch.tv 353 ");
    s.append(nick);
    s.append(" = #");
    s.append(channel);
    s.append(" :");
    s.append(nick);
    s.append("\r\n:");
    s.append(nick);
    s.append(".tmi.twitch.tv 366 ");
    s.append(nick);
    s.append(" #");
    s.append(channel);
    s.append(" :End of /NAMES list\r\n");
    s
}

/// The reply to a join of a channel that is not live.
pub open spec fn notice_line(channel: Seq<char>) -> Seq<char> {
    ":.tmi.twitch.tv NOTICE #"@ + channel + " :Channel doesn't exist\r\n"@
}

fn build_notice(channel: &str) -> (reply: String)
    ensures
        reply@ == notice_line(channel@),
{
    let mut s: String = ":.tmi.twitch.tv NOTICE #".to_owned();
    s.append(channel);
    s.append(" :Channel doesn't exist\r\n");
    s
}

/// A chat line in the target protocol's message-tag plus PRIVMSG form,
/// attributing the sender and addressed to the channel.
pub open spec fn privmsg_line(sender: Seq<char>, channel: Seq<char>, body: Seq<char>) -> Seq<char> {
    "@badge-info=;@display-name="@ + sender + "; PRIVMSG #"@ + channel + " :"@ + body + "\r\n"@
}

fn build_privmsg(sender: &str, channel: &str, body: &str) -> (line: String)
    ensures
        line@ == privmsg_line(sender@, channel@, body@),
{
    let mut s: String = "@badge-info=;@display-name=".to_owned();
    s.append(sender);
    s.append("; PRIVMSG #");
    s.append(channel);
    s.append(" :");
    s.append(body);
    s.append("\r\n");
    s
}

/// One connection's session state, owned by a single connection handler: the
/// last registered nickname (a placeholder until set) and the channel name
/// currently joined, at most one at a time. The live bus subscription itself
/// is handed to the caller on join, since only the connection's event loop
/// waits on it.
pub struct Session {
    nickname: String,
    joined: Option<String>,
}

/// The mathematical model of a session.
pub struct SessionView {
    pub nickname: Seq<char>,
    pub joined: Option<Seq<char>>,
}

impl View for Session {
    type V = SessionView;

    closed spec fn view(&self) -> SessionView {
        SessionView {
            nickname: self.nickname@,
            joined: match self.joined {
                Some(c) => Some(c@),
                None => None,
            },
        }
    }
}

/// The channel a notice about a failed join is addressed to: the currently
/// joined channel, or the placeholder when none is.
pub open spec fn notice_target(s: SessionView) -> Seq<char> {
    match s.joined {
        Some(c) => c,
        None => "_"@,
    }
}

/// Whether some live channel bears this name.
pub open spec fn name_is_live(registry: Map<u64, Seq<char>>, name: Seq<char>) -> bool {
    exists|k: u64| #[trigger] registry.contains_key(k) && registry[k] == name
}

/// The view of an optional reply.
pub open spec fn opt_string_view(s: Option<String>) -> Option<Seq<char>> {
    match s {
        Some(x) => Some(x@),
        None => None,
    }
}

/// What handling one command does: a registration command records the
/// nickname and re-sends the welcome sequence, idempotently and in any state;
/// a join command whose stripped token names a live channel records the join,
/// opens a subscription and confirms it; a join of a dead name draws exactly
/// one notice and changes nothing; anything else is silently ignored.
pub open spec fn command_post(
    pre: SessionView,
    post: SessionView,
    registry: Map<u64, Seq<char>>,
    cmd: CmdView,
    reply: Option<Seq<char>>,
    subscribed: bool,
) -> bool {
    match cmd {
        CmdView::Nick(nick) => {
            &&& post.nickname == nick
            &&& post.joined == pre.joined
            &&& reply == Some(welcome_lines(nick))
            &&& !subscribed
        },
        CmdView::Join(token) => {
            let target = strip_hash(token);
            if name_is_live(registry, target) {
                &&& post.nickname == pre.nickname
                &&& post.joined == Some(target)
                &&& reply == Some(join_lines(pre.nickname, target))
                &&& subscribed
            } else {
                &&& post == pre
                &&& reply == Some(notice_line(notice_target(pre)))
                &&& !subscribed
            }
        },
        CmdView::Other => {
            &&& post == pre
            &&& reply is None
            &&& !subscribed
        },
    }
}

/// What a bus signal makes a joined handler do.
pub enum SigAction {
    /// Write this chat line to the socket.
    Write(String),
    /// Gracefully shut the socket down and terminate the handler.
    Close,
    /// Do nothing.
    Ignore,
}

impl Session {
    /// A fresh session: placeholder nickname, no channel joined.
    pub fn new() -> (s: Session)
        ensures
            s@.nickname == "_"@,
            s@.joined is None,
    {
        Session { nickname: "_".to_owned(), joined: None }
    }

    /// The last registered nickname, or the placeholder if none was.
    pub fn nickname(&self) -> (nick: &str)
        ensures
            nick@ == self@.nickname,
    {
        self.nickname.as_str()
    }

    /// The channel name currently joined, if any.
    pub fn joined_channel(&self) -> (joined: Option<&str>)
        ensures
            match joined {
                Some(c) => self@.joined == Some(c@),
                None => self@.joined is None,
            },
    {
        match &self.joined {
            Some(c) => Some(c.as_str()),
            None => None,
        }
    }

    /// Dispatches one parsed command against the registry. On a successful
    /// join the prior subscription is implicitly dropped by the caller
    /// replacing it with the returned one.
    pub fn handle_command(&mut self, registry: &Registry, cmd: Cmd) -> (outcome: (
        Option<String>,
        Option<tokio::sync::broadcast::Receiver<Signal>>,
    ))
        requires
            registry.wf(),
        ensures
            command_post(
                old(self)@,
                final(self)@,
                registry@,
                cmd@,
                opt_string_view(outcome.0),
                outcome.1 is Some,
            ),
    {
        match cmd {
            Cmd::Nick(nick) => {
                let reply = build_welcome(nick.as_str());
                self.nickname = nick;
                (Some(reply), None)
            },
            Cmd::Join(token) => {
                let target = strip_hash_exec(token.as_str());
                match registry.find_by_name(target.as_str()) {
                    Some(chan) => {
                        let rx = chan.subscribe();
                        let reply = build_join(self.nickname.as_str(), target.as_str());
                        self.joined = Some(target);
                        (Some(reply), Some(rx))
                    },
                    None => {
                        let reply = match &self.joined {
                            Some(current) => build_notice(current.as_str()),
                            None => build_notice("_"),
                        };
                        (Some(reply), None)
                    },
                }
            },
            Cmd::Other => (None, None),
        }
    }

    /// Handles one inbound socket line: parses it, then dispatches the
    /// command exactly as `handle_command` does.
    pub fn handle_line(&mut self, registry: &Registry, line: &str) -> (outcome: (
        Option<String>,
        Option<tokio::sync::broadcast::Receiver<Signal>>,
    ))
        requires
            registry.wf(),
        ensures
            command_post(
                old(self)@,
                final(self)@,
                registry@,
                parse_of(line@),
                opt_string_view(outcome.0),
                outcome.1 is Some,
            ),
    {
        let cmd = parse_command(line);
        self.handle_command(registry, cmd)
    }

    /// Reacts to one signal received on the joined channel's bus: a chat
    /// message for the joined channel is formatted as one protocol line; a
    /// disconnect for the joined channel closes the connection; a signal for
    /// any other channel, or with nothing joined, does nothing.
    pub fn handle_signal(&self, signal: &Signal) -> (action: SigAction)
        ensures
            match signal@ {
                SignalView::UserMessage { sender_name, body, channel_name } => {
                    if self@.joined == Some(channel_name) {
                        action matches SigAction::Write(line) && line@ == privmsg_line(
                            sender_name,
                            channel_name,
                            body,
                        )
                    } else {
                        action is Ignore
                    }
                },
                SignalView::Disconnect { channel_name } => {
                    if self@.joined == Some(channel_name) {
                        action is Close
                    } else {
                        action is Ignore
                    }
                },
            },
    {
        match signal {
            Signal::UserMessage { sender_name, body, channel_name } => {
                let joined_here = match &self.joined {
                    Some(current) => current.eq(channel_name),
                    None => false,
                };
                if joined_here {
                    SigAction::Write(
                        build_privmsg(sender_name.as_str(), channel_name.as_str(), body.as_str()),
                    )
                } else {
                    SigAction::Ignore
                }
            },
            Signal::Disconnect { channel_name } => {
                let joined_here = match &self.joined {
                    Some(current) => current.eq(channel_name),
                    None => false,
                };
                if joined_here {
                    SigAction::Close
                } else {
                    SigAction::Ignore
                }
            },
        }
    }
}

} // verus!
