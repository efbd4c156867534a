use chat_bridge::bus::try_receive;
use chat_bridge::protocol::Cmd;
use chat_bridge::protocol::SigAction;
use chat_bridge::Registry;
use chat_bridge::Session;
use chat_bridge::Signal;

fn expected_welcome(nick: &str) -> String {
    format!(
        ":tmi.twitch.tv 001 {nick} :Welcome, GLHF!\r\n:tmi.twitch.tv 002 {nick} :Your host is tmi.twitch.tv\r\n:tmi.twitch.tv 003 {nick} :This server is rather new\r\n:tmi.twitch.tv 004 {nick} :-\r\n:tmi.twitch.tv 375 {nick} :-\r\n:tmi.twitch.tv 372 {nick} :You are in a maze of twisty passages, all alike.\r\n:tmi.twitch.tv 376 {nick} :>\r\n"
    )
}

fn expected_join(nick: &str, channel: &str) -> String {
    format!(
        ":{nick}!{nick}@{nick}.tmi.twitch.tv JOIN #{channel}\r\n:{nick}.tmi.twitch.tv 353 {nick} = #{channel} :{nick}\r\n:{nick}.tmi.twitch.tv 366 {nick} #{channel} :End of /NAMES list\r\n"
    )
}

#[test]
fn nick_then_join_yields_welcome_then_join_sequence() {
    let mut reg = Registry::new();
    let channel = reg.resolve_or_create(1);
    let mut sess = Session::new();

    let (reply, rx) = sess.handle_line(&reg, "NICK alice");
    assert_eq!(reply.unwrap(), expected_welcome("alice"));
    assert!(rx.is_none());

    let join_line = format!("JOIN #{}", channel);
    let (reply, rx) = sess.handle_line(&reg, join_line.as_str());
    assert_eq!(reply.unwrap(), expected_join("alice", channel.as_str()));
    assert!(rx.is_some());
    assert_eq!(sess.joined_channel(), Some(channel.as_str()));
}

#[test]
fn dispatching_parsed_commands_matches_the_line_handler() {
    let mut reg = Registry::new();
    let channel = reg.resolve_or_create(1);
    let mut sess = Session::new();

    let (reply, rx) = sess.handle_command(&reg, Cmd::Nick("alice".to_string()));
    assert_eq!(reply.unwrap(), expected_welcome("alice"));
    assert!(rx.is_none());

    let (reply, rx) = sess.handle_command(&reg, Cmd::Join(format!("#{}", channel)));
    assert_eq!(reply.unwrap(), expected_join("alice", channel.as_str()));
    assert!(rx.is_some());

    let (reply, rx) = sess.handle_command(&reg, Cmd::Other);
    assert!(reply.is_none());
    assert!(rx.is_none());
}

#[test]
fn nick_is_idempotent_and_updates_the_nickname() {
    let reg = Registry::new();
    let mut sess = Session::new();
    let (first, _) = sess.handle_line(&reg, "NICK alice");
    assert_eq!(first.unwrap(), expected_welcome("alice"));
    let (second, _) = sess.handle_line(&reg, "NICK bob");
    assert_eq!(second.unwrap(), expected_welcome("bob"));
}

#[test]
fn join_of_a_dead_name_gets_exactly_one_notice_and_no_state_change() {
    let reg = Registry::new();
    let mut sess = Session::new();
    let (reply, _) = sess.handle_line(&reg, "NICK alice");
    assert!(reply.is_some());

    let (reply, rx) = sess.handle_line(&reg, "JOIN #ghost");
    assert_eq!(
        reply.unwrap(),
        ":.tmi.twitch.tv NOTICE #_ :Channel doesn't exist\r\n"
    );
    assert!(rx.is_none());
    assert_eq!(sess.nickname(), "alice");
    assert!(sess.joined_channel().is_none());

    // Still not joined: a signal for that channel is ignored.
    let sig = Signal::UserMessage {
        sender_name: "bob".to_string(),
        body: "hi".to_string(),
        channel_name: "ghost".to_string(),
    };
    assert!(matches!(sess.handle_signal(&sig), SigAction::Ignore));
}

#[test]
fn unhandled_or_unparseable_lines_are_silently_ignored() {
    let reg = Registry::new();
    let mut sess = Session::new();
    let (reply, rx) = sess.handle_line(&reg, "PING :tmi.twitch.tv");
    assert!(reply.is_none());
    assert!(rx.is_none());
    let (reply, rx) = sess.handle_line(&reg, "   ");
    assert!(reply.is_none());
    assert!(rx.is_none());
}

#[test]
fn user_message_for_the_joined_channel_becomes_one_privmsg_line() {
    let mut reg = Registry::new();
    let channel = reg.resolve_or_create(1);
    let mut sess = Session::new();
    sess.handle_line(&reg, "NICK alice");
    let join_line = format!("JOIN #{}", channel);
    let (_, rx) = sess.handle_line(&reg, join_line.as_str());
    assert!(rx.is_some());

    let sig = Signal::UserMessage {
        sender_name: "bob".to_string(),
        body: "hi".to_string(),
        channel_name: channel.clone(),
    };
    match sess.handle_signal(&sig) {
        SigAction::Write(line) => {
            assert_eq!(
                line,
                format!("@badge-info=;@display-name=bob; PRIVMSG #{channel} :hi\r\n")
            );
            assert!(line.contains("bob"));
            assert!(line.contains("hi"));
        }
        _ => panic!("expected a chat line"),
    }
}

#[test]
fn user_message_for_a_different_channel_is_ignored() {
    let mut reg = Registry::new();
    let channel = reg.resolve_or_create(1);
    let mut sess = Session::new();
    sess.handle_line(&reg, "NICK alice");
    let join_line = format!("JOIN #{}", channel);
    sess.handle_line(&reg, join_line.as_str());

    let sig = Signal::UserMessage {
        sender_name: "bob".to_string(),
        body: "hi".to_string(),
        channel_name: format!("{}x", channel),
    };
    assert!(matches!(sess.handle_signal(&sig), SigAction::Ignore));
}

#[test]
fn disconnect_for_the_joined_channel_closes_and_others_do_not() {
    let mut reg = Registry::new();
    let channel = reg.resolve_or_create(1);
    let mut sess = Session::new();
    sess.handle_line(&reg, "NICK alice");
    let join_line = format!("JOIN #{}", channel);
    sess.handle_line(&reg, join_line.as_str());

    let other = Signal::Disconnect { channel_name: format!("{}x", channel) };
    assert!(matches!(sess.handle_signal(&other), SigAction::Ignore));

    let mine = Signal::Disconnect { channel_name: channel.clone() };
    assert!(matches!(sess.handle_signal(&mine), SigAction::Close));
}

#[test]
fn rejoining_a_different_channel_replaces_the_subscription() {
    let mut reg = Registry::new();
    let first = reg.resolve_or_create(1);
    let second = reg.resolve_or_create(2);
    let mut sess = Session::new();
    sess.handle_line(&reg, "NICK alice");

    let join_first = format!("JOIN #{}", first);
    let (_, rx_first) = sess.handle_line(&reg, join_first.as_str());
    let mut rx_first = rx_first.unwrap();

    let join_second = format!("JOIN #{}", second);
    let (reply, rx_second) = sess.handle_line(&reg, join_second.as_str());
    assert_eq!(reply.unwrap(), expected_join("alice", second.as_str()));
    let mut rx_second = rx_second.unwrap();

    // The session now reacts to the second channel only.
    let sig = Signal::UserMessage {
        sender_name: "bob".to_string(),
        body: "hi".to_string(),
        channel_name: first.clone(),
    };
    assert!(matches!(sess.handle_signal(&sig), SigAction::Ignore));

    // And publishes on the second channel reach the new subscription.
    assert!(reg.publish_user_message(2, "bob", "hi"));
    assert!(try_receive(&mut rx_second).is_some());
    assert!(try_receive(&mut rx_first).is_none());
}
