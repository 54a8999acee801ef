use std::time::Duration;

use mpris_osc::chatbox::{chatbox_datagram, chatbox_message, chatbox_text, compose_chatbox_line, debug_texts};
use mpris_osc::media::{PlaybackStatus, PlayerProgress};
use mpris_osc::wire::{encode_message, OscArg, OscMessage};

fn sample(status: PlaybackStatus) -> PlayerProgress {
    PlayerProgress {
        title: Some("Song".to_string()),
        length: Some(Duration::from_secs(200)),
        artists: Some(vec!["A".to_string(), "B".to_string()]),
        album_name: Some("Album".to_string()),
        status,
        position: Duration::from_secs(60),
    }
}

fn empty(status: PlaybackStatus) -> PlayerProgress {
    PlayerProgress {
        title: None,
        length: None,
        artists: None,
        album_name: None,
        status,
        position: Duration::from_secs(0),
    }
}

fn padded(bytes: &[u8]) -> Vec<u8> {
    let mut v = bytes.to_vec();
    v.push(0);
    while v.len() % 4 != 0 {
        v.push(0);
    }
    v
}

#[test]
fn chatbox_text_playing_full_fields() {
    let text = chatbox_text(&sample(PlaybackStatus::Playing), 3);
    assert_eq!(
        text,
        "\u{266A} \u{25B6}\u{FE0E}Song [Album] by [\"A\", \"B\"] \n\u{2588}\u{2588}\u{2588}\u{2592}\u{2592}\u{2592}\u{2592}\u{2592}\u{2592}\u{2592}\n\u{2764}\u{FE0F} MPRIS"
    );
}

#[test]
fn chatbox_text_matches_original_format() {
    let p = sample(PlaybackStatus::Paused);
    let filled = 4usize;
    let expected = format!(
        "\u{266A} {}{} [{}] by {:?} \n{:\u{2592}<10}\n\u{2764}\u{FE0F} MPRIS",
        "\u{23F8}",
        "Song",
        "Album",
        vec!["A".to_string(), "B".to_string()],
        "\u{2588}".repeat(filled)
    );
    assert_eq!(chatbox_text(&p, filled), expected);
}

#[test]
fn chatbox_text_defaults_when_absent() {
    let text = chatbox_text(&empty(PlaybackStatus::Stopped), 0);
    assert_eq!(
        text,
        "\u{266A} \u{23F8}nothing [] by [] \n\u{2592}\u{2592}\u{2592}\u{2592}\u{2592}\u{2592}\u{2592}\u{2592}\u{2592}\u{2592}\n\u{2764}\u{FE0F} MPRIS"
    );
}

#[test]
fn chatbox_bar_wider_than_ten_when_overfull() {
    let text = chatbox_text(&empty(PlaybackStatus::Playing), 12);
    let bar: String = "\u{2588}".repeat(12);
    assert!(text.contains(&format!(" \n{}\n", bar)));
    assert!(!text.contains('\u{2592}'));
}

#[test]
fn chatbox_bar_exactly_ten() {
    let text = chatbox_text(&empty(PlaybackStatus::Playing), 10);
    assert!(text.contains(&format!(" \n{}\n", "\u{2588}".repeat(10))));
    assert!(!text.contains('\u{2592}'));
}

#[test]
fn debug_texts_quote_and_escape() {
    let items = vec!["plain".to_string(), "say \"hi\"\n".to_string()];
    let texts = debug_texts(&items);
    assert_eq!(texts, vec!["\"plain\"".to_string(), "\"say \\\"hi\\\"\\n\"".to_string()]);
}

#[test]
fn compose_uses_given_artist_texts() {
    let p = sample(PlaybackStatus::Playing);
    let line = compose_chatbox_line(&p, &vec!["x".to_string(), "y".to_string(), "z".to_string()], 1);
    assert!(line.contains("by [x, y, z] \n"));
}

#[test]
fn chatbox_message_shape() {
    let msg = chatbox_message(&sample(PlaybackStatus::Playing), 2);
    assert_eq!(msg.addr, "/chatbox/input");
    assert_eq!(msg.args.len(), 2);
    match &msg.args[0] {
        OscArg::Str(s) => assert_eq!(s, &chatbox_text(&sample(PlaybackStatus::Playing), 2)),
        _ => panic!("first argument is not a string"),
    }
    assert!(matches!(msg.args[1], OscArg::Bool(true)));
}

#[test]
fn chatbox_datagram_layout() {
    let p = sample(PlaybackStatus::Playing);
    let bytes = chatbox_datagram(&p, 5);
    let mut expected = padded(b"/chatbox/input");
    expected.extend(padded(b",sT"));
    expected.extend(padded(chatbox_text(&p, 5).as_bytes()));
    assert_eq!(bytes, expected);
    assert_eq!(bytes.len() % 4, 0);
}

#[test]
fn chatbox_datagram_equals_rosc_encoding() {
    let p = empty(PlaybackStatus::Paused);
    let packet = rosc::OscPacket::Message(rosc::OscMessage {
        addr: "/chatbox/input".to_string(),
        args: vec![rosc::OscType::String(chatbox_text(&p, 7)), rosc::OscType::Bool(true)],
    });
    assert_eq!(chatbox_datagram(&p, 7), rosc::encoder::encode(&packet).unwrap());
}

#[test]
fn encode_message_bool_false_and_alignment() {
    let msg = OscMessage { addr: "/ab".to_string(), args: vec![OscArg::Bool(false), OscArg::Str("abcd".to_string())] };
    let bytes = encode_message(&msg);
    assert_eq!(
        bytes,
        vec![b'/', b'a', b'b', 0, b',', b'F', b's', 0, b'a', b'b', b'c', b'd', 0, 0, 0, 0]
    );
}

#[test]
fn encode_message_no_args() {
    let msg = OscMessage { addr: "/abcd".to_string(), args: vec![] };
    let bytes = encode_message(&msg);
    assert_eq!(bytes, vec![b'/', b'a', b'b', b'c', b'd', 0, 0, 0, b',', 0, 0, 0]);
}

#[test]
fn encode_message_utf8_string() {
    let msg = OscMessage { addr: "/x".to_string(), args: vec![OscArg::Str("\u{e9}".to_string())] };
    let bytes = encode_message(&msg);
    assert_eq!(bytes, vec![b'/', b'x', 0, 0, b',', b's', 0, 0, 0xC3, 0xA9, 0, 0]);
}
