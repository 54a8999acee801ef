use std::time::Duration;

use mpris_osc::media::{poll_step, MediaPlayer, PlaybackStatus, PlayerProgress, PollStep, StatusIcon};
use mpris_osc::osc::{datagram_for, default_address, OscConnState, OscConnection, OscManagement, OscPanel, SenderState};
use mpris_osc::window::HelloWorld;
use mpris_osc::chatbox::chatbox_datagram;

fn sample() -> PlayerProgress {
    PlayerProgress {
        title: Some("T".to_string()),
        length: Some(Duration::from_millis(1500)),
        artists: Some(vec!["X".to_string(), "Y".to_string(), "Z".to_string()]),
        album_name: None,
        status: PlaybackStatus::Paused,
        position: Duration::from_millis(300),
    }
}

#[test]
fn labels_with_values() {
    let p = sample();
    assert_eq!(p.title_label(), "T");
    assert_eq!(p.artists_label(), "X, Y, Z");
    assert_eq!(p.status_icon(), StatusIcon::Pause);
}

#[test]
fn labels_with_defaults() {
    let mut p = sample();
    p.title = None;
    p.artists = None;
    p.status = PlaybackStatus::Stopped;
    assert_eq!(p.title_label(), "not found");
    assert_eq!(p.artists_label(), "no artists found?");
    assert_eq!(p.status_icon(), StatusIcon::CircleX);
    p.status = PlaybackStatus::Playing;
    assert_eq!(p.status_icon(), StatusIcon::Play);
}

#[test]
fn artists_label_single_and_empty() {
    let mut p = sample();
    p.artists = Some(vec!["Solo".to_string()]);
    assert_eq!(p.artists_label(), "Solo");
    p.artists = Some(vec![]);
    assert_eq!(p.artists_label(), "");
}

#[test]
fn clone_keeps_content() {
    let p = sample();
    let c = p.clone();
    assert_eq!(c.title, p.title);
    assert_eq!(c.artists, p.artists);
    assert_eq!(c.album_name, p.album_name);
    assert_eq!(c.status, p.status);
    assert_eq!(c.length, p.length);
    assert_eq!(c.position, p.position);
}

#[test]
fn media_player_records_and_idles() {
    let mut mp = MediaPlayer::new();
    assert_eq!(mp.idle_notice(), Some("no playing :<".to_string()));
    mp.record(sample());
    assert_eq!(mp.idle_notice(), None);
    assert_eq!(mp.last_state.as_ref().unwrap().title, Some("T".to_string()));
    let mut other = sample();
    other.title = Some("U".to_string());
    mp.record(other);
    assert_eq!(mp.last_state.as_ref().unwrap().title, Some("U".to_string()));
}

#[test]
fn poll_steps() {
    assert_eq!(poll_step(Some(true)), PollStep::Track);
    assert_eq!(poll_step(Some(false)), PollStep::Search);
    assert_eq!(poll_step(None), PollStep::Search);
}

#[test]
fn connection_reports() {
    let mut c = OscConnection::new("127.0.0.1:9000".to_string());
    assert!(matches!(c.state, OscConnState::Connecting));
    assert!(!c.apply_report(Some(OscConnState::Connected)));
    assert!(matches!(c.state, OscConnState::Connected));
    assert!(c.apply_report(Some(OscConnState::Closed(Some("refused".to_string())))));
    assert!(matches!(&c.state, OscConnState::Closed(Some(m)) if m == "refused"));
    let mut d = OscConnection::new("a".to_string());
    assert!(d.apply_report(None));
    assert!(matches!(d.state, OscConnState::Closed(None)));
    assert_eq!(d.addr, "a");
}

#[test]
fn management_panels() {
    let mut m = OscManagement::new();
    assert_eq!(m.panel(), OscPanel::AddressForm);
    m.connect(default_address());
    assert_eq!(m.panel(), OscPanel::Connecting);
    assert_eq!(m.conn.as_ref().unwrap().addr, "127.0.0.1:9000");
    m.conn.as_mut().unwrap().apply_report(Some(OscConnState::Connected));
    assert_eq!(m.panel(), OscPanel::Disconnect);
    m.conn.as_mut().unwrap().apply_report(Some(OscConnState::Closed(None)));
    assert_eq!(m.panel(), OscPanel::AddressForm);
}

#[test]
fn sender_reports_connected_once() {
    let mut s = SenderState::new();
    let a = s.after_send(Ok(32));
    assert!(matches!(a.report, Some(OscConnState::Connected)));
    assert!(!a.stop);
    for _ in 0..3 {
        let b = s.after_send(Ok(32));
        assert!(b.report.is_none());
        assert!(!b.stop);
    }
    let c = s.after_send(Err("gone".to_string()));
    assert!(c.stop);
    assert!(matches!(&c.report, Some(OscConnState::Closed(Some(m))) if m == "gone"));
    assert!(matches!(s.finish(), OscConnState::Closed(None)));
}

#[test]
fn sender_failure_first() {
    let mut s = SenderState::new();
    let c = s.after_send(Err("no route".to_string()));
    assert!(c.stop);
    assert!(!s.connected);
}

#[test]
fn datagram_only_for_snapshots() {
    assert!(datagram_for(&None, 3).is_none());
    let p = sample();
    assert_eq!(datagram_for(&Some(p.clone()), 3), Some(chatbox_datagram(&p, 3)));
}

#[test]
fn window_starts_empty() {
    let w = HelloWorld::new();
    assert!(w.mp.last_state.is_none());
    assert!(w.oscm.conn.is_none());
}

#[test]
fn setup_failure_reports_closed() {
    assert!(matches!(SenderState::setup_failed("bind".to_string()), OscConnState::Closed(Some(m)) if m == "bind"));
}

#[test]
fn connection_life_scenario() {
    // The task's reports for: success, success, failure; applied in order.
    let mut conn = OscConnection::new("127.0.0.1:9000".to_string());
    let mut sender = SenderState::new();
    let mut seen = Vec::new();
    for sent in [Ok(40), Ok(40), Err("refused".to_string())] {
        let step = sender.after_send(sent);
        if let Some(report) = step.report {
            let stop = conn.apply_report(Some(report));
            seen.push(format!("{:?}", conn.state));
            if stop {
                break;
            }
        }
        if step.stop {
            break;
        }
    }
    assert_eq!(seen, vec!["Connected".to_string(), "Closed(Some(\"refused\"))".to_string()]);
    // A later Closed(None) from finish is not taken in: the listener stopped.
    assert!(matches!(sender.finish(), OscConnState::Closed(None)));
}
