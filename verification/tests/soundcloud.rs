use scli::soundcloud::{Client, ResolveError, Track, User};

fn sample_track() -> Track {
    Track {
        duration: 271019,
        genre: String::from("ambient"),
        waveform_url: String::from("https://w1.sndcdn.com/abcdef.png"),
        stream_url: String::from("https://api.soundcloud.com/tracks/42/stream"),
        title: String::from("a track"),
        user: User { username: String::from("someone") },
    }
}

#[test]
fn client_carries_id_and_base_url() {
    let c = Client::new();
    assert_eq!(c.client_id, "nWYlHdW5jX1OyNQ9pipPhlUK9xDX8XFF");
    assert_eq!(c.url, "https://api.soundcloud.com");
}

#[test]
fn resolve_request_targets_the_resolve_endpoint() {
    let c = Client::new();
    let r = c.resolve_request("https://soundcloud.com/someone/a-track");
    assert_eq!(r.url, "https://api.soundcloud.com/resolve");
    assert_eq!(r.query.len(), 2);
    assert_eq!(r.query[0].name, "client_id");
    assert_eq!(r.query[0].value, c.client_id);
    assert_eq!(r.query[1].name, "url");
    assert_eq!(r.query[1].value, "https://soundcloud.com/someone/a-track");
    assert!(r.user_agent);
}

#[test]
fn located_request_carries_the_credential() {
    let c = Client::new();
    let r = c.located_request("https://api.soundcloud.com/tracks/42");
    assert_eq!(r.url, "https://api.soundcloud.com/tracks/42");
    assert_eq!(r.query.len(), 1);
    assert_eq!(r.query[0].name, "client_id");
    assert_eq!(r.query[0].value, c.client_id);
    assert!(r.user_agent);
}

#[test]
fn raw_request_is_bare() {
    let c = Client::new();
    let r = c.raw_request("https://cdn.example.net/blob");
    assert_eq!(r.url, "https://cdn.example.net/blob");
    assert!(r.query.is_empty());
    assert!(!r.user_agent);
}

#[test]
fn wave_request_rewrites_png_to_json() {
    let c = Client::new();
    let r = c.wave_request(&sample_track());
    assert_eq!(r.url, "https://w1.sndcdn.com/abcdef.json");
    assert!(r.query.is_empty());
    assert!(r.user_agent);
}

#[test]
fn wave_request_rewrites_every_occurrence() {
    let c = Client::new();
    let mut t = sample_track();
    t.waveform_url = String::from("https://x.png.host/wave.png");
    let r = c.wave_request(&t);
    assert_eq!(r.url, "https://x.json.host/wave.json");
}

#[test]
fn wave_request_without_png_suffix_is_unchanged() {
    let c = Client::new();
    let mut t = sample_track();
    t.waveform_url = String::from("https://w1.sndcdn.com/abcdef.dat");
    let r = c.wave_request(&t);
    assert_eq!(r.url, "https://w1.sndcdn.com/abcdef.dat");
}

#[test]
fn statuses_classify_by_kind() {
    assert_eq!(scli::soundcloud::classify_status(200), Ok(()));
    assert_eq!(scli::soundcloud::classify_status(204), Ok(()));
    assert_eq!(scli::soundcloud::classify_status(299), Ok(()));
    assert_eq!(scli::soundcloud::classify_status(401), Err(ResolveError::Auth));
    assert_eq!(scli::soundcloud::classify_status(403), Err(ResolveError::Auth));
    assert_eq!(scli::soundcloud::classify_status(404), Err(ResolveError::NotFound));
    assert_eq!(scli::soundcloud::classify_status(302), Err(ResolveError::Transport));
    assert_eq!(scli::soundcloud::classify_status(500), Err(ResolveError::Transport));
}
