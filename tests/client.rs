use bouyomi::client::BouyomiClient;
use bouyomi::config::TalkConfig;
use bouyomi::wait::Waiter;

#[test]
fn it_works() {
    // reimu client object
    let mut config = TalkConfig::default();
    config
        .set_voice(1)
        .set_volume(100)
        .set_speed(100)
        .set_tone(100);
    let reimu = BouyomiClient::new().set_config(config);

    println!(
        "host: {}, port: {}, voice: {}, volume: {}, speed: {}, tone: {}",
        reimu.host(),
        reimu.port(),
        reimu.config().voice,
        reimu.config().volume,
        reimu.config().speed,
        reimu.config().tone
    );
    assert_eq!(reimu.host(), "127.0.0.1");
    assert_eq!(reimu.port(), "50001");
    assert_eq!(reimu.config().voice, 1);
    assert_eq!(reimu.config().volume, 100);
    assert_eq!(reimu.config().speed, 100);
    assert_eq!(reimu.config().tone, 100);

    // marisa client object
    let mut config = TalkConfig::default();
    config.set_voice(2);
    let marisa = BouyomiClient::new()
        .set_host("127.0.0.1")
        .set_port("50001")
        .set_config(config);
    assert_eq!(marisa.config().voice, 2);
    assert_eq!(marisa.config().volume, 80);

    // the exchanges that speak each line
    let first = "ねえねえ、魔理沙、何してるの？";
    let request = reimu.talk(first);
    assert_eq!(request.host, "127.0.0.1");
    assert_eq!(request.port, "50001");
    assert!(!request.expects_reply);
    assert_eq!(request.packet.len(), 15 + first.len());
    assert_eq!(&request.packet[15..], first.as_bytes());

    let second = "おすおす、霊夢、お昼ごはんを作ってたぜ？";
    let request = marisa.talk(second);
    assert_eq!(request.packet[8..10], [2, 0]);
    assert_eq!(&request.packet[15..], second.as_bytes());

    // a wait of 60 seconds while the application keeps playing
    let mut w = Waiter::new(60);
    let mut polls = 0;
    while w.next_poll() {
        polls += 1;
        assert!(w.after_poll(Ok(true)));
    }
    assert_eq!(polls, 59);

    println!("success!");
}

#[test]
fn default_client_targets_local_port() {
    let c = BouyomiClient::new();
    assert_eq!(c.host(), "127.0.0.1");
    assert_eq!(c.port(), "50001");
    let cfg = c.config();
    assert_eq!((cfg.code, cfg.voice, cfg.volume, cfg.speed, cfg.tone), (0, 0, 80, 100, 100));
}

#[test]
fn setters_replace_one_field_each() {
    let mut cfg = TalkConfig::new();
    cfg.set_volume(-1);
    assert_eq!(cfg, TalkConfig { code: 0, voice: 0, volume: -1, speed: 100, tone: 100 });
    cfg.set_speed(300).set_tone(50);
    assert_eq!(cfg, TalkConfig { code: 0, voice: 0, volume: -1, speed: 300, tone: 50 });
    let c = BouyomiClient::new().set_host("192.168.0.2").set_port("50002");
    assert_eq!(c.host(), "192.168.0.2");
    assert_eq!(c.port(), "50002");
    assert_eq!(*c.config(), TalkConfig::new());
}

#[test]
fn requests_go_to_the_configured_target() {
    let c = BouyomiClient::new().set_host("example.host").set_port("1234");
    for r in [c.pause(), c.resume(), c.skip(), c.clear(), c.talk("x")] {
        assert_eq!(r.host, "example.host");
        assert_eq!(r.port, "1234");
        assert!(!r.expects_reply);
    }
}
