use megalodon::SNS;

#[test]
fn tokens_round_trip() {
    for token in ["mastodon", "pleroma", "misskey"] {
        let sns = SNS::from_token(token).unwrap();
        assert_eq!(sns.to_string(), token);
    }
}

#[test]
fn tokens_render() {
    assert_eq!(SNS::Mastodon.to_string(), "mastodon");
    assert_eq!(SNS::Pleroma.to_string(), "pleroma");
    assert_eq!(SNS::Misskey.to_string(), "misskey");
}

#[test]
fn unknown_token_is_an_error() {
    assert_eq!(SNS::from_token("friendica"), Err(String::from("Unknown sns: friendica")));
    assert_eq!(SNS::from_token(""), Err(String::from("Unknown sns: ")));
    assert!(SNS::from_token("Mastodon").is_err());
    assert!(SNS::from_token("mastodon ").is_err());
}

#[test]
fn parse_through_from_str() {
    assert_eq!("pleroma".parse::<SNS>(), Ok(SNS::Pleroma));
    assert_eq!("misskey".parse::<SNS>(), Ok(SNS::Misskey));
    assert!("gnusocial".parse::<SNS>().is_err());
}

#[test]
fn from_str_rejects_near_misses() {
    for s in ["Mastodon", "PLEROMA", "", " misskey", "mastodon/", "friendica"] {
        assert_eq!(s.parse::<SNS>(), Err(format!("Unknown sns: {}", s)));
    }
    for k in [SNS::Mastodon, SNS::Pleroma, SNS::Misskey] {
        assert_eq!(k.to_string().parse::<SNS>(), Ok(k));
    }
}
