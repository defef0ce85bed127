use compa::domain::{ChannelKey, PayloadKind, UnknownKind};

#[test]
fn kind_names_are_canonical() {
    assert_eq!(PayloadKind::CoreMotion.as_str(), "core-motion");
    assert_eq!(PayloadKind::PadCoordinates.as_str(), "pad-coordinates");
}

#[test]
fn known_kind_is_accepted() {
    assert_eq!(PayloadKind::parse("core-motion"), Ok(PayloadKind::CoreMotion));
    assert_eq!(PayloadKind::parse("pad-coordinates"), Ok(PayloadKind::PadCoordinates));
}

#[test]
fn unknown_kind_is_refused() {
    assert_eq!(PayloadKind::parse("bogus-kind"), Err(UnknownKind));
    assert_eq!(PayloadKind::parse(""), Err(UnknownKind));
    assert_eq!(PayloadKind::parse("Core-Motion"), Err(UnknownKind));
}

#[test]
fn from_str_matches_parse() {
    let k: PayloadKind = "pad-coordinates".parse().unwrap();
    assert_eq!(k, PayloadKind::PadCoordinates);
    assert_eq!("core-motion".parse::<PayloadKind>(), Ok(PayloadKind::CoreMotion));
    assert_eq!("bogus-kind".parse::<PayloadKind>(), Err(UnknownKind));
    assert_eq!(" core-motion".parse::<PayloadKind>(), Err(UnknownKind));
    for k in [PayloadKind::CoreMotion, PayloadKind::PadCoordinates] {
        assert_eq!(k.as_str().parse::<PayloadKind>(), Ok(k));
    }
}

#[test]
fn kind_names_round_trip() {
    for k in [PayloadKind::CoreMotion, PayloadKind::PadCoordinates] {
        assert_eq!(PayloadKind::parse(k.as_str()), Ok(k));
    }
}

#[test]
fn keys_compare_by_both_fields() {
    let a = ChannelKey::new("device-7", PayloadKind::CoreMotion);
    assert_eq!(a, a.duplicate());
    assert_ne!(a, ChannelKey::new("device-7", PayloadKind::PadCoordinates));
    assert_ne!(a, ChannelKey::new("device-8", PayloadKind::CoreMotion));
}

#[test]
fn connection_with_unknown_kind_is_refused() {
    assert_eq!(ChannelKey::from_request("bogus-kind", "device-7"), Err(UnknownKind));
    let key = ChannelKey::from_request("core-motion", "device-7").unwrap();
    assert_eq!(key.device_id, "device-7");
    assert_eq!(key.kind, PayloadKind::CoreMotion);
}
