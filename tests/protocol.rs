use chess_engine::game::{Clock, Clocks, ColorKind, Kind, TimeFormat, Variant};

fn clock(nanos: u64) -> Clock {
    Clock { times: vec![1_000, 2_000], time_format: TimeFormat::Unlimited, nanos_on_clock: Some(nanos) }
}

#[test]
fn chess_supports_both_variants() {
    assert!(Kind::Chess.supports_variant(&Variant::Chess960));
    assert!(Kind::Chess.supports_variant(&Variant::NoCastling));
}

#[test]
fn clocks_are_found_by_color() {
    let mut clocks = Clocks::new();
    assert!(clocks.get_clock(ColorKind(0)).is_none());
    clocks.push(clock(5));
    clocks.push(clock(7));
    clocks.push(clock(9));
    assert_eq!(clocks.len(), 3);
    assert_eq!(clocks.get_clock(ColorKind(1)).unwrap().nanos_on_clock, Some(7));
    assert_eq!(clocks.get_clock(ColorKind(2)).unwrap().nanos_on_clock, Some(9));
    assert_eq!(clocks.get_clock(ColorKind(0)).unwrap().times, vec![1_000, 2_000]);
    assert!(clocks.get_clock(ColorKind(3)).is_none());
}
