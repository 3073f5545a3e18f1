use backend::filters::{ipv4_key, ipv6_key, pick_client_ip};
use backend::game::{GameConfig, LoadError};
use backend::rate_limiter::IpKey;
use backend::rpc::rpc_types::RPCServerMessage;
use backend::{create_game, decode_rgb, palette_entries, user_count_message, DEFAULT_COLOR};

#[test]
fn forwarded_address_is_preferred() {
    let (one, two) = (IpKey::V4(1), IpKey::V6(2));
    assert_eq!(pick_client_ip(Some(one), Some(two)), Some(one));
    assert_eq!(pick_client_ip(None, Some(two)), Some(two));
    assert_eq!(pick_client_ip(Some(one), None), Some(one));
    assert_eq!(pick_client_ip(None, None), None);
}

#[test]
fn addresses_as_keys() {
    assert_eq!(ipv4_key(127, 0, 0, 1), IpKey::V4(0x7f00_0001));
    assert_eq!(ipv4_key(255, 255, 255, 255), IpKey::V4(u32::MAX));
    assert_eq!(ipv6_key([0x2001, 0xdb8, 0, 0, 0, 0, 0, 1]), IpKey::V6(0x2001_0db8_0000_0000_0000_0000_0000_0001));
    assert_eq!(ipv6_key([0xffff; 8]), IpKey::V6(u128::MAX));
    // An IPv4 address and the IPv6 address that maps it are different keys.
    assert_ne!(ipv6_key([0, 0, 0, 0, 0, 0xffff, 0x7f00, 1]), ipv4_key(127, 0, 0, 1));
}

#[test]
fn user_count() {
    assert_eq!(user_count_message(10), RPCServerMessage::UpdateUserCount(10));
    assert_eq!(user_count_message(0), RPCServerMessage::UpdateUserCount(0));
}

#[test]
fn palette() {
    assert_eq!(decode_rgb(0x6d001a), (0x6d, 0x00, 0x1a));
    assert_eq!(decode_rgb(0xffffff), (255, 255, 255));
    assert_eq!(decode_rgb(0xff123456), (0x12, 0x34, 0x56));
    let entries = palette_entries(&vec![0xbe0039, 0x000000, 0xd4d7d9]);
    assert_eq!(entries, vec![(0, (0xbe, 0x00, 0x39)), (1, (0, 0, 0)), (2, (0xd4, 0xd7, 0xd9))]);
}

#[test]
fn starting_game() {
    let config = GameConfig { width: 3, height: 2, tile_wait_time: 10 };
    let g = create_game(None, config).unwrap();
    assert_eq!(g.snapshot(), vec![DEFAULT_COLOR; 6]);
    let g = create_game(Some(vec![1, 2, 3, 4, 5, 6]), config).unwrap();
    assert_eq!(g.snapshot(), vec![1, 2, 3, 4, 5, 6]);
    assert_eq!(create_game(Some(vec![1, 2]), config).unwrap_err(), LoadError::InvalidBoardSize);
    assert_eq!(create_game(Some(vec![1, 2, 3, 4, 5, 99]), config).unwrap_err(), LoadError::InvalidBoardData);
}
