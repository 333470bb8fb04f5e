use token_deployer::error::TokenDeployerError;
use token_deployer::instruction::{TokenDeployerInstruction, TokenParams};

fn demo_params() -> TokenParams {
    TokenParams {
        name: b"Demo".to_vec(),
        symbol: b"DEMO".to_vec(),
        decimals: 9,
        initial_supply: 1_000_000_000,
        image_url: b"".to_vec(),
        twitter_url: b"".to_vec(),
        telegram_url: b"".to_vec(),
    }
}

fn full_params() -> TokenParams {
    TokenParams {
        name: b"My Token".to_vec(),
        symbol: b"MTK".to_vec(),
        decimals: 6,
        initial_supply: 42_000_000_000_000,
        image_url: b"https://example.com/i.png".to_vec(),
        twitter_url: b"https://twitter.com/mtk".to_vec(),
        telegram_url: b"https://t.me/mtk".to_vec(),
    }
}

#[test]
fn round_trip_create_token() {
    let x = TokenDeployerInstruction::CreateToken(full_params());
    let bytes = x.encode();
    let y = TokenDeployerInstruction::decode(bytes.as_slice()).unwrap();
    assert_eq!(y, x);
}

#[test]
fn round_trip_create_token_empty_texts() {
    let x = TokenDeployerInstruction::CreateToken(TokenParams {
        name: b"".to_vec(),
        symbol: b"".to_vec(),
        decimals: 0,
        initial_supply: 0,
        image_url: b"".to_vec(),
        twitter_url: b"".to_vec(),
        telegram_url: b"".to_vec(),
    });
    let bytes = x.encode();
    let y = TokenDeployerInstruction::decode(bytes.as_slice()).unwrap();
    assert_eq!(y, x);
}

#[test]
fn round_trip_add_liquidity() {
    let x = TokenDeployerInstruction::AddLiquidity {
        token_amount: 500,
        quote_amount: 500,
    };
    let bytes = x.encode();
    let y = TokenDeployerInstruction::decode(bytes.as_slice()).unwrap();
    assert_eq!(y, x);
}

#[test]
fn round_trip_add_liquidity_extremes() {
    let x = TokenDeployerInstruction::AddLiquidity {
        token_amount: u64::MAX,
        quote_amount: 0,
    };
    let bytes = x.encode();
    let y = TokenDeployerInstruction::decode(bytes.as_slice()).unwrap();
    assert_eq!(y, x);
}

#[test]
fn encode_exact_add_liquidity() {
    let x = TokenDeployerInstruction::AddLiquidity {
        token_amount: 500,
        quote_amount: 500,
    };
    let bytes = x.encode();
    let mut expected: Vec<u8> = vec![1];
    expected.extend_from_slice(&500u64.to_le_bytes());
    expected.extend_from_slice(&500u64.to_le_bytes());
    assert_eq!(bytes, expected);
}

#[test]
fn encode_exact_create_token() {
    let x = TokenDeployerInstruction::CreateToken(TokenParams {
        name: b"AB".to_vec(),
        symbol: b"C".to_vec(),
        decimals: 2,
        initial_supply: 7,
        image_url: b"".to_vec(),
        twitter_url: b"".to_vec(),
        telegram_url: b"".to_vec(),
    });
    let bytes = x.encode();
    let expected: Vec<u8> = vec![
        0, // tag
        2, 0, 0, 0, b'A', b'B', // name
        1, 0, 0, 0, b'C', // symbol
        2, // decimals
        7, 0, 0, 0, 0, 0, 0, 0, // initial supply
        0, 0, 0, 0, // image url (empty)
        0, 0, 0, 0, // twitter url (empty)
        0, 0, 0, 0, // telegram url (empty)
    ];
    assert_eq!(bytes, expected);
}

#[test]
fn decode_empty_rejected() {
    let r = TokenDeployerInstruction::decode(&[]);
    assert_eq!(r, Err(TokenDeployerError::InvalidInstruction));
}

#[test]
fn decode_unknown_tag_rejected() {
    let r = TokenDeployerInstruction::decode(&[2]);
    assert_eq!(r, Err(TokenDeployerError::InvalidInstruction));
    let r = TokenDeployerInstruction::decode(&[255, 0, 0, 0]);
    assert_eq!(r, Err(TokenDeployerError::InvalidInstruction));
}

#[test]
fn decode_truncated_rejected_at_every_offset() {
    let x = TokenDeployerInstruction::CreateToken(demo_params());
    let bytes = x.encode();
    for cut in 0..bytes.len() {
        let r = TokenDeployerInstruction::decode(&bytes[..cut]);
        assert_eq!(r, Err(TokenDeployerError::InvalidInstruction));
    }
    let y = TokenDeployerInstruction::AddLiquidity {
        token_amount: 500,
        quote_amount: 500,
    };
    let bytes = y.encode();
    for cut in 0..bytes.len() {
        let r = TokenDeployerInstruction::decode(&bytes[..cut]);
        assert_eq!(r, Err(TokenDeployerError::InvalidInstruction));
    }
}

#[test]
fn decode_tag_corrupted_rejected() {
    let x = TokenDeployerInstruction::CreateToken(demo_params());
    let mut bytes = x.encode();
    bytes[0] = 1; // now claims AddLiquidity, but the length cannot match
    assert_ne!(bytes.len(), 17);
    let r = TokenDeployerInstruction::decode(bytes.as_slice());
    assert_eq!(r, Err(TokenDeployerError::InvalidInstruction));
    bytes[0] = 7; // unknown tag
    let r = TokenDeployerInstruction::decode(bytes.as_slice());
    assert_eq!(r, Err(TokenDeployerError::InvalidInstruction));
}

#[test]
fn decode_trailing_bytes_rejected() {
    let x = TokenDeployerInstruction::CreateToken(demo_params());
    let mut bytes = x.encode();
    bytes.push(0);
    let r = TokenDeployerInstruction::decode(bytes.as_slice());
    assert_eq!(r, Err(TokenDeployerError::InvalidInstruction));

    let y = TokenDeployerInstruction::AddLiquidity {
        token_amount: 1,
        quote_amount: 2,
    };
    let mut bytes = y.encode();
    bytes.push(0);
    let r = TokenDeployerInstruction::decode(bytes.as_slice());
    assert_eq!(r, Err(TokenDeployerError::InvalidInstruction));
}

#[test]
fn decode_overlong_field_length_rejected() {
    // a name length prefix that runs past the end of the buffer
    let bytes: Vec<u8> = vec![0, 200, 0, 0, 0, b'x', b'y'];
    let r = TokenDeployerInstruction::decode(bytes.as_slice());
    assert_eq!(r, Err(TokenDeployerError::InvalidInstruction));
}
