//! Join codes, tokens and the registry of live rooms.

use std::collections::HashSet;

use channel_zero::db::random_batch_id;
use channel_zero::error::AppError;
use channel_zero::registry::{
    code_from, nth_code, random_code, random_codes, random_hex, random_token, Registry, CODES,
    CODE_ALPHABET, CODE_LEN,
};
use channel_zero::routes::{check_catalog, create_room, room_info};
use channel_zero::state::PromptSet;
use channel_zero::text::{to_decimal, to_hex};

fn sets() -> Vec<PromptSet> {
    vec![PromptSet {
        id: 1,
        name: "Set".into(),
        author: "Eric".into(),
        prompts: vec!["a ".into()],
    }]
}

/// A stand-in for a room's handle: its code and its token.
fn start(code: String, token: String) -> (String, String) {
    (code, token)
}

#[test]
fn create_and_lookup() {
    let mut reg: Registry<(String, String)> = Registry::new();
    let room = reg.create_room(start).unwrap();
    assert_eq!(room.code.len(), CODE_LEN);
    assert!(reg.get(&room.code).is_some());
    assert!(reg.get("ZZZZ").is_none());
    assert_eq!(reg.count(), 1);
}

#[test]
fn codes_are_unique_across_many_rooms() {
    let mut reg: Registry<(String, String)> = Registry::new();
    let mut codes = HashSet::new();
    for _ in 0..50 {
        let room = reg.create_room(start).unwrap();
        assert!(codes.insert(room.code), "duplicate code generated");
    }
    assert_eq!(reg.count(), 50);
}

#[test]
fn every_room_counts_once() {
    let mut reg: Registry<(String, String)> = Registry::new();
    let mut codes = Vec::new();
    for n in 0..20 {
        assert_eq!(reg.count(), n);
        codes.push(reg.create_room(start).unwrap().code);
        assert_eq!(reg.count(), n + 1);
        assert!(codes.iter().all(|c| reg.get(c).unwrap().0 == *c));
    }
    for (n, code) in codes.iter().enumerate() {
        assert!(reg.remove(code));
        assert!(!reg.remove(code));
        assert_eq!(reg.count(), 19 - n);
    }
}

#[test]
fn a_room_is_started_with_its_code_and_token() {
    let mut reg: Registry<(String, String)> = Registry::new();
    let room = reg.create_room(start).unwrap();
    assert_eq!(reg.get(&room.code), Some(&(room.code.clone(), room.host_token.clone())));
}

#[test]
fn a_code_in_use_is_not_opened_again() {
    let mut reg: Registry<u8> = Registry::new();
    let room = reg.open_room("AAAA".into(), "t1".into(), |_, _| 1).unwrap();
    assert_eq!(room.code, "AAAA");
    assert_eq!(room.host_token, "t1");
    assert!(reg.open_room("AAAA".into(), "t2".into(), |_, _| 2).is_none());
    assert_eq!(reg.get("AAAA"), Some(&1));
    assert_eq!(reg.count(), 1);
}

#[test]
fn a_removed_room_is_gone() {
    let mut reg: Registry<u8> = Registry::new();
    reg.open_room("AAAA".into(), "t".into(), |_, _| 1).unwrap();
    reg.open_room("BBBB".into(), "t".into(), |_, _| 2).unwrap();
    reg.open_room("CCCC".into(), "t".into(), |_, _| 3).unwrap();
    assert!(reg.remove("BBBB"));
    assert!(!reg.remove("BBBB"));
    assert!(reg.get("BBBB").is_none());
    assert_eq!(reg.get("AAAA"), Some(&1));
    assert_eq!(reg.get("CCCC"), Some(&3));
    assert_eq!(reg.count(), 2);
}

#[test]
fn the_first_free_code_of_a_list_is_opened() {
    let codes = |list: &[&str]| list.iter().map(|c| c.to_string()).collect::<Vec<String>>();
    let mut reg: Registry<(String, String)> = Registry::new();
    assert!(reg.open_first(&vec![], "t".into(), start).is_none());
    assert_eq!(reg.count(), 0);
    let list = codes(&["AAAA", "BBBB", "AAAA", "CCCC"]);
    for expected in ["AAAA", "BBBB", "CCCC"] {
        let room = reg.open_first(&list, "t".into(), start).unwrap();
        assert_eq!(room.code, expected);
        assert_eq!(room.host_token, "t");
        assert_eq!(reg.get(expected), Some(&(expected.to_string(), "t".to_string())));
    }
    assert!(reg.open_first(&list, "t".into(), start).is_none());
    assert_eq!(reg.count(), 3);
}

#[test]
fn the_next_free_code_is_opened() {
    let mut reg: Registry<(String, String)> = Registry::new();
    for expected in ["9998", "9999", "AAAA", "AAAB"] {
        let room = reg.open_from(CODES - 2, "t".into(), start).unwrap();
        assert_eq!(room.code, expected);
    }
    assert_eq!(reg.count(), 4);
}

#[test]
fn codes_are_numbered() {
    assert_eq!(nth_code(0), "AAAA");
    assert_eq!(nth_code(30), "AAA9");
    assert_eq!(nth_code(31), "AABA");
    assert_eq!(nth_code(29791), "BAAA");
    assert_eq!(nth_code(CODES - 1), "9999");
    assert_eq!(CODES, 31 * 31 * 31 * 31);
}

#[test]
fn the_last_free_code_is_found_and_then_none() {
    let mut reg: Registry<u8> = Registry::new();
    for n in 0..CODES {
        if n != 500000 {
            reg.open_room(nth_code(n), String::new(), |_, _| 0).unwrap();
        }
    }
    let room = reg.create_room(|_, _| 1).unwrap();
    assert_eq!(room.code, nth_code(500000));
    assert_eq!(reg.get(&room.code), Some(&1));
    assert_eq!(reg.count(), CODES);
    assert!(reg.create_room(|_, _| 2).is_none());
    assert_eq!(create_room(&sets(), &mut reg, |_, _| 3), Ok(None));
    assert_eq!(reg.count(), CODES);
    assert!(reg.remove("AAAA"));
    assert_eq!(reg.create_room(|_, _| 4).unwrap().code, "AAAA");
}

#[test]
fn random_codes_are_as_many_as_asked() {
    assert!(random_codes(0).is_empty());
    let codes = random_codes(40);
    assert_eq!(codes.len(), 40);
    assert!(codes.iter().all(|c| c.len() == 4 && c.chars().all(|x| CODE_ALPHABET.contains(x))));
    assert!(codes.iter().any(|c| *c != codes[0]));
}

#[test]
fn a_code_spells_its_draws() {
    assert_eq!(code_from(&vec![0, 1, 22, 30]), "ABZ9");
    assert_eq!(code_from(&vec![]), "");
}

#[test]
fn random_codes_come_from_the_alphabet() {
    let mut seen = HashSet::new();
    for _ in 0..200 {
        let code = random_code();
        assert_eq!(code.len(), 4);
        assert!(code.chars().all(|c| CODE_ALPHABET.contains(c)));
        assert!(!code.chars().any(|c| "ILO01".contains(c)));
        seen.insert(code);
    }
    // The draws differ from one another.
    assert!(seen.len() > 100);
}

#[test]
fn random_tokens_are_long_hexadecimal_words() {
    let is_hex = |s: &str| s.chars().all(|c| "0123456789abcdef".contains(c));
    let a = random_token();
    let b = random_token();
    assert_eq!(a.len(), 48);
    assert!(is_hex(&a));
    assert_ne!(a, b);
    let batch = random_batch_id();
    assert_eq!(batch.len(), 32);
    assert!(is_hex(&batch));
    assert_ne!(batch, random_batch_id());
    assert_eq!(random_hex(0), "");
    assert_eq!(random_hex(5).len(), 10);
}

#[test]
fn notations_are_exact() {
    assert_eq!(to_hex(&vec![0, 1, 15, 16, 171, 255]), "00010f10abff");
    assert_ne!(to_hex(&vec![1, 16]), to_hex(&vec![16, 1]));
    for n in [0, 7, 10, 99, 100, 1234567890] {
        assert_eq!(to_decimal(n), format!("{n}"));
    }
    assert_eq!(to_decimal(usize::MAX), format!("{}", usize::MAX));
}

#[test]
fn a_room_needs_a_catalog() {
    let refusal = AppError::Internal("no prompt sets configured; cannot create a room".into());
    assert_eq!(check_catalog(&vec![]), Err(refusal));
    assert_eq!(check_catalog(&sets()), Ok(()));

    let mut reg: Registry<(String, String)> = Registry::new();
    assert!(matches!(
        create_room(&vec![], &mut reg, start),
        Err(AppError::Internal(_))
    ));
    assert_eq!(reg.count(), 0);
    let created = create_room(&sets(), &mut reg, start).unwrap().unwrap();
    assert_eq!(reg.get(&created.code).unwrap().1, created.host_token);
    assert!(room_info(&reg, &created.code).exists);
    assert!(!room_info(&reg, "nope").exists);
}
