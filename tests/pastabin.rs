use std::collections::HashMap;

use pastabin::dispatch::{created_body, delete_status, find_password, route, route_delete, Method, Route};
use pastabin::passgen;
use pastabin::pasteid::{ParseError, PasteID, MAX_SIZE};
use pastabin::store::{after_reservation, decide_delete, CreateStep, DeleteOutcome, Reservation, MAX_ATTEMPTS};
use pastabin::strgen;

const SECRET_ALPHABET: &[u8] = b"0123456789ABCDEFGHIJKLMNOPQRSTUVWXYZabcdefghijklmnopqrstuvwxyz!@#$%^&*()_+=";

fn is_alnum(b: &[u8]) -> bool {
    b.iter().all(|c| c.is_ascii_alphanumeric())
}

fn read_id(r: Route) -> String {
    match r {
        Route::Read(id) => id.to_string(),
        _ => panic!("expected a read"),
    }
}

fn status(r: Route) -> u16 {
    match r {
        Route::Status(c) => c,
        _ => panic!("expected a status"),
    }
}

#[test]
fn parse_accepts_alphanumeric() {
    let id = PasteID::from_str("abcXYZ019").ok().unwrap();
    assert_eq!(id.as_str(), "abcXYZ019");
    assert!(PasteID::from_str("").is_ok());
}

#[test]
fn parse_length_limit() {
    let ok = "a".repeat(MAX_SIZE);
    assert_eq!(PasteID::from_str(&ok).ok().unwrap().as_str(), ok);
    let long = "a".repeat(MAX_SIZE + 1);
    assert_eq!(PasteID::from_str(&long).err(), Some(ParseError::LengthTooLong));
    let long_bad = " ".repeat(MAX_SIZE + 1);
    assert_eq!(PasteID::from_str(&long_bad).err(), Some(ParseError::LengthTooLong));
}

#[test]
fn parse_invalid_characters() {
    assert_eq!(PasteID::from_str("has a space").err(), Some(ParseError::InvalidCharacters));
    assert_eq!(PasteID::from_str("abc-def").err(), Some(ParseError::InvalidCharacters));
    assert_eq!(PasteID::from_str("caf\u{e9}").err(), Some(ParseError::InvalidCharacters));
}

#[test]
fn parse_error_messages() {
    assert_eq!(ParseError::LengthTooLong.message(), "ID length too long");
    assert_eq!(ParseError::InvalidCharacters.message(), "ID contains invalid characters");
}

#[test]
fn new_id_is_well_formed() {
    let id = PasteID::new(8);
    assert_eq!(id.as_str().len(), 8);
    assert!(is_alnum(id.as_str().as_bytes()));
    assert!(PasteID::from_str(id.as_str()).is_ok());
}

#[test]
fn filename_is_under_upload() {
    let id = PasteID::from_str("abc123").ok().unwrap();
    assert_eq!(id.filename(), "upload/abc123");
}

#[test]
fn id_symbols_from_draws() {
    assert_eq!(strgen::generate_from(&vec![0, 61, 62, 10, 36, 123]), b"0z0Aaz".to_vec());
    let g = strgen::generate(100);
    assert_eq!(g.len(), 100);
    assert!(is_alnum(&g));
}

#[test]
fn secret_symbols_from_draws() {
    assert_eq!(passgen::generate_from(&vec![62, 74, 75, 149, 35]), b"!=0=Z".to_vec());
    let g = passgen::generate(12);
    assert_eq!(g.len(), 12);
    assert!(g.iter().all(|c| SECRET_ALPHABET.contains(c)));
}

#[test]
fn get_routes() {
    assert!(matches!(route(Method::Get, "/"), Route::Usage));
    assert_eq!(status(route(Method::Get, "/favicon.ico")), 404);
    assert!(matches!(route(Method::Get, "/version"), Route::Version));
    assert_eq!(read_id(route(Method::Get, "/abc")), "abc");
    assert_eq!(read_id(route(Method::Get, "//abc")), "abc");
    assert_eq!(status(route(Method::Get, "/has a space")), 400);
}

#[test]
fn post_and_other_routes() {
    assert!(matches!(route(Method::Post, "/"), Route::Create));
    assert_eq!(status(route(Method::Post, "/abc")), 400);
    assert_eq!(status(route(Method::Other, "/")), 405);
}

#[test]
fn delete_routes() {
    match route(Method::Delete, "/abc?password=s3cret") {
        Route::Remove(id, pw) => {
            assert_eq!(id.as_str(), "abc");
            assert_eq!(pw, Some("s3cret".to_string()));
        }
        _ => panic!("expected a removal"),
    }
    match route(Method::Delete, "/abc?x=1&password=a%20b&password=c") {
        Route::Remove(id, pw) => {
            assert_eq!(id.as_str(), "abc");
            assert_eq!(pw, Some("a b".to_string()));
        }
        _ => panic!("expected a removal"),
    }
    match route(Method::Delete, "/abc") {
        Route::Remove(_, pw) => assert_eq!(pw, None),
        _ => panic!("expected a removal"),
    }
    assert_eq!(status(route(Method::Delete, "/bad id?password=x")), 400);
    assert_eq!(status(route_delete(None)), 400);
}

#[test]
fn password_lookup() {
    let pairs = vec![
        ("pass".to_string(), "no".to_string()),
        ("password".to_string(), "yes".to_string()),
        ("password".to_string(), "later".to_string()),
    ];
    assert_eq!(find_password(&pairs), Some("yes".to_string()));
    assert_eq!(find_password(&vec![]), None);
}

#[test]
fn reservation_steps() {
    assert_eq!(after_reservation(1, Reservation::Reserved), CreateStep::Write);
    assert_eq!(after_reservation(1, Reservation::Occupied), CreateStep::Retry);
    assert_eq!(after_reservation(3, Reservation::Occupied), CreateStep::Retry);
    assert_eq!(after_reservation(MAX_ATTEMPTS, Reservation::Occupied), CreateStep::Exhausted);
    assert_eq!(after_reservation(2, Reservation::Failed), CreateStep::Fault);
}

#[test]
fn exhaustion_after_four_collisions() {
    let mut made: u32 = 0;
    let mut written = false;
    let step = loop {
        made += 1;
        match after_reservation(made, Reservation::Occupied) {
            CreateStep::Retry => continue,
            CreateStep::Write => {
                written = true;
                break CreateStep::Write;
            }
            other => break other,
        }
    };
    assert_eq!(step, CreateStep::Exhausted);
    assert_eq!(made, 4);
    assert!(!written);
}

#[test]
fn collision_regenerates_identifier() {
    let mut slots: HashMap<String, Vec<u8>> = HashMap::new();
    slots.insert("taken000".to_string(), b"other".to_vec());
    let candidates = ["taken000", "fresh001"];
    let mut made: u32 = 0;
    let stored = loop {
        let id = candidates[made as usize];
        made += 1;
        let r = if slots.contains_key(id) { Reservation::Occupied } else { Reservation::Reserved };
        match after_reservation(made, r) {
            CreateStep::Write => {
                slots.insert(id.to_string(), b"mine".to_vec());
                break id;
            }
            CreateStep::Retry => continue,
            _ => panic!("unexpected end"),
        }
    };
    assert_eq!(stored, "fresh001");
    assert!(made <= MAX_ATTEMPTS);
    assert_eq!(slots["taken000"], b"other".to_vec());
    assert_eq!(slots["fresh001"], b"mine".to_vec());
}

#[test]
fn delete_authorization() {
    let stored = Some(b"right".to_vec());
    assert_eq!(decide_delete(true, &stored, &None), DeleteOutcome::Unauthorized);
    assert_eq!(decide_delete(true, &stored, &Some("wrong".to_string())), DeleteOutcome::Unauthorized);
    assert_eq!(decide_delete(true, &stored, &Some(String::new())), DeleteOutcome::Unauthorized);
    assert_eq!(decide_delete(true, &stored, &Some("right".to_string())), DeleteOutcome::Deleted);
    assert_eq!(decide_delete(true, &None, &None), DeleteOutcome::Deleted);
    assert_eq!(decide_delete(false, &None, &Some("x".to_string())), DeleteOutcome::NotFound);
}

#[test]
fn delete_statuses() {
    assert_eq!(delete_status(DeleteOutcome::Deleted), 200);
    assert_eq!(delete_status(DeleteOutcome::NotFound), 404);
    assert_eq!(delete_status(DeleteOutcome::Unauthorized), 401);
}

#[test]
fn created_body_format() {
    let id = PasteID::from_str("Ab3").ok().unwrap();
    let body = created_body(&id, &b"p@ss".to_vec());
    assert_eq!(body, b"{ \"url\": \"https://pasta.lol/Ab3\", \"pass\": \"p@ss\"}\n".to_vec());
}

/// A paste store in memory: content and optional secret by identifier.
type Slots = HashMap<String, (Vec<u8>, Option<Vec<u8>>)>;

fn serve(slots: &mut Slots, method: Method, target: &str, body: &[u8]) -> (u16, Vec<u8>) {
    match route(method, target) {
        Route::Usage | Route::Version => (200, Vec::new()),
        Route::Status(c) => (c, Vec::new()),
        Route::Read(id) => match slots.get(&id.to_string()) {
            Some((content, _)) => (200, content.clone()),
            None => (404, Vec::new()),
        },
        Route::Create => {
            let mut made: u32 = 0;
            loop {
                made += 1;
                let id = PasteID::new(8);
                let r = if slots.contains_key(&id.to_string()) { Reservation::Occupied } else { Reservation::Reserved };
                match after_reservation(made, r) {
                    CreateStep::Write => {
                        let secret = passgen::generate(12);
                        slots.insert(id.to_string(), (body.to_vec(), Some(secret.clone())));
                        return (201, created_body(&id, &secret));
                    }
                    CreateStep::Retry => continue,
                    _ => return (500, Vec::new()),
                }
            }
        }
        Route::Remove(id, given) => {
            let key = id.to_string();
            let slot = slots.get(&key);
            let exists = slot.is_some();
            let stored = slot.and_then(|s| s.1.clone());
            let outcome = decide_delete(exists, &stored, &given);
            if outcome == DeleteOutcome::Deleted {
                slots.remove(&key);
            }
            (delete_status(outcome), Vec::new())
        }
    }
}

#[test]
fn end_to_end_create_read_delete() {
    let mut slots = Slots::new();
    let (code, body) = serve(&mut slots, Method::Post, "/", b"hello");
    assert_eq!(code, 201);
    let text = String::from_utf8(body).unwrap();
    let prefix = "{ \"url\": \"https://pasta.lol/";
    assert!(text.starts_with(prefix));
    let rest = &text[prefix.len()..];
    let id = &rest[..8];
    assert!(is_alnum(id.as_bytes()));
    let rest = &rest[8..];
    let mid = "\", \"pass\": \"";
    assert!(rest.starts_with(mid));
    let secret = &rest[mid.len()..mid.len() + 12];
    assert!(secret.bytes().all(|c| SECRET_ALPHABET.contains(&c)));
    assert_eq!(&rest[mid.len() + 12..], "\"}\n");

    let path = format!("/{}", id);
    assert_eq!(serve(&mut slots, Method::Get, &path, b""), (200, b"hello".to_vec()));
    let del = format!("/{}?password={}", id, secret.replace('%', "%25").replace('&', "%26").replace('+', "%2B").replace('#', "%23").replace('=', "%3D"));
    assert_eq!(serve(&mut slots, Method::Delete, &del, b"").0, 200);
    assert_eq!(serve(&mut slots, Method::Get, &path, b"").0, 404);
}

#[test]
fn end_to_end_empty_content() {
    let mut slots = Slots::new();
    let (code, body) = serve(&mut slots, Method::Post, "/", b"");
    assert_eq!(code, 201);
    let text = String::from_utf8(body).unwrap();
    let id = &text["{ \"url\": \"https://pasta.lol/".len()..][..8];
    assert_eq!(serve(&mut slots, Method::Get, &format!("/{}", id), b""), (200, Vec::new()));
}

#[test]
fn end_to_end_missing_and_bad() {
    let mut slots = Slots::new();
    assert_eq!(serve(&mut slots, Method::Get, "/aB3dE6g8", b"").0, 404);
    assert_eq!(serve(&mut slots, Method::Get, "/has a space", b"").0, 400);
    slots.insert("locked01".to_string(), (b"x".to_vec(), Some(b"key".to_vec())));
    assert_eq!(serve(&mut slots, Method::Delete, "/locked01", b"").0, 401);
    assert_eq!(serve(&mut slots, Method::Delete, "/locked01?password=nope", b"").0, 401);
    assert_eq!(serve(&mut slots, Method::Delete, "/absent01?password=key", b"").0, 404);
    slots.insert("legacy01".to_string(), (b"y".to_vec(), None));
    assert_eq!(serve(&mut slots, Method::Delete, "/legacy01", b"").0, 200);
    assert!(!slots.contains_key("legacy01"));
}
