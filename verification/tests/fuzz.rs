//! Deterministic versions of the randomized parser checks: a fixed
//! pseudo-random stream stands in for the fuzzer's inputs.
use my_contract::cross_contract::{encode_message, parse};
use my_contract::handle_cross_contract_message;

struct Lcg(u64);

impl Lcg {
    fn next_u64(&mut self) -> u64 {
        self.0 = self
            .0
            .wrapping_mul(6364136223846793005)
            .wrapping_add(1442695040888963407);
        self.0 ^ (self.0 >> 29)
    }

    fn next_u8(&mut self) -> u8 {
        (self.next_u64() >> 56) as u8
    }

    fn fill(&mut self, out: &mut [u8]) {
        for b in out.iter_mut() {
            *b = self.next_u8();
        }
    }
}

/// Arbitrary bytes fed to the parser never make it panic.
#[test]
fn fuzz_raw_bytes_no_panic() {
    let mut rng = Lcg(7);
    for _ in 0..5000 {
        let len = (rng.next_u64() % 160) as usize;
        let mut bytes = vec![0u8; len];
        rng.fill(&mut bytes);
        if len > 0 {
            bytes[0] = rng.next_u8() % 8;
        }
        let _ = handle_cross_contract_message(bytes.as_slice());
    }
}

/// Structurally valid payloads never panic, and a successful parse
/// round-trips through the encoder.
#[test]
fn fuzz_structured_message_no_panic() {
    let mut rng = Lcg(11);
    for _ in 0..5000 {
        let op = rng.next_u8() % 8;
        let mut a = [0u8; 32];
        let mut b = [0u8; 32];
        let mut c = [0u8; 32];
        rng.fill(&mut a);
        rng.fill(&mut b);
        rng.fill(&mut c);
        let amount = ((rng.next_u64() as u128) << 64 | rng.next_u64() as u128) as i128;
        let expiration = rng.next_u64() as u32;

        let mut buf = Vec::with_capacity(1 + 32 * 3 + 16 + 4);
        buf.push(op);
        buf.extend_from_slice(&a);
        buf.extend_from_slice(&b);
        buf.extend_from_slice(&c);
        buf.extend_from_slice(&amount.to_le_bytes());
        buf.extend_from_slice(&expiration.to_le_bytes());

        let parsed = handle_cross_contract_message(&buf);

        if parsed.is_ok() {
            if let Ok(msg) = parse(&buf) {
                let reencoded = encode_message(&msg);
                let reparsed = parse(&reencoded).expect("re-encoded message must parse");
                assert_eq!(msg, reparsed, "round-trip must be lossless");
            }
        }
    }
}
