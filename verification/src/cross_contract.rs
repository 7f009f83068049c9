//! Decoding of raw cross-contract payloads into token operations.
//!
//! Wire format (integers little-endian): byte 0 is the opcode, the rest
//! are the opcode's arguments.
//!
//! - `0x01` Mint: 32B `to`, 16B `amount` (i128)
//! - `0x02` Burn: 32B `from`, 16B `amount`
//! - `0x03` Transfer: 32B `from`, 32B `to`, 16B `amount`
//! - `0x04` Approve: 32B `from`, 32B `spender`, 16B `amount`, 4B `expiration_ledger` (u32)
//! - `0x05` TransferFrom: 32B `spender`, 32B `from`, 32B `to`, 16B `amount`
use vstd::prelude::*;
use vstd::bytes::{
    lemma_auto_spec_u128_to_from_le_bytes, lemma_auto_spec_u32_to_from_le_bytes,
    spec_u128_from_le_bytes, spec_u128_to_le_bytes, spec_u32_from_le_bytes, spec_u32_to_le_bytes,
    u128_from_le_bytes, u128_to_le_bytes, u32_from_le_bytes, u32_to_le_bytes,
};

verus! {

/// Why a cross-contract payload was rejected.
#[derive(Debug, Clone, Copy, PartialEq, Eq, Structural)]
pub enum CrossContractError {
    /// Empty payload: no opcode byte present.
    Empty,
    /// The opcode is known but the body is shorter than it needs.
    Truncated,
    /// The opcode byte names no supported operation.
    InvalidOpCode,
    /// The decoded amount is negative, which token semantics forbid.
    NegativeAmount,
}

/// A token operation decoded from raw bytes.
#[derive(Debug, Clone, PartialEq, Eq)]
pub enum CrossContractMessage {
    Mint { to: [u8; 32], amount: i128 },
    Burn { from: [u8; 32], amount: i128 },
    Transfer { from: [u8; 32], to: [u8; 32], amount: i128 },
    Approve { from: [u8; 32], spender: [u8; 32], amount: i128, expiration_ledger: u32 },
    TransferFrom { spender: [u8; 32], from: [u8; 32], to: [u8; 32], amount: i128 },
}

/// The mathematical model of a [`CrossContractMessage`]: addresses as byte sequences.
pub enum MessageModel {
    Mint { to: Seq<u8>, amount: i128 },
    Burn { from: Seq<u8>, amount: i128 },
    Transfer { from: Seq<u8>, to: Seq<u8>, amount: i128 },
    Approve { from: Seq<u8>, spender: Seq<u8>, amount: i128, expiration_ledger: u32 },
    TransferFrom { spender: Seq<u8>, from: Seq<u8>, to: Seq<u8>, amount: i128 },
}

impl View for CrossContractMessage {
    type V = MessageModel;

    open spec fn view(&self) -> MessageModel {
        match *self {
            CrossContractMessage::Mint { to, amount } => MessageModel::Mint { to: to@, amount },
            CrossContractMessage::Burn { from, amount } => MessageModel::Burn { from: from@, amount },
            CrossContractMessage::Transfer { from, to, amount } => MessageModel::Transfer {
                from: from@,
                to: to@,
                amount,
            },
            CrossContractMessage::Approve { from, spender, amount, expiration_ledger } =>
                MessageModel::Approve { from: from@, spender: spender@, amount, expiration_ledger },
            CrossContractMessage::TransferFrom { spender, from, to, amount } =>
                MessageModel::TransferFrom { spender: spender@, from: from@, to: to@, amount },
        }
    }
}

impl MessageModel {
    /// The amount the operation moves or approves.
    pub open spec fn amount(self) -> i128 {
        match self {
            MessageModel::Mint { amount, .. } => amount,
            MessageModel::Burn { amount, .. } => amount,
            MessageModel::Transfer { amount, .. } => amount,
            MessageModel::Approve { amount, .. } => amount,
            MessageModel::TransferFrom { amount, .. } => amount,
        }
    }
}

/// Opcode of a mint.
pub const OP_MINT: u8 = 0x01;

/// Opcode of a burn.
pub const OP_BURN: u8 = 0x02;

/// Opcode of a transfer.
pub const OP_TRANSFER: u8 = 0x03;

/// Opcode of an approval.
pub const OP_APPROVE: u8 = 0x04;

/// Opcode of a delegated transfer.
pub const OP_TRANSFER_FROM: u8 = 0x05;

/// Length of an address field.
pub const ADDR_LEN: usize = 32;

/// Length of an `i128` amount field.
pub const I128_LEN: usize = 16;

/// Length of a `u32` field.
pub const U32_LEN: usize = 4;

/// The signed amount that 16 little-endian bytes encode.
pub open spec fn spec_i128_from_le(s: Seq<u8>) -> i128 {
    spec_u128_from_le_bytes(s) as i128
}

/// The unsigned value that 4 little-endian bytes encode.
pub open spec fn spec_u32_from_le(s: Seq<u8>) -> u32 {
    spec_u32_from_le_bytes(s)
}

/// The `k`-th address field of a body (addresses come first, 32 bytes each).
pub open spec fn addr_field(body: Seq<u8>, k: int) -> Seq<u8> {
    body.subrange(k * 32, k * 32 + 32)
}

/// The amount field of a body, which starts at byte `off`.
pub open spec fn amount_field(body: Seq<u8>, off: int) -> i128 {
    spec_i128_from_le(body.subrange(off, off + 16))
}

/// How many body bytes each known opcode needs.
pub open spec fn body_len(op: u8) -> int {
    if op == OP_MINT || op == OP_BURN {
        48
    } else if op == OP_TRANSFER {
        80
    } else if op == OP_APPROVE {
        84
    } else {
        112
    }
}

/// Whether `op` names a supported operation.
pub open spec fn is_known_op(op: u8) -> bool {
    OP_MINT <= op <= OP_TRANSFER_FROM
}

/// The message that a long enough body with a known opcode describes.
pub open spec fn decode_body(op: u8, body: Seq<u8>) -> MessageModel {
    if op == OP_MINT {
        MessageModel::Mint { to: addr_field(body, 0), amount: amount_field(body, 32) }
    } else if op == OP_BURN {
        MessageModel::Burn { from: addr_field(body, 0), amount: amount_field(body, 32) }
    } else if op == OP_TRANSFER {
        MessageModel::Transfer {
            from: addr_field(body, 0),
            to: addr_field(body, 1),
            amount: amount_field(body, 64),
        }
    } else if op == OP_APPROVE {
        MessageModel::Approve {
            from: addr_field(body, 0),
            spender: addr_field(body, 1),
            amount: amount_field(body, 64),
            expiration_ledger: spec_u32_from_le(body.subrange(80, 84)),
        }
    } else {
        MessageModel::TransferFrom {
            spender: addr_field(body, 0),
            from: addr_field(body, 1),
            to: addr_field(body, 2),
            amount: amount_field(body, 96),
        }
    }
}

/// What decoding `data` gives: the first failing check in the order
/// empty, unknown opcode, short body, negative amount, else the message.
pub open spec fn spec_parse(data: Seq<u8>) -> Result<MessageModel, CrossContractError> {
    if data.len() == 0 {
        Err(CrossContractError::Empty)
    } else {
        let op = data[0];
        let body = data.subrange(1, data.len() as int);
        if !is_known_op(op) {
            Err(CrossContractError::InvalidOpCode)
        } else if body.len() < body_len(op) {
            Err(CrossContractError::Truncated)
        } else if decode_body(op, body).amount() < 0 {
            Err(CrossContractError::NegativeAmount)
        } else {
            Ok(decode_body(op, body))
        }
    }
}

/// A decoding result with the message replaced by its model.
pub open spec fn result_model(r: Result<CrossContractMessage, CrossContractError>) -> Result<
    MessageModel,
    CrossContractError,
> {
    match r {
        Ok(m) => Ok(m@),
        Err(e) => Err(e),
    }
}

/// Reads the address stored at `offset`, if the buffer is long enough.
fn read_addr(buf: &[u8], offset: usize) -> (r: Option<[u8; 32]>)
    ensures
        r is Some <==> offset + ADDR_LEN <= buf@.len(),
        r matches Some(a) ==> a@ == buf@.subrange(offset as int, offset + ADDR_LEN),
{
    let len = buf.len();
    let end = match offset.checked_add(ADDR_LEN) {
        Some(e) => e,
        None => return None,
    };
    if len < end {
        return None;
    }
    let mut out = [0u8; 32];
    let mut i: usize = 0;
    while i < ADDR_LEN
        invariant
            i <= ADDR_LEN,
            end == offset + ADDR_LEN,
            end <= buf@.len(),
            forall|j: int| 0 <= j < i ==> out@[j] == buf@[offset + j],
        decreases ADDR_LEN - i,
    {
        out[i] = buf[offset + i];
        i = i + 1;
    }
    assert(out@ =~= buf@.subrange(offset as int, offset + ADDR_LEN));
    Some(out)
}

/// Reads the little-endian `i128` stored at `offset`, if the buffer is long enough.
fn read_i128(buf: &[u8], offset: usize) -> (r: Option<i128>)
    ensures
        r is Some <==> offset + I128_LEN <= buf@.len(),
        r matches Some(v) ==> v == spec_u128_from_le_bytes(
            buf@.subrange(offset as int, offset + I128_LEN),
        ) as i128,
{
    let len = buf.len();
    let end = match offset.checked_add(I128_LEN) {
        Some(e) => e,
        None => return None,
    };
    if len < end {
        return None;
    }
    let bytes = &buf[offset..end];
    let raw = u128_from_le_bytes(bytes);
    Some(#[verifier::truncate] (raw as i128))
}

/// Reads the little-endian `u32` stored at `offset`, if the buffer is long enough.
fn read_u32(buf: &[u8], offset: usize) -> (r: Option<u32>)
    ensures
        r is Some <==> offset + U32_LEN <= buf@.len(),
        r matches Some(v) ==> v == spec_u32_from_le_bytes(buf@.subrange(offset as int, offset + U32_LEN)),
{
    let len = buf.len();
    let end = match offset.checked_add(U32_LEN) {
        Some(e) => e,
        None => return None,
    };
    if len < end {
        return None;
    }
    let bytes = &buf[offset..end];
    Some(u32_from_le_bytes(bytes))
}

/// Decodes `data` into a [`CrossContractMessage`].
///
/// Total: every input either decodes or yields a [`CrossContractError`].
pub fn parse(data: &[u8]) -> (r: Result<CrossContractMessage, CrossContractError>)
    ensures
        result_model(r) == spec_parse(data@),
{
    let len = data.len();
    if len == 0 {
        return Err(CrossContractError::Empty);
    }
    let op = data[0];
    let body = &data[1..len];
    assert(body@ == data@.subrange(1, data@.len() as int));
    if op == OP_MINT {
        let to = match read_addr(body, 0) {
            Some(a) => a,
            None => return Err(CrossContractError::Truncated),
        };
        let amount = match read_i128(body, ADDR_LEN) {
            Some(v) => v,
            None => return Err(CrossContractError::Truncated),
        };
        if amount < 0 {
            return Err(CrossContractError::NegativeAmount);
        }
        Ok(CrossContractMessage::Mint { to, amount })
    } else if op == OP_BURN {
        let from = match read_addr(body, 0) {
            Some(a) => a,
            None => return Err(CrossContractError::Truncated),
        };
        let amount = match read_i128(body, ADDR_LEN) {
            Some(v) => v,
            None => return Err(CrossContractError::Truncated),
        };
        if amount < 0 {
            return Err(CrossContractError::NegativeAmount);
        }
        Ok(CrossContractMessage::Burn { from, amount })
    } else if op == OP_TRANSFER {
        let from = match read_addr(body, 0) {
            Some(a) => a,
            None => return Err(CrossContractError::Truncated),
        };
        let to = match read_addr(body, ADDR_LEN) {
            Some(a) => a,
            None => return Err(CrossContractError::Truncated),
        };
        let amount = match read_i128(body, ADDR_LEN * 2) {
            Some(v) => v,
            None => return Err(CrossContractError::Truncated),
        };
        if amount < 0 {
            return Err(CrossContractError::NegativeAmount);
        }
        Ok(CrossContractMessage::Transfer { from, to, amount })
    } else if op == OP_APPROVE {
        let from = match read_addr(body, 0) {
            Some(a) => a,
            None => return Err(CrossContractError::Truncated),
        };
        let spender = match read_addr(body, ADDR_LEN) {
            Some(a) => a,
            None => return Err(CrossContractError::Truncated),
        };
        let amount = match read_i128(body, ADDR_LEN * 2) {
            Some(v) => v,
            None => return Err(CrossContractError::Truncated),
        };
        let expiration_ledger = match read_u32(body, ADDR_LEN * 2 + I128_LEN) {
            Some(v) => v,
            None => return Err(CrossContractError::Truncated),
        };
        if amount < 0 {
            return Err(CrossContractError::NegativeAmount);
        }
        Ok(CrossContractMessage::Approve { from, spender, amount, expiration_ledger })
    } else if op == OP_TRANSFER_FROM {
        let spender = match read_addr(body, 0) {
            Some(a) => a,
            None => return Err(CrossContractError::Truncated),
        };
        let from = match read_addr(body, ADDR_LEN) {
            Some(a) => a,
            None => return Err(CrossContractError::Truncated),
        };
        let to = match read_addr(body, ADDR_LEN * 2) {
            Some(a) => a,
            None => return Err(CrossContractError::Truncated),
        };
        let amount = match read_i128(body, ADDR_LEN * 3) {
            Some(v) => v,
            None => return Err(CrossContractError::Truncated),
        };
        if amount < 0 {
            return Err(CrossContractError::NegativeAmount);
        }
        Ok(CrossContractMessage::TransferFrom { spender, from, to, amount })
    } else {
        Err(CrossContractError::InvalidOpCode)
    }
}

/// Checks that `data` decodes to a message, discarding the message.
pub fn handle_cross_contract_message(data: &[u8]) -> (r: Result<(), CrossContractError>)
    ensures
        r == (match spec_parse(data@) {
            Ok(_) => Ok::<(), CrossContractError>(()),
            Err(e) => Err(e),
        }),
{
    match parse(data) {
        Ok(_) => Ok(()),
        Err(e) => Err(e),
    }
}

/// The 16 little-endian bytes of an amount.
pub open spec fn amount_bytes(amount: i128) -> Seq<u8> {
    spec_u128_to_le_bytes(amount as u128)
}

/// The wire form of a message.
pub open spec fn spec_encode(m: MessageModel) -> Seq<u8> {
    match m {
        MessageModel::Mint { to, amount } => seq![OP_MINT] + to + amount_bytes(amount),
        MessageModel::Burn { from, amount } => seq![OP_BURN] + from + amount_bytes(amount),
        MessageModel::Transfer { from, to, amount } => seq![OP_TRANSFER] + from + to + amount_bytes(
            amount,
        ),
        MessageModel::Approve { from, spender, amount, expiration_ledger } => seq![OP_APPROVE]
            + from + spender + amount_bytes(amount) + spec_u32_to_le_bytes(expiration_ledger),
        MessageModel::TransferFrom { spender, from, to, amount } => seq![OP_TRANSFER_FROM] + spender
            + from + to + amount_bytes(amount),
    }
}

/// Appends the bytes of `src` to `buf`.
fn push_bytes(buf: &mut Vec<u8>, src: &[u8])
    ensures
        final(buf)@ == old(buf)@ + src@,
{
    let mut i: usize = 0;
    while i < src.len()
        invariant
            i <= src@.len(),
            buf@ == old(buf)@ + src@.subrange(0, i as int),
        decreases src@.len() - i,
    {
        buf.push(src[i]);
        i = i + 1;
        assert(buf@ =~= old(buf)@ + src@.subrange(0, i as int));
    }
    assert(src@.subrange(0, src@.len() as int) =~= src@);
}

/// Appends the little-endian bytes of `amount` to `buf`.
fn push_amount(buf: &mut Vec<u8>, amount: i128)
    ensures
        final(buf)@ == old(buf)@ + amount_bytes(amount),
{
    let bytes = u128_to_le_bytes(#[verifier::truncate] (amount as u128));
    push_bytes(buf, bytes.as_slice());
}

/// Encodes a message in the wire format that [`parse`] reads.
pub fn encode_message(msg: &CrossContractMessage) -> (r: Vec<u8>)
    ensures
        r@ == spec_encode(msg@),
{
    let mut buf: Vec<u8> = Vec::new();
    match msg {
        CrossContractMessage::Mint { to, amount } => {
            buf.push(OP_MINT);
            push_bytes(&mut buf, to.as_slice());
            push_amount(&mut buf, *amount);
        },
        CrossContractMessage::Burn { from, amount } => {
            buf.push(OP_BURN);
            push_bytes(&mut buf, from.as_slice());
            push_amount(&mut buf, *amount);
        },
        CrossContractMessage::Transfer { from, to, amount } => {
            buf.push(OP_TRANSFER);
            push_bytes(&mut buf, from.as_slice());
            push_bytes(&mut buf, to.as_slice());
            push_amount(&mut buf, *amount);
        },
        CrossContractMessage::Approve { from, spender, amount, expiration_ledger } => {
            buf.push(OP_APPROVE);
            push_bytes(&mut buf, from.as_slice());
            push_bytes(&mut buf, spender.as_slice());
            push_amount(&mut buf, *amount);
            let exp = u32_to_le_bytes(*expiration_ledger);
            push_bytes(&mut buf, exp.as_slice());
        },
        CrossContractMessage::TransferFrom { spender, from, to, amount } => {
            buf.push(OP_TRANSFER_FROM);
            push_bytes(&mut buf, spender.as_slice());
            push_bytes(&mut buf, from.as_slice());
            push_bytes(&mut buf, to.as_slice());
            push_amount(&mut buf, *amount);
        },
    }
    assert(buf@ =~= spec_encode(msg@));
    buf
}

/// Whether every address of `m` is 32 bytes long, as in every [`CrossContractMessage`].
pub open spec fn addresses_wf(m: MessageModel) -> bool {
    match m {
        MessageModel::Mint { to, .. } => to.len() == 32,
        MessageModel::Burn { from, .. } => from.len() == 32,
        MessageModel::Transfer { from, to, .. } => from.len() == 32 && to.len() == 32,
        MessageModel::Approve { from, spender, .. } => from.len() == 32 && spender.len() == 32,
        MessageModel::TransferFrom { spender, from, to, .. } => spender.len() == 32 && from.len()
            == 32 && to.len() == 32,
    }
}

proof fn lemma_amount_bytes_roundtrip(a: i128)
    ensures
        amount_bytes(a).len() == 16,
        spec_i128_from_le(amount_bytes(a)) == a,
{
    lemma_auto_spec_u128_to_from_le_bytes();
    let x = #[verifier::truncate] (a as u128);
    assert(spec_u128_to_le_bytes(x).len() == 16);
    assert((x as i128) == a) by (bit_vector)
        requires
            x == a as u128,
    ;
}

proof fn lemma_amount_field_roundtrip(s: Seq<u8>)
    requires
        s.len() == 16,
    ensures
        amount_bytes(spec_i128_from_le(s)) == s,
{
    lemma_auto_spec_u128_to_from_le_bytes();
    let x = spec_u128_from_le_bytes(s);
    assert(((x as i128) as u128) == x) by (bit_vector);
}

/// Decoding the wire form of a well-formed message with a nonnegative amount
/// gives that message back.
proof fn lemma_encode_parse_model(m: MessageModel)
    requires
        addresses_wf(m),
        m.amount() >= 0,
    ensures
        spec_parse(spec_encode(m)) == Ok::<MessageModel, CrossContractError>(m),
{
    lemma_amount_bytes_roundtrip(m.amount());
    lemma_auto_spec_u32_to_from_le_bytes();
    let data = spec_encode(m);
    let body = data.subrange(1, data.len() as int);
    match m {
        MessageModel::Mint { to, amount } => {
            assert(body =~= to + amount_bytes(amount));
            assert(addr_field(body, 0) =~= to);
            assert(body.subrange(32, 48) =~= amount_bytes(amount));
        },
        MessageModel::Burn { from, amount } => {
            assert(body =~= from + amount_bytes(amount));
            assert(addr_field(body, 0) =~= from);
            assert(body.subrange(32, 48) =~= amount_bytes(amount));
        },
        MessageModel::Transfer { from, to, amount } => {
            assert(body =~= from + to + amount_bytes(amount));
            assert(addr_field(body, 0) =~= from);
            assert(addr_field(body, 1) =~= to);
            assert(body.subrange(64, 80) =~= amount_bytes(amount));
        },
        MessageModel::Approve { from, spender, amount, expiration_ledger } => {
            assert(body =~= from + spender + amount_bytes(amount) + spec_u32_to_le_bytes(
                expiration_ledger,
            ));
            assert(addr_field(body, 0) =~= from);
            assert(addr_field(body, 1) =~= spender);
            assert(body.subrange(64, 80) =~= amount_bytes(amount));
            assert(body.subrange(80, 84) =~= spec_u32_to_le_bytes(expiration_ledger));
        },
        MessageModel::TransferFrom { spender, from, to, amount } => {
            assert(body =~= spender + from + to + amount_bytes(amount));
            assert(addr_field(body, 0) =~= spender);
            assert(addr_field(body, 1) =~= from);
            assert(addr_field(body, 2) =~= to);
            assert(body.subrange(96, 112) =~= amount_bytes(amount));
        },
    }
}

/// Round trip: encoding a message whose amount is nonnegative and decoding
/// the bytes gives the same message back.
pub proof fn law_encode_then_parse(msg: CrossContractMessage)
    requires
        msg@.amount() >= 0,
    ensures
        spec_parse(spec_encode(msg@)) == Ok::<MessageModel, CrossContractError>(msg@),
{
    lemma_encode_parse_model(msg@);
}

/// A payload that decodes begins with the wire form of the decoded message,
/// and that wire form decodes to the same message again.
pub proof fn law_parse_then_encode(data: Seq<u8>)
    requires
        spec_parse(data) is Ok,
    ensures
        ({
            let m = spec_parse(data)->Ok_0;
            &&& spec_encode(m).len() <= data.len()
            &&& data.subrange(0, spec_encode(m).len() as int) == spec_encode(m)
            &&& spec_parse(spec_encode(m)) == Ok::<MessageModel, CrossContractError>(m)
        }),
{
    let m = spec_parse(data)->Ok_0;
    let op = data[0];
    let body = data.subrange(1, data.len() as int);
    lemma_auto_spec_u32_to_from_le_bytes();
    if op == OP_MINT {
        lemma_amount_field_roundtrip(body.subrange(32, 48));
        assert(data.subrange(0, 49) =~= seq![op] + addr_field(body, 0) + body.subrange(32, 48));
    } else if op == OP_BURN {
        lemma_amount_field_roundtrip(body.subrange(32, 48));
        assert(data.subrange(0, 49) =~= seq![op] + addr_field(body, 0) + body.subrange(32, 48));
    } else if op == OP_TRANSFER {
        lemma_amount_field_roundtrip(body.subrange(64, 80));
        assert(data.subrange(0, 81) =~= seq![op] + addr_field(body, 0) + addr_field(body, 1)
            + body.subrange(64, 80));
    } else if op == OP_APPROVE {
        lemma_amount_field_roundtrip(body.subrange(64, 80));
        assert(spec_u32_to_le_bytes(spec_u32_from_le(body.subrange(80, 84))) == body.subrange(
            80,
            84,
        ));
        assert(data.subrange(0, 85) =~= seq![op] + addr_field(body, 0) + addr_field(body, 1)
            + body.subrange(64, 80) + body.subrange(80, 84));
    } else {
        lemma_amount_field_roundtrip(body.subrange(96, 112));
        assert(data.subrange(0, 113) =~= seq![op] + addr_field(body, 0) + addr_field(body, 1)
            + addr_field(body, 2) + body.subrange(96, 112));
    }
    lemma_encode_parse_model(m);
}

/// Bytes after a payload that decodes do not change what it decodes to.
pub proof fn law_trailing_bytes_ignored(data: Seq<u8>, extra: Seq<u8>)
    requires
        spec_parse(data) is Ok,
    ensures
        spec_parse(data + extra) == spec_parse(data),
{
    let full = data + extra;
    let op = data[0];
    let body = data.subrange(1, data.len() as int);
    let body2 = full.subrange(1, full.len() as int);
    assert(full[0] == op);
    assert forall|a: int, b: int| 0 <= a <= b <= body.len() implies #[trigger] body2.subrange(
        a,
        b,
    ) == body.subrange(a, b) by {
        assert(body2.subrange(a, b) =~= body.subrange(a, b));
    }
    assert(addr_field(body2, 0) == addr_field(body, 0));
    if op != OP_MINT && op != OP_BURN {
        assert(addr_field(body2, 1) == addr_field(body, 1));
    }
    if op == OP_MINT || op == OP_BURN {
        assert(body2.subrange(32, 48) == body.subrange(32, 48));
    } else if op == OP_TRANSFER {
        assert(body2.subrange(64, 80) == body.subrange(64, 80));
    } else if op == OP_APPROVE {
        assert(body2.subrange(64, 80) == body.subrange(64, 80));
        assert(body2.subrange(80, 84) == body.subrange(80, 84));
    } else {
        assert(addr_field(body2, 2) == addr_field(body, 2));
        assert(body2.subrange(96, 112) == body.subrange(96, 112));
    }
    assert(decode_body(op, body2) == decode_body(op, body));
}

/// Every accepted message has a nonnegative amount and 32-byte addresses.
pub proof fn law_accepted_messages_are_valid(data: Seq<u8>)
    requires
        spec_parse(data) is Ok,
    ensures
        spec_parse(data)->Ok_0.amount() >= 0,
        addresses_wf(spec_parse(data)->Ok_0),
{
}

/// Decoding follows the wire format: an empty payload is `Empty`; an opcode
/// outside `0x01..=0x05` is `InvalidOpCode`; a payload shorter than 49
/// (mint, burn), 81 (transfer), 85 (approve) or 113 (transfer-from) bytes
/// is `Truncated`; otherwise the message read at the wire offsets is
/// accepted exactly when its amount is nonnegative, else `NegativeAmount`.
pub proof fn law_parse_follows_wire_format(data: Seq<u8>)
    ensures
        data.len() == 0 ==> spec_parse(data) == Err::<MessageModel, CrossContractError>(
            CrossContractError::Empty,
        ),
        data.len() > 0 && (data[0] == 0 || data[0] > 5) ==> spec_parse(data) == Err::<
            MessageModel,
            CrossContractError,
        >(CrossContractError::InvalidOpCode),
        data.len() > 0 && 1 <= data[0] <= 5 && data.len() < (if data[0] <= 2 {
            49int
        } else if data[0] == 3 {
            81int
        } else if data[0] == 4 {
            85int
        } else {
            113int
        }) ==> spec_parse(data) == Err::<MessageModel, CrossContractError>(
            CrossContractError::Truncated,
        ),
        data.len() >= 49 && data[0] == 0x01u8 ==> spec_parse(data) == ({
            let amount = spec_u128_from_le_bytes(data.subrange(33, 49)) as i128;
            if amount < 0 {
                Err::<MessageModel, CrossContractError>(CrossContractError::NegativeAmount)
            } else {
                Ok(MessageModel::Mint { to: data.subrange(1, 33), amount })
            }
        }),
        data.len() >= 49 && data[0] == 0x02u8 ==> spec_parse(data) == ({
            let amount = spec_u128_from_le_bytes(data.subrange(33, 49)) as i128;
            if amount < 0 {
                Err::<MessageModel, CrossContractError>(CrossContractError::NegativeAmount)
            } else {
                Ok(MessageModel::Burn { from: data.subrange(1, 33), amount })
            }
        }),
        data.len() >= 81 && data[0] == 0x03u8 ==> spec_parse(data) == ({
            let amount = spec_u128_from_le_bytes(data.subrange(65, 81)) as i128;
            if amount < 0 {
                Err::<MessageModel, CrossContractError>(CrossContractError::NegativeAmount)
            } else {
                Ok(
                    MessageModel::Transfer {
                        from: data.subrange(1, 33),
                        to: data.subrange(33, 65),
                        amount,
                    },
                )
            }
        }),
        data.len() >= 85 && data[0] == 0x04u8 ==> spec_parse(data) == ({
            let amount = spec_u128_from_le_bytes(data.subrange(65, 81)) as i128;
            if amount < 0 {
                Err::<MessageModel, CrossContractError>(CrossContractError::NegativeAmount)
            } else {
                Ok(
                    MessageModel::Approve {
                        from: data.subrange(1, 33),
                        spender: data.subrange(33, 65),
                        amount,
                        expiration_ledger: spec_u32_from_le_bytes(data.subrange(81, 85)),
                    },
                )
            }
        }),
        data.len() >= 113 && data[0] == 0x05u8 ==> spec_parse(data) == ({
            let amount = spec_u128_from_le_bytes(data.subrange(97, 113)) as i128;
            if amount < 0 {
                Err::<MessageModel, CrossContractError>(CrossContractError::NegativeAmount)
            } else {
                Ok(
                    MessageModel::TransferFrom {
                        spender: data.subrange(1, 33),
                        from: data.subrange(33, 65),
                        to: data.subrange(65, 97),
                        amount,
                    },
                )
            }
        }),
{
    if data.len() > 0 && 1 <= data[0] <= 5 && data.len() >= body_len(data[0]) + 1 {
        let op = data[0];
        let body = data.subrange(1, data.len() as int);
        assert(addr_field(body, 0) =~= data.subrange(1, 33));
        if op <= 2 {
            assert(body.subrange(32, 48) =~= data.subrange(33, 49));
        } else if op == 3 || op == 4 {
            assert(addr_field(body, 1) =~= data.subrange(33, 65));
            assert(body.subrange(64, 80) =~= data.subrange(65, 81));
            if op == 4 {
                assert(body.subrange(80, 84) =~= data.subrange(81, 85));
            }
        } else {
            assert(addr_field(body, 1) =~= data.subrange(33, 65));
            assert(addr_field(body, 2) =~= data.subrange(65, 97));
            assert(body.subrange(96, 112) =~= data.subrange(97, 113));
        }
    }
}

/// Encoding writes the wire format: the opcode, the addresses in order, the
/// amount as the standard little-endian bytes of its two's complement value,
/// and for an approval the expiration as its standard little-endian bytes.
pub proof fn law_encode_follows_wire_format(msg: CrossContractMessage)
    ensures
        match msg@ {
            MessageModel::Mint { to, amount } => spec_encode(msg@) == seq![0x01u8] + to
                + spec_u128_to_le_bytes(amount as u128),
            MessageModel::Burn { from, amount } => spec_encode(msg@) == seq![0x02u8] + from
                + spec_u128_to_le_bytes(amount as u128),
            MessageModel::Transfer { from, to, amount } => spec_encode(msg@) == seq![0x03u8]
                + from + to + spec_u128_to_le_bytes(amount as u128),
            MessageModel::Approve { from, spender, amount, expiration_ledger } => spec_encode(
                msg@,
            ) == seq![0x04u8] + from + spender + spec_u128_to_le_bytes(amount as u128)
                + spec_u32_to_le_bytes(expiration_ledger),
            MessageModel::TransferFrom { spender, from, to, amount } => spec_encode(msg@)
                == seq![0x05u8] + spender + from + to + spec_u128_to_le_bytes(amount as u128),
        },
{
}

} // verus!
