use vstd::prelude::*;
use vstd::bytes::*;
use vstd::assert_seqs_equal;
use vstd::slice::*;
use crate::error::TokenDeployerError;

verus! {

/// Wire tag identifying the `CreateToken` variant.
pub const TAG_CREATE_TOKEN: u8 = 0;
/// Wire tag identifying the `AddLiquidity` variant.
pub const TAG_ADD_LIQUIDITY: u8 = 1;

/// The payload of a `CreateToken` instruction.
///
/// Text fields hold UTF-8 bytes; the codec treats them as plain byte
/// strings. The payload is transient: it exists only inside a single
/// instruction and is never persisted.
#[derive(Clone, Debug, PartialEq, Eq)]
pub struct TokenParams {
    pub name: Vec<u8>,
    pub symbol: Vec<u8>,
    pub decimals: u8,
    pub initial_supply: u64,
    pub image_url: Vec<u8>,
    pub twitter_url: Vec<u8>,
    pub telegram_url: Vec<u8>,
}

/// The mathematical model of a `CreateToken` payload.
pub struct TokenParamsView {
    pub name: Seq<u8>,
    pub symbol: Seq<u8>,
    pub decimals: u8,
    pub initial_supply: u64,
    pub image_url: Seq<u8>,
    pub twitter_url: Seq<u8>,
    pub telegram_url: Seq<u8>,
}

impl View for TokenParams {
    type V = TokenParamsView;

    open spec fn view(&self) -> TokenParamsView {
        TokenParamsView {
            name: self.name@,
            symbol: self.symbol@,
            decimals: self.decimals,
            initial_supply: self.initial_supply,
            image_url: self.image_url@,
            twitter_url: self.twitter_url@,
            telegram_url: self.telegram_url@,
        }
    }
}

/// The tagged instruction union carried in the wire buffer.
///
/// The wire layout is a one-byte tag followed by the active variant's
/// fields in declaration order: text fields are length-prefixed with a
/// little-endian `u32`, integers are fixed-width little-endian.
#[derive(Clone, Debug, PartialEq, Eq)]
pub enum TokenDeployerInstruction {
    /// Create a new token: a mint, a holding account, and an initial supply.
    CreateToken(TokenParams),
    /// Record intent to add liquidity (a documented non-functional stub).
    AddLiquidity { token_amount: u64, quote_amount: u64 },
}

/// The mathematical model of an instruction.
pub enum InstructionView {
    CreateToken(TokenParamsView),
    AddLiquidity { token_amount: u64, quote_amount: u64 },
}

impl View for TokenDeployerInstruction {
    type V = InstructionView;

    open spec fn view(&self) -> InstructionView {
        match self {
            TokenDeployerInstruction::CreateToken(p) => InstructionView::CreateToken(p@),
            TokenDeployerInstruction::AddLiquidity { token_amount, quote_amount } => (
                InstructionView::AddLiquidity {
                    token_amount: *token_amount,
                    quote_amount: *quote_amount,
                }
            ),
        }
    }
}

/// The encoding of one length-prefixed text field: a little-endian `u32`
/// length followed by the bytes themselves.
pub open spec fn spec_encode_field(b: Seq<u8>) -> Seq<u8>
    recommends
        b.len() <= u32::MAX,
{
    spec_u32_to_le_bytes(b.len() as u32) + b
}

/// The encoding of a `CreateToken` payload: every field in declaration order.
pub open spec fn spec_encode_params(p: TokenParamsView) -> Seq<u8> {
    spec_encode_field(p.name) + spec_encode_field(p.symbol) + seq![p.decimals]
        + spec_u64_to_le_bytes(p.initial_supply) + spec_encode_field(p.image_url)
        + spec_encode_field(p.twitter_url) + spec_encode_field(p.telegram_url)
}

/// The full wire encoding of an instruction: the tag, then the payload.
pub open spec fn spec_encode(i: InstructionView) -> Seq<u8> {
    match i {
        InstructionView::CreateToken(p) => seq![TAG_CREATE_TOKEN] + spec_encode_params(p),
        InstructionView::AddLiquidity { token_amount, quote_amount } => seq![TAG_ADD_LIQUIDITY]
            + spec_u64_to_le_bytes(token_amount) + spec_u64_to_le_bytes(quote_amount),
    }
}

/// Each text field's length fits the `u32` length prefix.
pub open spec fn params_fields_fit(p: TokenParamsView) -> bool {
    &&& p.name.len() <= u32::MAX
    &&& p.symbol.len() <= u32::MAX
    &&& p.image_url.len() <= u32::MAX
    &&& p.twitter_url.len() <= u32::MAX
    &&& p.telegram_url.len() <= u32::MAX
}

/// A `CreateToken` payload is constructible on the wire when each text
/// field's length fits the `u32` prefix and the whole encoding fits in
/// memory.
pub open spec fn params_encodable(p: TokenParamsView) -> bool {
    &&& params_fields_fit(p)
    &&& 1 + spec_encode_params(p).len() <= usize::MAX
}

/// An instruction is constructible on the wire when its payload is.
pub open spec fn instruction_encodable(i: InstructionView) -> bool {
    match i {
        InstructionView::CreateToken(p) => params_encodable(p),
        InstructionView::AddLiquidity { token_amount, quote_amount } => true,
    }
}

/// Reads one length-prefixed field at offset `i`: the field's bytes and
/// the offset just past them, or nothing if the buffer is too short.
pub open spec fn spec_parse_field(s: Seq<u8>, i: int) -> Option<(Seq<u8>, int)> {
    if 0 <= i && i + 4 <= s.len() {
        let n = spec_u32_from_le_bytes(s.subrange(i, i + 4)) as int;
        if i + 4 + n <= s.len() {
            Some((s.subrange(i + 4, i + 4 + n), i + 4 + n))
        } else {
            None
        }
    } else {
        None
    }
}

/// Reads a `CreateToken` payload starting at offset `start`; succeeds only
/// if the fields are well formed and consume the buffer exactly.
pub open spec fn spec_parse_params(s: Seq<u8>, start: int) -> Option<TokenParamsView> {
    match spec_parse_field(s, start) {
        None => None,
        Some((name, i1)) => match spec_parse_field(s, i1) {
            None => None,
            Some((symbol, i2)) => {
                if i2 + 9 <= s.len() {
                    let decimals = s[i2];
                    let initial_supply = spec_u64_from_le_bytes(s.subrange(i2 + 1, i2 + 9));
                    match spec_parse_field(s, i2 + 9) {
                        None => None,
                        Some((image_url, i3)) => match spec_parse_field(s, i3) {
                            None => None,
                            Some((twitter_url, i4)) => match spec_parse_field(s, i4) {
                                None => None,
                                Some((telegram_url, i5)) => {
                                    if i5 == s.len() {
                                        Some(
                                            TokenParamsView {
                                                name,
                                                symbol,
                                                decimals,
                                                initial_supply,
                                                image_url,
                                                twitter_url,
                                                telegram_url,
                                            },
                                        )
                                    } else {
                                        None
                                    }
                                },
                            },
                        },
                    }
                } else {
                    None
                }
            },
        },
    }
}

/// Reads a whole instruction from the buffer: the inverse of `spec_encode`.
/// Yields nothing on a truncated buffer, a malformed payload, an
/// unrecognized tag, or trailing bytes.
pub open spec fn spec_parse(s: Seq<u8>) -> Option<InstructionView> {
    if s.len() < 1 {
        None
    } else if s[0] == TAG_CREATE_TOKEN {
        match spec_parse_params(s, 1) {
            None => None,
            Some(p) => Some(InstructionView::CreateToken(p)),
        }
    } else if s[0] == TAG_ADD_LIQUIDITY {
        if s.len() == 17 {
            Some(
                InstructionView::AddLiquidity {
                    token_amount: spec_u64_from_le_bytes(s.subrange(1, 9)),
                    quote_amount: spec_u64_from_le_bytes(s.subrange(9, 17)),
                },
            )
        } else {
            None
        }
    } else {
        None
    }
}

/// Reading a field at the start of its own encoding finds exactly the
/// field, whatever stands before and after it.
proof fn lemma_parse_field_of_encoding(prefix: Seq<u8>, f: Seq<u8>, suffix: Seq<u8>)
    requires
        f.len() <= u32::MAX,
    ensures
        spec_parse_field(prefix + spec_encode_field(f) + suffix, prefix.len() as int) == Some(
            (f, prefix.len() + 4 + f.len() as int),
        ),
{
    lemma_auto_spec_u32_to_from_le_bytes();
    let s = prefix + spec_encode_field(f) + suffix;
    let i = prefix.len() as int;
    assert_seqs_equal!(s.subrange(i, i + 4) == spec_u32_to_le_bytes(f.len() as u32));
    assert(spec_u32_from_le_bytes(s.subrange(i, i + 4)) == f.len() as u32);
    assert_seqs_equal!(s.subrange(i + 4, i + 4 + f.len() as int) == f);
}

/// Reading a `CreateToken` payload at the start of its own encoding,
/// placed at the end of the buffer, finds exactly the payload.
proof fn lemma_parse_params_of_encoding(prefix: Seq<u8>, p: TokenParamsView)
    requires
        params_fields_fit(p),
    ensures
        spec_parse_params(prefix + spec_encode_params(p), prefix.len() as int) == Some(p),
{
    lemma_auto_spec_u32_to_from_le_bytes();
    lemma_auto_spec_u64_to_from_le_bytes();
    let s = prefix + spec_encode_params(p);
    let i0 = prefix.len() as int;
    let i1 = i0 + 4 + p.name.len();
    let i2 = i1 + 4 + p.symbol.len();
    let i3 = i2 + 9 + 4 + p.image_url.len();
    let i4 = i3 + 4 + p.twitter_url.len();
    let i5 = i4 + 4 + p.telegram_url.len();
    let rest1 = spec_encode_field(p.symbol) + seq![p.decimals] + spec_u64_to_le_bytes(
        p.initial_supply,
    ) + spec_encode_field(p.image_url) + spec_encode_field(p.twitter_url) + spec_encode_field(
        p.telegram_url,
    );
    assert_seqs_equal!(s == prefix + spec_encode_field(p.name) + rest1);
    lemma_parse_field_of_encoding(prefix, p.name, rest1);
    assert(spec_parse_field(s, i0) == Some((p.name, i1)));
    let pre2 = prefix + spec_encode_field(p.name);
    let rest2 = seq![p.decimals] + spec_u64_to_le_bytes(p.initial_supply) + spec_encode_field(
        p.image_url,
    ) + spec_encode_field(p.twitter_url) + spec_encode_field(p.telegram_url);
    assert_seqs_equal!(s == pre2 + spec_encode_field(p.symbol) + rest2);
    lemma_parse_field_of_encoding(pre2, p.symbol, rest2);
    assert(spec_parse_field(s, i1) == Some((p.symbol, i2)));
    assert(s[i2] == p.decimals);
    assert_seqs_equal!(s.subrange(i2 + 1, i2 + 9) == spec_u64_to_le_bytes(p.initial_supply));
    assert(spec_u64_from_le_bytes(s.subrange(i2 + 1, i2 + 9)) == p.initial_supply);
    let pre3 = pre2 + spec_encode_field(p.symbol) + seq![p.decimals] + spec_u64_to_le_bytes(
        p.initial_supply,
    );
    let rest3 = spec_encode_field(p.twitter_url) + spec_encode_field(p.telegram_url);
    assert_seqs_equal!(s == pre3 + spec_encode_field(p.image_url) + rest3);
    lemma_parse_field_of_encoding(pre3, p.image_url, rest3);
    assert(spec_parse_field(s, i2 + 9) == Some((p.image_url, i3)));
    let pre4 = pre3 + spec_encode_field(p.image_url);
    let rest4 = spec_encode_field(p.telegram_url);
    assert_seqs_equal!(s == pre4 + spec_encode_field(p.twitter_url) + rest4);
    lemma_parse_field_of_encoding(pre4, p.twitter_url, rest4);
    assert(spec_parse_field(s, i3) == Some((p.twitter_url, i4)));
    let pre5 = pre4 + spec_encode_field(p.twitter_url);
    assert_seqs_equal!(s == pre5 + spec_encode_field(p.telegram_url) + Seq::<u8>::empty());
    lemma_parse_field_of_encoding(pre5, p.telegram_url, Seq::<u8>::empty());
    assert(spec_parse_field(s, i4) == Some((p.telegram_url, i5)));
    assert(i5 == s.len());
}

/// Round trip: reading back the wire encoding of any constructible
/// instruction yields exactly that instruction. Together with the
/// contracts of `encode` and `decode`, this says that
/// `decode(encode(x))` returns `Ok` of a value whose model is `x`.
pub proof fn lemma_round_trip(v: InstructionView)
    requires
        instruction_encodable(v),
    ensures
        spec_parse(spec_encode(v)) == Some(v),
{
    lemma_auto_spec_u64_to_from_le_bytes();
    let s = spec_encode(v);
    match v {
        InstructionView::CreateToken(p) => {
            lemma_parse_params_of_encoding(seq![TAG_CREATE_TOKEN], p);
            assert(s[0] == TAG_CREATE_TOKEN);
        },
        InstructionView::AddLiquidity { token_amount, quote_amount } => {
            assert(s[0] == TAG_ADD_LIQUIDITY);
            assert(s.len() == 17);
            assert_seqs_equal!(s.subrange(1, 9) == spec_u64_to_le_bytes(token_amount));
            assert_seqs_equal!(s.subrange(9, 17) == spec_u64_to_le_bytes(quote_amount));
        },
    }
}

/// The wire format is unambiguous: two constructible instructions with
/// the same encoding are the same instruction.
pub proof fn lemma_encode_injective(x: InstructionView, y: InstructionView)
    requires
        instruction_encodable(x),
        instruction_encodable(y),
        spec_encode(x) == spec_encode(y),
    ensures
        x == y,
{
    lemma_round_trip(x);
    lemma_round_trip(y);
}

/// A field read that succeeds on a prefix of the buffer succeeds on the
/// whole buffer with the same result.
proof fn lemma_parse_field_prefix(s: Seq<u8>, m: int, i: int)
    requires
        0 <= m <= s.len(),
        spec_parse_field(s.take(m), i) is Some,
    ensures
        spec_parse_field(s, i) == spec_parse_field(s.take(m), i),
{
    let t = s.take(m);
    let (f, j) = spec_parse_field(t, i).unwrap();
    assert_seqs_equal!(t.subrange(i, i + 4) == s.subrange(i, i + 4));
    assert_seqs_equal!(t.subrange(i + 4, j) == s.subrange(i + 4, j));
}

/// Rejection of truncation: no strict prefix of a valid encoding is
/// itself a valid encoding, so a truncated buffer always decodes to
/// `InvalidInstruction`.
pub proof fn lemma_truncation_rejected(v: InstructionView, m: int)
    requires
        instruction_encodable(v),
        0 <= m < spec_encode(v).len(),
    ensures
        spec_parse(spec_encode(v).take(m)) is None,
{
    lemma_auto_spec_u32_to_from_le_bytes();
    lemma_auto_spec_u64_to_from_le_bytes();
    lemma_round_trip(v);
    let s = spec_encode(v);
    let t = s.take(m);
    if m == 0 {
        assert(t.len() < 1);
    } else {
        assert(t[0] == s[0]);
        match v {
            InstructionView::AddLiquidity { token_amount, quote_amount } => {
                assert(s.len() == 17);
                assert(t.len() != 17);
            },
            InstructionView::CreateToken(p) => {
                assert(s[0] == TAG_CREATE_TOKEN);
                if spec_parse_params(t, 1) is Some {
                    // the reads that succeed on the prefix succeed on the
                    // whole buffer with the same results, so both runs
                    // demand exact consumption at the same offset
                    let (name_t, j1) = spec_parse_field(t, 1).unwrap();
                    lemma_parse_field_prefix(s, m, 1);
                    let (symbol_t, j2) = spec_parse_field(t, j1).unwrap();
                    lemma_parse_field_prefix(s, m, j1);
                    assert(t[j2] == s[j2]);
                    assert_seqs_equal!(t.subrange(j2 + 1, j2 + 9) == s.subrange(j2 + 1, j2 + 9));
                    let (image_t, j3) = spec_parse_field(t, j2 + 9).unwrap();
                    lemma_parse_field_prefix(s, m, j2 + 9);
                    let (twitter_t, j4) = spec_parse_field(t, j3).unwrap();
                    lemma_parse_field_prefix(s, m, j3);
                    let (telegram_t, j5) = spec_parse_field(t, j4).unwrap();
                    lemma_parse_field_prefix(s, m, j4);
                    assert(j5 == t.len());
                    assert(spec_parse_params(s, 1) == Some(p));
                    assert(j5 == s.len());
                    assert(false);
                }
            },
        }
    }
}

/// Rejection of tag corruption: a buffer whose first byte is neither
/// defined tag decodes to `InvalidInstruction`.
pub proof fn lemma_unknown_tag_rejected(s: Seq<u8>)
    requires
        s.len() >= 1,
        s[0] != TAG_CREATE_TOKEN,
        s[0] != TAG_ADD_LIQUIDITY,
    ensures
        spec_parse(s) is None,
{
}

/// A successfully read field is the exact encoding of its bytes.
proof fn lemma_parse_field_sound(s: Seq<u8>, i: int)
    requires
        spec_parse_field(s, i) is Some,
    ensures
        ({
            let (f, j) = spec_parse_field(s, i).unwrap();
            &&& i + 4 + f.len() == j
            &&& 0 <= i
            &&& j <= s.len()
            &&& f.len() <= u32::MAX
            &&& s.subrange(i, j) == spec_encode_field(f)
        }),
{
    lemma_auto_spec_u32_to_from_le_bytes();
    let (f, j) = spec_parse_field(s, i).unwrap();
    assert(spec_u32_to_le_bytes(spec_u32_from_le_bytes(s.subrange(i, i + 4))) == s.subrange(
        i,
        i + 4,
    ));
    assert_seqs_equal!(s.subrange(i, j) == spec_encode_field(f));
}

/// A successfully read `CreateToken` payload is the exact encoding of
/// the buffer from `start` to its end.
proof fn lemma_parse_params_sound(s: Seq<u8>, start: int)
    requires
        0 <= start <= s.len(),
        spec_parse_params(s, start) is Some,
    ensures
        ({
            let p = spec_parse_params(s, start).unwrap();
            &&& params_fields_fit(p)
            &&& s.subrange(start, s.len() as int) == spec_encode_params(p)
        }),
{
    lemma_auto_spec_u32_to_from_le_bytes();
    lemma_auto_spec_u64_to_from_le_bytes();
    let (name, i1) = spec_parse_field(s, start).unwrap();
    lemma_parse_field_sound(s, start);
    let (symbol, i2) = spec_parse_field(s, i1).unwrap();
    lemma_parse_field_sound(s, i1);
    assert(spec_u64_to_le_bytes(spec_u64_from_le_bytes(s.subrange(i2 + 1, i2 + 9))) == s.subrange(
        i2 + 1,
        i2 + 9,
    ));
    let (image_url, i3) = spec_parse_field(s, i2 + 9).unwrap();
    lemma_parse_field_sound(s, i2 + 9);
    let (twitter_url, i4) = spec_parse_field(s, i3).unwrap();
    lemma_parse_field_sound(s, i3);
    let (telegram_url, i5) = spec_parse_field(s, i4).unwrap();
    lemma_parse_field_sound(s, i4);
    let p = spec_parse_params(s, start).unwrap();
    assert_seqs_equal!(s.subrange(i2, i2 + 1) == seq![p.decimals]);
    assert_seqs_equal!(s.subrange(start, s.len() as int) == spec_encode_params(p));
}

/// A successfully read instruction is constructible and is the exact
/// encoding of the whole buffer.
proof fn lemma_parse_sound(s: Seq<u8>)
    requires
        spec_parse(s) is Some,
        s.len() <= usize::MAX,
    ensures
        ({
            let v = spec_parse(s).unwrap();
            &&& instruction_encodable(v)
            &&& s == spec_encode(v)
        }),
{
    lemma_auto_spec_u64_to_from_le_bytes();
    let v = spec_parse(s).unwrap();
    match v {
        InstructionView::CreateToken(p) => {
            lemma_parse_params_sound(s, 1);
            assert_seqs_equal!(s == seq![TAG_CREATE_TOKEN] + s.subrange(1, s.len() as int));
        },
        InstructionView::AddLiquidity { token_amount, quote_amount } => {
            assert(spec_u64_to_le_bytes(spec_u64_from_le_bytes(s.subrange(1, 9))) == s.subrange(
                1,
                9,
            ));
            assert(spec_u64_to_le_bytes(spec_u64_from_le_bytes(s.subrange(9, 17))) == s.subrange(
                9,
                17,
            ));
            assert_seqs_equal!(s == seq![TAG_ADD_LIQUIDITY] + s.subrange(1, 9) + s.subrange(9, 17));
        },
    }
}

/// Appends one length-prefixed text field to the output buffer.
fn push_field(out: &mut Vec<u8>, b: &Vec<u8>)
    requires
        b@.len() <= u32::MAX,
        old(out)@.len() + 4 + b@.len() <= usize::MAX,
    ensures
        final(out)@ == old(out)@ + spec_encode_field(b@),
{
    proof {
        lemma_auto_spec_u32_to_from_le_bytes();
    }
    let len_bytes = u32_to_le_bytes(b.len() as u32);
    out.extend_from_slice(len_bytes.as_slice());
    out.extend_from_slice(b.as_slice());
    proof {
        assert_seqs_equal!(out@ == old(out)@ + spec_encode_field(b@));
    }
}

/// Reads one length-prefixed field of the buffer at offset `pos`,
/// mirroring `spec_parse_field`.
fn read_field(bytes: &[u8], pos: usize) -> (r: Option<(Vec<u8>, usize)>)
    requires
        pos <= bytes@.len(),
    ensures
        match r {
            Some(fj) => {
                &&& spec_parse_field(bytes@, pos as int) == Some((fj.0@, fj.1 as int))
                &&& fj.1 <= bytes@.len()
            },
            None => spec_parse_field(bytes@, pos as int) is None,
        },
{
    let n_total = bytes.len();
    if n_total - pos < 4 {
        return None;
    }
    let len_slice = slice_subrange(bytes, pos, pos + 4);
    let n = u32_from_le_bytes(len_slice);
    let n_us = n as usize;
    if n_us > n_total - (pos + 4) {
        return None;
    }
    let f = slice_to_vec(slice_subrange(bytes, pos + 4, pos + 4 + n_us));
    Some((f, pos + 4 + n_us))
}

impl TokenDeployerInstruction {
    /// Serializes this instruction into its binary wire format.
    pub fn encode(&self) -> (r: Vec<u8>)
        requires
            instruction_encodable(self@),
        ensures
            r@ == spec_encode(self@),
    {
        proof {
            lemma_auto_spec_u32_to_from_le_bytes();
            lemma_auto_spec_u64_to_from_le_bytes();
        }
        let mut out: Vec<u8> = Vec::new();
        match self {
            TokenDeployerInstruction::CreateToken(p) => {
                out.push(TAG_CREATE_TOKEN);
                push_field(&mut out, &p.name);
                push_field(&mut out, &p.symbol);
                out.push(p.decimals);
                let supply_bytes = u64_to_le_bytes(p.initial_supply);
                out.extend_from_slice(supply_bytes.as_slice());
                push_field(&mut out, &p.image_url);
                push_field(&mut out, &p.twitter_url);
                push_field(&mut out, &p.telegram_url);
                proof {
                    assert_seqs_equal!(out@ == spec_encode(self@));
                }
            },
            TokenDeployerInstruction::AddLiquidity { token_amount, quote_amount } => {
                out.push(TAG_ADD_LIQUIDITY);
                let token_bytes = u64_to_le_bytes(*token_amount);
                out.extend_from_slice(token_bytes.as_slice());
                let quote_bytes = u64_to_le_bytes(*quote_amount);
                out.extend_from_slice(quote_bytes.as_slice());
                proof {
                    assert_seqs_equal!(out@ == spec_encode(self@));
                }
            },
        }
        out
    }

    /// Deserializes an instruction from its binary wire format.
    ///
    /// Succeeds exactly on the buffers that `spec_encode` produces: a
    /// truncated, malformed or tag-corrupted buffer matches no encoding
    /// and is rejected with `InvalidInstruction`. No partial decode is
    /// ever returned.
    pub fn decode(bytes: &[u8]) -> (r: Result<TokenDeployerInstruction, TokenDeployerError>)
        ensures
            match r {
                Ok(x) => {
                    &&& spec_parse(bytes@) == Some(x@)
                    &&& instruction_encodable(x@)
                    &&& bytes@ == spec_encode(x@)
                },
                Err(e) => {
                    &&& e == TokenDeployerError::InvalidInstruction
                    &&& spec_parse(bytes@) is None
                    &&& forall|v: InstructionView|
                        instruction_encodable(v) ==> spec_encode(v) != bytes@
                },
            },
    {
        let n_total: usize = bytes.len();
        let r = Self::decode_raw(bytes);
        proof {
            assert(bytes@.len() == n_total);
            if r is Ok {
                lemma_parse_sound(bytes@);
            } else {
                assert forall|v: InstructionView|
                    instruction_encodable(v) implies spec_encode(v) != bytes@ by {
                    if spec_encode(v) == bytes@ {
                        lemma_round_trip(v);
                    }
                }
            }
        }
        r
    }

    /// Reads an instruction from the buffer, mirroring `spec_parse`.
    fn decode_raw(bytes: &[u8]) -> (r: Result<TokenDeployerInstruction, TokenDeployerError>)
        ensures
            match r {
                Ok(x) => spec_parse(bytes@) == Some(x@),
                Err(e) => {
                    &&& e == TokenDeployerError::InvalidInstruction
                    &&& spec_parse(bytes@) is None
                },
            },
    {
        let n_total = bytes.len();
        if n_total < 1 {
            return Err(TokenDeployerError::InvalidInstruction);
        }
        let tag = *slice_index_get(bytes, 0);
        if tag == TAG_CREATE_TOKEN {
            let (name, i1) = match read_field(bytes, 1) {
                Some(fj) => fj,
                None => {
                    return Err(TokenDeployerError::InvalidInstruction);
                },
            };
            let (symbol, i2) = match read_field(bytes, i1) {
                Some(fj) => fj,
                None => {
                    return Err(TokenDeployerError::InvalidInstruction);
                },
            };
            if n_total - i2 < 9 {
                return Err(TokenDeployerError::InvalidInstruction);
            }
            let decimals = *slice_index_get(bytes, i2);
            let initial_supply = u64_from_le_bytes(slice_subrange(bytes, i2 + 1, i2 + 9));
            let (image_url, i3) = match read_field(bytes, i2 + 9) {
                Some(fj) => fj,
                None => {
                    return Err(TokenDeployerError::InvalidInstruction);
                },
            };
            let (twitter_url, i4) = match read_field(bytes, i3) {
                Some(fj) => fj,
                None => {
                    return Err(TokenDeployerError::InvalidInstruction);
                },
            };
            let (telegram_url, i5) = match read_field(bytes, i4) {
                Some(fj) => fj,
                None => {
                    return Err(TokenDeployerError::InvalidInstruction);
                },
            };
            if i5 != n_total {
                return Err(TokenDeployerError::InvalidInstruction);
            }
            Ok(
                TokenDeployerInstruction::CreateToken(
                    TokenParams {
                        name,
                        symbol,
                        decimals,
                        initial_supply,
                        image_url,
                        twitter_url,
                        telegram_url,
                    },
                ),
            )
        } else if tag == TAG_ADD_LIQUIDITY {
            if n_total != 17 {
                return Err(TokenDeployerError::InvalidInstruction);
            }
            let token_amount = u64_from_le_bytes(slice_subrange(bytes, 1, 9));
            let quote_amount = u64_from_le_bytes(slice_subrange(bytes, 9, 17));
            Ok(TokenDeployerInstruction::AddLiquidity { token_amount, quote_amount })
        } else {
            Err(TokenDeployerError::InvalidInstruction)
        }
    }
}

} // verus!

