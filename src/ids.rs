//! Identifiers of blocks, states and validators: parsing from one text token
//! and rendering back to text.
use vstd::prelude::*;

use crate::text::{
    all_digits, decimal_text, decimal_value, has_hex_prefix, hex_bytes, hex_reason, hex_text,
    int_reason, is_digit, is_hex_text, is_u64_text, lemma_decimal_text, lemma_hex_text, parse_hex,
    parse_u64, prefixed_hex, starts_with_hex_prefix, text_equals, write_decimal,
    write_prefixed_hex,
};

verus! {

/// A slot: the base unit of chain height.
pub type Slot = u64;

/// A 32-byte content hash.
#[derive(Debug, Clone, Copy, PartialEq, Eq)]
pub struct Hash256(pub [u8; 32]);

/// The bytes of a validator's public key, not checked to be a curve point.
#[derive(Debug, Clone, Copy, PartialEq, Eq)]
pub struct PublicKeyBytes(pub [u8; 48]);

/// A block, by symbolic tag, by slot or by root.
#[derive(Debug, Clone, Copy, PartialEq, Eq)]
pub enum BlockId {
    Head,
    Genesis,
    Finalized,
    Justified,
    Slot(Slot),
    Root(Hash256),
}

/// A state, by symbolic tag, by slot or by root.
#[derive(Debug, Clone, Copy, PartialEq, Eq)]
pub enum StateId {
    Head,
    Genesis,
    Finalized,
    Justified,
    Slot(Slot),
    Root(Hash256),
}

/// A validator, by public key or by index in the registry.
#[derive(Debug, Clone, Copy, PartialEq, Eq)]
pub enum ValidatorId {
    PublicKey(PublicKeyBytes),
    Index(u64),
}

/// What a block or state identifier denotes.
pub enum ChainIdModel {
    Head,
    Genesis,
    Finalized,
    Justified,
    Height(nat),
    Hash(Seq<u8>),
}

/// What a validator identifier denotes.
pub enum ValidatorIdModel {
    PublicKey(Seq<u8>),
    Index(nat),
}

impl View for BlockId {
    type V = ChainIdModel;

    open spec fn view(&self) -> ChainIdModel {
        match *self {
            BlockId::Head => ChainIdModel::Head,
            BlockId::Genesis => ChainIdModel::Genesis,
            BlockId::Finalized => ChainIdModel::Finalized,
            BlockId::Justified => ChainIdModel::Justified,
            BlockId::Slot(n) => ChainIdModel::Height(n as nat),
            BlockId::Root(h) => ChainIdModel::Hash(h.0@),
        }
    }
}

impl View for StateId {
    type V = ChainIdModel;

    open spec fn view(&self) -> ChainIdModel {
        match *self {
            StateId::Head => ChainIdModel::Head,
            StateId::Genesis => ChainIdModel::Genesis,
            StateId::Finalized => ChainIdModel::Finalized,
            StateId::Justified => ChainIdModel::Justified,
            StateId::Slot(n) => ChainIdModel::Height(n as nat),
            StateId::Root(h) => ChainIdModel::Hash(h.0@),
        }
    }
}

impl View for ValidatorId {
    type V = ValidatorIdModel;

    open spec fn view(&self) -> ValidatorIdModel {
        match *self {
            ValidatorId::PublicKey(k) => ValidatorIdModel::PublicKey(k.0@),
            ValidatorId::Index(i) => ValidatorIdModel::Index(i as nat),
        }
    }
}

/// The symbolic tag that a text names exactly (case-sensitive), if any.
pub open spec fn tag_of(s: Seq<char>) -> Option<ChainIdModel> {
    if s == "head"@ {
        Some(ChainIdModel::Head)
    } else if s == "genesis"@ {
        Some(ChainIdModel::Genesis)
    } else if s == "finalized"@ {
        Some(ChainIdModel::Finalized)
    } else if s == "justified"@ {
        Some(ChainIdModel::Justified)
    } else {
        None
    }
}

/// What a text denotes as a block or state identifier: a symbolic tag first,
/// then `0x` and a 32-byte hash, then a 64-bit decimal slot.
pub open spec fn chain_id_of(s: Seq<char>) -> Option<ChainIdModel> {
    if tag_of(s) is Some {
        tag_of(s)
    } else if has_hex_prefix(s) {
        if is_hex_text(s.skip(2), 32) {
            Some(ChainIdModel::Hash(hex_bytes(s.skip(2))))
        } else {
            None
        }
    } else if is_u64_text(s) {
        Some(ChainIdModel::Height(decimal_value(s)))
    } else {
        None
    }
}

/// The message for a text that is no block or state identifier.
pub open spec fn chain_id_error(s: Seq<char>, slot_word: Seq<char>) -> Seq<char> {
    if has_hex_prefix(s) {
        s + " cannot be parsed as a root: "@ + hex_reason(s.skip(2), 32)
    } else {
        s + " cannot be parsed as a "@ + slot_word
    }
}

/// The text of a block or state identifier.
pub open spec fn chain_id_text(m: ChainIdModel) -> Seq<char> {
    match m {
        ChainIdModel::Head => "head"@,
        ChainIdModel::Genesis => "genesis"@,
        ChainIdModel::Finalized => "finalized"@,
        ChainIdModel::Justified => "justified"@,
        ChainIdModel::Height(n) => decimal_text(n),
        ChainIdModel::Hash(b) => prefixed_hex(b),
    }
}

/// What a text denotes as a validator identifier: `0x` and a 48-byte public
/// key, else a 64-bit decimal index.
pub open spec fn validator_id_of(s: Seq<char>) -> Option<ValidatorIdModel> {
    if has_hex_prefix(s) {
        if is_hex_text(s.skip(2), 48) {
            Some(ValidatorIdModel::PublicKey(hex_bytes(s.skip(2))))
        } else {
            None
        }
    } else if is_u64_text(s) {
        Some(ValidatorIdModel::Index(decimal_value(s)))
    } else {
        None
    }
}

/// The message for a text that is no validator identifier.
pub open spec fn validator_id_error(s: Seq<char>) -> Seq<char> {
    if has_hex_prefix(s) {
        s + " cannot be parsed as a public key: "@ + hex_reason(s.skip(2), 48)
    } else {
        s + " cannot be parsed as a slot: "@ + int_reason(s)
    }
}

/// The text of a validator identifier.
pub open spec fn validator_id_text(m: ValidatorIdModel) -> Seq<char> {
    match m {
        ValidatorIdModel::PublicKey(b) => prefixed_hex(b),
        ValidatorIdModel::Index(n) => decimal_text(n),
    }
}

fn hex_reason_text(s: &str, n: usize) -> (r: &'static str)
    requires
        s@.len() >= 2,
        n < 0x4000_0000,
    ensures
        r@ == hex_reason(s@.skip(2), n as nat),
{
    if s.unicode_len() - 2 != 2 * n {
        "invalid input length"
    } else {
        "invalid character"
    }
}

fn int_reason_text(s: &str) -> (r: &'static str)
    requires
        !is_u64_text(s@),
    ensures
        r@ == int_reason(s@),
{
    let n = s.unicode_len();
    if n == 0 {
        return "cannot parse integer from empty string";
    }
    let mut i: usize = 0;
    while i < n
        invariant
            n == s@.len(),
            0 <= i <= n,
            forall|j: int| 0 <= j < i ==> is_digit(#[trigger] s@[j]),
        decreases n - i,
    {
        let c = s.get_char(i);
        if !('0' <= c && c <= '9') {
            assert(!is_digit(s@[i as int]));
            return "invalid digit found in string";
        }
        i = i + 1;
    }
    "number too large to fit in target type"
}

fn error_text(s: &str, what: &str, reason: &str) -> (r: String)
    ensures
        r@ == s@ + what@ + reason@,
{
    let mut e = s.to_owned();
    e.append(what);
    e.append(reason);
    e
}

impl BlockId {
    /// Parses a block identifier from one text token.
    pub fn from_str(s: &str) -> (r: Result<BlockId, String>)
        ensures
            r is Ok <==> chain_id_of(s@) is Some,
            r matches Ok(id) ==> chain_id_of(s@) == Some(id@),
            r matches Err(e) ==> e@ == chain_id_error(s@, "parameter"@),
    {
        if text_equals(s, "head") {
            Ok(BlockId::Head)
        } else if text_equals(s, "genesis") {
            Ok(BlockId::Genesis)
        } else if text_equals(s, "finalized") {
            Ok(BlockId::Finalized)
        } else if text_equals(s, "justified") {
            Ok(BlockId::Justified)
        } else if starts_with_hex_prefix(s) {
            match parse_hex::<32>(s, 2) {
                Some(b) => Ok(BlockId::Root(Hash256(b))),
                None => Err(error_text(s, " cannot be parsed as a root: ", hex_reason_text(s, 32))),
            }
        } else {
            match parse_u64(s) {
                Some(n) => Ok(BlockId::Slot(n)),
                None => Err(error_text(s, " cannot be parsed as a ", "parameter")),
            }
        }
    }

    /// The text of this identifier: its tag, its decimal slot, or `0x` and
    /// the lowercase hex of its root.
    pub fn to_string(&self) -> (r: String)
        ensures
            r@ == chain_id_text(self@),
    {
        match self {
            BlockId::Head => "head".to_owned(),
            BlockId::Genesis => "genesis".to_owned(),
            BlockId::Finalized => "finalized".to_owned(),
            BlockId::Justified => "justified".to_owned(),
            BlockId::Slot(n) => {
                let mut out = String::new();
                write_decimal(&mut out, *n);
                out
            },
            BlockId::Root(h) => {
                let mut out = String::new();
                write_prefixed_hex(&mut out, h.0.as_slice());
                out
            },
        }
    }
}


impl StateId {
    /// Parses a state identifier from one text token.
    pub fn from_str(s: &str) -> (r: Result<StateId, String>)
        ensures
            r is Ok <==> chain_id_of(s@) is Some,
            r matches Ok(id) ==> chain_id_of(s@) == Some(id@),
            r matches Err(e) ==> e@ == chain_id_error(s@, "slot"@),
    {
        if text_equals(s, "head") {
            Ok(StateId::Head)
        } else if text_equals(s, "genesis") {
            Ok(StateId::Genesis)
        } else if text_equals(s, "finalized") {
            Ok(StateId::Finalized)
        } else if text_equals(s, "justified") {
            Ok(StateId::Justified)
        } else if starts_with_hex_prefix(s) {
            match parse_hex::<32>(s, 2) {
                Some(b) => Ok(StateId::Root(Hash256(b))),
                None => Err(error_text(s, " cannot be parsed as a root: ", hex_reason_text(s, 32))),
            }
        } else {
            match parse_u64(s) {
                Some(n) => Ok(StateId::Slot(n)),
                None => Err(error_text(s, " cannot be parsed as a ", "slot")),
            }
        }
    }

    /// The text of this identifier: its tag, its decimal slot, or `0x` and
    /// the lowercase hex of its root.
    pub fn to_string(&self) -> (r: String)
        ensures
            r@ == chain_id_text(self@),
    {
        match self {
            StateId::Head => "head".to_owned(),
            StateId::Genesis => "genesis".to_owned(),
            StateId::Finalized => "finalized".to_owned(),
            StateId::Justified => "justified".to_owned(),
            StateId::Slot(n) => {
                let mut out = String::new();
                write_decimal(&mut out, *n);
                out
            },
            StateId::Root(h) => {
                let mut out = String::new();
                write_prefixed_hex(&mut out, h.0.as_slice());
                out
            },
        }
    }
}

impl ValidatorId {
    /// Parses a validator identifier from one text token.
    pub fn from_str(s: &str) -> (r: Result<ValidatorId, String>)
        ensures
            r is Ok <==> validator_id_of(s@) is Some,
            r matches Ok(id) ==> validator_id_of(s@) == Some(id@),
            r matches Err(e) ==> e@ == validator_id_error(s@),
    {
        if starts_with_hex_prefix(s) {
            match parse_hex::<48>(s, 2) {
                Some(b) => Ok(ValidatorId::PublicKey(PublicKeyBytes(b))),
                None => Err(
                    error_text(s, " cannot be parsed as a public key: ", hex_reason_text(s, 48)),
                ),
            }
        } else {
            match parse_u64(s) {
                Some(n) => Ok(ValidatorId::Index(n)),
                None => Err(error_text(s, " cannot be parsed as a slot: ", int_reason_text(s))),
            }
        }
    }

    /// The text of this identifier: `0x` and the lowercase hex of its public
    /// key, or its decimal index.
    pub fn to_string(&self) -> (r: String)
        ensures
            r@ == validator_id_text(self@),
    {
        match self {
            ValidatorId::PublicKey(k) => {
                let mut out = String::new();
                write_prefixed_hex(&mut out, k.0.as_slice());
                out
            },
            ValidatorId::Index(n) => {
                let mut out = String::new();
                write_decimal(&mut out, *n);
                out
            },
        }
    }
}

/// A block or state identifier model that some identifier value has.
pub open spec fn chain_id_well_formed(m: ChainIdModel) -> bool {
    match m {
        ChainIdModel::Height(n) => n <= u64::MAX,
        ChainIdModel::Hash(b) => b.len() == 32,
        _ => true,
    }
}

/// A validator identifier model that some identifier value has.
pub open spec fn validator_id_well_formed(m: ValidatorIdModel) -> bool {
    match m {
        ValidatorIdModel::PublicKey(b) => b.len() == 48,
        ValidatorIdModel::Index(n) => n <= u64::MAX,
    }
}

/// A text that starts with a digit is no tag.
proof fn lemma_not_a_tag(s: Seq<char>)
    requires
        s.len() > 0,
        is_digit(s[0]),
    ensures
        tag_of(s) is None,
{
    reveal_strlit("head");
    reveal_strlit("genesis");
    reveal_strlit("finalized");
    reveal_strlit("justified");
    assert(s != "head"@ && s != "genesis"@ && s != "finalized"@ && s != "justified"@) by {
        assert("head"@[0] == 'h');
        assert("genesis"@[0] == 'g');
        assert("finalized"@[0] == 'f');
        assert("justified"@[0] == 'j');
    }
}

/// A non-empty digit string has no `0x` prefix and is no tag.
proof fn lemma_digits_not_prefixed(s: Seq<char>)
    requires
        s.len() > 0,
        all_digits(s),
    ensures
        !has_hex_prefix(s),
        tag_of(s) is None,
{
    if s.len() >= 2 {
        assert(is_digit(s[1]));
    }
    assert(is_digit(s[0]));
    lemma_not_a_tag(s);
}

proof fn lemma_prefixed_hex(b: Seq<u8>)
    ensures
        has_hex_prefix(prefixed_hex(b)),
        prefixed_hex(b).skip(2) == hex_text(b),
        tag_of(prefixed_hex(b)) is None,
{
    let s = prefixed_hex(b);
    assert(s.skip(2) =~= hex_text(b));
    lemma_not_a_tag(s);
}

/// Every block or state identifier reads back from its own text: the tag
/// from its word, a slot from its decimal text, a root from its `0x` hex.
pub proof fn lemma_chain_id_round_trip(m: ChainIdModel)
    requires
        chain_id_well_formed(m),
    ensures
        chain_id_of(chain_id_text(m)) == Some(m),
{
    match m {
        ChainIdModel::Height(n) => {
            lemma_decimal_text(n);
            lemma_digits_not_prefixed(decimal_text(n));
        },
        ChainIdModel::Hash(b) => {
            lemma_prefixed_hex(b);
            lemma_hex_text(b);
        },
        _ => {
            reveal_strlit("head");
            reveal_strlit("genesis");
            reveal_strlit("finalized");
            reveal_strlit("justified");
            assert("genesis"@ != "head"@ && "finalized"@ != "head"@ && "justified"@ != "head"@) by {
                assert("head"@[0] == 'h');
            }
            assert("finalized"@ != "genesis"@ && "justified"@ != "genesis"@) by {
                assert("genesis"@[0] == 'g');
            }
            assert("justified"@ != "finalized"@) by {
                assert("finalized"@[0] == 'f');
            }
        },
    }
}

/// Every validator identifier reads back from its own text.
pub proof fn lemma_validator_id_round_trip(m: ValidatorIdModel)
    requires
        validator_id_well_formed(m),
    ensures
        validator_id_of(validator_id_text(m)) == Some(m),
{
    match m {
        ValidatorIdModel::Index(n) => {
            lemma_decimal_text(n);
            lemma_digits_not_prefixed(decimal_text(n));
        },
        ValidatorIdModel::PublicKey(b) => {
            lemma_prefixed_hex(b);
            lemma_hex_text(b);
        },
    }
}

/// `0x` followed by the hex of a 32-byte hash denotes that hash; after `0x`,
/// a text of another length or with a non-hex character denotes nothing.
pub proof fn lemma_hash_text(h: Seq<u8>, s: Seq<char>)
    requires
        h.len() == 32,
    ensures
        chain_id_of(prefixed_hex(h)) == Some(ChainIdModel::Hash(h)),
        has_hex_prefix(s) && !is_hex_text(s.skip(2), 32) ==> chain_id_of(s) is None,
{
    lemma_chain_id_round_trip(ChainIdModel::Hash(h));
    if has_hex_prefix(s) {
        lemma_not_a_tag(s);
    }
}

/// A non-empty decimal digit string whose value fits in 64 bits denotes that
/// slot or index, leading zeros and all; a text that is no tag, has no `0x`
/// prefix and holds a non-digit denotes nothing.
pub proof fn lemma_decimal_id_text(s: Seq<char>)
    ensures
        is_u64_text(s) ==> chain_id_of(s) == Some(ChainIdModel::Height(decimal_value(s))),
        is_u64_text(s) ==> validator_id_of(s) == Some(ValidatorIdModel::Index(decimal_value(s))),
        tag_of(s) is None && !has_hex_prefix(s) && !all_digits(s) ==> chain_id_of(s) is None
            && validator_id_of(s) is None,
{
    if is_u64_text(s) {
        lemma_digits_not_prefixed(s);
    }
}

/// A text that starts with `0x` never denotes a slot or an index, even where
/// the rest is all digits: it denotes a hash or a public key, or nothing.
pub proof fn lemma_hex_prefix_not_numeric(s: Seq<char>)
    requires
        has_hex_prefix(s),
    ensures
        chain_id_of(s) is None || chain_id_of(s) matches Some(ChainIdModel::Hash(_)),
        validator_id_of(s) is None || validator_id_of(s) matches Some(
            ValidatorIdModel::PublicKey(_),
        ),
{
    lemma_not_a_tag(s);
}

} // verus!
