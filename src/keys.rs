//! The faucet's signing key: its stored text form and the order in which a
//! key is chosen at start-up.
use vstd::prelude::*;

verus! {

/// Big-endian value of bytes.
pub open spec fn be_value(b: Seq<u8>) -> nat
    decreases b.len(),
{
    if b.len() == 0 {
        0
    } else {
        (be_value(b.drop_last()) * 256 + b.last()) as nat
    }
}

/// Order of the secp256k1 group.
pub open spec fn curve_order() -> nat {
    ((0xFFFF_FFFF_FFFF_FFFFnat * 0x1_0000_0000_0000_0000nat + 0xFFFF_FFFF_FFFF_FFFEnat)
        * 0x1_0000_0000_0000_0000nat + 0xBAAE_DCE6_AF48_A03Bnat) * 0x1_0000_0000_0000_0000nat
        + 0xBFD2_5E8C_D036_4141nat
}

/// A secp256k1 secret key: 32 bytes whose big-endian value is a non-zero
/// scalar below the group order.
pub open spec fn secret_key_valid(b: Seq<u8>) -> bool {
    b.len() == 32 && 0 < be_value(b) < curve_order()
}


/// Relies on `secp256k1::SecretKey::from_slice`: it accepts exactly 32 bytes
/// whose big-endian value lies between 1 and the group order less one.
#[verifier::external_body]
fn secret_key_bytes_valid(b: &[u8]) -> (r: bool)
    ensures
        r == secret_key_valid(b@),
        r ==> b@.len() == 32,
{
    bitcoin::secp256k1::SecretKey::from_slice(b).is_ok()
}

/// Relies on `<secp256k1::SecretKey as FromStr>::from_str`: it takes exactly
/// 64 hex digits of either case, high digit first, and accepts the 32 bytes
/// as `from_slice` does.
#[verifier::external_body]
fn parse_secret_key_hex(s: &str) -> (r: Option<Vec<u8>>)
    ensures
        opt_bytes(r) == secret_key_from_hex(s@),
{
    s.parse::<bitcoin::secp256k1::SecretKey>().ok().map(|k| k.secret_bytes().to_vec())
}

pub open spec fn opt_bytes(r: Option<Vec<u8>>) -> Option<Seq<u8>> {
    match r {
        Some(b) => Some(b@),
        None => None,
    }
}

/// Value of a hex digit of either case; -1 for any other character.
pub open spec fn hex_value(c: char) -> int {
    let n = c as int;
    if 48 <= n <= 57 {
        n - 48
    } else if 97 <= n <= 102 {
        n - 87
    } else if 65 <= n <= 70 {
        n - 55
    } else {
        -1
    }
}

/// Bytes of a text of hex digits, two digits per byte.
pub open spec fn hex_bytes(s: Seq<char>) -> Seq<u8> {
    Seq::new(s.len() / 2, |i: int| (hex_value(s[2 * i]) * 16 + hex_value(s[2 * i + 1])) as u8)
}

/// The key written as 64 hex digits, if the text is one.
pub open spec fn secret_key_from_hex(s: Seq<char>) -> Option<Seq<u8>> {
    if s.len() == 64 && (forall|i: int| 0 <= i < s.len() ==> hex_value(#[trigger] s[i]) >= 0)
        && secret_key_valid(hex_bytes(s)) {
        Some(hex_bytes(s))
    } else {
        None
    }
}

/// Lower-case hex digit of a value below 16.
pub open spec fn hex_digit(n: int) -> char {
    if n < 10 {
        (48 + n) as char
    } else {
        (87 + n) as char
    }
}

/// Lower-case hex text of bytes, two digits per byte, high digit first.
pub open spec fn hex_of(b: Seq<u8>) -> Seq<char> {
    Seq::new(
        2 * b.len(),
        |i: int|
            if i % 2 == 0 {
                hex_digit(b[i / 2] as int / 16)
            } else {
                hex_digit(b[i / 2] as int % 16)
            },
    )
}

/// Relies on `bitcoincore_rpc::RawTx::raw_hex` for byte slices, which writes
/// each byte as two lower-case hex digits, high digit first.
#[verifier::external_body]
fn lower_hex(b: &[u8]) -> (r: String)
    ensures
        r@ == hex_of(b@),
{
    bitcoincore_rpc::RawTx::raw_hex(b)
}

/// A secp256k1 secret key, as its 32 bytes.
pub struct SecretKey {
    bytes: Vec<u8>,
}

impl View for SecretKey {
    type V = Seq<u8>;

    closed spec fn view(&self) -> Seq<u8> {
        self.bytes@
    }
}

impl SecretKey {
    #[verifier::type_invariant]
    spec fn inv(&self) -> bool {
        self.bytes@.len() == 32 && secret_key_valid(self.bytes@)
    }

    pub open spec fn wf(&self) -> bool {
        self@.len() == 32 && secret_key_valid(self@)
    }

    /// The key made of these bytes; `None` unless they are a valid key.
    pub fn from_bytes(bytes: Vec<u8>) -> (r: Option<SecretKey>)
        ensures
            r.is_some() <==> secret_key_valid(bytes@),
            r matches Some(k) ==> k@ == bytes@ && k.wf(),
    {
        if secret_key_bytes_valid(bytes.as_slice()) {
            Some(SecretKey { bytes })
        } else {
            None
        }
    }

    /// Reads a key from its hex text, as it is stored.
    pub fn from_hex(s: &str) -> (r: Option<SecretKey>)
        ensures
            r matches Some(k) ==> k.wf() && secret_key_from_hex(s@) == Some(k@),
            r.is_none() ==> secret_key_from_hex(s@).is_none(),
    {
        match parse_secret_key_hex(s) {
            Some(bytes) => Some(SecretKey { bytes }),
            None => None,
        }
    }

    pub fn bytes(&self) -> (r: &Vec<u8>)
        ensures
            r@ == self@,
    {
        &self.bytes
    }

    pub fn duplicate(&self) -> (r: SecretKey)
        ensures
            r@ == self@,
    {
        proof {
            use_type_invariant(self);
        }
        SecretKey { bytes: self.bytes.clone() }
    }

    /// The key as lower-case hex, the form in which it is stored.
    pub fn to_hex(&self) -> (r: String)
        ensures
            r@ == hex_of(self@),
    {
        lower_hex(self.bytes.as_slice())
    }
}

proof fn lemma_hex_round_trip(k: Seq<u8>)
    ensures
        hex_bytes(hex_of(k)) =~= k,
        forall|i: int| 0 <= i < hex_of(k).len() ==> hex_value(#[trigger] hex_of(k)[i]) >= 0,
{
    assert forall|i: int| 0 <= i < k.len() implies #[trigger] hex_bytes(hex_of(k))[i] == k[i] by {
        let b = k[i] as int;
        assert(hex_of(k)[2 * i] == hex_digit(b / 16));
        assert(hex_of(k)[2 * i + 1] == hex_digit(b % 16));
        assert(b / 16 * 16 + b % 16 == b);
    }
}

/// Where the signing key comes from.
pub enum KeySource {
    /// Supplied by the operator; never written to storage.
    Provided(SecretKey),
    /// Read back from storage.
    Stored(SecretKey),
    /// Freshly generated; its hex text is to be stored before first use.
    Generated(SecretKey, String),
}

#[derive(PartialEq, Eq, Structural, Clone, Copy, Debug)]
pub enum KeyError {
    /// The stored text is no secret key.
    InvalidStoredKey,
    /// Neither the operator nor storage has a key, and no fresh one was given.
    FreshKeyNeeded,
}

impl KeySource {
    pub open spec fn key_view(&self) -> Seq<u8> {
        match self {
            KeySource::Provided(k) => k@,
            KeySource::Stored(k) => k@,
            KeySource::Generated(k, _) => k@,
        }
    }

    /// The text to write to storage, if any.
    pub open spec fn to_store(&self) -> Option<Seq<char>> {
        match self {
            KeySource::Generated(_, s) => Some(s@),
            _ => None,
        }
    }

    /// The key chosen.
    pub fn key(&self) -> (r: &SecretKey)
        ensures
            r@ == self.key_view(),
    {
        match self {
            KeySource::Provided(k) => k,
            KeySource::Stored(k) => k,
            KeySource::Generated(k, _) => k,
        }
    }
}

/// Key and text to store that the start-up order gives: the operator's key
/// first, then the stored one, else the fresh one, which is then stored.
pub open spec fn key_choice(
    provided: Option<Seq<u8>>,
    stored: Option<Seq<char>>,
    fresh: Option<Seq<u8>>,
) -> Result<(Seq<u8>, Option<Seq<char>>), KeyError> {
    match provided {
        Some(k) => Ok((k, None)),
        None => match stored {
            Some(s) => match secret_key_from_hex(s) {
                Some(k) => Ok((k, None)),
                None => Err(KeyError::InvalidStoredKey),
            },
            None => match fresh {
                Some(k) => Ok((k, Some(hex_of(k)))),
                None => Err(KeyError::FreshKeyNeeded),
            },
        },
    }
}

pub open spec fn source_view(r: Result<KeySource, KeyError>) -> Result<
    (Seq<u8>, Option<Seq<char>>),
    KeyError,
> {
    match r {
        Ok(src) => Ok((src.key_view(), src.to_store())),
        Err(e) => Err(e),
    }
}

pub open spec fn key_opt_view(k: Option<SecretKey>) -> Option<Seq<u8>> {
    match k {
        Some(k) => Some(k@),
        None => None,
    }
}

pub open spec fn text_opt_view(s: Option<String>) -> Option<Seq<char>> {
    match s {
        Some(s) => Some(s@),
        None => None,
    }
}

/// What storage holds after a choice that stored `to_store`.
pub open spec fn stored_after(stored: Option<Seq<char>>, to_store: Option<Seq<char>>) -> Option<
    Seq<char>,
> {
    if to_store.is_some() {
        to_store
    } else {
        stored
    }
}

/// Whether the choice needs a freshly generated key: only when the operator
/// supplied none and storage holds none.
pub fn needs_fresh_key(provided: &Option<SecretKey>, stored: &Option<String>) -> (r: bool)
    ensures
        r == (provided.is_none() && stored.is_none()),
{
    provided.is_none() && stored.is_none()
}

/// Chooses the signing key at start-up. `stored` is what storage holds under
/// the key's entry; `fresh` is a newly generated key, needed only when neither
/// of the others is there. Choosing again, with storage as this choice leaves
/// it, gives the same key and stores nothing.
pub fn resolve_secret_key(
    provided: Option<SecretKey>,
    stored: Option<String>,
    fresh: Option<SecretKey>,
) -> (r: Result<KeySource, KeyError>)
    ensures
        source_view(r) == key_choice(key_opt_view(provided), text_opt_view(stored), key_opt_view(fresh)),
        r matches Ok(src) ==> src.key_view().len() == 32 && secret_key_valid(src.key_view()),
        forall|fresh_again: Option<Seq<u8>>|
            #![trigger key_choice(key_opt_view(provided), stored_after(text_opt_view(stored), source_view(r).unwrap().1), fresh_again)]
            r.is_ok() ==> key_choice(
                key_opt_view(provided),
                stored_after(text_opt_view(stored), source_view(r).unwrap().1),
                fresh_again,
            ) == Ok::<(Seq<u8>, Option<Seq<char>>), KeyError>((source_view(r).unwrap().0, None)),
{
    proof {
        if let Some(k) = &provided {
            use_type_invariant(k);
        }
        if let Some(k) = &fresh {
            use_type_invariant(k);
        }
    }
    let r = match provided {
        Some(k) => Ok(KeySource::Provided(k)),
        None => match stored {
            Some(text) => match SecretKey::from_hex(text.as_str()) {
                Some(k) => Ok(KeySource::Stored(k)),
                None => Err(KeyError::InvalidStoredKey),
            },
            None => match fresh {
                Some(k) => {
                    let text = k.to_hex();
                    Ok(KeySource::Generated(k, text))
                },
                None => Err(KeyError::FreshKeyNeeded),
            },
        },
    };
    proof {
        assert forall|fresh_again: Option<Seq<u8>>| r.is_ok() implies #[trigger] key_choice(
            key_opt_view(provided),
            stored_after(text_opt_view(stored), source_view(r).unwrap().1),
            fresh_again,
        ) == Ok::<(Seq<u8>, Option<Seq<char>>), KeyError>((source_view(r).unwrap().0, None)) by {
            lemma_key_choice_stable(
                key_opt_view(provided),
                text_opt_view(stored),
                key_opt_view(fresh),
                fresh_again,
            );
        }
    }
    r
}

/// Choosing the key a second time, with storage as the first choice left it,
/// gives the same key and stores nothing more; a key that the operator
/// supplies is the one chosen and is never stored.
pub proof fn lemma_key_choice_stable(
    provided: Option<Seq<u8>>,
    stored: Option<Seq<char>>,
    fresh: Option<Seq<u8>>,
    fresh_again: Option<Seq<u8>>,
)
    requires
        fresh matches Some(f) ==> secret_key_valid(f),
    ensures
        key_choice(provided, stored, fresh) matches Ok((k, to_store)) ==> key_choice(
            provided,
            stored_after(stored, to_store),
            fresh_again,
        ) == Ok::<(Seq<u8>, Option<Seq<char>>), KeyError>((k, None)),
        provided matches Some(k) ==> key_choice(provided, stored, fresh) == Ok::<
            (Seq<u8>, Option<Seq<char>>),
            KeyError,
        >((k, None)),
{
    if let Some(f) = fresh {
        lemma_hex_round_trip(f);
    }
}

} // verus!
