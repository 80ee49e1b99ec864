//! The salt deriver: HKDF-SHA256 keyed by a 32-byte master seed, with the
//! issuer and audience as the HKDF salt and the subject as the info string,
//! expanded to 16 bytes and sent as lowercase hex.
use vstd::prelude::*;
use vstd::slice::slice_to_vec;
use vstd::string::StringSliceAdditionalSpecFns;
use vstd::utf8::{encode_utf8, encode_utf8_decode_utf8};
use crate::hexcode::{
    decode_hex, encode_lower_hex, hex_decoded, hex_lower, is_hex_text, is_lower_hex,
    lemma_hex_lower_injective, lemma_hex_lower_shape,
};

verus! {

/// The number of bytes in a master seed.
pub const MASTER_SEED_LEN: usize = 32;

/// The number of bytes of output keying material in a salt.
pub const SALT_LEN: usize = 16;

/// Claims taken from an already verified OIDC ID token.
pub struct SaltRequest {
    pub iss: String,
    pub aud: String,
    pub sub: String,
}

/// The derived salt, as lowercase hex.
pub struct SaltResponse {
    pub user_salt: String,
}

/// Why the master seed cannot be used.
#[derive(Debug, Clone, Copy, PartialEq, Eq, Structural)]
pub enum ConfigError {
    /// No seed was configured.
    MissingSeed,
    /// The configured seed is not hex text.
    SeedNotHex,
    /// The configured seed does not decode to exactly 32 bytes.
    SeedWrongLength,
}

/// Why hex text cannot serve as a master seed, if it cannot: it is not hex,
/// or it does not stand for exactly 32 bytes.
pub open spec fn hex_seed_error(h: Seq<u8>) -> Option<ConfigError> {
    if !is_hex_text(h) {
        Some(ConfigError::SeedNotHex)
    } else if hex_decoded(h).len() != MASTER_SEED_LEN {
        Some(ConfigError::SeedWrongLength)
    } else {
        None
    }
}

/// The process-wide secret key of the derivation: always exactly 32 bytes.
pub struct MasterSeed {
    bytes: Vec<u8>,
}

impl View for MasterSeed {
    type V = Seq<u8>;

    closed spec fn view(&self) -> Seq<u8> {
        self.bytes@
    }
}

impl MasterSeed {
    #[verifier::type_invariant]
    spec fn inv(&self) -> bool {
        self.bytes@.len() == MASTER_SEED_LEN
    }

    /// The seed's bytes; there are always 32 of them.
    pub fn as_bytes(&self) -> (r: &[u8])
        ensures
            r@ == self@,
            r@.len() == MASTER_SEED_LEN,
    {
        proof {
            use_type_invariant(self);
        }
        self.bytes.as_slice()
    }

    /// A seed from raw bytes; anything but 32 of them is refused.
    pub fn from_bytes(bytes: Vec<u8>) -> (r: Result<MasterSeed, ConfigError>)
        ensures
            bytes@.len() == MASTER_SEED_LEN ==> (r matches Ok(s) && s@ == bytes@),
            bytes@.len() != MASTER_SEED_LEN ==> r == Err::<MasterSeed, ConfigError>(
                ConfigError::SeedWrongLength,
            ),
    {
        if bytes.len() == MASTER_SEED_LEN {
            Ok(MasterSeed { bytes })
        } else {
            Err(ConfigError::SeedWrongLength)
        }
    }

    /// A seed from its hex text (either case), which must stand for exactly
    /// 32 bytes.
    pub fn from_hex(hex: &str) -> (r: Result<MasterSeed, ConfigError>)
        ensures
            hex_seed_error(hex.spec_bytes()) matches Some(e) ==> r == Err::<MasterSeed, ConfigError>(e),
            hex_seed_error(hex.spec_bytes()) is None ==> (r matches Ok(s) && s@ == hex_decoded(
                hex.spec_bytes(),
            )),
    {
        match decode_hex(hex.as_bytes()) {
            Ok(bytes) => MasterSeed::from_bytes(bytes),
            Err(_) => Err(ConfigError::SeedNotHex),
        }
    }
}

/// The 16 bytes of output keying material that HKDF-SHA256 gives for this
/// salt, input keying material and info.
pub uninterp spec fn hkdf_sha256_okm16(salt: Seq<u8>, ikm: Seq<u8>, info: Seq<u8>) -> Seq<u8>;

#[verifier::external_type_specification]
#[verifier::external_body]
pub struct ExInvalidLength(hkdf::InvalidLength);

/// Relies on hkdf::Hkdf::<sha2::Sha256>::new (extract with `Some(salt)`) and
/// Hkdf::expand: the output depends on salt, ikm and info alone, and expand
/// refuses only an output longer than 255 * 32 bytes, so 16 bytes never fail.
#[verifier::external_body]
fn hkdf_sha256_expand16(salt: &[u8], ikm: &[u8], info: &[u8]) -> (r: Result<
    [u8; 16],
    hkdf::InvalidLength,
>)
    ensures
        r is Ok,
        r matches Ok(okm) ==> okm@ == hkdf_sha256_okm16(salt@, ikm@, info@),
{
    let hk = hkdf::Hkdf::<sha2::Sha256>::new(Some(salt), ikm);
    let mut okm = [0u8; 16];
    hk.expand(info, &mut okm).map(|_| okm)
}

/// The HKDF salt parameter: issuer bytes followed by audience bytes, with
/// no delimiter.
pub open spec fn hkdf_salt_spec(iss: Seq<u8>, aud: Seq<u8>) -> Seq<u8> {
    iss + aud
}

/// The salt, as lowercase hex, that a seed gives for claims (all as bytes).
pub open spec fn user_salt_spec(seed: Seq<u8>, iss: Seq<u8>, aud: Seq<u8>, sub: Seq<u8>) -> Seq<
    char,
> {
    hex_lower(hkdf_sha256_okm16(hkdf_salt_spec(iss, aud), seed, sub))
}

/// The salt that a seed gives for a request.
pub open spec fn request_salt(seed: Seq<u8>, req: &SaltRequest) -> Seq<char> {
    user_salt_spec(seed, encode_utf8(req.iss@), encode_utf8(req.aud@), encode_utf8(req.sub@))
}

/// Equal seeds and equal claims always give the same salt: the derivation
/// depends on nothing else.
pub proof fn lemma_salt_deterministic(
    seed1: Seq<u8>,
    seed2: Seq<u8>,
    req1: &SaltRequest,
    req2: &SaltRequest,
)
    requires
        seed1 == seed2,
        req1.iss@ == req2.iss@,
        req1.aud@ == req2.aud@,
        req1.sub@ == req2.sub@,
    ensures
        request_salt(seed1, req1) == request_salt(seed2, req2),
{
}

/// Distinct strings have distinct UTF-8 bytes.
pub proof fn lemma_utf8_injective(a: Seq<char>, b: Seq<char>)
    requires
        a != b,
    ensures
        encode_utf8(a) != encode_utf8(b),
{
    encode_utf8_decode_utf8(a);
    encode_utf8_decode_utf8(b);
}

/// With the audience fixed, distinct issuers give distinct HKDF salts; with
/// the issuer fixed, distinct audiences do.
pub proof fn lemma_hkdf_salt_one_field(iss1: Seq<u8>, aud1: Seq<u8>, iss2: Seq<u8>, aud2: Seq<u8>)
    requires
        (iss1 != iss2 && aud1 == aud2) || (iss1 == iss2 && aud1 != aud2),
    ensures
        hkdf_salt_spec(iss1, aud1) != hkdf_salt_spec(iss2, aud2),
{
    let (x, y) = (hkdf_salt_spec(iss1, aud1), hkdf_salt_spec(iss2, aud2));
    if iss1 != iss2 && iss1.len() == iss2.len() {
        assert(!(iss1 =~= iss2));
        let i = choose|i: int| 0 <= i < iss1.len() && iss1[i] != iss2[i];
        assert(x[i] != y[i]);
    } else if iss1 == iss2 && aud1.len() == aud2.len() {
        assert(!(aud1 =~= aud2));
        let j = choose|j: int| 0 <= j < aud1.len() && aud1[j] != aud2[j];
        assert(x[iss1.len() + j] != y[iss1.len() + j]);
    } else {
        assert(x.len() != y.len());
    }
}

/// Under one seed, two requests that differ in exactly one claim hand HKDF
/// different inputs: a different salt parameter when the issuer or the
/// audience differs, a different info string when the subject does.
pub proof fn lemma_claim_change_changes_hkdf_input(req1: &SaltRequest, req2: &SaltRequest)
    requires
        (req1.iss@ != req2.iss@ && req1.aud@ == req2.aud@ && req1.sub@ == req2.sub@) || (
        req1.iss@ == req2.iss@ && req1.aud@ != req2.aud@ && req1.sub@ == req2.sub@) || (
        req1.iss@ == req2.iss@ && req1.aud@ == req2.aud@ && req1.sub@ != req2.sub@),
    ensures
        hkdf_salt_spec(encode_utf8(req1.iss@), encode_utf8(req1.aud@)) != hkdf_salt_spec(
            encode_utf8(req2.iss@),
            encode_utf8(req2.aud@),
        ) || encode_utf8(req1.sub@) != encode_utf8(req2.sub@),
{
    if req1.iss@ != req2.iss@ {
        lemma_utf8_injective(req1.iss@, req2.iss@);
        lemma_hkdf_salt_one_field(
            encode_utf8(req1.iss@),
            encode_utf8(req1.aud@),
            encode_utf8(req2.iss@),
            encode_utf8(req2.aud@),
        );
    } else if req1.aud@ != req2.aud@ {
        lemma_utf8_injective(req1.aud@, req2.aud@);
        lemma_hkdf_salt_one_field(
            encode_utf8(req1.iss@),
            encode_utf8(req1.aud@),
            encode_utf8(req2.iss@),
            encode_utf8(req2.aud@),
        );
    } else {
        lemma_utf8_injective(req1.sub@, req2.sub@);
    }
}

/// Derivations whose HKDF outputs differ give different salts: the hex
/// encoding of the output loses nothing.
pub proof fn lemma_salt_reflects_okm(
    seed1: Seq<u8>,
    req1: &SaltRequest,
    seed2: Seq<u8>,
    req2: &SaltRequest,
)
    requires
        hkdf_sha256_okm16(
            hkdf_salt_spec(encode_utf8(req1.iss@), encode_utf8(req1.aud@)),
            seed1,
            encode_utf8(req1.sub@),
        ) != hkdf_sha256_okm16(
            hkdf_salt_spec(encode_utf8(req2.iss@), encode_utf8(req2.aud@)),
            seed2,
            encode_utf8(req2.sub@),
        ),
    ensures
        request_salt(seed1, req1) != request_salt(seed2, req2),
{
    lemma_hex_lower_injective(
        hkdf_sha256_okm16(
            hkdf_salt_spec(encode_utf8(req1.iss@), encode_utf8(req1.aud@)),
            seed1,
            encode_utf8(req1.sub@),
        ),
        hkdf_sha256_okm16(
            hkdf_salt_spec(encode_utf8(req2.iss@), encode_utf8(req2.aud@)),
            seed2,
            encode_utf8(req2.sub@),
        ),
    );
}

/// Concatenates issuer and audience into the HKDF salt parameter.
pub fn hkdf_salt(iss: &str, aud: &str) -> (r: Vec<u8>)
    ensures
        r@ == hkdf_salt_spec(iss.spec_bytes(), aud.spec_bytes()),
{
    let mut r = slice_to_vec(iss.as_bytes());
    let mut tail = slice_to_vec(aud.as_bytes());
    r.append(&mut tail);
    r
}

/// Turns 16 bytes of output keying material into the response: 32
/// lowercase hex characters.
pub fn salt_from_okm(okm: &[u8; 16]) -> (r: SaltResponse)
    ensures
        r.user_salt@ == hex_lower(okm@),
        r.user_salt@.len() == 2 * SALT_LEN,
        is_lower_hex(r.user_salt@),
{
    let user_salt = encode_lower_hex(okm.as_slice());
    proof {
        lemma_hex_lower_shape(okm@);
    }
    SaltResponse { user_salt }
}

/// Derives the salt for a request from the master seed.
pub fn derive_salt(seed: &MasterSeed, req: &SaltRequest) -> (r: SaltResponse)
    ensures
        r.user_salt@ == request_salt(seed@, req),
        r.user_salt@.len() == 2 * SALT_LEN,
        is_lower_hex(r.user_salt@),
{
    let salt = hkdf_salt(req.iss.as_str(), req.aud.as_str());
    let okm = match hkdf_sha256_expand16(salt.as_slice(), seed.as_bytes(), req.sub.as_str().as_bytes()) {
        Ok(okm) => okm,
        Err(_) => {
            proof {
                assert(false);
            }
            [0u8; 16]
        },
    };
    salt_from_okm(&okm)
}

/// Loads the master seed from its configured hex text, if any.
pub fn get_master_seed(hex: Option<&str>) -> (r: Result<MasterSeed, ConfigError>)
    ensures
        hex is None ==> r == Err::<MasterSeed, ConfigError>(ConfigError::MissingSeed),
        hex is Some && hex_seed_error(hex.unwrap().spec_bytes()) is Some ==> r == Err::<
            MasterSeed,
            ConfigError,
        >(hex_seed_error(hex.unwrap().spec_bytes()).unwrap()),
        hex is Some && hex_seed_error(hex.unwrap().spec_bytes()) is None ==> (r matches Ok(s)
            && s@ == hex_decoded(hex.unwrap().spec_bytes())),
{
    match hex {
        None => Err(ConfigError::MissingSeed),
        Some(h) => MasterSeed::from_hex(h),
    }
}

} // verus!

verus! {

/// Serves one salt request: loads the master seed from its configured hex
/// text, then derives the salt for the claims.
pub fn salt_endpoint(master_seed_hex: Option<&str>, payload: &SaltRequest) -> (r: Result<
    SaltResponse,
    ConfigError,
>)
    ensures
        master_seed_hex is None ==> r == Err::<SaltResponse, ConfigError>(
            ConfigError::MissingSeed,
        ),
        master_seed_hex is Some && hex_seed_error(master_seed_hex.unwrap().spec_bytes()) is Some
            ==> r == Err::<SaltResponse, ConfigError>(
            hex_seed_error(master_seed_hex.unwrap().spec_bytes()).unwrap(),
        ),
        master_seed_hex is Some && hex_seed_error(master_seed_hex.unwrap().spec_bytes()) is None
            ==> (r matches Ok(resp) && resp.user_salt@ == request_salt(
            hex_decoded(master_seed_hex.unwrap().spec_bytes()),
            payload,
        ) && resp.user_salt@.len() == 2 * SALT_LEN && is_lower_hex(resp.user_salt@)),
{
    let seed = get_master_seed(master_seed_hex)?;
    Ok(derive_salt(&seed, payload))
}

} // verus!
