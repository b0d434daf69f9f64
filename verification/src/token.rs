//! The basic token and how it is built.

use crate::base64::{base64_text, encode, is_base64, padded_len};
use crate::hash::{
    sha1_hex, sha1_hex_digest, sha256_hex, sha256_hex_digest, SHA1_HEX_LEN, SHA256_HEX_LEN,
};
use crate::length::BasicTokenLength;
use crate::seed::{fresh_seed, is_fresh_seed, is_seed, SEED_LEN};
use crate::text::{
    ascii_uppercase, has_no_nul, has_no_zero_byte, is_lower_hex, is_upper_hex,
    lemma_encode_utf8_concat, lemma_hex_is_plain, lemma_no_nul_no_zero_byte, lemma_uppercase_hex,
    to_ascii_uppercase, utf8_len,
};
use vstd::prelude::*;
use vstd::utf8::encode_utf8;

verus! {

/// The hexadecimal value that a token starts with, before it is put in
/// upper case: the seed itself for a short token, the SHA-256 digest of the
/// seed for a long one.
pub open spec fn working_value(seed: Seq<char>, length: BasicTokenLength) -> Seq<char> {
    match length {
        BasicTokenLength::Basic112 => seed,
        BasicTokenLength::Basic156 => sha256_hex(encode_utf8(seed)),
    }
}

/// The working value in upper case, as it stands in the token.
pub open spec fn upper_value(seed: Seq<char>, length: BasicTokenLength) -> Seq<char> {
    ascii_uppercase(working_value(seed, length))
}

/// The number of characters of the working value of a seed.
pub open spec fn working_len(length: BasicTokenLength) -> nat {
    match length {
        BasicTokenLength::Basic112 => SEED_LEN as nat,
        BasicTokenLength::Basic156 => SHA256_HEX_LEN as nat,
    }
}

/// The part of a token that names the client: `HEX_id:`.
pub open spec fn prefix(hex: Seq<char>, client_id: Seq<char>) -> Seq<char> {
    hex + seq!['_'] + client_id + seq![':']
}

/// The text that is signed: `HEX:id:secret`.
pub open spec fn signed_text(hex: Seq<char>, client_id: Seq<char>, client_secret: Seq<char>) -> Seq<
    char,
> {
    hex + seq![':'] + client_id + seq![':'] + client_secret
}

/// The signature: the SHA-1 digest of the signed text, in hexadecimal.
pub open spec fn signature(hex: Seq<char>, client_id: Seq<char>, client_secret: Seq<char>) -> Seq<
    char,
> {
    sha1_hex(encode_utf8(signed_text(hex, client_id, client_secret)))
}

/// What a token says before it is encoded: the prefix, then the signature,
/// both made with the working value in upper case.
pub open spec fn plaintext(
    seed: Seq<char>,
    client_id: Seq<char>,
    client_secret: Seq<char>,
    length: BasicTokenLength,
) -> Seq<char> {
    let hex = upper_value(seed, length);
    prefix(hex, client_id) + signature(hex, client_id, client_secret)
}

/// The working value of a seed in upper case is upper-case hexadecimal
/// digits, as many as the length class says.
pub open spec fn has_hex_value(seed: Seq<char>, length: BasicTokenLength) -> bool {
    upper_value(seed, length).len() == working_len(length) && is_upper_hex(
        upper_value(seed, length),
    )
}

/// The signature of the token is forty lower-case hexadecimal digits.
pub open spec fn has_hex_signature(
    seed: Seq<char>,
    client_id: Seq<char>,
    client_secret: Seq<char>,
    length: BasicTokenLength,
) -> bool {
    let signed = signature(upper_value(seed, length), client_id, client_secret);
    signed.len() == SHA1_HEX_LEN && is_lower_hex(signed)
}

/// The token built from `seed`: its plaintext in base64.
pub open spec fn token_text(
    seed: Seq<char>,
    client_id: Seq<char>,
    client_secret: Seq<char>,
    length: BasicTokenLength,
) -> Seq<char> {
    base64_text(encode_utf8(plaintext(seed, client_id, client_secret, length)))
}

/// The number of bytes of a plaintext whose client id takes `id_bytes` bytes.
pub open spec fn plaintext_len(length: BasicTokenLength, id_bytes: nat) -> nat {
    working_len(length) + 1 + id_bytes + 1 + SHA1_HEX_LEN as nat
}

/// The number of characters of a token whose client id takes `id_bytes`
/// bytes.
pub open spec fn token_len(length: BasicTokenLength, id_bytes: nat) -> nat {
    padded_len(plaintext_len(length, id_bytes))
}

/// Writes out the text that is signed for a token whose working value in
/// upper case is `hex`.
pub fn build_signed_text(hex: &str, client_id: &str, client_secret: &str) -> (text: String)
    ensures
        text@ == signed_text(hex@, client_id@, client_secret@),
{
    proof {
        reveal_strlit(":");
        assert(":"@ =~= seq![':']);
    }
    let mut text = hex.to_owned();
    text.append(":");
    text.append(client_id);
    text.append(":");
    text.append(client_secret);
    text
}

/// Writes out the plaintext of a token from its working value in upper case
/// and its signature.
pub fn build_plaintext(hex: &str, client_id: &str, signature: &str) -> (text: String)
    ensures
        text@ == prefix(hex@, client_id@) + signature@,
{
    proof {
        reveal_strlit("_");
        reveal_strlit(":");
        assert("_"@ =~= seq!['_']);
        assert(":"@ =~= seq![':']);
    }
    let mut text = hex.to_owned();
    text.append("_");
    text.append(client_id);
    text.append(":");
    text.append(signature);
    text
}

/// A basic token: an encoded credential, kept as the string that is sent.
#[derive(Debug)]
pub struct BasicToken(String);

impl View for BasicToken {
    type V = Seq<char>;

    closed spec fn view(&self) -> Seq<char> {
        self.0@
    }
}

impl BasicToken {
    /// The client id that tokens are built with by default.
    pub const CLIENT_ID: &'static str = "MsOIJ39Q28";

    /// The client secret that tokens are built with by default.
    pub const CLIENT_SECRET: &'static str = "PTDc3H8a)Vi=UYap";

    /// The length class that tokens are built with by default.
    pub const DEFAULT_LENGTH: BasicTokenLength = BasicTokenLength::Basic112;

    /// Builds the token that `seed` determines.
    ///
    /// The working value is the seed, or its SHA-256 digest for a long
    /// token, in upper case. The token is the base64 of `HEX_id:` followed by
    /// the SHA-1 digest of `HEX:id:secret`. The client id and the client
    /// secret go in as they are given.
    ///
    /// With a seed of 32 hexadecimal digits and a client id without U+0000,
    /// the length of the token goes by the length class and the bytes of the
    /// client id alone.
    pub fn from_seed(
        seed: &str,
        client_id: &str,
        client_secret: &str,
        length: BasicTokenLength,
    ) -> (token: BasicToken)
        ensures
            token@ == token_text(seed@, client_id@, client_secret@, length),
            is_base64(token@),
            has_hex_signature(seed@, client_id@, client_secret@, length),
            is_seed(seed@) ==> has_hex_value(seed@, length),
            is_seed(seed@) && has_no_nul(client_id@) ==> token@.len() == token_len(
                length,
                utf8_len(client_id@),
            ),
    {
        let working = match length {
            BasicTokenLength::Basic112 => seed.to_owned(),
            BasicTokenLength::Basic156 => sha256_hex_digest(seed.as_bytes()),
        };
        let hex = to_ascii_uppercase(working.as_str());
        let signed = build_signed_text(hex.as_str(), client_id, client_secret);
        let tail = sha1_hex_digest(signed.as_str().as_bytes());
        let plain = build_plaintext(hex.as_str(), client_id, tail.as_str());
        let text = encode(plain.as_str().as_bytes());
        proof {
            if is_seed(seed@) {
                lemma_uppercase_hex(working@, working@);
                if has_no_nul(client_id@) {
                    lemma_plaintext_bytes(hex@, client_id@, tail@);
                }
            }
        }
        BasicToken(text)
    }

    /// Builds a token for the client from a seed that is drawn anew at each
    /// call: the token is the one that [`BasicToken::from_seed`] builds from
    /// some fresh seed. Which seed is not said, so two calls with the same
    /// arguments need not give the same token.
    pub fn new(client_id: &str, client_secret: &str, length: BasicTokenLength) -> (token:
        BasicToken)
        ensures
            exists|seed: Seq<char>|
                {
                    &&& #[trigger] is_fresh_seed(seed)
                    &&& has_hex_value(seed, length)
                    &&& has_hex_signature(seed, client_id@, client_secret@, length)
                    &&& token@ == token_text(seed, client_id@, client_secret@, length)
                },
            is_base64(token@),
            has_no_nul(client_id@) ==> token@.len() == token_len(length, utf8_len(client_id@)),
    {
        let seed = fresh_seed();
        BasicToken::from_seed(seed.as_str(), client_id, client_secret, length)
    }

    /// The token as the string that is sent.
    pub fn to_string(&self) -> (s: String)
        ensures
            s@ == self@,
    {
        self.0.clone()
    }
}

impl Default for BasicToken {
    /// A token for the default client, of the default length.
    fn default() -> (token: BasicToken)
        ensures
            exists|seed: Seq<char>|
                {
                    &&& #[trigger] is_fresh_seed(seed)
                    &&& has_hex_value(seed, BasicToken::DEFAULT_LENGTH)
                    &&& has_hex_signature(
                        seed,
                        BasicToken::CLIENT_ID@,
                        BasicToken::CLIENT_SECRET@,
                        BasicToken::DEFAULT_LENGTH,
                    )
                    &&& token@ == token_text(
                        seed,
                        BasicToken::CLIENT_ID@,
                        BasicToken::CLIENT_SECRET@,
                        BasicToken::DEFAULT_LENGTH,
                    )
                },
            is_base64(token@),
            token@.len() == BasicToken::DEFAULT_LENGTH.nominal_size(),
    {
        proof {
            lemma_default_client_id();
        }
        BasicToken::new(
            BasicToken::CLIENT_ID,
            BasicToken::CLIENT_SECRET,
            BasicToken::DEFAULT_LENGTH,
        )
    }
}

impl Clone for BasicToken {
    /// A copy that holds the same string.
    fn clone(&self) -> (copy: BasicToken)
        ensures
            copy == *self,
            copy@ == self@,
    {
        BasicToken(self.0.clone())
    }
}

impl PartialEq for BasicToken {
    /// Two tokens are equal when their strings are.
    fn eq(&self, other: &BasicToken) -> (equal: bool) {
        self.0 == other.0
    }
}

impl vstd::std_specs::cmp::PartialEqSpecImpl for BasicToken {
    open spec fn obeys_eq_spec() -> bool {
        true
    }

    open spec fn eq_spec(&self, other: &BasicToken) -> bool {
        self@ == other@
    }
}

impl From<String> for BasicToken {
    /// Takes a string that was obtained elsewhere as a token, as it is.
    fn from(token: String) -> (wrapped: BasicToken)
        ensures
            wrapped@ == token@,
    {
        BasicToken(token)
    }
}

impl vstd::std_specs::convert::FromSpecImpl<String> for BasicToken {
    open spec fn obeys_from_spec() -> bool {
        true
    }

    closed spec fn from_spec(token: String) -> BasicToken {
        BasicToken(token)
    }
}

impl From<BasicToken> for String {
    /// Gives the string of the token.
    fn from(token: BasicToken) -> (s: String)
        ensures
            s@ == token@,
    {
        token.0
    }
}

impl vstd::std_specs::convert::FromSpecImpl<BasicToken> for String {
    open spec fn obeys_from_spec() -> bool {
        true
    }

    closed spec fn from_spec(token: BasicToken) -> String {
        token.0
    }
}

impl<'a> From<&'a str> for BasicToken {
    /// Takes a string slice that was obtained elsewhere as a token, as it is.
    fn from(token: &'a str) -> (wrapped: BasicToken)
        ensures
            wrapped@ == token@,
    {
        BasicToken(token.to_owned())
    }
}

impl<'a> vstd::std_specs::convert::FromSpecImpl<&'a str> for BasicToken {
    /// A string is more than its characters to the verifier, so the token is
    /// described by its view, in the contract of `from`, and not here.
    open spec fn obeys_from_spec() -> bool {
        false
    }

    open spec fn from_spec(token: &'a str) -> BasicToken {
        arbitrary()
    }
}

/// The default client id is ten ASCII characters, none of them U+0000.
pub proof fn lemma_default_client_id()
    ensures
        has_no_nul(BasicToken::CLIENT_ID@),
        utf8_len(BasicToken::CLIENT_ID@) == 10,
{
    reveal_strlit("MsOIJ39Q28");
    let id = BasicToken::CLIENT_ID@;
    assert(id.len() == 10);
    assert(vstd::utf8::is_ascii_chars(id));
    vstd::utf8::is_ascii_chars_encode_utf8(id);
}

/// A string that is wrapped as a token and taken out again is the same
/// string, and a token that is taken apart and wrapped again is the same
/// token. Wrapping changes no character.
pub proof fn lemma_wrap_unwrap(s: String, token: BasicToken)
    ensures
        <String as vstd::std_specs::convert::FromSpec<BasicToken>>::from_spec(
            <BasicToken as vstd::std_specs::convert::FromSpec<String>>::from_spec(s),
        ) == s,
        <BasicToken as vstd::std_specs::convert::FromSpec<String>>::from_spec(
            <String as vstd::std_specs::convert::FromSpec<BasicToken>>::from_spec(token),
        ) == token,
        <BasicToken as vstd::std_specs::convert::FromSpec<String>>::from_spec(s)@ == s@,
        <String as vstd::std_specs::convert::FromSpec<BasicToken>>::from_spec(token)@ == token@,
{
}

/// The length of a token goes by the length class and the bytes of the
/// client id alone, and is a multiple of four. It is the nominal size of the
/// class for just three sizes of client id, and for both classes when the
/// client id takes nine or ten bytes, as the default one does.
pub proof fn lemma_token_len(length: BasicTokenLength, id_bytes: nat)
    ensures
        token_len(length, id_bytes) % 4 == 0,
        token_len(BasicTokenLength::Basic112, id_bytes) == 112 <==> 8 <= id_bytes <= 10,
        token_len(BasicTokenLength::Basic156, id_bytes) == 156 <==> 9 <= id_bytes <= 11,
        9 <= id_bytes <= 10 ==> token_len(length, id_bytes) == length.nominal_size(),
        token_len(length, utf8_len(BasicToken::CLIENT_ID@)) == length.nominal_size(),
{
    lemma_default_client_id();
}

/// Where the parts of a plaintext stand: the working value in upper case,
/// an underscore, the client id, a colon, and the signature to the end.
pub proof fn lemma_plaintext_layout(
    seed: Seq<char>,
    client_id: Seq<char>,
    client_secret: Seq<char>,
    length: BasicTokenLength,
)
    ensures
        ({
            let text = plaintext(seed, client_id, client_secret, length);
            let hex = upper_value(seed, length);
            let id_at: int = hex.len() as int + 1;
            let signature_at: int = id_at + client_id.len() + 1;
            &&& text.len() == signature_at + signature(hex, client_id, client_secret).len()
            &&& text.subrange(0, hex.len() as int) == hex
            &&& text[hex.len() as int] == '_'
            &&& text.subrange(id_at, id_at + client_id.len()) == client_id
            &&& text[signature_at - 1] == ':'
            &&& text.subrange(signature_at, text.len() as int) == signature(
                hex,
                client_id,
                client_secret,
            )
        }),
{
    let text = plaintext(seed, client_id, client_secret, length);
    let hex = upper_value(seed, length);
    let id_at: int = hex.len() as int + 1;
    let signature_at: int = id_at + client_id.len() + 1;
    assert(text.subrange(0, hex.len() as int) =~= hex);
    assert(text.subrange(id_at, id_at + client_id.len()) =~= client_id);
    assert(text.subrange(signature_at, text.len() as int) =~= signature(
        hex,
        client_id,
        client_secret,
    ));
}

/// Two short tokens for one client that are built from different seeds say
/// different things before they are encoded, as characters and as bytes.
pub proof fn lemma_short_plaintexts_differ(
    seed1: Seq<char>,
    seed2: Seq<char>,
    client_id: Seq<char>,
    client_secret: Seq<char>,
)
    requires
        is_seed(seed1),
        is_seed(seed2),
        seed1 != seed2,
    ensures
        plaintext(seed1, client_id, client_secret, BasicTokenLength::Basic112) != plaintext(
            seed2,
            client_id,
            client_secret,
            BasicTokenLength::Basic112,
        ),
        encode_utf8(plaintext(seed1, client_id, client_secret, BasicTokenLength::Basic112))
            != encode_utf8(
            plaintext(seed2, client_id, client_secret, BasicTokenLength::Basic112),
        ),
{
    let text1 = plaintext(seed1, client_id, client_secret, BasicTokenLength::Basic112);
    let text2 = plaintext(seed2, client_id, client_secret, BasicTokenLength::Basic112);
    lemma_uppercase_hex(seed1, seed2);
    lemma_plaintext_layout(seed1, client_id, client_secret, BasicTokenLength::Basic112);
    lemma_plaintext_layout(seed2, client_id, client_secret, BasicTokenLength::Basic112);
    vstd::utf8::encode_utf8_decode_utf8(text1);
    vstd::utf8::encode_utf8_decode_utf8(text2);
}

/// A plaintext made of hexadecimal digits around a client id without U+0000
/// is encoded without a zero byte, and takes one byte for each digit and
/// separator beside the bytes of the client id.
proof fn lemma_plaintext_bytes(hex: Seq<char>, client_id: Seq<char>, tail: Seq<char>)
    requires
        is_upper_hex(hex),
        has_no_nul(client_id),
        is_lower_hex(tail),
    ensures
        has_no_zero_byte(encode_utf8(prefix(hex, client_id) + tail)),
        utf8_len(prefix(hex, client_id) + tail) == hex.len() + 1 + utf8_len(client_id) + 1
            + tail.len(),
{
    let whole = prefix(hex, client_id) + tail;
    lemma_hex_is_plain(hex);
    lemma_hex_is_plain(tail);
    assert(has_no_nul(whole));
    lemma_no_nul_no_zero_byte(whole);
    lemma_encode_utf8_concat(prefix(hex, client_id), tail);
    lemma_encode_utf8_concat(hex + seq!['_'] + client_id, seq![':']);
    lemma_encode_utf8_concat(hex + seq!['_'], client_id);
    lemma_encode_utf8_concat(hex, seq!['_']);
    vstd::utf8::is_ascii_chars_encode_utf8(seq!['_']);
    vstd::utf8::is_ascii_chars_encode_utf8(seq![':']);
}

} // verus!
