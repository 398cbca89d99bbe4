//! The shared-access token a request proves possession of a key with.
//!
//! The token is `sr=<resource-uri>&sig=<signature>&se=<expiry>&skn=registration`:
//! the resource URI is the lowercased audience `{scope}/registrations/{id}`,
//! percent-encoded; the signature is the base64 of the keyed signature over
//! `"{resourceUri}\n{expirySeconds}"`; the expiry is in seconds. It is
//! recomputed for every request, never cached, since the expiry moves with
//! the clock.

use vstd::prelude::*;
use vstd::string::StrSliceExecFns;
use vstd::string::StringExecFns;

use crate::b64::b64_of;
use crate::b64::b64_encode;
use crate::encode::audience_encoded;
use crate::encode::dec_repr;
use crate::encode::form_encoded;
use crate::encode::form_urlencode;
use crate::encode::i64_to_decimal;
use crate::encode::lemma_audience_encoded_allowed;
use crate::encode::lemma_form_encoded_allowed;
use crate::encode::percent_encode_audience;
use crate::encode::token_byte_allowed;
use crate::error::Error;
use crate::error::ErrorKind;
use crate::error::SigningFailure;
use crate::strutil::ascii_lower;
use crate::strutil::ascii_to_string;
use crate::strutil::lower_of;
use crate::strutil::lowercase;
use vstd::utf8::encode_utf8;

verus! {

/// A handle on a signing secret, the capability a key store hands out.
///
/// The handle is cheap to duplicate; the secret itself stays wherever the
/// store keeps it. Nothing in this crate implements the trait: the
/// surrounding program brings the concrete keys, and what is proved about
/// tokens holds as far as such an implementation honours this contract.
pub trait SignKey: Sized {
    /// The raw secret this handle stands for.
    open spec fn material(&self) -> Seq<u8> {
        vstd::pervasive::arbitrary()
    }

    /// The signature this key family produces over `data` with a given
    /// secret; a fixed function of the two, so that signing is
    /// deterministic.
    open spec fn sig_of(material: Seq<u8>, data: Seq<u8>) -> Seq<u8> {
        vstd::pervasive::arbitrary()
    }

    /// Sign `data` with the secret behind this handle.
    fn sign(&self, data: &[u8]) -> (r: Result<Vec<u8>, SigningFailure>)
        ensures
            r matches Ok(s) ==> s@ == Self::sig_of(self.material(), data@),
    ;
}

/// The signature input: percent-encoded resource URI, a newline, the expiry
/// seconds in decimal.
pub open spec fn spec_sig_data(resource_uri: Seq<u8>, expiry: int) -> Seq<u8> {
    resource_uri + seq![10u8] + dec_repr(expiry)
}

/// The percent-encoded, lowercased audience of a token.
pub open spec fn spec_resource_uri(scope_id: Seq<char>, registration_id: Seq<char>) -> Seq<u8> {
    audience_encoded(
        encode_utf8(lower_of(scope_id + "/registrations/"@ + registration_id)),
    )
}

/// The finished token, as bytes.
pub open spec fn spec_token_bytes<K: SignKey>(
    material: Seq<u8>,
    scope_id: Seq<char>,
    registration_id: Seq<char>,
    expiry: int,
) -> Seq<u8> {
    let resource_uri = spec_resource_uri(scope_id, registration_id);
    let sig = K::sig_of(material, spec_sig_data(resource_uri, expiry));
    seq![115u8, 114u8, 61u8] + resource_uri + seq![38u8, 115u8, 105u8, 103u8, 61u8] + form_encoded(
        encode_utf8(b64_of(sig)),
    ) + seq![38u8, 115u8, 101u8, 61u8] + form_encoded(dec_repr(expiry)) + seq![
        38u8,
        115u8,
        107u8,
        110u8,
        61u8,
    ] + form_encoded(encode_utf8("registration"@))
}

/// The finished token, as the characters of the returned string.
pub open spec fn spec_token<K: SignKey>(
    material: Seq<u8>,
    scope_id: Seq<char>,
    registration_id: Seq<char>,
    expiry: int,
) -> Seq<char> {
    spec_token_bytes::<K>(material, scope_id, registration_id, expiry).map_values(
        |b: u8| b as char,
    )
}

/// Builds tokens for one registration identity from one key handle.
#[derive(Clone)]
pub struct DpsTokenSource<K: SignKey + Clone> {
    pub scope_id: String,
    pub registration_id: String,
    pub key: K,
}

impl<K: SignKey + Clone> DpsTokenSource<K> {
    pub fn new(scope_id: String, registration_id: String, key: K) -> (r: Self)
        ensures
            r.scope_id@ == scope_id@,
            r.registration_id@ == registration_id@,
            r.key == key,
    {
        DpsTokenSource { scope_id, registration_id, key }
    }

    /// The token for this identity, expiring at `expiry` seconds. The
    /// ghost result records the signer's outcome — `Some` with the
    /// signature it produced, `None` when it failed — and the contract
    /// pins the call to it: a token exactly when the signer signed. For
    /// identities made of ASCII characters the last clause spells out the
    /// lowercasing: the encoded audience is the audience with its capitals
    /// folded, encoded.
    pub fn get(&self, expiry: i64) -> (r: (Result<String, Error>, Ghost<Option<Seq<u8>>>))
        ensures
            match r.1@ {
                Some(sig) => sig == K::sig_of(
                    self.key.material(),
                    spec_sig_data(spec_resource_uri(self.scope_id@, self.registration_id@), expiry as int),
                ) && (r.0 matches Ok(t) && t@ == spec_token::<K>(
                    self.key.material(),
                    self.scope_id@,
                    self.registration_id@,
                    expiry as int,
                )),
                None => r.0 matches Err(e) && e@ is SigningError,
            },
            ((forall|i: int|
                0 <= i < self.scope_id@.len() ==> (#[trigger] self.scope_id@[i] as u32) < 128)
                && (forall|i: int|
                0 <= i < self.registration_id@.len() ==> (#[trigger] self.registration_id@[i] as u32)
                    < 128)) ==> spec_resource_uri(self.scope_id@, self.registration_id@)
                == audience_encoded(
                encode_utf8(
                    (self.scope_id@ + "/registrations/"@ + self.registration_id@).map_values(
                        |c: char| ascii_lower(c),
                    ),
                ),
            ),
    {
        let mut audience = String::new();
        audience.append(self.scope_id.as_str());
        audience.append("/registrations/");
        audience.append(self.registration_id.as_str());
        proof {
            assert(audience@ =~= self.scope_id@ + "/registrations/"@ + self.registration_id@);
        }
        let lowered = lowercase(audience.as_str());
        proof {
            let aud = self.scope_id@ + "/registrations/"@ + self.registration_id@;
            if (forall|i: int|
                0 <= i < self.scope_id@.len() ==> (#[trigger] self.scope_id@[i] as u32) < 128)
                && (forall|i: int|
                0 <= i < self.registration_id@.len() ==> (#[trigger] self.registration_id@[i] as u32)
                    < 128) {
                reveal_strlit("/registrations/");
                assert(forall|i: int|
                    0 <= i < "/registrations/"@.len() ==> (#[trigger] "/registrations/"@[i] as u32)
                        < 128);
                assert forall|i: int| 0 <= i < aud.len() implies (#[trigger] aud[i] as u32)
                    < 128 by {
                    if i < self.scope_id@.len() {
                        assert(aud[i] == self.scope_id@[i]);
                    } else if i < self.scope_id@.len() + "/registrations/"@.len() {
                        assert(aud[i] == "/registrations/"@[i - self.scope_id@.len()]);
                    } else {
                        assert(aud[i] == self.registration_id@[i - self.scope_id@.len()
                            - "/registrations/"@.len()]);
                    }
                }
                assert(lowered@ == aud.map_values(|c: char| ascii_lower(c)));
                assert(lower_of(aud) == aud.map_values(|c: char| ascii_lower(c)));
            }
        }
        let audience_bytes = lowered.as_str().as_bytes_vec();
        let resource_uri = percent_encode_audience(&audience_bytes);
        let expiry_bytes = i64_to_decimal(expiry);

        let mut sig_data: Vec<u8> = Vec::new();
        crate::strutil::extend_bytes(&mut sig_data, &resource_uri);
        sig_data.push(10);
        crate::strutil::extend_bytes(&mut sig_data, &expiry_bytes);
        proof {
            assert(sig_data@ =~= spec_sig_data(resource_uri@, expiry as int));
        }

        let signature = match self.key.sign(sig_data.as_slice()) {
            Ok(s) => s,
            Err(_) => {
                return (Err(Error::new(ErrorKind::SigningError)), Ghost(None));
            },
        };
        let ghost signed: Option<Seq<u8>> = Some(signature@);
        let signature_b64 = b64_encode(&signature);
        let signature_bytes = signature_b64.as_str().as_bytes_vec();
        let encoded_sig = form_urlencode(&signature_bytes);
        let encoded_expiry = form_urlencode(&expiry_bytes);
        let key_name_bytes = "registration".as_bytes_vec();
        let encoded_key_name = form_urlencode(&key_name_bytes);

        let mut token: Vec<u8> = Vec::new();
        token.push(115);
        token.push(114u8);
        token.push(61u8);
        crate::strutil::extend_bytes(&mut token, &resource_uri);
        token.push(38u8);
        token.push(115);
        token.push(105u8);
        token.push(103u8);
        token.push(61u8);
        crate::strutil::extend_bytes(&mut token, &encoded_sig);
        token.push(38u8);
        token.push(115);
        token.push(101u8);
        token.push(61u8);
        crate::strutil::extend_bytes(&mut token, &encoded_expiry);
        token.push(38u8);
        token.push(115);
        token.push(107u8);
        token.push(110u8);
        token.push(61u8);
        crate::strutil::extend_bytes(&mut token, &encoded_key_name);
        proof {
            assert(token@ =~= spec_token_bytes::<K>(
                self.key.material(),
                self.scope_id@,
                self.registration_id@,
                expiry as int,
            ));
            lemma_token_bytes_allowed::<K>(
                self.key.material(),
                self.scope_id@,
                self.registration_id@,
                expiry as int,
            );
            assert(forall|i: int| 0 <= i < token@.len() ==> token@[i] < 128) by {
                assert(forall|i: int|
                    0 <= i < token@.len() ==> token_byte_allowed(#[trigger] token@[i]));
            }
        }
        let token_string = ascii_to_string(token);
        proof {
            assert(token_string@ =~= spec_token::<K>(
                self.key.material(),
                self.scope_id@,
                self.registration_id@,
                expiry as int,
            ));
        }
        (Ok(token_string), Ghost(signed))
    }
}

/// The token opens with `sr=` followed exactly by the resource URI — the
/// percent-encoded, lowercased audience — before the first delimiter.
pub proof fn lemma_token_sr_component<K: SignKey>(
    material: Seq<u8>,
    scope_id: Seq<char>,
    registration_id: Seq<char>,
    expiry: int,
)
    ensures
        spec_token_bytes::<K>(material, scope_id, registration_id, expiry).take(
            3 + spec_resource_uri(scope_id, registration_id).len() as int,
        ) == seq![115u8, 114u8, 61u8] + spec_resource_uri(scope_id, registration_id),
{
    let t = spec_token_bytes::<K>(material, scope_id, registration_id, expiry);
    let prefix = seq![115u8, 114u8, 61u8] + spec_resource_uri(scope_id, registration_id);
    assert forall|i: int| 0 <= i < prefix.len() implies t[i] == prefix[i] by {}
    assert(t.take(prefix.len() as int) =~= prefix);
}

/// Token generation is deterministic: one key secret, identity and expiry
/// give one token, however often it is recomputed.
pub proof fn lemma_token_deterministic<K: SignKey>(
    material: Seq<u8>,
    scope_id: Seq<char>,
    registration_id: Seq<char>,
    expiry: int,
    t1: Seq<char>,
    t2: Seq<char>,
)
    requires
        t1 == spec_token::<K>(material, scope_id, registration_id, expiry),
        t2 == spec_token::<K>(material, scope_id, registration_id, expiry),
    ensures
        t1 == t2,
{
}

/// Every byte of a token is either one the audience encode set leaves
/// unescaped, a `%` opening an escape, or the `=` of a delimiter; in
/// particular the token is ASCII.
pub proof fn lemma_token_bytes_allowed<K: SignKey>(
    material: Seq<u8>,
    scope_id: Seq<char>,
    registration_id: Seq<char>,
    expiry: int,
)
    ensures
        forall|i: int|
            0 <= i < spec_token_bytes::<K>(material, scope_id, registration_id, expiry).len()
                ==> token_byte_allowed(
                #[trigger] spec_token_bytes::<K>(material, scope_id, registration_id, expiry)[i],
            ),
{
    let resource_uri = spec_resource_uri(scope_id, registration_id);
    let sig = K::sig_of(material, spec_sig_data(resource_uri, expiry));
    lemma_audience_encoded_allowed(encode_utf8(lower_of(scope_id + "/registrations/"@
        + registration_id)));
    lemma_form_encoded_allowed(encode_utf8(b64_of(sig)));
    lemma_form_encoded_allowed(dec_repr(expiry));
    lemma_form_encoded_allowed(encode_utf8("registration"@));
    let t = spec_token_bytes::<K>(material, scope_id, registration_id, expiry);
    let p1 = seq![115u8, 114u8, 61u8];
    let p2 = resource_uri;
    let p3 = seq![38u8, 115u8, 105u8, 103u8, 61u8];
    let p4 = form_encoded(encode_utf8(b64_of(sig)));
    let p5 = seq![38u8, 115u8, 101u8, 61u8];
    let p6 = form_encoded(dec_repr(expiry));
    let p7 = seq![38u8, 115u8, 107u8, 110u8, 61u8];
    let p8 = form_encoded(encode_utf8("registration"@));
    assert(forall|j: int| 0 <= j < p1.len() ==> token_byte_allowed(#[trigger] p1[j])) by {
        assert(token_byte_allowed(p1[0]));
        assert(token_byte_allowed(p1[1]));
        assert(token_byte_allowed(p1[2]));
    }
    assert(forall|j: int| 0 <= j < p3.len() ==> token_byte_allowed(#[trigger] p3[j])) by {
        assert(token_byte_allowed(p3[0]));
        assert(token_byte_allowed(p3[1]));
        assert(token_byte_allowed(p3[2]));
        assert(token_byte_allowed(p3[3]));
        assert(token_byte_allowed(p3[4]));
    }
    assert(forall|j: int| 0 <= j < p5.len() ==> token_byte_allowed(#[trigger] p5[j])) by {
        assert(token_byte_allowed(p5[0]));
        assert(token_byte_allowed(p5[1]));
        assert(token_byte_allowed(p5[2]));
        assert(token_byte_allowed(p5[3]));
    }
    assert(forall|j: int| 0 <= j < p7.len() ==> token_byte_allowed(#[trigger] p7[j])) by {
        assert(token_byte_allowed(p7[0]));
        assert(token_byte_allowed(p7[1]));
        assert(token_byte_allowed(p7[2]));
        assert(token_byte_allowed(p7[3]));
        assert(token_byte_allowed(p7[4]));
    }
    lemma_allowed_concat(p1, p2);
    lemma_allowed_concat(p1 + p2, p3);
    lemma_allowed_concat(p1 + p2 + p3, p4);
    lemma_allowed_concat(p1 + p2 + p3 + p4, p5);
    lemma_allowed_concat(p1 + p2 + p3 + p4 + p5, p6);
    lemma_allowed_concat(p1 + p2 + p3 + p4 + p5 + p6, p7);
    lemma_allowed_concat(p1 + p2 + p3 + p4 + p5 + p6 + p7, p8);
    assert(t == p1 + p2 + p3 + p4 + p5 + p6 + p7 + p8);
}

proof fn lemma_allowed_concat(a: Seq<u8>, b: Seq<u8>)
    requires
        forall|j: int| 0 <= j < a.len() ==> token_byte_allowed(#[trigger] a[j]),
        forall|j: int| 0 <= j < b.len() ==> token_byte_allowed(#[trigger] b[j]),
    ensures
        forall|j: int| 0 <= j < (a + b).len() ==> token_byte_allowed(#[trigger] (a + b)[j]),
{
    assert forall|j: int| 0 <= j < (a + b).len() implies token_byte_allowed(
        #[trigger] (a + b)[j],
    ) by {
        if j < a.len() {
            assert((a + b)[j] == a[j]);
        } else {
            assert((a + b)[j] == b[j - a.len()]);
        }
    }
}

} // verus!
